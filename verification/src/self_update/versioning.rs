//! Release tags: normalization to a `v` prefix and a semver-like ordering.
use vstd::prelude::*;

use crate::strings::{chars_of, lines, owned, split_char, split_on, string_from, trim, trim_str};

verus! {

broadcast use vstd::string::group_string_axioms;

/// The outcome of comparing two versions.
#[derive(Debug, Clone, Copy, PartialEq, Eq, Structural)]
pub enum VersionOrder {
    Less,
    Equal,
    Greater,
}

pub open spec fn flip(o: VersionOrder) -> VersionOrder {
    match o {
        VersionOrder::Less => VersionOrder::Greater,
        VersionOrder::Equal => VersionOrder::Equal,
        VersionOrder::Greater => VersionOrder::Less,
    }
}

/// A tag with exactly one leading `v`: the trimmed tag with a leading `v` or `V` replaced.
pub open spec fn normalized_tag(tag: Seq<char>) -> Seq<char> {
    let t = trim(tag);
    if t.len() > 0 && (t[0] == 'v' || t[0] == 'V') {
        seq!['v'] + t.drop_first()
    } else {
        seq!['v'] + t
    }
}

/// Normalizes a release tag to `v<version>`.
pub fn normalize_tag(tag: &str) -> (r: String)
    ensures
        r@ == normalized_tag(tag@),
{
    let t = trim_str(tag);
    let v = chars_of(t.as_str());
    let mut out = owned("v");
    proof {
        reveal_strlit("v");
    }
    if v.len() > 0 && (v[0] == 'v' || v[0] == 'V') {
        let rest = string_from(&v, 1, v.len());
        assert(v@.subrange(1, v@.len() as int) =~= v@.drop_first());
        out.append(rest.as_str());
    } else {
        out.append(t.as_str());
    }
    out
}

/// Normalizing twice changes nothing.
pub proof fn law_normalize_tag_idempotent(tag: Seq<char>)
    ensures
        normalized_tag(normalized_tag(tag)) == normalized_tag(tag),
{
    let n = normalized_tag(tag);
    let t = trim(tag);
    assert(crate::strings::trim_start(n) == n);
    let body = if t.len() > 0 && (t[0] == 'v' || t[0] == 'V') { t.drop_first() } else { t };
    assert(n =~= seq!['v'] + body);
    assert(n.len() > 0 && !crate::strings::is_ws(n.last()) ==> crate::strings::trim_end(n) == n);
    lemma_trim_end_of_trimmed(tag);
    assert(trim(n) == n);
    assert(n.drop_first() =~= body);
}

proof fn lemma_trim_end_of_trimmed(tag: Seq<char>)
    ensures
        ({
            let t = trim(tag);
            let n = normalized_tag(tag);
            crate::strings::trim_end(n) == n
        }),
{
    let t = trim(tag);
    let n = normalized_tag(tag);
    lemma_trim_end_fixed(crate::strings::trim_start(tag));
    let body = if t.len() > 0 && (t[0] == 'v' || t[0] == 'V') { t.drop_first() } else { t };
    assert(n =~= seq!['v'] + body);
    if body.len() == 0 {
        assert(n.last() == 'v');
    } else {
        assert(n.last() == body.last());
        assert(body.last() == t.last());
    }
    assert(!crate::strings::is_ws(n.last()));
}

proof fn lemma_trim_end_fixed(s: Seq<char>)
    ensures
        crate::strings::trim_end(s).len() == 0 || !crate::strings::is_ws(
            crate::strings::trim_end(s).last(),
        ),
    decreases s.len(),
{
    if s.len() > 0 && crate::strings::is_ws(s.last()) {
        lemma_trim_end_fixed(s.drop_last());
    }
}

pub open spec fn is_digit(c: char) -> bool {
    '0' <= c && c <= '9'
}

pub open spec fn all_digits(s: Seq<char>) -> bool {
    forall|i: int| 0 <= i < s.len() ==> is_digit(#[trigger] s[i])
}

/// The decimal value of a run of digits.
pub open spec fn decimal(s: Seq<char>) -> nat
    decreases s.len(),
{
    if s.len() == 0 {
        0
    } else {
        decimal(s.drop_last()) * 10 + ((s.last() as u32) - ('0' as u32)) as nat
    }
}

/// `str::parse::<u64>`: an optional `+`, then one or more digits whose value fits.
pub open spec fn parse_u64(s: Seq<char>) -> Option<u64> {
    let d = if s.len() > 0 && s[0] == '+' { s.drop_first() } else { s };
    if d.len() > 0 && all_digits(d) && decimal(d) <= u64::MAX {
        Some(decimal(d) as u64)
    } else {
        None
    }
}

proof fn lemma_decimal_prefix_grows(s: Seq<char>, k: int)
    requires
        0 <= k <= s.len(),
        all_digits(s),
    ensures
        decimal(s.take(k)) <= decimal(s),
    decreases s.len() - k,
{
    if k < s.len() {
        lemma_decimal_prefix_grows(s, k + 1);
        assert(s.take(k + 1).drop_last() =~= s.take(k));
        let a = decimal(s.take(k));
        let b = decimal(s.take(k + 1));
        assert(b >= a) by (nonlinear_arith)
            requires
                b == a * 10 + ((s.take(k + 1).last() as u32) - ('0' as u32)) as nat,
        ;
    } else {
        assert(s.take(k) =~= s);
    }
}

/// Reads a decimal number the way `str::parse::<u64>` does.
pub fn parse_u64_str(s: &str) -> (r: Option<u64>)
    ensures
        r == parse_u64(s@),
{
    let v = chars_of(s);
    let start: usize = if v.len() > 0 && v[0] == '+' { 1 } else { 0 };
    let ghost d = if s@.len() > 0 && s@[0] == '+' { s@.drop_first() } else { s@ };
    assert(v@.skip(start as int) =~= d);
    if start >= v.len() {
        return None;
    }
    let mut acc: u64 = 0;
    let mut i = start;
    while i < v.len()
        invariant
            v@ == s@,
            start <= i <= v@.len(),
            d == v@.skip(start as int),
            d == (if s@.len() > 0 && s@[0] == '+' { s@.drop_first() } else { s@ }),
            all_digits(d.take(i - start)),
            acc as nat == decimal(d.take(i - start)),
        decreases v.len() - i,
    {
        let c = v[i];
        assert(d.take(i - start + 1).drop_last() =~= d.take(i - start));
        assert(d.take(i - start + 1).last() == c);
        if !('0' <= c && c <= '9') {
            assert(d[i - start] == c);
            assert(!is_digit(d[i - start]));
            assert(!all_digits(d));
            assert(parse_u64(s@) is None);
            return None;
        }
        let digit = (c as u32) - ('0' as u32);
        assert(all_digits(d.take(i - start + 1))) by {
            assert forall|j: int| 0 <= j < d.take(i - start + 1).len() implies is_digit(
                #[trigger] d.take(i - start + 1)[j],
            ) by {
                if j < i - start {
                    assert(d.take(i - start + 1)[j] == d.take(i - start)[j]);
                }
            }
        }
        if acc > (u64::MAX - (digit as u64)) / 10 {
            proof {
                let big = decimal(d.take(i - start + 1));
                assert(big > u64::MAX) by (nonlinear_arith)
                    requires
                        big == acc * 10 + digit,
                        acc > (u64::MAX - digit) / 10,
                        digit <= 9,
                ;
                if all_digits(d) {
                    lemma_decimal_prefix_grows(d, i - start + 1);
                    assert(decimal(d) > u64::MAX);
                }
                assert(parse_u64(s@) is None);
            }
            return None;
        }
        proof {
            assert(acc * 10 + digit <= u64::MAX) by (nonlinear_arith)
                requires
                    acc <= (u64::MAX - digit) / 10,
                    digit <= 9,
            ;
        }
        acc = acc * 10 + (digit as u64);
        i = i + 1;
    }
    assert(d.take(i - start) =~= d);
    Some(acc)
}

/// A release version: numeric components and an optional pre-release suffix.
#[derive(Debug, Clone, PartialEq, Eq)]
pub struct ParsedVersion {
    pub numeric: Vec<u64>,
    pub pre_release: Option<String>,
}

/// The position of the first `-`, if any.
pub open spec fn first_dash(s: Seq<char>) -> Option<int> {
    if exists|i: int| 0 <= i < s.len() && s[i] == '-' {
        Some(choose|i: int| 0 <= i < s.len() && s[i] == '-' && forall|j: int| 0 <= j < i ==> s[j] != '-')
    } else {
        None
    }
}

/// Removes leading `v` and `V` characters in any mix (`trim_start_matches(['v', 'V'])`).
pub open spec fn trim_start_char_v(s: Seq<char>) -> Seq<char>
    decreases s.len(),
{
    if s.len() > 0 && (s[0] == 'v' || s[0] == 'V') {
        trim_start_char_v(s.drop_first())
    } else {
        s
    }
}

pub open spec fn numeric_parts(core: Seq<char>) -> Seq<u64> {
    split_char(core, '.').map_values(|p: Seq<char>| match parse_u64(p) {
        Some(n) => n,
        None => 0u64,
    })
}

/// The numbers and pre-release of a version text.
pub open spec fn semverish(value: Seq<char>) -> (Seq<u64>, Option<Seq<char>>) {
    let n = trim_start_char_v(trim(value));
    match first_dash(n) {
        Some(i) => (numeric_parts(n.take(i)), Some(n.skip(i + 1))),
        None => (numeric_parts(n), None),
    }
}

/// Parses `v1.2.3-rc.1`-style versions; a component that is not a number counts as 0.
pub fn parse_semverish(value: &str) -> (r: ParsedVersion)
    ensures
        r.numeric@ == semverish(value@).0,
        match r.pre_release {
            Some(p) => semverish(value@).1 == Some(p@),
            None => semverish(value@).1 is None,
        },
{
    let t = trim_str(value);
    let v = chars_of(t.as_str());
    let mut start: usize = 0;
    assert(v@.skip(0) =~= v@);
    while start < v.len() && (v[start] == 'v' || v[start] == 'V')
        invariant
            start <= v@.len(),
            trim_start_char_v(v@) == trim_start_char_v(v@.skip(start as int)),
        decreases v.len() - start,
    {
        assert(v@.skip(start as int).drop_first() =~= v@.skip(start + 1));
        start = start + 1;
    }
    assert(v@.skip(0) =~= v@);
    let ghost n = v@.skip(start as int);
    assert(trim_start_char_v(n) == n);
    let mut dash = start;
    while dash < v.len() && v[dash] != '-'
        invariant
            start <= dash <= v@.len(),
            forall|j: int| start <= j < dash ==> v@[j] != '-',
        decreases v.len() - dash,
    {
        dash = dash + 1;
    }
    let core = string_from(&v, start, dash);
    let pre = if dash < v.len() {
        proof {
            let k = dash - start;
            assert(n[k] == '-');
            assert(forall|j: int| 0 <= j < k ==> n[j] != '-');
            let c = choose|i: int| 0 <= i < n.len() && n[i] == '-' && forall|j: int| 0 <= j < i ==> n[j] != '-';
            assert(c == k) by {
                if c < k {
                    assert(n[c] != '-');
                } else if c > k {
                    assert(n[k] != '-');
                }
            }
            assert(core@ =~= n.take(k));
            assert(v@.subrange(dash + 1, v@.len() as int) =~= n.skip(k + 1));
        }
        Some(string_from(&v, dash + 1, v.len()))
    } else {
        assert(core@ =~= n);
        None
    };
    let parts = split_on(core.as_str(), '.');
    let mut numeric: Vec<u64> = Vec::new();
    let mut i: usize = 0;
    while i < parts.len()
        invariant
            i <= parts@.len(),
            lines(parts@) == split_char(core@, '.'),
            numeric@ == split_char(core@, '.').take(i as int).map_values(|p: Seq<char>| match parse_u64(p) {
                Some(n) => n,
                None => 0u64,
            }),
        decreases parts.len() - i,
    {
        let value = match parse_u64_str(parts[i].as_str()) {
            Some(x) => x,
            None => 0,
        };
        numeric.push(value);
        assert(split_char(core@, '.').take(i + 1) =~= split_char(core@, '.').take(i as int).push(split_char(core@, '.')[i as int]));
        assert(numeric@ =~= split_char(core@, '.').take(i + 1).map_values(|p: Seq<char>| match parse_u64(p) {
            Some(n) => n,
            None => 0u64,
        }));
        i = i + 1;
    }
    assert(split_char(core@, '.').take(parts@.len() as int) =~= split_char(core@, '.'));
    ParsedVersion { numeric, pre_release: pre }
}

/// The `i`-th number, 0 past the end.
pub open spec fn num_at(s: Seq<u64>, i: int) -> u64 {
    if 0 <= i < s.len() {
        s[i]
    } else {
        0
    }
}

pub open spec fn max_len(l: Seq<u64>, r: Seq<u64>) -> int {
    if l.len() >= r.len() {
        l.len() as int
    } else {
        r.len() as int
    }
}

/// The numbers compared position by position from `i`, missing ones as 0.
pub open spec fn numeric_order_from(l: Seq<u64>, r: Seq<u64>, i: int) -> VersionOrder
    decreases max_len(l, r) - i,
{
    if i >= max_len(l, r) {
        VersionOrder::Equal
    } else if num_at(l, i) < num_at(r, i) {
        VersionOrder::Less
    } else if num_at(l, i) > num_at(r, i) {
        VersionOrder::Greater
    } else {
        numeric_order_from(l, r, i + 1)
    }
}

/// Lexicographic order of texts by character (the order of `str` comparison).
pub open spec fn lex_order(a: Seq<char>, b: Seq<char>) -> VersionOrder
    decreases a.len(),
{
    if a.len() == 0 && b.len() == 0 {
        VersionOrder::Equal
    } else if a.len() == 0 {
        VersionOrder::Less
    } else if b.len() == 0 {
        VersionOrder::Greater
    } else if a[0] < b[0] {
        VersionOrder::Less
    } else if a[0] > b[0] {
        VersionOrder::Greater
    } else {
        lex_order(a.drop_first(), b.drop_first())
    }
}

/// Numbers first; then a release is above any pre-release, and pre-releases compare as text.
pub open spec fn semver_order(l: (Seq<u64>, Option<Seq<char>>), r: (Seq<u64>, Option<Seq<char>>)) -> VersionOrder {
    let n = numeric_order_from(l.0, r.0, 0);
    if n != VersionOrder::Equal {
        n
    } else {
        match (l.1, r.1) {
            (None, None) => VersionOrder::Equal,
            (None, Some(_)) => VersionOrder::Greater,
            (Some(_), None) => VersionOrder::Less,
            (Some(a), Some(b)) => lex_order(a, b),
        }
    }
}

/// The order of two release versions given as text.
pub open spec fn release_order(a: Seq<char>, b: Seq<char>) -> VersionOrder {
    semver_order(semverish(a), semverish(b))
}

/// Compares two texts character by character.
pub fn lex_compare(a: &str, b: &str) -> (r: VersionOrder)
    ensures
        r == lex_order(a@, b@),
{
    let x = chars_of(a);
    let y = chars_of(b);
    let mut i: usize = 0;
    assert(a@.skip(0) =~= a@);
    assert(b@.skip(0) =~= b@);
    while i < x.len() && i < y.len()
        invariant
            x@ == a@,
            y@ == b@,
            i <= x@.len(),
            i <= y@.len(),
            lex_order(a@, b@) == lex_order(a@.skip(i as int), b@.skip(i as int)),
        decreases x.len() - i,
    {
        let ghost ai = a@.skip(i as int);
        let ghost bi = b@.skip(i as int);
        assert(ai[0] == x@[i as int]);
        assert(bi[0] == y@[i as int]);
        if x[i] < y[i] {
            return VersionOrder::Less;
        }
        if x[i] > y[i] {
            return VersionOrder::Greater;
        }
        assert(ai.drop_first() =~= a@.skip(i + 1));
        assert(bi.drop_first() =~= b@.skip(i + 1));
        i = i + 1;
    }
    if i < x.len() {
        VersionOrder::Greater
    } else if i < y.len() {
        VersionOrder::Less
    } else {
        VersionOrder::Equal
    }
}

/// Compares two parsed versions.
pub fn compare_parsed(l: &ParsedVersion, r: &ParsedVersion) -> (o: VersionOrder)
    ensures
        o == semver_order(
            (l.numeric@, match l.pre_release { Some(p) => Some(p@), None => None }),
            (r.numeric@, match r.pre_release { Some(p) => Some(p@), None => None }),
        ),
{
    let ghost ln = l.numeric@;
    let ghost rn = r.numeric@;
    let n = if l.numeric.len() >= r.numeric.len() { l.numeric.len() } else { r.numeric.len() };
    let mut i: usize = 0;
    while i < n
        invariant
            n == max_len(ln, rn),
            ln == l.numeric@,
            rn == r.numeric@,
            i <= n,
            numeric_order_from(ln, rn, 0) == numeric_order_from(ln, rn, i as int),
        decreases n - i,
    {
        let a: u64 = if i < l.numeric.len() { l.numeric[i] } else { 0 };
        let b: u64 = if i < r.numeric.len() { r.numeric[i] } else { 0 };
        assert(a == num_at(ln, i as int));
        assert(b == num_at(rn, i as int));
        if a < b {
            return VersionOrder::Less;
        }
        if a > b {
            return VersionOrder::Greater;
        }
        i = i + 1;
    }
    match (&l.pre_release, &r.pre_release) {
        (None, None) => VersionOrder::Equal,
        (None, Some(_)) => VersionOrder::Greater,
        (Some(_), None) => VersionOrder::Less,
        (Some(a), Some(b)) => lex_compare(a.as_str(), b.as_str()),
    }
}

/// The order of two release versions (`v0.2.0` above `v0.1.99` and above `v0.2.0-rc.1`).
pub fn compare_versions(left: &str, right: &str) -> (o: VersionOrder)
    ensures
        o == release_order(left@, right@),
{
    let l = parse_semverish(left);
    let r = parse_semverish(right);
    compare_parsed(&l, &r)
}

proof fn lemma_numeric_flip(l: Seq<u64>, r: Seq<u64>, i: int)
    ensures
        numeric_order_from(l, r, i) == flip(numeric_order_from(r, l, i)),
    decreases max_len(l, r) - i,
{
    if i < max_len(l, r) {
        lemma_numeric_flip(l, r, i + 1);
    }
}

proof fn lemma_numeric_refl(l: Seq<u64>, i: int)
    ensures
        numeric_order_from(l, l, i) == VersionOrder::Equal,
    decreases max_len(l, l) - i,
{
    if i < max_len(l, l) {
        lemma_numeric_refl(l, i + 1);
    }
}

pub proof fn lemma_lex_flip(a: Seq<char>, b: Seq<char>)
    ensures
        lex_order(a, b) == flip(lex_order(b, a)),
    decreases a.len(),
{
    if a.len() > 0 && b.len() > 0 {
        lemma_lex_flip(a.drop_first(), b.drop_first());
    }
}

pub proof fn lemma_lex_refl(a: Seq<char>)
    ensures
        lex_order(a, a) == VersionOrder::Equal,
    decreases a.len(),
{
    if a.len() > 0 {
        lemma_lex_refl(a.drop_first());
    }
}

pub proof fn lemma_lex_equal(a: Seq<char>, b: Seq<char>)
    requires
        lex_order(a, b) == VersionOrder::Equal,
    ensures
        a == b,
    decreases a.len(),
{
    if a.len() > 0 && b.len() > 0 {
        lemma_lex_equal(a.drop_first(), b.drop_first());
        assert(a[0] == b[0]);
        assert(a =~= seq![a[0]] + a.drop_first());
        assert(b =~= seq![b[0]] + b.drop_first());
    }
}

/// Every version compares equal to itself.
pub proof fn law_release_order_reflexive(a: Seq<char>)
    ensures
        release_order(a, a) == VersionOrder::Equal,
{
    lemma_numeric_refl(semverish(a).0, 0);
    if let Some(p) = semverish(a).1 {
        lemma_lex_refl(p);
    }
}

/// Swapping the two versions reverses the outcome.
pub proof fn law_release_order_antisymmetric(a: Seq<char>, b: Seq<char>)
    ensures
        release_order(a, b) == flip(release_order(b, a)),
{
    lemma_numeric_flip(semverish(a).0, semverish(b).0, 0);
    match (semverish(a).1, semverish(b).1) {
        (Some(p), Some(q)) => lemma_lex_flip(p, q),
        _ => {},
    }
}

proof fn lemma_numeric_step(l: Seq<u64>, r: Seq<u64>, i: int)
    requires
        0 <= i,
    ensures
        numeric_order_from(l, r, i) == (if num_at(l, i) < num_at(r, i) {
            VersionOrder::Less
        } else if num_at(l, i) > num_at(r, i) {
            VersionOrder::Greater
        } else {
            numeric_order_from(l, r, i + 1)
        }),
{
}

proof fn lemma_numeric_trans(a: Seq<u64>, b: Seq<u64>, c: Seq<u64>, i: int)
    requires
        0 <= i,
        numeric_order_from(a, b, i) != VersionOrder::Greater,
        numeric_order_from(b, c, i) != VersionOrder::Greater,
    ensures
        numeric_order_from(a, c, i) != VersionOrder::Greater,
        numeric_order_from(a, b, i) == VersionOrder::Less || numeric_order_from(b, c, i) == VersionOrder::Less
            ==> numeric_order_from(a, c, i) == VersionOrder::Less,
        numeric_order_from(a, b, i) == VersionOrder::Equal && numeric_order_from(b, c, i) == VersionOrder::Equal
            ==> numeric_order_from(a, c, i) == VersionOrder::Equal,
    decreases max_len(a, b) + max_len(b, c) - i,
{
    if i < max_len(a, b) || i < max_len(b, c) || i < max_len(a, c) {
        lemma_numeric_step(a, b, i);
        lemma_numeric_step(b, c, i);
        lemma_numeric_step(a, c, i);
        if num_at(a, i) == num_at(b, i) && num_at(b, i) == num_at(c, i) {
            lemma_numeric_trans(a, b, c, i + 1);
        }
    }
}

/// How two optional pre-release texts compare: a release is above any pre-release.
pub open spec fn pre_order(l: Option<Seq<char>>, r: Option<Seq<char>>) -> VersionOrder {
    match (l, r) {
        (None, None) => VersionOrder::Equal,
        (None, Some(_)) => VersionOrder::Greater,
        (Some(_), None) => VersionOrder::Less,
        (Some(a), Some(b)) => lex_order(a, b),
    }
}

pub proof fn lemma_lex_trans(a: Seq<char>, b: Seq<char>, c: Seq<char>)
    requires
        lex_order(a, b) != VersionOrder::Greater,
        lex_order(b, c) != VersionOrder::Greater,
    ensures
        lex_order(a, c) != VersionOrder::Greater,
        lex_order(a, b) == VersionOrder::Less || lex_order(b, c) == VersionOrder::Less ==> lex_order(a, c) == VersionOrder::Less,
        lex_order(a, b) == VersionOrder::Equal && lex_order(b, c) == VersionOrder::Equal ==> lex_order(a, c) == VersionOrder::Equal,
    decreases a.len(),
{
    if a.len() > 0 && b.len() > 0 && c.len() > 0 && a[0] == b[0] && b[0] == c[0] {
        lemma_lex_trans(a.drop_first(), b.drop_first(), c.drop_first());
    }
}

proof fn lemma_pre_trans(a: Option<Seq<char>>, b: Option<Seq<char>>, c: Option<Seq<char>>)
    requires
        pre_order(a, b) != VersionOrder::Greater,
        pre_order(b, c) != VersionOrder::Greater,
    ensures
        pre_order(a, c) != VersionOrder::Greater,
        pre_order(a, b) == VersionOrder::Less || pre_order(b, c) == VersionOrder::Less ==> pre_order(a, c) == VersionOrder::Less,
        pre_order(a, b) == VersionOrder::Equal && pre_order(b, c) == VersionOrder::Equal ==> pre_order(a, c) == VersionOrder::Equal,
{
    if a is Some && b is Some && c is Some {
        lemma_lex_trans(a->0, b->0, c->0);
    }
}

/// The order of release versions is transitive: not above and not above gives not above,
/// strictly below on either side gives strictly below, and equal to equal gives equal.
pub proof fn law_release_order_transitive(a: Seq<char>, b: Seq<char>, c: Seq<char>)
    ensures
        release_order(a, b) != VersionOrder::Greater && release_order(b, c) != VersionOrder::Greater
            ==> release_order(a, c) != VersionOrder::Greater,
        release_order(a, b) == VersionOrder::Less && release_order(b, c) != VersionOrder::Greater
            ==> release_order(a, c) == VersionOrder::Less,
        release_order(a, b) != VersionOrder::Greater && release_order(b, c) == VersionOrder::Less
            ==> release_order(a, c) == VersionOrder::Less,
        release_order(a, b) == VersionOrder::Equal && release_order(b, c) == VersionOrder::Equal
            ==> release_order(a, c) == VersionOrder::Equal,
{
    let (na, pa) = semverish(a);
    let (nb, pb) = semverish(b);
    let (nc, pc) = semverish(c);
    assert(release_order(a, b) == (if numeric_order_from(na, nb, 0) != VersionOrder::Equal {
        numeric_order_from(na, nb, 0)
    } else {
        pre_order(pa, pb)
    }));
    assert(release_order(b, c) == (if numeric_order_from(nb, nc, 0) != VersionOrder::Equal {
        numeric_order_from(nb, nc, 0)
    } else {
        pre_order(pb, pc)
    }));
    assert(release_order(a, c) == (if numeric_order_from(na, nc, 0) != VersionOrder::Equal {
        numeric_order_from(na, nc, 0)
    } else {
        pre_order(pa, pc)
    }));
    if release_order(a, b) != VersionOrder::Greater && release_order(b, c) != VersionOrder::Greater {
        lemma_numeric_trans(na, nb, nc, 0);
        if numeric_order_from(na, nb, 0) == VersionOrder::Equal && numeric_order_from(nb, nc, 0) == VersionOrder::Equal {
            lemma_pre_trans(pa, pb, pc);
        }
    }
}

/// A leading `v` or `V` on a version text without surrounding whitespace is ignored.
pub proof fn law_release_order_ignores_leading_v(a: Seq<char>, b: Seq<char>)
    requires
        trim(a) == a,
    ensures
        release_order(seq!['v'] + a, b) == release_order(a, b),
        release_order(seq!['V'] + a, b) == release_order(a, b),
        release_order(b, seq!['v'] + a) == release_order(b, a),
        release_order(b, seq!['V'] + a) == release_order(b, a),
{
    lemma_trim_end_fixed(crate::strings::trim_start(a));
    lemma_leading_v_dropped(a, 'v');
    lemma_leading_v_dropped(a, 'V');
}

proof fn lemma_leading_v_dropped(a: Seq<char>, v: char)
    requires
        trim(a) == a,
        a.len() == 0 || !crate::strings::is_ws(a.last()),
        v == 'v' || v == 'V',
    ensures
        semverish(seq![v] + a) == semverish(a),
{
    let s = seq![v] + a;
    assert(s[0] == v);
    assert(crate::strings::trim_start(s) == s);
    if a.len() == 0 {
        assert(s.last() == v);
    } else {
        assert(s.last() == a.last());
    }
    assert(crate::strings::trim_end(s) == s);
    assert(trim(s) == s);
    assert(s.drop_first() =~= a);
    assert(trim_start_char_v(s) == trim_start_char_v(a));
}

proof fn lemma_zero_padding(l: Seq<u64>, k: nat, i: int)
    requires
        0 <= i,
    ensures
        numeric_order_from(l, l + Seq::new(k, |j: int| 0u64), i) == VersionOrder::Equal,
    decreases max_len(l, l + Seq::new(k, |j: int| 0u64)) - i,
{
    let r = l + Seq::new(k, |j: int| 0u64);
    if i < max_len(l, r) {
        assert(num_at(l, i) == num_at(r, i)) by {
            if i < l.len() {
                assert(r[i] == l[i]);
            } else if i < r.len() {
                assert(r[i] == 0u64);
            }
        }
        lemma_zero_padding(l, k, i + 1);
    }
}

/// Missing numeric parts count as 0: versions whose numbers differ only by trailing zeros
/// and whose pre-releases agree are equal (`1.2` and `1.2.0`).
pub proof fn law_release_order_trailing_zeros(a: Seq<char>, b: Seq<char>, k: nat)
    requires
        semverish(b).0 == semverish(a).0 + Seq::new(k, |j: int| 0u64),
        semverish(b).1 == semverish(a).1,
    ensures
        release_order(a, b) == VersionOrder::Equal,
        release_order(b, a) == VersionOrder::Equal,
{
    lemma_zero_padding(semverish(a).0, k, 0);
    if let Some(p) = semverish(a).1 {
        lemma_lex_refl(p);
    }
    law_release_order_antisymmetric(a, b);
}

/// A release outranks every pre-release of the same numbers (`1.0.0` above `1.0.0-rc.1`).
pub proof fn law_release_above_pre_release(a: Seq<char>, b: Seq<char>)
    requires
        semverish(a).0 == semverish(b).0,
        semverish(a).1 is None,
        semverish(b).1 is Some,
    ensures
        release_order(a, b) == VersionOrder::Greater,
        release_order(b, a) == VersionOrder::Less,
{
    lemma_numeric_refl(semverish(a).0, 0);
}

proof fn lemma_first_difference(l: Seq<u64>, r: Seq<u64>, k: int, i: int)
    requires
        0 <= k <= i,
        forall|j: int| k <= j < i ==> num_at(l, j) == num_at(r, j),
        num_at(l, i) > num_at(r, i),
    ensures
        numeric_order_from(l, r, k) == VersionOrder::Greater,
    decreases i - k,
{
    assert(i < l.len());
    if k < i {
        lemma_first_difference(l, r, k + 1, i);
    }
}

/// Versions compare by their first differing number: a larger number there makes the version
/// newer, whatever follows (`0.1.9` above `0.1.8`, `0.2.0` above `0.1.99`).
pub proof fn law_release_order_first_difference(a: Seq<char>, b: Seq<char>, i: int)
    requires
        0 <= i,
        forall|j: int| 0 <= j < i ==> num_at(semverish(a).0, j) == num_at(semverish(b).0, j),
        num_at(semverish(a).0, i) > num_at(semverish(b).0, i),
    ensures
        release_order(a, b) == VersionOrder::Greater,
        release_order(b, a) == VersionOrder::Less,
{
    lemma_first_difference(semverish(a).0, semverish(b).0, 0, i);
    law_release_order_antisymmetric(a, b);
}

} // verus!

//! Character-sequence toolkit shared by every module: the mathematical meaning of the
//! string operations the library performs (trimming, replacing, splitting, joining) and
//! executable versions proved against it.
use vstd::prelude::*;
use vstd::string::StringExecFns;

verus! {

broadcast use vstd::string::group_string_axioms;

/// The text of a `String` as a character sequence.
pub open spec fn sv(s: String) -> Seq<char> {
    s@
}

/// The character sequences held by a vector of strings.
pub open spec fn lines(v: Seq<String>) -> Seq<Seq<char>> {
    v.map_values(|s: String| s@)
}

/// Unicode `White_Space`, the set that `char::is_whitespace` and `str::trim` use.
pub open spec fn is_ws(c: char) -> bool {
    c == '\t' || c == '\n' || c == '\u{0B}' || c == '\u{0C}' || c == '\r' || c == ' '
        || c == '\u{85}' || c == '\u{A0}' || c == '\u{1680}' || ('\u{2000}' <= c
        && c <= '\u{200A}') || c == '\u{2028}' || c == '\u{2029}' || c == '\u{202F}'
        || c == '\u{205F}' || c == '\u{3000}'
}

pub open spec fn trim_start(s: Seq<char>) -> Seq<char>
    decreases s.len(),
{
    if s.len() > 0 && is_ws(s[0]) {
        trim_start(s.drop_first())
    } else {
        s
    }
}

pub open spec fn trim_end(s: Seq<char>) -> Seq<char>
    decreases s.len(),
{
    if s.len() > 0 && is_ws(s.last()) {
        trim_end(s.drop_last())
    } else {
        s
    }
}

/// `str::trim`.
pub open spec fn trim(s: Seq<char>) -> Seq<char> {
    trim_end(trim_start(s))
}

/// Removes every trailing occurrence of `c` (`trim_end_matches` with a char).
pub open spec fn trim_end_char(s: Seq<char>, c: char) -> Seq<char>
    decreases s.len(),
{
    if s.len() > 0 && s.last() == c {
        trim_end_char(s.drop_last(), c)
    } else {
        s
    }
}

/// Removes every leading occurrence of `c` (`trim_start_matches` with a char).
pub open spec fn trim_start_char(s: Seq<char>, c: char) -> Seq<char>
    decreases s.len(),
{
    if s.len() > 0 && s[0] == c {
        trim_start_char(s.drop_first(), c)
    } else {
        s
    }
}

/// Every occurrence of `from` replaced by `to` (`str::replace` with a char pattern).
pub open spec fn replace_char(s: Seq<char>, from: char, to: Seq<char>) -> Seq<char>
    decreases s.len(),
{
    if s.len() == 0 {
        seq![]
    } else {
        replace_char(s.drop_last(), from, to) + if s.last() == from {
            to
        } else {
            seq![s.last()]
        }
    }
}

/// ASCII lowercase of one character (`char::to_ascii_lowercase`).
pub open spec fn lower(c: char) -> char {
    if 'A' <= c && c <= 'Z' {
        ((c as u32) + 32) as char
    } else {
        c
    }
}

/// `str::to_ascii_lowercase`.
pub open spec fn lower_seq(s: Seq<char>) -> Seq<char> {
    s.map_values(|c: char| lower(c))
}

pub open spec fn starts_with(s: Seq<char>, p: Seq<char>) -> bool {
    p.len() <= s.len() && s.take(p.len() as int) == p
}

pub open spec fn ends_with(s: Seq<char>, p: Seq<char>) -> bool {
    p.len() <= s.len() && s.skip(s.len() - p.len()) == p
}

/// `s` holds `p` as a contiguous run starting at `i`.
pub open spec fn occurs_at(s: Seq<char>, p: Seq<char>, i: int) -> bool {
    0 <= i && i + p.len() <= s.len() && s.subrange(i, i + p.len()) == p
}

/// `str::contains` with a string pattern.
pub open spec fn contains_seq(s: Seq<char>, p: Seq<char>) -> bool {
    exists|i: int| occurs_at(s, p, i)
}

/// `str::split` on a character: the pieces between occurrences of `c`.
pub open spec fn split_char(s: Seq<char>, c: char) -> Seq<Seq<char>>
    decreases s.len(),
{
    if s.len() == 0 {
        seq![seq![]]
    } else {
        let r = split_char(s.drop_last(), c);
        if s.last() == c {
            r.push(seq![])
        } else {
            r.update(r.len() - 1, r.last().push(s.last()))
        }
    }
}

/// Pieces joined with `sep` between consecutive pieces (`slice::join`).
pub open spec fn join(parts: Seq<Seq<char>>, sep: Seq<char>) -> Seq<char>
    decreases parts.len(),
{
    if parts.len() == 0 {
        seq![]
    } else if parts.len() == 1 {
        parts[0]
    } else {
        join(parts.drop_last(), sep) + sep + parts.last()
    }
}

pub proof fn lemma_split_char_nonempty(s: Seq<char>, c: char)
    ensures
        split_char(s, c).len() >= 1,
    decreases s.len(),
{
    if s.len() > 0 {
        lemma_split_char_nonempty(s.drop_last(), c);
    }
}

/// Splitting a text without the separator gives the text itself.
pub proof fn lemma_split_no_sep(x: Seq<char>, c: char)
    requires
        forall|k: int| 0 <= k < x.len() ==> #[trigger] x[k] != c,
    ensures
        split_char(x, c) == seq![x],
    decreases x.len(),
{
    if x.len() > 0 {
        let y = x.drop_last();
        assert forall|k: int| 0 <= k < y.len() implies #[trigger] y[k] != c by {
            assert(y[k] == x[k]);
        }
        lemma_split_no_sep(y, c);
        assert(x.last() != c);
        assert(y.push(x.last()) =~= x);
        assert(split_char(x, c) == seq![y].update(0, y.push(x.last())));
        assert(seq![y].update(0, y.push(x.last())) =~= seq![x]);
    } else {
        assert(x =~= Seq::<char>::empty());
    }
}

/// Appending a piece without the separator extends the last part.
pub proof fn lemma_split_append_piece(s: Seq<char>, x: Seq<char>, c: char)
    requires
        forall|k: int| 0 <= k < x.len() ==> #[trigger] x[k] != c,
    ensures
        split_char(s + x, c) == split_char(s, c).update(split_char(s, c).len() - 1, split_char(s, c).last() + x),
    decreases x.len(),
{
    lemma_split_char_nonempty(s, c);
    if x.len() == 0 {
        assert(s + x =~= s);
        assert(split_char(s, c).last() + x =~= split_char(s, c).last());
        assert(split_char(s, c).update(split_char(s, c).len() - 1, split_char(s, c).last()) =~= split_char(s, c));
    } else {
        let y = x.drop_last();
        assert forall|k: int| 0 <= k < y.len() implies #[trigger] y[k] != c by {
            assert(y[k] == x[k]);
        }
        lemma_split_append_piece(s, y, c);
        assert((s + x).drop_last() =~= s + y);
        assert((s + x).last() == x.last());
        assert(x.last() != c);
        lemma_split_char_nonempty(s + y, c);
        let r = split_char(s, c);
        let r2 = split_char(s + y, c);
        assert(r2 == r.update(r.len() - 1, r.last() + y));
        assert(r2.len() == r.len());
        assert(r2.last() == r.last() + y);
        assert(split_char(s + x, c) == r2.update(r2.len() - 1, r2.last().push(x.last())));
        assert(r.last() + y + seq![x.last()] =~= r.last() + x);
        assert((r.last() + y).push(x.last()) =~= r.last() + x);
        assert(r2.update(r2.len() - 1, r2.last().push(x.last())) =~= r.update(r.len() - 1, r.last() + x));
    }
}

/// Parts without the separator, joined with it, split back into the same parts.
pub proof fn lemma_split_join(vs: Seq<Seq<char>>, c: char)
    requires
        vs.len() > 0,
        forall|i: int, k: int| 0 <= i < vs.len() && 0 <= k < vs[i].len() ==> #[trigger] vs[i][k] != c,
    ensures
        split_char(join(vs, seq![c]), c) == vs,
    decreases vs.len(),
{
    if vs.len() == 1 {
        lemma_split_no_sep(vs[0], c);
        assert(seq![vs[0]] =~= vs);
    } else {
        let w = vs.drop_last();
        let x = vs.last();
        assert forall|i: int, k: int| 0 <= i < w.len() && 0 <= k < w[i].len() implies #[trigger] w[i][k] != c by {
            assert(w[i] == vs[i]);
        }
        lemma_split_join(w, c);
        let head = join(w, seq![c]) + seq![c];
        assert(join(vs, seq![c]) == head + x);
        assert(head.drop_last() =~= join(w, seq![c]));
        assert(head.last() == c);
        assert(split_char(head, c) == w.push(seq![]));
        assert forall|k: int| 0 <= k < x.len() implies #[trigger] x[k] != c by {
            assert(x == vs[vs.len() - 1]);
        }
        lemma_split_append_piece(head, x, c);
        assert(w.push(seq![]).update(w.len() as int, Seq::<char>::empty() + x) =~= vs);
    }
}

/// Appends one character. Calls `String::push`, which std documents as appending the `char` to
/// the end of the string; the contract, taken on trust, says the text is the old one followed by
/// `c` and nothing else changed.
#[verifier::external_body]
pub(crate) fn push_char(s: &mut String, c: char)
    ensures
        final(s)@ == old(s)@.push(c),
{
    s.push(c);
}

/// A copy of `s`.
pub fn owned(s: &str) -> (r: String)
    ensures
        r@ == s@,
{
    s.to_string()
}

/// Concatenation of two texts.
pub fn cat(a: &str, b: &str) -> (r: String)
    ensures
        r@ == a@ + b@,
{
    let mut r = owned(a);
    r.append(b);
    r
}

/// Concatenation of three texts.
pub fn cat3(a: &str, b: &str, c: &str) -> (r: String)
    ensures
        r@ == a@ + b@ + c@,
{
    let mut r = owned(a);
    r.append(b);
    r.append(c);
    r
}

/// Concatenation of five texts.
pub fn cat5(a: &str, b: &str, c: &str, d: &str, e: &str) -> (r: String)
    ensures
        r@ == a@ + b@ + c@ + d@ + e@,
{
    let mut r = owned(a);
    r.append(b);
    r.append(c);
    r.append(d);
    r.append(e);
    r
}

/// The characters of `s` in order.
pub fn chars_of(s: &str) -> (r: Vec<char>)
    ensures
        r@ == s@,
{
    let mut out: Vec<char> = Vec::new();
    for c in it: s.chars()
        invariant
            it.seq() == s@,
            out@ == s@.take(it.index() as int),
    {
        out.push(c);
    }
    assert(s@.take(s@.len() as int) == s@);
    out
}

/// A string holding the characters `v[from..to]`.
pub fn string_from(v: &Vec<char>, from: usize, to: usize) -> (r: String)
    requires
        from <= to <= v@.len(),
    ensures
        r@ == v@.subrange(from as int, to as int),
{
    let mut out = String::new();
    let mut i = from;
    while i < to
        invariant
            from <= i <= to <= v@.len(),
            out@ == v@.subrange(from as int, i as int),
        decreases to - i,
    {
        push_char(&mut out, v[i]);
        assert(v@.subrange(from as int, i + 1) == v@.subrange(from as int, i as int).push(
            v@[i as int],
        ));
        i = i + 1;
    }
    out
}

/// Equality of two texts.
pub fn str_eq(a: &str, b: &str) -> (r: bool)
    ensures
        r == (a@ == b@),
{
    let x = chars_of(a);
    let y = chars_of(b);
    if x.len() != y.len() {
        return false;
    }
    let mut i: usize = 0;
    while i < x.len()
        invariant
            x@ == a@,
            y@ == b@,
            x@.len() == y@.len(),
            i <= x@.len(),
            forall|j: int| 0 <= j < i ==> x@[j] == y@[j],
        decreases x.len() - i,
    {
        if x[i] != y[i] {
            return false;
        }
        i = i + 1;
    }
    assert(x@ =~= y@);
    true
}

pub fn is_ws_char(c: char) -> (r: bool)
    ensures
        r == is_ws(c),
{
    c == '\t' || c == '\n' || c == '\u{0B}' || c == '\u{0C}' || c == '\r' || c == ' '
        || c == '\u{85}' || c == '\u{A0}' || c == '\u{1680}' || ('\u{2000}' <= c && c
        <= '\u{200A}') || c == '\u{2028}' || c == '\u{2029}' || c == '\u{202F}' || c
        == '\u{205F}' || c == '\u{3000}'
}

pub proof fn lemma_trim_start_skip(s: Seq<char>, i: int)
    requires
        0 <= i <= s.len(),
        forall|j: int| 0 <= j < i ==> is_ws(#[trigger] s[j]),
    ensures
        trim_start(s) == trim_start(s.skip(i)),
    decreases i,
{
    if i > 0 {
        assert(s.skip(1) == s.drop_first());
        lemma_trim_start_skip(s.drop_first(), i - 1);
        assert(s.drop_first().skip(i - 1) == s.skip(i));
    } else {
        assert(s.skip(0) == s);
    }
}

pub proof fn lemma_trim_end_take(s: Seq<char>, k: int)
    requires
        0 <= k <= s.len(),
        forall|j: int| k <= j < s.len() ==> is_ws(#[trigger] s[j]),
    ensures
        trim_end(s) == trim_end(s.take(k)),
    decreases s.len() - k,
{
    if k < s.len() {
        lemma_trim_end_take(s.drop_last(), k);
        assert(s.drop_last().take(k) == s.take(k));
    } else {
        assert(s.take(k) == s);
    }
}

/// `str::trim` as a vector range: the first and one-past-last kept positions.
pub fn trim_bounds(v: &Vec<char>) -> (r: (usize, usize))
    ensures
        r.0 <= r.1 <= v@.len(),
        v@.subrange(r.0 as int, r.1 as int) == trim(v@),
{
    let mut i: usize = 0;
    while i < v.len() && is_ws_char(v[i])
        invariant
            i <= v@.len(),
            forall|j: int| 0 <= j < i ==> is_ws(#[trigger] v@[j]),
        decreases v.len() - i,
    {
        i = i + 1;
    }
    proof {
        lemma_trim_start_skip(v@, i as int);
    }
    let ghost t = v@.skip(i as int);
    assert(t.len() == 0 || !is_ws(t[0]));
    let mut k: usize = v.len();
    while k > i && is_ws_char(v[k - 1])
        invariant
            i <= k <= v@.len(),
            forall|j: int| k <= j < v@.len() ==> is_ws(#[trigger] v@[j]),
        decreases k,
    {
        k = k - 1;
    }
    proof {
        assert(trim_start(t) == t);
        assert forall|j: int| k - i <= j < t.len() implies is_ws(#[trigger] t[j]) by {
            assert(t[j] == v@[j + i]);
        }
        lemma_trim_end_take(t, k - i);
        assert(t.take(k - i) =~= v@.subrange(i as int, k as int));
        let u = v@.subrange(i as int, k as int);
        assert(u.len() == 0 || !is_ws(u.last()));
    }
    (i, k)
}

/// `str::trim`.
pub fn trim_str(s: &str) -> (r: String)
    ensures
        r@ == trim(s@),
{
    let v = chars_of(s);
    let (a, b) = trim_bounds(&v);
    string_from(&v, a, b)
}

/// Pieces of `s` between whitespace characters (`str::split(char::is_whitespace)`).
pub open spec fn split_ws(s: Seq<char>) -> Seq<Seq<char>>
    decreases s.len(),
{
    if s.len() == 0 {
        seq![seq![]]
    } else {
        let r = split_ws(s.drop_last());
        if is_ws(s.last()) {
            r.push(seq![])
        } else {
            r.update(r.len() - 1, r.last().push(s.last()))
        }
    }
}

/// The non-empty pieces, in order.
pub open spec fn nonempty(parts: Seq<Seq<char>>) -> Seq<Seq<char>>
    decreases parts.len(),
{
    if parts.len() == 0 {
        seq![]
    } else if parts.last().len() > 0 {
        nonempty(parts.drop_last()).push(parts.last())
    } else {
        nonempty(parts.drop_last())
    }
}

/// `str::split_whitespace`.
pub open spec fn words(s: Seq<char>) -> Seq<Seq<char>> {
    nonempty(split_ws(s))
}

pub proof fn lemma_split_ws_nonempty(s: Seq<char>)
    ensures
        split_ws(s).len() >= 1,
    decreases s.len(),
{
    if s.len() > 0 {
        lemma_split_ws_nonempty(s.drop_last());
    }
}

/// The non-empty whitespace-separated words of `s`.
pub fn words_of(s: &str) -> (r: Vec<String>)
    ensures
        lines(r@) == words(s@),
{
    let mut parts: Vec<String> = Vec::new();
    let mut cur = String::new();
    proof {
        assert(s@.take(0) =~= Seq::<char>::empty());
    }
    for x in it: s.chars()
        invariant
            it.seq() == s@,
            split_ws(s@.take(it.index() as int)).len() >= 1,
            nonempty(split_ws(s@.take(it.index() as int)).drop_last()) == lines(parts@),
            split_ws(s@.take(it.index() as int)).last() == cur@,
    {
        let ghost pre = s@.take(it.index() as int);
        let ghost r = split_ws(pre);
        assert(s@.take(it.index() + 1).drop_last() == pre);
        assert(r =~= r.drop_last().push(r.last()));
        if is_ws_char(x) {
            let ghost old_parts = lines(parts@);
            if !cur.as_str().is_empty() {
                let done = cur;
                parts.push(done);
                assert(lines(parts@) =~= old_parts.push(r.last()));
            }
            cur = String::new();
            proof {
                assert(r.push(seq![]).drop_last() =~= r);
            }
        } else {
            push_char(&mut cur, x);
            proof {
                let r2 = r.update(r.len() - 1, r.last().push(x));
                assert(r2.drop_last() =~= r.drop_last());
            }
        }
    }
    let ghost fin = split_ws(s@);
    assert(s@.take(s@.len() as int) == s@);
    assert(fin =~= fin.drop_last().push(fin.last()));
    if !cur.as_str().is_empty() {
        parts.push(cur);
    }
    parts
}

/// The pieces of `str::lines`: split at `\n`, a `\r` before each `\n` dropped, and a
/// trailing empty piece left out.
pub open spec fn text_lines(s: Seq<char>) -> Seq<Seq<char>> {
    let parts = split_char(s, '\n');
    let body = parts.drop_last().map_values(|p: Seq<char>| strip_cr(p));
    if parts.last().len() == 0 {
        body
    } else {
        body.push(parts.last())
    }
}

/// A piece followed by `\n`, without a final `\r`.
pub open spec fn strip_cr(p: Seq<char>) -> Seq<char> {
    if p.len() > 0 && p.last() == '\r' {
        p.drop_last()
    } else {
        p
    }
}

/// `str::lines`.
pub fn text_lines_of(s: &str) -> (r: Vec<String>)
    ensures
        lines(r@) == text_lines(s@),
{
    let parts = split_on(s, '\n');
    proof {
        lemma_split_char_nonempty(s@, '\n');
    }
    let mut out: Vec<String> = Vec::new();
    let mut i: usize = 0;
    while i < parts.len() - 1
        invariant
            lines(parts@) == split_char(s@, '\n'),
            parts@.len() >= 1,
            i < parts@.len(),
            lines(out@) == lines(parts@).take(i as int).map_values(|p: Seq<char>| strip_cr(p)),
        decreases parts.len() - i,
    {
        let v = chars_of(parts[i].as_str());
        let piece = if v.len() > 0 && v[v.len() - 1] == '\r' {
            assert(v@.subrange(0, v@.len() - 1) =~= v@.drop_last());
            string_from(&v, 0, v.len() - 1)
        } else {
            assert(v@.subrange(0, v@.len() as int) =~= v@);
            string_from(&v, 0, v.len())
        };
        let ghost before = lines(out@);
        out.push(piece);
        assert(lines(out@) =~= before.push(strip_cr(lines(parts@)[i as int])));
        assert(lines(parts@).take(i + 1) =~= lines(parts@).take(i as int).push(lines(parts@)[i as int]));
        assert(lines(out@) =~= lines(parts@).take(i + 1).map_values(|p: Seq<char>| strip_cr(p)));
        i = i + 1;
    }
    assert(lines(parts@).take(i as int) =~= lines(parts@).drop_last());
    let last = parts.len() - 1;
    if !parts[last].as_str().is_empty() {
        let t = parts[last].clone();
        let ghost before = lines(out@);
        out.push(t);
        assert(lines(out@) =~= before.push(lines(parts@).last()));
    } else {
        assert(lines(parts@).last().len() == 0) by {
            assert(parts@[last as int]@.len() == 0) by {
                let v = parts@[last as int]@;
                if v.len() > 0 {
                }
            }
        }
    }
    out
}

/// The text up to the first whitespace character.
pub open spec fn first_token(s: Seq<char>) -> Seq<char>
    decreases s.len(),
{
    if s.len() == 0 || is_ws(s[0]) {
        seq![]
    } else {
        seq![s[0]] + first_token(s.drop_first())
    }
}

/// `s` without the prefix `p` when it starts with `p` (`strip_prefix(..).unwrap_or(s)`).
pub open spec fn strip_prefix_or_self(s: Seq<char>, p: Seq<char>) -> Seq<char> {
    if starts_with(s, p) {
        s.skip(p.len() as int)
    } else {
        s
    }
}

/// `s.strip_prefix(p).unwrap_or(s)`.
pub fn strip_prefix_str(s: &str, p: &str) -> (r: String)
    ensures
        r@ == strip_prefix_or_self(s@, p@),
{
    if starts_with_str(s, p) {
        let v = chars_of(s);
        let n = chars_of(p).len();
        let r = string_from(&v, n, v.len());
        assert(v@.subrange(n as int, v@.len() as int) =~= s@.skip(n as int));
        r
    } else {
        owned(s)
    }
}

/// Every leftmost non-overlapping occurrence of `p` replaced by `t` (`str::replace`).
pub open spec fn replace_seq(s: Seq<char>, p: Seq<char>, t: Seq<char>) -> Seq<char>
    decreases s.len(),
{
    if p.len() == 0 || s.len() == 0 {
        s
    } else if starts_with(s, p) {
        t + replace_seq(s.skip(p.len() as int), p, t)
    } else {
        seq![s[0]] + replace_seq(s.drop_first(), p, t)
    }
}

/// `str::replace` with a non-empty string pattern.
pub fn replace_str(s: &str, p: &str, t: &str) -> (r: String)
    requires
        p@.len() > 0,
    ensures
        r@ == replace_seq(s@, p@, t@),
{
    let v = chars_of(s);
    let pv = chars_of(p);
    let mut out = String::new();
    let mut i: usize = 0;
    assert(v@.skip(0) == v@);
    while i < v.len()
        invariant
            v@ == s@,
            pv@ == p@,
            p@.len() > 0,
            i <= v@.len(),
            out@ + replace_seq(v@.skip(i as int), p@, t@) == replace_seq(s@, p@, t@),
        decreases v.len() - i,
    {
        let ghost rest = v@.skip(i as int);
        if occurs_at_vec(&v, &pv, i) {
            assert(rest.take(p@.len() as int) =~= v@.subrange(i as int, i + p@.len()));
            assert(rest.skip(p@.len() as int) =~= v@.skip(i + p@.len()));
            out.append(t);
            i = i + pv.len();
        } else {
            assert(!starts_with(rest, p@)) by {
                if starts_with(rest, p@) {
                    assert(rest.take(p@.len() as int) =~= v@.subrange(i as int, i + p@.len()));
                }
            }
            assert(rest.drop_first() =~= v@.skip(i + 1));
            push_char(&mut out, v[i]);
            i = i + 1;
        }
    }
    assert(v@.skip(i as int).len() == 0);
    out
}

/// Every occurrence of `from` in `s` replaced by `to`.
pub fn replace_char_str(s: &str, from: char, to: &str) -> (r: String)
    ensures
        r@ == replace_char(s@, from, to@),
{
    let mut out = String::new();
    for c in it: s.chars()
        invariant
            it.seq() == s@,
            out@ == replace_char(s@.take(it.index() as int), from, to@),
    {
        assert(s@.take(it.index() + 1).drop_last() == s@.take(it.index() as int));
        if c == from {
            out.append(to);
        } else {
            push_char(&mut out, c);
        }
    }
    assert(s@.take(s@.len() as int) == s@);
    out
}

pub fn lower_char(c: char) -> (r: char)
    ensures
        r == lower(c),
{
    if 'A' <= c && c <= 'Z' {
        ((c as u8) + 32) as char
    } else {
        c
    }
}

/// `str::to_ascii_lowercase`.
pub fn lower_str(s: &str) -> (r: String)
    ensures
        r@ == lower_seq(s@),
{
    let mut out = String::new();
    for c in it: s.chars()
        invariant
            it.seq() == s@,
            out@ == lower_seq(s@.take(it.index() as int)),
    {
        assert(lower_seq(s@.take(it.index() + 1)) =~= lower_seq(s@.take(it.index() as int)).push(
            lower(c),
        ));
        push_char(&mut out, lower_char(c));
    }
    assert(s@.take(s@.len() as int) == s@);
    out
}

/// `str::eq_ignore_ascii_case`.
pub fn eq_ignore_case(a: &str, b: &str) -> (r: bool)
    ensures
        r == (lower_seq(a@) == lower_seq(b@)),
{
    let x = lower_str(a);
    let y = lower_str(b);
    str_eq(x.as_str(), y.as_str())
}

/// Whether `s` begins with `p`.
pub fn starts_with_str(s: &str, p: &str) -> (r: bool)
    ensures
        r == starts_with(s@, p@),
{
    let x = chars_of(s);
    let y = chars_of(p);
    if y.len() > x.len() {
        return false;
    }
    let mut i: usize = 0;
    while i < y.len()
        invariant
            x@ == s@,
            y@ == p@,
            y@.len() <= x@.len(),
            i <= y@.len(),
            forall|j: int| 0 <= j < i ==> x@[j] == y@[j],
        decreases y.len() - i,
    {
        if x[i] != y[i] {
            assert(s@.take(p@.len() as int)[i as int] != p@[i as int]);
            return false;
        }
        i = i + 1;
    }
    assert(s@.take(p@.len() as int) =~= p@);
    true
}

/// Whether `s` ends with `p`.
pub fn ends_with_str(s: &str, p: &str) -> (r: bool)
    ensures
        r == ends_with(s@, p@),
{
    let x = chars_of(s);
    let y = chars_of(p);
    if y.len() > x.len() {
        return false;
    }
    let off = x.len() - y.len();
    let mut i: usize = 0;
    while i < y.len()
        invariant
            x@ == s@,
            y@ == p@,
            off + y@.len() == x@.len(),
            x@.len() <= usize::MAX,
            i <= y@.len(),
            forall|j: int| 0 <= j < i ==> x@[off + j] == y@[j],
        decreases y.len() - i,
    {
        if x[off + i] != y[i] {
            assert(s@.skip(off as int)[i as int] != p@[i as int]);
            return false;
        }
        i = i + 1;
    }
    assert(s@.skip(off as int) =~= p@);
    true
}

/// Whether `p` occurs in `x` at position `i`.
pub fn occurs_at_vec(x: &Vec<char>, y: &Vec<char>, i: usize) -> (r: bool)
    ensures
        r == occurs_at(x@, y@, i as int),
{
    if i > x.len() || y.len() > x.len() - i {
        return false;
    }
    let mut k: usize = 0;
    while k < y.len()
        invariant
            i + y@.len() <= x@.len(),
            x@.len() <= usize::MAX,
            k <= y@.len(),
            forall|j: int| 0 <= j < k ==> x@[i + j] == y@[j],
        decreases y.len() - k,
    {
        if x[i + k] != y[k] {
            assert(x@.subrange(i as int, i + y@.len())[k as int] != y@[k as int]);
            return false;
        }
        k = k + 1;
    }
    assert(x@.subrange(i as int, i + y@.len()) =~= y@);
    true
}

/// Whether `p` occurs anywhere in `s` (`str::contains`).
pub fn contains_str(s: &str, p: &str) -> (r: bool)
    ensures
        r == contains_seq(s@, p@),
{
    let x = chars_of(s);
    let y = chars_of(p);
    let mut i: usize = 0;
    while i < x.len()
        invariant
            x@ == s@,
            y@ == p@,
            i <= x@.len(),
            forall|j: int| 0 <= j < i ==> !occurs_at(s@, p@, j),
        decreases x.len() - i,
    {
        if occurs_at_vec(&x, &y, i) {
            return true;
        }
        i = i + 1;
    }
    if occurs_at_vec(&x, &y, i) {
        return true;
    }
    assert forall|j: int| !occurs_at(s@, p@, j) by {
        if 0 <= j && j <= i {
        } else {
        }
    }
    false
}

/// The first position where `p` occurs in `s`.
pub open spec fn first_occurrence(s: Seq<char>, p: Seq<char>) -> Option<int> {
    if exists|i: int| occurs_at(s, p, i) {
        Some(choose|i: int| occurs_at(s, p, i) && forall|j: int| 0 <= j < i ==> !occurs_at(s, p, j))
    } else {
        None
    }
}

/// The first position where `y` occurs in `x`.
pub fn find_first(x: &Vec<char>, y: &Vec<char>) -> (r: Option<usize>)
    ensures
        match r {
            Some(i) => first_occurrence(x@, y@) == Some(i as int) && occurs_at(x@, y@, i as int),
            None => first_occurrence(x@, y@) is None,
        },
{
    let mut i: usize = 0;
    while i < x.len()
        invariant
            i <= x@.len(),
            forall|j: int| 0 <= j < i ==> !occurs_at(x@, y@, j),
        decreases x.len() - i,
    {
        if occurs_at_vec(x, y, i) {
            proof {
                let c = choose|k: int| occurs_at(x@, y@, k) && forall|j: int| 0 <= j < k ==> !occurs_at(x@, y@, j);
                assert(c == i) by {
                    if c < i {
                    } else if c > i {
                    }
                }
            }
            return Some(i);
        }
        i = i + 1;
    }
    if occurs_at_vec(x, y, i) {
        proof {
            let c = choose|k: int| occurs_at(x@, y@, k) && forall|j: int| 0 <= j < k ==> !occurs_at(x@, y@, j);
            assert(c == i) by {
                if c < i {
                } else if c > i {
                }
            }
        }
        return Some(i);
    }
    assert forall|j: int| !occurs_at(x@, y@, j) by {
        if 0 <= j && j <= i {
        }
    }
    None
}

/// Pieces of `s` between occurrences of `c` (`str::split` on a char).
pub fn split_on(s: &str, c: char) -> (r: Vec<String>)
    ensures
        lines(r@) == split_char(s@, c),
{
    let mut parts: Vec<String> = Vec::new();
    let mut cur = String::new();
    for x in it: s.chars()
        invariant
            it.seq() == s@,
            lines(parts@).push(cur@) == split_char(s@.take(it.index() as int), c),
    {
        let ghost pre = s@.take(it.index() as int);
        assert(s@.take(it.index() + 1).drop_last() == pre);
        proof {
            lemma_split_char_nonempty(pre, c);
        }
        if x == c {
            let done = cur;
            parts.push(done);
            cur = String::new();
            assert(lines(parts@).push(cur@) =~= split_char(pre, c).push(seq![]));
        } else {
            push_char(&mut cur, x);
            assert(lines(parts@).push(cur@) =~= split_char(pre, c).update(
                split_char(pre, c).len() - 1,
                split_char(pre, c).last().push(x),
            ));
        }
    }
    assert(s@.take(s@.len() as int) == s@);
    parts.push(cur);
    assert(lines(parts@) =~= split_char(s@, c));
    parts
}

/// Pieces joined with `sep` (`slice::join`).
pub fn join_strings(parts: &Vec<String>, sep: &str) -> (r: String)
    ensures
        r@ == join(lines(parts@), sep@),
{
    let mut out = String::new();
    let mut i: usize = 0;
    while i < parts.len()
        invariant
            i <= parts@.len(),
            out@ == join(lines(parts@).take(i as int), sep@),
        decreases parts.len() - i,
    {
        assert(lines(parts@).take(i + 1).drop_last() =~= lines(parts@).take(i as int));
        if i > 0 {
            out.append(sep);
        }
        out.append(parts[i].as_str());
        i = i + 1;
    }
    assert(lines(parts@).take(parts@.len() as int) =~= lines(parts@));
    out
}

/// The decimal digit for `d < 10`.
pub open spec fn digit_char(d: nat) -> char {
    seq!['0', '1', '2', '3', '4', '5', '6', '7', '8', '9'][d as int]
}

/// The decimal text of a number, without leading zeros.
pub open spec fn dec(n: nat) -> Seq<char>
    decreases n,
{
    if n < 10 {
        seq![digit_char(n)]
    } else {
        dec(n / 10).push(digit_char(n % 10))
    }
}

/// The decimal text of a number.
pub fn u64_text(n: u64) -> (r: String)
    ensures
        r@ == dec(n as nat),
    decreases n,
{
    let digits: [char; 10] = ['0', '1', '2', '3', '4', '5', '6', '7', '8', '9'];
    assert(digits@ =~= seq!['0', '1', '2', '3', '4', '5', '6', '7', '8', '9']);
    if n < 10 {
        let mut s = String::new();
        push_char(&mut s, digits[n as usize]);
        assert(s@ =~= seq![digit_char(n as nat)]);
        s
    } else {
        let mut s = u64_text(n / 10);
        push_char(&mut s, digits[(n % 10) as usize]);
        s
    }
}

/// The decimal text of a signed number, with a leading `-` when negative.
pub open spec fn signed_dec(n: int) -> Seq<char> {
    if n < 0 {
        seq!['-'] + dec((-n) as nat)
    } else {
        dec(n as nat)
    }
}

/// The decimal text of an `i32`.
pub fn i32_text(n: i32) -> (r: String)
    ensures
        r@ == signed_dec(n as int),
{
    if n < 0 {
        let m: u64 = (0 - (n as i64)) as u64;
        let t = u64_text(m);
        let mut s = String::new();
        push_char(&mut s, '-');
        s.append(t.as_str());
        assert(s@ =~= seq!['-'] + dec((-(n as int)) as nat));
        s
    } else {
        u64_text(n as u64)
    }
}

} // verus!

//! `PATH` for a command run through a shim: the runtime's directories first, then the inherited
//! entries, without empty entries, without the shims directory and without repeats.
use vstd::prelude::*;

use crate::context::AppContext;
use crate::strings::{
    chars_of, contains_str, join, lemma_split_join, lines, lower_seq, lower_str, owned, replace_char, replace_char_str,
    split_char, split_on, str_eq, eq_ignore_case,
};

verus! {

broadcast use vstd::string::group_string_axioms;

/// The pieces of a Windows `PATH`: split at `;` outside double quotes, quotes dropped
/// (parts so far, current part, inside quotes).
pub open spec fn win_split_state(s: Seq<char>) -> (Seq<Seq<char>>, Seq<char>, bool)
    decreases s.len(),
{
    if s.len() == 0 {
        (seq![], seq![], false)
    } else {
        let (ps, cur, q) = win_split_state(s.drop_last());
        let c = s.last();
        if c == '"' {
            (ps, cur, !q)
        } else if c == ';' && !q {
            (ps.push(cur), seq![], q)
        } else {
            (ps, cur.push(c), q)
        }
    }
}

/// `env::split_paths`: `:`-separated elsewhere, `;`-separated with quoting on Windows.
pub open spec fn split_paths(s: Seq<char>, windows: bool) -> Seq<Seq<char>> {
    if windows {
        let (ps, cur, _q) = win_split_state(s);
        ps.push(cur)
    } else {
        split_char(s, ':')
    }
}

/// One entry as `env::join_paths` writes it on Windows: quoted when it holds a `;`.
pub open spec fn win_entry(p: Seq<char>) -> Seq<char> {
    if p.contains(';') {
        seq!['"'] + p + seq!['"']
    } else {
        p
    }
}

/// `env::join_paths`: fails when an entry holds the separator (elsewhere) or a double quote
/// (on Windows).
pub open spec fn join_paths(ps: Seq<Seq<char>>, windows: bool) -> Option<Seq<char>> {
    if windows {
        if exists|i: int| 0 <= i < ps.len() && (#[trigger] ps[i]).contains('"') {
            None
        } else {
            Some(join(ps.map_values(|p: Seq<char>| win_entry(p)), seq![';']))
        }
    } else {
        if exists|i: int| 0 <= i < ps.len() && (#[trigger] ps[i]).contains(':') {
            None
        } else {
            Some(join(ps, seq![':']))
        }
    }
}

/// The pieces between `/` that are neither empty nor `.`.
pub open spec fn normal_parts(parts: Seq<Seq<char>>) -> Seq<Seq<char>>
    decreases parts.len(),
{
    if parts.len() == 0 {
        seq![]
    } else if parts.last().len() == 0 || parts.last() == "."@ {
        normal_parts(parts.drop_last())
    } else {
        normal_parts(parts.drop_last()).push(parts.last())
    }
}

/// The components of a POSIX path: rooted, starting at `.`, and the named parts.
pub open spec fn components(p: Seq<char>) -> (bool, bool, Seq<Seq<char>>) {
    let parts = split_char(p, '/');
    let rooted = p.len() > 0 && p[0] == '/';
    (rooted, !rooted && parts[0] == "."@, normal_parts(parts))
}

/// How two paths are compared: by text ignoring ASCII case and separator style on Windows,
/// by components elsewhere.
pub open spec fn same_path(a: Seq<char>, b: Seq<char>, windows: bool) -> bool {
    if windows {
        lower_seq(replace_char(a, '/', "\\"@)) == lower_seq(replace_char(b, '/', "\\"@))
    } else {
        components(a) == components(b)
    }
}

/// The key entries are told apart by: the lowercased text with `\` separators on Windows,
/// the text elsewhere.
pub open spec fn path_key(p: Seq<char>, windows: bool) -> Seq<char> {
    if windows {
        lower_seq(replace_char(p, '/', "\\"@))
    } else {
        p
    }
}

/// The entries kept, in order: not empty, not the shims directory, and not the key of an
/// entry kept before.
pub open spec fn kept_paths(ps: Seq<Seq<char>>, shims: Seq<char>, windows: bool) -> Seq<Seq<char>>
    decreases ps.len(),
{
    if ps.len() == 0 {
        seq![]
    } else {
        let r = kept_paths(ps.drop_last(), shims, windows);
        let x = ps.last();
        if x.len() > 0 && !same_path(x, shims, windows) && !(exists|k: int| 0 <= k < r.len() && path_key(#[trigger] r[k], windows) == path_key(x, windows)) {
            r.push(x)
        } else {
            r
        }
    }
}

/// The kept entries are never empty, never the shims directory, and never two with one key.
pub proof fn law_kept_paths_distinct(ps: Seq<Seq<char>>, shims: Seq<char>, windows: bool)
    ensures
        forall|k: int| 0 <= k < kept_paths(ps, shims, windows).len() ==> (#[trigger] kept_paths(ps, shims, windows)[k]).len() > 0
            && !same_path(kept_paths(ps, shims, windows)[k], shims, windows),
        forall|i: int, j: int| 0 <= i < j < kept_paths(ps, shims, windows).len() ==> path_key(#[trigger] kept_paths(ps, shims, windows)[i], windows)
            != path_key(#[trigger] kept_paths(ps, shims, windows)[j], windows),
    decreases ps.len(),
{
    if ps.len() > 0 {
        law_kept_paths_distinct(ps.drop_last(), shims, windows);
        let r = kept_paths(ps.drop_last(), shims, windows);
        let t = kept_paths(ps, shims, windows);
        if t.len() > r.len() {
            assert forall|i: int, j: int| 0 <= i < j < t.len() implies path_key(#[trigger] t[i], windows) != path_key(#[trigger] t[j], windows) by {
                if j < r.len() {
                    assert(t[i] == r[i] && t[j] == r[j]);
                } else {
                    assert(t[i] == r[i]);
                }
            }
            assert forall|k: int| 0 <= k < t.len() implies (#[trigger] t[k]).len() > 0 && !same_path(t[k], shims, windows) by {
                if k < r.len() {
                    assert(t[k] == r[k]);
                }
            }
        }
    }
}

/// The inherited `PATH` entries.
pub open spec fn inherited_paths(ctx: AppContext) -> Seq<Seq<char>> {
    match ctx.path_env {
        Some(v) => split_paths(v@, ctx.windows),
        None => seq![],
    }
}

/// The `PATH` a command runs with, if it can be written.
pub open spec fn adjusted_path_of(ctx: AppContext, prefix_dirs: Seq<Seq<char>>) -> Option<Seq<char>> {
    join_paths(kept_paths(prefix_dirs + inherited_paths(ctx), ctx.shims_dir_spec(), ctx.windows), ctx.windows)
}

/// Splits a `PATH` value into its entries.
pub fn split_path_value(s: &str, windows: bool) -> (r: Vec<String>)
    ensures
        lines(r@) == split_paths(s@, windows),
{
    if !windows {
        return split_on(s, ':');
    }
    let v = chars_of(s);
    let mut parts: Vec<String> = Vec::new();
    let mut cur: Vec<char> = Vec::new();
    let mut q = false;
    let mut i: usize = 0;
    assert(v@.take(0) =~= Seq::<char>::empty());
    assert(lines(parts@) =~= Seq::<Seq<char>>::empty());
    while i < v.len()
        invariant
            i <= v@.len(),
            v@ == s@,
            win_split_state(v@.take(i as int)) == (lines(parts@), cur@, q),
        decreases v.len() - i,
    {
        assert(v@.take(i + 1).drop_last() =~= v@.take(i as int));
        let c = v[i];
        if c == '"' {
            q = !q;
        } else if c == ';' && !q {
            let ghost before = lines(parts@);
            let piece = crate::strings::string_from(&cur, 0, cur.len());
            assert(piece@ =~= cur@);
            parts.push(piece);
            assert(lines(parts@) =~= before.push(cur@));
            cur = Vec::new();
            assert(cur@ =~= Seq::<char>::empty());
        } else {
            cur.push(c);
        }
        i = i + 1;
    }
    assert(v@.take(v@.len() as int) =~= v@);
    let ghost before = lines(parts@);
    let piece = crate::strings::string_from(&cur, 0, cur.len());
    assert(piece@ =~= cur@);
    parts.push(piece);
    assert(lines(parts@) =~= before.push(cur@));
    parts
}

fn has_char(s: &str, c: char) -> (r: bool)
    ensures
        r == s@.contains(c),
{
    let v = chars_of(s);
    let mut i: usize = 0;
    while i < v.len()
        invariant
            i <= v@.len(),
            v@ == s@,
            forall|j: int| 0 <= j < i ==> v@[j] != c,
        decreases v.len() - i,
    {
        if v[i] == c {
            return true;
        }
        i = i + 1;
    }
    false
}

/// Joins entries into a `PATH` value, or `None` when an entry cannot be written.
pub fn join_path_value(ps: &Vec<String>, windows: bool) -> (r: Option<String>)
    ensures
        match r {
            Some(v) => join_paths(lines(ps@), windows) == Some(v@),
            None => join_paths(lines(ps@), windows) is None,
        },
{
    let bad = if windows { '"' } else { ':' };
    let sep = if windows { ";" } else { ":" };
    let ghost entries = if windows { lines(ps@).map_values(|p: Seq<char>| win_entry(p)) } else { lines(ps@) };
    let mut out = String::new();
    let mut i: usize = 0;
    proof {
        reveal_strlit(";");
        reveal_strlit(":");
    }
    assert(out@ =~= join(entries.take(0), sep@));
    while i < ps.len()
        invariant
            i <= ps@.len(),
            bad == (if windows { '"' } else { ':' }),
            sep@ == (if windows { seq![';'] } else { seq![':'] }),
            entries == (if windows { lines(ps@).map_values(|p: Seq<char>| win_entry(p)) } else { lines(ps@) }),
            forall|j: int| 0 <= j < i ==> !(#[trigger] lines(ps@)[j]).contains(bad),
            out@ == join(entries.take(i as int), sep@),
        decreases ps.len() - i,
    {
        assert(lines(ps@)[i as int] == ps@[i as int]@);
        if has_char(ps[i].as_str(), bad) {
            return None;
        }
        let piece = if windows && has_char(ps[i].as_str(), ';') {
            let mut w = String::new();
            crate::strings::push_char(&mut w, '"');
            w.append(ps[i].as_str());
            crate::strings::push_char(&mut w, '"');
            w
        } else {
            owned(ps[i].as_str())
        };
        assert(piece@ =~= entries[i as int]);
        assert(entries.take(i + 1) =~= entries.take(i as int).push(entries[i as int]));
        if i > 0 {
            out.append(sep);
        }
        out.append(piece.as_str());
        proof {
            lemma_join_push(entries.take(i as int), entries[i as int], sep@);
        }
        i = i + 1;
    }
    assert(entries.take(ps@.len() as int) =~= entries);
    Some(out)
}

/// Appending a piece appends the separator (when there was a piece before) and the piece.
pub proof fn lemma_join_push(parts: Seq<Seq<char>>, x: Seq<char>, sep: Seq<char>)
    ensures
        join(parts.push(x), sep) == (if parts.len() == 0 { x } else { join(parts, sep) + sep + x }),
{
    assert(parts.push(x).drop_last() =~= parts);
}

pub(crate) fn normal_parts_of(p: &str) -> (r: (bool, bool, Vec<String>))
    ensures
        (r.0, r.1, lines(r.2@)) == components(p@),
{
    let parts = split_on(p, '/');
    let pv = chars_of(p);
    let rooted = pv.len() > 0 && pv[0] == '/';
    proof {
        reveal_strlit(".");
        crate::strings::lemma_split_char_nonempty(p@, '/');
    }
    assert(lines(parts@)[0] == parts@[0]@);
    let cur = !rooted && str_eq(parts[0].as_str(), ".");
    let mut kept: Vec<String> = Vec::new();
    let mut i: usize = 0;
    assert(lines(parts@).take(0) =~= Seq::<Seq<char>>::empty());
    while i < parts.len()
        invariant
            i <= parts@.len(),
            lines(kept@) == normal_parts(lines(parts@).take(i as int)),
        decreases parts.len() - i,
    {
        assert(lines(parts@).take(i + 1).drop_last() =~= lines(parts@).take(i as int));
        assert(lines(parts@).take(i + 1).last() == parts@[i as int]@);
        proof {
            reveal_strlit(".");
        }
        if !parts[i].as_str().is_empty() && !str_eq(parts[i].as_str(), ".") {
            let ghost before = lines(kept@);
            kept.push(owned(parts[i].as_str()));
            assert(lines(kept@) =~= before.push(parts@[i as int]@));
        }
        i = i + 1;
    }
    assert(lines(parts@).take(parts@.len() as int) =~= lines(parts@));
    (rooted, cur, kept)
}

fn same_lines(a: &Vec<String>, b: &Vec<String>) -> (r: bool)
    ensures
        r == (lines(a@) == lines(b@)),
{
    if a.len() != b.len() {
        assert(lines(a@).len() != lines(b@).len());
        return false;
    }
    let mut i: usize = 0;
    while i < a.len()
        invariant
            i <= a@.len(),
            a@.len() == b@.len(),
            forall|j: int| 0 <= j < i ==> lines(a@)[j] == lines(b@)[j],
        decreases a.len() - i,
    {
        if !str_eq(a[i].as_str(), b[i].as_str()) {
            assert(lines(a@)[i as int] != lines(b@)[i as int]);
            return false;
        }
        i = i + 1;
    }
    assert(lines(a@) =~= lines(b@));
    true
}

/// Whether two paths name the same place.
pub fn paths_equal(a: &str, b: &str, windows: bool) -> (r: bool)
    ensures
        r == same_path(a@, b@, windows),
{
    if windows {
        let x = replace_char_str(a, '/', "\\");
        let y = replace_char_str(b, '/', "\\");
        proof {
            reveal_strlit("\\");
        }
        eq_ignore_case(x.as_str(), y.as_str())
    } else {
        let (ra, ca, pa) = normal_parts_of(a);
        let (rb, cb, pb) = normal_parts_of(b);
        ra == rb && ca == cb && same_lines(&pa, &pb)
    }
}

/// The key an entry is told apart by.
pub fn path_key_of(p: &str, windows: bool) -> (r: String)
    ensures
        r@ == path_key(p@, windows),
{
    if windows {
        let x = replace_char_str(p, '/', "\\");
        proof {
            reveal_strlit("\\");
        }
        lower_str(x.as_str())
    } else {
        owned(p)
    }
}

/// The `PATH` for a command run through a shim: `prefix_dirs`, then the inherited entries,
/// dropping empty entries, the shims directory and repeated entries; `None` when the result
/// cannot be written as a `PATH` value.
pub fn adjusted_path(ctx: &AppContext, prefix_dirs: &Vec<String>) -> (r: Option<String>)
    ensures
        match r {
            Some(v) => adjusted_path_of(*ctx, lines(prefix_dirs@)) == Some(v@),
            None => adjusted_path_of(*ctx, lines(prefix_dirs@)) is None,
        },
{
    let shims = ctx.shims_dir();
    let mut all: Vec<String> = Vec::new();
    let mut i: usize = 0;
    while i < prefix_dirs.len()
        invariant
            i <= prefix_dirs@.len(),
            lines(all@) == lines(prefix_dirs@).take(i as int),
        decreases prefix_dirs.len() - i,
    {
        let ghost before = lines(all@);
        all.push(owned(prefix_dirs[i].as_str()));
        assert(lines(all@) =~= before.push(prefix_dirs@[i as int]@));
        assert(lines(prefix_dirs@).take(i + 1) =~= lines(prefix_dirs@).take(i as int).push(prefix_dirs@[i as int]@));
        i = i + 1;
    }
    assert(lines(prefix_dirs@).take(prefix_dirs@.len() as int) =~= lines(prefix_dirs@));
    let inherited = match &ctx.path_env {
        Some(v) => split_path_value(v.as_str(), ctx.windows),
        None => Vec::new(),
    };
    assert(lines(inherited@) == inherited_paths(*ctx));
    let mut j: usize = 0;
    let ghost head = lines(all@);
    while j < inherited.len()
        invariant
            j <= inherited@.len(),
            lines(all@) == head + lines(inherited@).take(j as int),
        decreases inherited.len() - j,
    {
        let ghost before = lines(all@);
        all.push(owned(inherited[j].as_str()));
        assert(lines(all@) =~= before.push(inherited@[j as int]@));
        assert(lines(inherited@).take(j + 1) =~= lines(inherited@).take(j as int).push(inherited@[j as int]@));
        assert(lines(all@) =~= head + lines(inherited@).take(j + 1));
        j = j + 1;
    }
    assert(lines(inherited@).take(inherited@.len() as int) =~= lines(inherited@));
    let ghost src = lines(all@);
    let mut kept: Vec<String> = Vec::new();
    let mut keys: Vec<String> = Vec::new();
    let mut k: usize = 0;
    assert(src.take(0) =~= Seq::<Seq<char>>::empty());
    while k < all.len()
        invariant
            k <= all@.len(),
            src == lines(all@),
            shims@ == ctx.shims_dir_spec(),
            lines(kept@) == kept_paths(src.take(k as int), shims@, ctx.windows),
            keys@.len() == kept@.len(),
            forall|q: int| 0 <= q < keys@.len() ==> keys@[q]@ == path_key(#[trigger] lines(kept@)[q], ctx.windows),
        decreases all.len() - k,
    {
        assert(src.take(k + 1).drop_last() =~= src.take(k as int));
        assert(src.take(k + 1).last() == all@[k as int]@);
        let x = all[k].as_str();
        let ghost r = lines(kept@);
        if !x.is_empty() && !paths_equal(x, shims.as_str(), ctx.windows) {
            let key = path_key_of(x, ctx.windows);
            let mut seen = false;
            let mut q: usize = 0;
            while q < keys.len()
                invariant
                    q <= keys@.len(),
                    keys@.len() == kept@.len(),
                    r == lines(kept@),
                    forall|w: int| 0 <= w < keys@.len() ==> keys@[w]@ == path_key(#[trigger] lines(kept@)[w], ctx.windows),
                    seen == exists|w: int| 0 <= w < q && path_key(#[trigger] r[w], ctx.windows) == key@,
                decreases keys.len() - q,
            {
                assert(keys@[q as int]@ == path_key(r[q as int], ctx.windows));
                if str_eq(keys[q].as_str(), key.as_str()) {
                    seen = true;
                }
                q = q + 1;
            }
            if !seen {
                kept.push(owned(x));
                keys.push(key);
                assert(lines(kept@) =~= r.push(x@));
                assert forall|w: int| 0 <= w < keys@.len() implies keys@[w]@ == path_key(#[trigger] lines(kept@)[w], ctx.windows) by {
                    if w < r.len() {
                        assert(lines(kept@)[w] == r[w]);
                    }
                }
            }
        }
        k = k + 1;
    }
    assert(src.take(all@.len() as int) =~= src);
    assert(src == lines(prefix_dirs@) + inherited_paths(*ctx));
    join_path_value(&kept, ctx.windows)
}

proof fn lemma_win_append_plain(s: Seq<char>, x: Seq<char>)
    requires
        !x.contains('"'),
        !win_split_state(s).2 ==> !x.contains(';'),
    ensures
        win_split_state(s + x) == (win_split_state(s).0, win_split_state(s).1 + x, win_split_state(s).2),
    decreases x.len(),
{
    if x.len() == 0 {
        assert(s + x =~= s);
        assert(win_split_state(s).1 + x =~= win_split_state(s).1);
    } else {
        let y = x.drop_last();
        assert(!y.contains('"')) by {
            if y.contains('"') {
                let k = choose|k: int| 0 <= k < y.len() && y[k] == '"';
                assert(x[k] == '"');
            }
        }
        assert(!win_split_state(s).2 ==> !y.contains(';')) by {
            if !win_split_state(s).2 && y.contains(';') {
                let k = choose|k: int| 0 <= k < y.len() && y[k] == ';';
                assert(x[k] == ';');
            }
        }
        lemma_win_append_plain(s, y);
        assert((s + x).drop_last() =~= s + y);
        assert((s + x).last() == x.last());
        assert(x.last() != '"') by {
            assert(x[x.len() - 1] == x.last());
        }
        assert(!win_split_state(s).2 ==> x.last() != ';') by {
            assert(x[x.len() - 1] == x.last());
        }
        assert(win_split_state(s).1 + y + seq![x.last()] =~= win_split_state(s).1 + x);
        assert((win_split_state(s).1 + y).push(x.last()) =~= win_split_state(s).1 + x);
    }
}

proof fn lemma_win_append_entry(s: Seq<char>, x: Seq<char>)
    requires
        !x.contains('"'),
        !win_split_state(s).2,
    ensures
        win_split_state(s + win_entry(x)) == (win_split_state(s).0, win_split_state(s).1 + x, false),
{
    if x.contains(';') {
        let open = s + seq!['"'];
        assert(open.drop_last() =~= s);
        assert(open.last() == '"');
        assert(win_split_state(open) == (win_split_state(s).0, win_split_state(s).1, true));
        lemma_win_append_plain(open, x);
        let body = open + x;
        let close = body + seq!['"'];
        assert(close.drop_last() =~= body);
        assert(close.last() == '"');
        assert(s + win_entry(x) =~= close);
    } else {
        lemma_win_append_plain(s, x);
    }
}

proof fn lemma_win_split_join(ps: Seq<Seq<char>>)
    requires
        ps.len() > 0,
        forall|i: int| 0 <= i < ps.len() ==> !(#[trigger] ps[i]).contains('"'),
    ensures
        win_split_state(join(ps.map_values(|p: Seq<char>| win_entry(p)), seq![';']))
            == (ps.drop_last(), ps.last(), false),
    decreases ps.len(),
{
    let es = ps.map_values(|p: Seq<char>| win_entry(p));
    assert(!ps.last().contains('"')) by {
        assert(ps[ps.len() - 1] == ps.last());
    }
    if ps.len() == 1 {
        assert(join(es, seq![';']) == es[0]);
        assert(Seq::<char>::empty() + win_entry(ps[0]) =~= win_entry(ps[0]));
        lemma_win_append_entry(Seq::<char>::empty(), ps[0]);
        assert(Seq::<char>::empty() + ps[0] =~= ps[0]);
        assert(ps.drop_last() =~= Seq::<Seq<char>>::empty());
    } else {
        let w = ps.drop_last();
        assert forall|i: int| 0 <= i < w.len() implies !(#[trigger] w[i]).contains('"') by {
            assert(w[i] == ps[i]);
        }
        lemma_win_split_join(w);
        let ew = w.map_values(|p: Seq<char>| win_entry(p));
        assert(es.drop_last() =~= ew);
        assert(es.last() == win_entry(ps.last()));
        let j = join(ew, seq![';']);
        assert(join(es, seq![';']) == j + seq![';'] + win_entry(ps.last()));
        let js = j + seq![';'];
        assert(js.drop_last() =~= j);
        assert(js.last() == ';');
        assert(win_split_state(js) == (w.drop_last().push(w.last()), Seq::<char>::empty(), false));
        assert(w.drop_last().push(w.last()) =~= w);
        lemma_win_append_entry(js, ps.last());
        assert(Seq::<char>::empty() + ps.last() =~= ps.last());
    }
}

/// What `join_paths` writes, `split_paths` reads back: a non-empty list of entries that can
/// be joined splits into exactly those entries.
pub proof fn law_split_join_paths(ps: Seq<Seq<char>>, windows: bool)
    requires
        ps.len() > 0,
        join_paths(ps, windows) is Some,
    ensures
        split_paths(join_paths(ps, windows)->0, windows) == ps,
{
    if windows {
        assert forall|i: int| 0 <= i < ps.len() implies !(#[trigger] ps[i]).contains('"') by {
            if ps[i].contains('"') {
                assert(join_paths(ps, windows) is None);
            }
        }
        lemma_win_split_join(ps);
        assert(ps.drop_last().push(ps.last()) =~= ps);
    } else {
        assert forall|i: int, k: int| 0 <= i < ps.len() && 0 <= k < ps[i].len() implies #[trigger] ps[i][k] != ':' by {
            if ps[i][k] == ':' {
                assert(ps[i].contains(':'));
                assert(join_paths(ps, windows) is None);
            }
        }
        lemma_split_join(ps, ':');
    }
}

/// Entries that are all kept stay exactly as given.
proof fn lemma_kept_all(d: Seq<Seq<char>>, shims: Seq<char>, windows: bool)
    requires
        forall|k: int| 0 <= k < d.len() ==> (#[trigger] d[k]).len() > 0 && !same_path(d[k], shims, windows),
        forall|i: int, j: int| 0 <= i < j < d.len() ==> path_key(#[trigger] d[i], windows) != path_key(#[trigger] d[j], windows),
    ensures
        kept_paths(d, shims, windows) == d,
    decreases d.len(),
{
    if d.len() > 0 {
        let e = d.drop_last();
        assert forall|k: int| 0 <= k < e.len() implies (#[trigger] e[k]).len() > 0 && !same_path(e[k], shims, windows) by {
            assert(e[k] == d[k]);
        }
        assert forall|i: int, j: int| 0 <= i < j < e.len() implies path_key(#[trigger] e[i], windows) != path_key(#[trigger] e[j], windows) by {
            assert(e[i] == d[i] && e[j] == d[j]);
        }
        lemma_kept_all(e, shims, windows);
        let x = d.last();
        assert(x == d[d.len() - 1]);
        assert(!(exists|k: int| 0 <= k < e.len() && path_key(#[trigger] e[k], windows) == path_key(x, windows))) by {
            assert forall|k: int| 0 <= k < e.len() implies path_key(#[trigger] e[k], windows) != path_key(x, windows) by {
                assert(e[k] == d[k]);
            }
        }
        assert(e.push(x) =~= d);
    }
}

/// Later entries never disturb the entries kept before them.
proof fn lemma_kept_prefix(d: Seq<Seq<char>>, rest: Seq<Seq<char>>, shims: Seq<char>, windows: bool)
    ensures
        kept_paths(d + rest, shims, windows).len() >= kept_paths(d, shims, windows).len(),
        kept_paths(d + rest, shims, windows).take(kept_paths(d, shims, windows).len() as int) == kept_paths(d, shims, windows),
    decreases rest.len(),
{
    let kd = kept_paths(d, shims, windows);
    if rest.len() == 0 {
        assert(d + rest =~= d);
        assert(kd.take(kd.len() as int) =~= kd);
    } else {
        assert((d + rest).drop_last() =~= d + rest.drop_last());
        lemma_kept_prefix(d, rest.drop_last(), shims, windows);
        let before = kept_paths(d + rest.drop_last(), shims, windows);
        let after = kept_paths(d + rest, shims, windows);
        if after.len() > before.len() {
            assert(after == before.push((d + rest).last()));
            assert(after.take(kd.len() as int) =~= before.take(kd.len() as int));
        }
    }
}

/// Every kept entry is one of the entries given.
proof fn lemma_kept_from(ps: Seq<Seq<char>>, shims: Seq<char>, windows: bool)
    ensures
        forall|k: int| 0 <= k < kept_paths(ps, shims, windows).len() ==> ps.contains(#[trigger] kept_paths(ps, shims, windows)[k]),
    decreases ps.len(),
{
    if ps.len() > 0 {
        lemma_kept_from(ps.drop_last(), shims, windows);
        let r = kept_paths(ps.drop_last(), shims, windows);
        let t = kept_paths(ps, shims, windows);
        assert forall|k: int| 0 <= k < t.len() implies ps.contains(#[trigger] t[k]) by {
            if k < r.len() {
                assert(t[k] == r[k]);
                let m = choose|m: int| 0 <= m < ps.drop_last().len() && ps.drop_last()[m] == r[k];
                assert(ps[m] == r[k]);
            } else {
                assert(t[k] == ps.last());
                assert(ps[ps.len() - 1] == ps.last());
            }
        }
    }
}

/// The pieces of a split never hold the separator.
proof fn lemma_split_pieces_free(s: Seq<char>, c: char)
    ensures
        forall|i: int, k: int| 0 <= i < split_char(s, c).len() && 0 <= k < split_char(s, c)[i].len() ==> #[trigger] split_char(s, c)[i][k] != c,
    decreases s.len(),
{
    if s.len() > 0 {
        lemma_split_pieces_free(s.drop_last(), c);
        crate::strings::lemma_split_char_nonempty(s.drop_last(), c);
    }
}

/// The adjusted `PATH` puts the runtime's directories first, in the order given, ahead of the
/// inherited entries: for directories that are non-empty, not the shims directory and pairwise
/// different, the entries of the result start with exactly those directories. Outside Windows
/// the `PATH` can always be written when none of them holds a `:`.
pub proof fn law_adjusted_path_prefix_first(ctx: AppContext, dirs: Seq<Seq<char>>)
    requires
        forall|k: int| 0 <= k < dirs.len() ==> (#[trigger] dirs[k]).len() > 0 && !same_path(dirs[k], ctx.shims_dir_spec(), ctx.windows),
        forall|i: int, j: int| 0 <= i < j < dirs.len() ==> path_key(#[trigger] dirs[i], ctx.windows) != path_key(#[trigger] dirs[j], ctx.windows),
    ensures
        kept_paths(dirs + inherited_paths(ctx), ctx.shims_dir_spec(), ctx.windows).len() >= dirs.len(),
        kept_paths(dirs + inherited_paths(ctx), ctx.shims_dir_spec(), ctx.windows).take(dirs.len() as int) == dirs,
        adjusted_path_of(ctx, dirs) matches Some(v) ==> split_paths(v, ctx.windows).len() >= dirs.len()
            && split_paths(v, ctx.windows).take(dirs.len() as int) == dirs,
        !ctx.windows && (forall|k: int| 0 <= k < dirs.len() ==> !(#[trigger] dirs[k]).contains(':')) ==> adjusted_path_of(ctx, dirs) is Some,
{
    let shims = ctx.shims_dir_spec();
    let w = ctx.windows;
    let all = dirs + inherited_paths(ctx);
    lemma_kept_all(dirs, shims, w);
    lemma_kept_prefix(dirs, inherited_paths(ctx), shims, w);
    let kept = kept_paths(all, shims, w);
    if dirs.len() > 0 && adjusted_path_of(ctx, dirs) is Some {
        law_split_join_paths(kept, w);
        assert(kept.len() > 0);
    }
    if dirs.len() == 0 {
        assert(kept.take(0) =~= dirs);
        match adjusted_path_of(ctx, dirs) {
            Some(v) => {
                crate::strings::lemma_split_char_nonempty(v, ':');
                assert(split_paths(v, w).take(0) =~= dirs);
            },
            None => {},
        }
    }
    if !w && (forall|k: int| 0 <= k < dirs.len() ==> !(#[trigger] dirs[k]).contains(':')) {
        lemma_kept_from(all, shims, w);
        match ctx.path_env {
            Some(p) => lemma_split_pieces_free(p@, ':'),
            None => {},
        }
        assert(!(exists|i: int| 0 <= i < kept.len() && (#[trigger] kept[i]).contains(':'))) by {
            assert forall|i: int| 0 <= i < kept.len() implies !(#[trigger] kept[i]).contains(':') by {
                assert(all.contains(kept[i]));
                let m = choose|m: int| 0 <= m < all.len() && all[m] == kept[i];
                if m < dirs.len() {
                    assert(all[m] == dirs[m]);
                } else {
                    let q = inherited_paths(ctx);
                    assert(all[m] == q[m - dirs.len()]);
                    assert forall|k: int| 0 <= k < kept[i].len() implies kept[i][k] != ':' by {
                        assert(q[m - dirs.len()][k] != ':');
                    }
                }
            }
        }
    }
}

} // verus!

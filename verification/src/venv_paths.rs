//! Managed-venv specs (`<runtime>/envs/<name>`) and where managed venvs live on disk.
use vstd::prelude::*;

use crate::context::{join_path, join_path_str, AppContext};
use crate::strings::{
    cat3, chars_of, find_first, first_occurrence, is_ws, occurs_at, replace_char, replace_char_str,
    string_from, trim, trim_end, trim_end_char, trim_start, trim_start_char, trim_str,
};

verus! {

broadcast use vstd::string::group_string_axioms;

/// `<root>/venvs`.
pub open spec fn venvs_root_spec(ctx: AppContext) -> Seq<char> {
    join_path(ctx.root@, "venvs"@)
}

/// `<root>/venvs/<base>/<name>`.
pub open spec fn venv_dir_spec(ctx: AppContext, base: Seq<char>, name: Seq<char>) -> Seq<char> {
    join_path(join_path(venvs_root_spec(ctx), base), name)
}

/// `<base>/envs/<name>`.
pub open spec fn venv_spec(base: Seq<char>, name: Seq<char>) -> Seq<char> {
    base + "/envs/"@ + name
}

/// `trim_matches('/')`.
pub open spec fn trim_slashes(s: Seq<char>) -> Seq<char> {
    trim_end_char(trim_start_char(s, '/'), '/')
}

/// Runtime and venv name of a spec: backslashes read as `/`, split at the first
/// `/envs/`, each side trimmed of whitespace and `/`; both must be non-empty.
pub open spec fn split_spec(spec: Seq<char>) -> Option<(Seq<char>, Seq<char>)> {
    let n = replace_char(spec, '\\', "/"@);
    match first_occurrence(n, "/envs/"@) {
        Some(i) => {
            let b = trim_slashes(trim(n.take(i)));
            let m = trim_slashes(trim(n.skip(i + 6)));
            if b.len() == 0 || m.len() == 0 {
                None
            } else {
                Some((b, m))
            }
        },
        None => None,
    }
}

/// `<root>/venvs`.
pub fn managed_venvs_root(ctx: &AppContext) -> (r: String)
    ensures
        r@ == venvs_root_spec(*ctx),
{
    join_path_str(ctx.root.as_str(), "venvs")
}

/// The spec of the venv `name` on runtime `base_version`.
pub fn managed_venv_spec(base_version: &str, name: &str) -> (r: String)
    ensures
        r@ == venv_spec(base_version@, name@),
{
    cat3(base_version, "/envs/", name)
}

/// `<root>/venvs/<base_version>/<name>`.
pub fn managed_venv_dir(ctx: &AppContext, base_version: &str, name: &str) -> (r: String)
    ensures
        r@ == venv_dir_spec(*ctx, base_version@, name@),
{
    let root = managed_venvs_root(ctx);
    let b = join_path_str(root.as_str(), base_version);
    join_path_str(b.as_str(), name)
}

fn trim_slashes_str(s: &str) -> (r: String)
    ensures
        r@ == trim_slashes(s@),
{
    let v = chars_of(s);
    let mut a: usize = 0;
    assert(v@.skip(0) =~= v@);
    while a < v.len() && v[a] == '/'
        invariant
            a <= v@.len(),
            trim_start_char(v@, '/') == trim_start_char(v@.skip(a as int), '/'),
        decreases v.len() - a,
    {
        assert(v@.skip(a as int).drop_first() =~= v@.skip(a + 1));
        a = a + 1;
    }
    let ghost t = v@.skip(a as int);
    assert(trim_start_char(t, '/') == t);
    let mut b: usize = v.len();
    assert(t.take(t.len() as int) =~= t);
    while b > a && v[b - 1] == '/'
        invariant
            a <= b <= v@.len(),
            t == v@.skip(a as int),
            trim_end_char(t, '/') == trim_end_char(t.take(b - a), '/'),
        decreases b,
    {
        assert(t.take(b - a).drop_last() =~= t.take(b - a - 1));
        b = b - 1;
    }
    assert(t.take(b - a) =~= v@.subrange(a as int, b as int));
    string_from(&v, a, b)
}

/// Runtime and venv name of a managed-venv spec such as `3.12.6/envs/demo`.
#[verifier::rlimit(40)]
pub fn split_managed_venv_spec(spec: &str) -> (r: Option<(String, String)>)
    ensures
        match r {
            Some((b, n)) => split_spec(spec@) == Some((b@, n@)),
            None => split_spec(spec@) is None,
        },
{
    proof {
        reveal_strlit("/envs/");
        reveal_strlit("/");
    }
    let normalized = replace_char_str(spec, '\\', "/");
    let v = chars_of(normalized.as_str());
    let pat = chars_of("/envs/");
    assert(pat@.len() == 6);
    match find_first(&v, &pat) {
        Some(i) => {
            let ghost n = v@;
            assert(i + 6 <= v.len());
            let base = string_from(&v, 0, i);
            let name = string_from(&v, i + 6, v.len());
            assert(base@ =~= n.take(i as int));
            assert(name@ =~= n.skip(i + 6));
            let tb = trim_str(base.as_str());
            let b = trim_slashes_str(tb.as_str());
            let tn = trim_str(name.as_str());
            let m = trim_slashes_str(tn.as_str());
            if b.as_str().is_empty() || m.as_str().is_empty() {
                None
            } else {
                Some((b, m))
            }
        },
        None => None,
    }
}

/// `<root>/venvs/<base>/<name>` for a spec that names a managed venv.
pub fn managed_venv_dir_from_spec(ctx: &AppContext, spec: &str) -> (r: Option<String>)
    ensures
        match r {
            Some(p) => split_spec(spec@) matches Some((b, n)) && p@ == venv_dir_spec(*ctx, b, n),
            None => split_spec(spec@) is None,
        },
{
    match split_managed_venv_spec(spec) {
        Some((b, n)) => Some(managed_venv_dir(ctx, b.as_str(), n.as_str())),
        None => None,
    }
}

/// A part of a spec that reads back as it is: not empty, no separator, no backslash, and no
/// whitespace at either end.
pub open spec fn clean_part(p: Seq<char>) -> bool {
    &&& p.len() > 0
    &&& forall|k: int| 0 <= k < p.len() ==> #[trigger] p[k] != '/' && p[k] != '\\'
    &&& !is_ws(p[0])
    &&& !is_ws(p.last())
}

proof fn lemma_replace_absent(s: Seq<char>, from: char, to: Seq<char>)
    requires
        forall|k: int| 0 <= k < s.len() ==> #[trigger] s[k] != from,
    ensures
        replace_char(s, from, to) == s,
    decreases s.len(),
{
    if s.len() > 0 {
        let y = s.drop_last();
        assert forall|k: int| 0 <= k < y.len() implies #[trigger] y[k] != from by {
            assert(y[k] == s[k]);
        }
        lemma_replace_absent(y, from, to);
        assert(y + seq![s.last()] =~= s);
    }
}

proof fn lemma_clean_trims(p: Seq<char>)
    requires
        clean_part(p),
    ensures
        trim_slashes(trim(p)) == p,
{
    assert(trim_start(p) == p);
    assert(trim_end(p) == p);
    assert(p[0] != '/');
    assert(p.last() != '/');
    assert(trim_start_char(p, '/') == p);
    assert(trim_end_char(p, '/') == p);
}

/// A spec built from a clean runtime and a clean venv name splits back into them.
pub proof fn law_venv_spec_round_trip(base: Seq<char>, name: Seq<char>)
    requires
        clean_part(base),
        clean_part(name),
    ensures
        split_spec(venv_spec(base, name)) == Some((base, name)),
{
    reveal_strlit("/envs/");
    reveal_strlit("/");
    let s = venv_spec(base, name);
    let pat = "/envs/"@;
    assert forall|k: int| 0 <= k < s.len() implies #[trigger] s[k] != '\\' by {
        if k < base.len() {
            assert(s[k] == base[k]);
        } else if k < base.len() + 6 {
            assert(s[k] == pat[k - base.len()]);
        } else {
            assert(s[k] == name[k - base.len() - 6]);
        }
    }
    lemma_replace_absent(s, '\\', "/"@);
    let b = base.len() as int;
    assert(s.subrange(b, b + 6) =~= pat);
    assert(occurs_at(s, pat, b));
    assert forall|j: int| 0 <= j < b implies !occurs_at(s, pat, j) by {
        assert(s[j] == base[j]);
        if occurs_at(s, pat, j) {
            assert(s.subrange(j, j + 6)[0] == pat[0]);
        }
    }
    let i = choose|i: int| occurs_at(s, pat, i) && forall|j: int| 0 <= j < i ==> !occurs_at(s, pat, j);
    assert(i == b) by {
        if i < b {
            assert(!occurs_at(s, pat, i));
        } else if i > b {
            assert(!occurs_at(s, pat, b));
        }
    }
    assert(first_occurrence(s, pat) == Some(b));
    assert(s.take(b) =~= base);
    assert(s.skip(b + 6) =~= name);
    lemma_clean_trims(base);
    lemma_clean_trims(name);
}

} // verus!

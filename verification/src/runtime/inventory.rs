//! The prefixes a runtime's executables are looked up in, and the managed venvs built on a
//! runtime.
use vstd::prelude::*;

use crate::context::{is_component, join_path, join_path_str, AppContext};
use crate::self_update::versioning::{lemma_lex_flip, lemma_lex_refl, lemma_lex_trans, lex_compare, lex_order, VersionOrder};
use crate::strings::{contains_seq, contains_str, lines, lower_seq, lower_str, str_eq};
use crate::venv_paths::{
    managed_venv_dir_from_spec, managed_venv_spec, managed_venvs_root, split_spec, venv_dir_spec,
    venv_spec, venvs_root_spec,
};
use crate::version::selection::{installed_dir, installed_version_dir};

verus! {

broadcast use vstd::string::group_string_axioms;

/// The directory of a runtime's base venv.
pub open spec fn base_venv_name() -> Seq<char> {
    ".pyenv-base-venv"@
}

/// The prefixes searched for a version's executables: none for `system`; the venv directory
/// for an existing managed venv; else the runtime directory, preceded by its base venv when
/// that is enabled and present.
pub open spec fn search_roots(ctx: AppContext, version: Seq<char>) -> Seq<Seq<char>> {
    if version == "system"@ {
        seq![]
    } else {
        let sv = split_spec(version);
        if sv is Some && ctx.fs.has_dir(venv_dir_spec(ctx, sv.unwrap().0, sv.unwrap().1)) {
            seq![venv_dir_spec(ctx, sv.unwrap().0, sv.unwrap().1)]
        } else {
            runtime_roots(ctx, version)
        }
    }
}

/// A runtime's own prefixes: its base venv when enabled and present, then its directory.
pub open spec fn runtime_roots(ctx: AppContext, version: Seq<char>) -> Seq<Seq<char>> {
    let vd = installed_dir(ctx, version);
    let bv = join_path(vd, base_venv_name());
    if ctx.config.auto_use_base_venv && ctx.fs.has_dir(bv) {
        seq![bv, vd]
    } else {
        seq![vd]
    }
}

/// The prefixes searched for a version's executables.
#[verifier::rlimit(30)]
pub fn managed_search_roots_for_version(ctx: &AppContext, version: &str) -> (r: Vec<String>)
    ensures
        lines(r@) == search_roots(*ctx, version@),
{
    proof {
        reveal_strlit("system");
    }
    let mut roots: Vec<String> = Vec::new();
    if str_eq(version, "system") {
        assert(lines(roots@) =~= search_roots(*ctx, version@));
        return roots;
    }
    match managed_venv_dir_from_spec(ctx, version) {
        Some(d) => {
            if ctx.fs.is_dir(d.as_str()) {
                roots.push(d);
                assert(lines(roots@) =~= search_roots(*ctx, version@));
                return roots;
            }
        },
        None => {},
    }
    let vd = installed_version_dir(ctx, version);
    if ctx.config.auto_use_base_venv {
        let bv = join_path_str(vd.as_str(), ".pyenv-base-venv");
        if ctx.fs.is_dir(bv.as_str()) {
            roots.push(bv);
        }
    }
    roots.push(vd);
    assert(lines(roots@) =~= runtime_roots(*ctx, version@));
    roots
}

/// `a` sorts no later than `b` when both are lowercased.
pub open spec fn ci_le(a: Seq<char>, b: Seq<char>) -> bool {
    lex_order(lower_seq(a), lower_seq(b)) != VersionOrder::Greater
}

/// Ascending by the lowercased spec.
pub open spec fn entries_sorted(s: Seq<(Seq<char>, Seq<char>)>) -> bool {
    forall|i: int, j: int| 0 <= i < j < s.len() ==> ci_le((#[trigger] s[i]).0, (#[trigger] s[j]).0)
}

/// The pairs as texts.
pub open spec fn pair_seqs(v: Seq<(String, String)>) -> Seq<(Seq<char>, Seq<char>)> {
    v.map_values(|p: (String, String)| (p.0@, p.1@))
}

pub proof fn lemma_ci_total(a: Seq<char>, b: Seq<char>, c: Seq<char>)
    ensures
        ci_le(a, a),
        !ci_le(a, b) ==> ci_le(b, a),
        ci_le(a, b) && ci_le(b, c) ==> ci_le(a, c),
{
    lemma_lex_refl(lower_seq(a));
    lemma_lex_flip(lower_seq(a), lower_seq(b));
    if ci_le(a, b) && ci_le(b, c) {
        lemma_lex_trans(lower_seq(a), lower_seq(b), lower_seq(c));
    }
}

fn insert_entry(v: &mut Vec<(String, String)>, x: (String, String))
    requires
        entries_sorted(pair_seqs(old(v)@)),
    ensures
        entries_sorted(pair_seqs(final(v)@)),
        pair_seqs(final(v)@).to_multiset() == pair_seqs(old(v)@).to_multiset().insert((x.0@, x.1@)),
{
    let xk = lower_str(x.0.as_str());
    let mut p: usize = 0;
    let mut stop = false;
    while p < v.len() && !stop
        invariant
            p <= v@.len(),
            v@ == old(v)@,
            xk@ == lower_seq(x.0@),
            forall|k: int| 0 <= k < p ==> ci_le((#[trigger] pair_seqs(v@)[k]).0, x.0@),
            stop ==> p < v@.len() && !ci_le(pair_seqs(v@)[p as int].0, x.0@),
        decreases v.len() - p + (if stop { 0int } else { 1int }),
    {
        let k = lower_str(v[p].0.as_str());
        if lex_compare(k.as_str(), xk.as_str()) == VersionOrder::Greater {
            stop = true;
        } else {
            p = p + 1;
        }
    }
    let ghost s = pair_seqs(v@);
    let ghost xs = (x.0@, x.1@);
    proof {
        if p < v@.len() {
            lemma_ci_total(s[p as int].0, x.0@, x.0@);
        }
    }
    v.insert(p, x);
    proof {
        let t = pair_seqs(v@);
        assert(t =~= s.insert(p as int, xs));
        vstd::seq_lib::to_multiset_insert(s, p as int, xs);
        assert forall|i: int, j: int| 0 <= i < j < t.len() implies ci_le((#[trigger] t[i]).0, (#[trigger] t[j]).0) by {
            if j < p {
            } else if i < p && j == p {
            } else if i < p {
                assert(t[j] == s[j - 1]);
                lemma_ci_total(t[i].0, xs.0, s[j - 1].0);
                if p < s.len() {
                    lemma_ci_total(xs.0, s[p as int].0, s[j - 1].0);
                }
                lemma_ci_total(t[i].0, s[p as int].0, s[j - 1].0);
            } else if i == p {
                assert(t[j] == s[j - 1]);
                lemma_ci_total(s[p as int].0, xs.0, xs.0);
                lemma_ci_total(xs.0, s[p as int].0, s[j - 1].0);
            } else {
                assert(t[i] == s[i - 1]);
                assert(t[j] == s[j - 1]);
            }
        }
    }
}

/// A managed venv directory `name` under `<root>/venvs/<base>`.
pub open spec fn base_child(ctx: AppContext, base: Seq<char>, n: Seq<char>) -> bool {
    is_component(n) && ctx.fs.has_dir(join_path(venvs_root_spec(ctx), base)) && ctx.fs.has_dir(
        join_path(join_path(venvs_root_spec(ctx), base), n),
    )
}

/// The (spec, directory) pair of the venv `n` on `base`.
pub open spec fn base_entry(ctx: AppContext, base: Seq<char>, n: Seq<char>) -> (Seq<char>, Seq<char>) {
    (venv_spec(base, n), join_path(join_path(venvs_root_spec(ctx), base), n))
}

/// The pair is that of a managed venv on `base`.
pub open spec fn entry_of(ctx: AppContext, base: Seq<char>, e: (Seq<char>, Seq<char>)) -> bool {
    exists|n: Seq<char>| base_child(ctx, base, n) && #[trigger] base_entry(ctx, base, n) == e
}

/// The managed venvs built on `base_version`, as (spec, directory) pairs sorted by spec
/// ignoring ASCII case.
pub fn managed_venv_entries_for_base(ctx: &AppContext, base_version: &str) -> (r: Vec<(String, String)>)
    ensures
        entries_sorted(pair_seqs(r@)),
        forall|k: int| 0 <= k < r@.len() ==> entry_of(*ctx, base_version@, #[trigger] pair_seqs(r@)[k]),
        forall|n: Seq<char>| #[trigger] base_child(*ctx, base_version@, n) ==> pair_seqs(r@).contains(base_entry(*ctx, base_version@, n)),
{
    let root = managed_venvs_root(ctx);
    let base_dir = join_path_str(root.as_str(), base_version);
    let mut out: Vec<(String, String)> = Vec::new();
    if !ctx.fs.is_dir(base_dir.as_str()) {
        return out;
    }
    let names = ctx.fs.child_dirs(base_dir.as_str());
    let ghost mut added: Seq<(Seq<char>, Seq<char>)> = seq![];
    assert(pair_seqs(out@) =~= added);
    let mut i: usize = 0;
    while i < names.len()
        invariant
            i <= names@.len(),
            base_dir@ == join_path(venvs_root_spec(*ctx), base_version@),
            ctx.fs.has_dir(base_dir@),
            forall|q: int| 0 <= q < names@.len() ==> is_component(#[trigger] names@[q]@) && ctx.fs.has_dir(join_path(base_dir@, names@[q]@)),
            entries_sorted(pair_seqs(out@)),
            pair_seqs(out@).to_multiset() == added.to_multiset(),
            added.len() == i,
            forall|q: int| #![trigger added[q]] 0 <= q < i ==> added[q] == (venv_spec(base_version@, names@[q]@), join_path(base_dir@, names@[q]@)),
        decreases names.len() - i,
    {
        let spec = managed_venv_spec(base_version, names[i].as_str());
        let path = join_path_str(base_dir.as_str(), names[i].as_str());
        let ghost e = (spec@, path@);
        insert_entry(&mut out, (spec, path));
        proof {
            let old_added = added;
            added = added.push(e);
            vstd::seq_lib::to_multiset_build(old_added, e);
            assert forall|q: int| #![trigger added[q]] 0 <= q < i + 1 implies added[q] == (venv_spec(base_version@, names@[q]@), join_path(base_dir@, names@[q]@)) by {
                if q < i {
                    assert(added[q] == old_added[q]);
                }
            }
        }
        i = i + 1;
    }
    proof {
        assert forall|k: int| 0 <= k < out@.len() implies entry_of(*ctx, base_version@, #[trigger] pair_seqs(out@)[k]) by {
            let e = pair_seqs(out@)[k];
            vstd::seq_lib::to_multiset_contains(pair_seqs(out@), e);
            vstd::seq_lib::to_multiset_contains(added, e);
            assert(pair_seqs(out@).contains(e));
            let q = choose|q: int| 0 <= q < added.len() && added[q] == e;
            assert(added[q] == e);
            assert(is_component(names@[q]@));
            assert(base_child(*ctx, base_version@, names@[q]@));
            assert(base_entry(*ctx, base_version@, names@[q]@) == e);
        }
        assert forall|n: Seq<char>| #[trigger] base_child(*ctx, base_version@, n) implies pair_seqs(out@).contains(base_entry(*ctx, base_version@, n)) by {
            let w = choose|w: int| 0 <= w < lines(names@).len() && lines(names@)[w] == n;
            assert(names@[w]@ == n);
            let e = added[w];
            assert(added.contains(e));
            vstd::seq_lib::to_multiset_contains(pair_seqs(out@), e);
            vstd::seq_lib::to_multiset_contains(added, e);
        }
    }
    out
}

/// The version names a managed venv itself.
pub open spec fn names_venv(version: Seq<char>) -> bool {
    contains_seq(version, "/envs/"@) || contains_seq(version, "\\envs\\"@)
}

/// `p` is inventoried for `version`: a search root, or, for a runtime, the directory of a
/// managed venv built on it.
pub open spec fn inventory_root(ctx: AppContext, version: Seq<char>, p: Seq<char>) -> bool {
    search_roots(ctx, version).contains(p) || (!names_venv(version) && exists|n: Seq<char>|
        #[trigger] base_child(ctx, version, n) && base_entry(ctx, version, n).1 == p)
}

/// The prefixes inventoried for a version: its search roots, then, for a runtime, the
/// directories of the managed venvs built on it.
pub fn inventory_roots_for_version(ctx: &AppContext, version: &str) -> (r: Vec<String>)
    ensures
        names_venv(version@) ==> lines(r@) == search_roots(*ctx, version@),
        !names_venv(version@) ==> lines(r@).take(search_roots(*ctx, version@).len() as int) == search_roots(*ctx, version@)
            && exists|es: Seq<(String, String)>| #[trigger] entries_sorted(pair_seqs(es))
                && lines(r@).skip(search_roots(*ctx, version@).len() as int) == pair_seqs(es).map_values(|p: (Seq<char>, Seq<char>)| p.1)
                && (forall|k: int| 0 <= k < es.len() ==> entry_of(*ctx, version@, #[trigger] pair_seqs(es)[k]))
                && (forall|n: Seq<char>| #[trigger] base_child(*ctx, version@, n) ==> pair_seqs(es).contains(base_entry(*ctx, version@, n))),
        forall|p: Seq<char>| #[trigger] lines(r@).contains(p) <==> inventory_root(*ctx, version@, p),
{
    let mut roots = managed_search_roots_for_version(ctx, version);
    if contains_str(version, "/envs/") || contains_str(version, "\\envs\\") {
        assert(forall|p: Seq<char>| #[trigger] lines(roots@).contains(p) <==> inventory_root(*ctx, version@, p));
        return roots;
    }
    let ghost sr = lines(roots@);
    let entries = managed_venv_entries_for_base(ctx, version);
    let mut i: usize = 0;
    while i < entries.len()
        invariant
            i <= entries@.len(),
            lines(roots@) == sr + pair_seqs(entries@).take(i as int).map_values(|p: (Seq<char>, Seq<char>)| p.1),
        decreases entries.len() - i,
    {
        let ghost before = lines(roots@);
        roots.push(entries[i].1.clone());
        assert(lines(roots@) =~= before.push(pair_seqs(entries@)[i as int].1));
        assert(pair_seqs(entries@).take(i + 1).map_values(|p: (Seq<char>, Seq<char>)| p.1) =~= pair_seqs(entries@).take(i as int).map_values(|p: (Seq<char>, Seq<char>)| p.1).push(pair_seqs(entries@)[i as int].1));
        i = i + 1;
    }
    proof {
        assert(pair_seqs(entries@).take(entries@.len() as int) =~= pair_seqs(entries@));
        assert(lines(roots@).take(sr.len() as int) =~= sr);
        assert(lines(roots@).skip(sr.len() as int) =~= pair_seqs(entries@).map_values(|p: (Seq<char>, Seq<char>)| p.1));
        assert(entries_sorted(pair_seqs(entries@)));
        let ps = pair_seqs(entries@);
        let all = lines(roots@);
        assert forall|p: Seq<char>| #[trigger] all.contains(p) <==> inventory_root(*ctx, version@, p) by {
            if all.contains(p) {
                let w = choose|w: int| 0 <= w < all.len() && all[w] == p;
                if w < sr.len() {
                    assert(sr[w] == p);
                } else {
                    let k = w - sr.len();
                    assert(all.skip(sr.len() as int)[k] == p);
                    assert(ps[k].1 == p);
                    assert(entry_of(*ctx, version@, ps[k]));
                    let n = choose|n: Seq<char>| base_child(*ctx, version@, n) && #[trigger] base_entry(*ctx, version@, n) == ps[k];
                    assert(base_child(*ctx, version@, n) && base_entry(*ctx, version@, n).1 == p);
                }
            }
            if inventory_root(*ctx, version@, p) {
                if sr.contains(p) {
                    let w = choose|w: int| 0 <= w < sr.len() && sr[w] == p;
                    assert(all[w] == p);
                } else {
                    let n = choose|n: Seq<char>| #[trigger] base_child(*ctx, version@, n) && base_entry(*ctx, version@, n).1 == p;
                    assert(ps.contains(base_entry(*ctx, version@, n)));
                    let k = choose|k: int| 0 <= k < ps.len() && ps[k] == base_entry(*ctx, version@, n);
                    assert(all.skip(sr.len() as int)[k] == p);
                    assert(all[sr.len() + k] == p);
                }
            }
        }
    }
    roots
}

} // verus!

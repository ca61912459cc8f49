//! The installed runtimes under `<root>/versions`: their names, the order in which version
//! names sort, and the newest installed runtime that matches a prefix such as `3.12`.
use vstd::prelude::*;

use crate::context::{is_component, join_path, AppContext};
use crate::self_update::versioning::{
    compare_versions, flip, law_release_order_transitive, lemma_lex_equal, lemma_lex_flip, lemma_lex_refl, lemma_lex_trans,
    lex_compare, lex_order, release_order, VersionOrder,
};
use crate::strings::{cat, lines, starts_with, starts_with_str, str_eq};

verus! {

broadcast use vstd::string::group_string_axioms;

/// The order of version names: by release order, and by text where that ties.
pub open spec fn name_order(a: Seq<char>, b: Seq<char>) -> VersionOrder {
    let r = release_order(a, b);
    if r != VersionOrder::Equal {
        r
    } else {
        lex_order(a, b)
    }
}

/// `a` sorts no later than `b`.
pub open spec fn name_le(a: Seq<char>, b: Seq<char>) -> bool {
    name_order(a, b) != VersionOrder::Greater
}

/// Ascending in name order.
pub open spec fn names_sorted(s: Seq<Seq<char>>) -> bool {
    forall|i: int, j: int| 0 <= i < j < s.len() ==> name_le(#[trigger] s[i], #[trigger] s[j])
}

/// Version names are totally ordered: each is equal to itself only, swapping the two
/// reverses the outcome, and the order is transitive.
pub proof fn law_name_order_total(a: Seq<char>, b: Seq<char>, c: Seq<char>)
    ensures
        name_order(a, a) == VersionOrder::Equal,
        name_order(a, b) == VersionOrder::Equal ==> a == b,
        name_order(a, b) == flip(name_order(b, a)),
        name_le(a, b) && name_le(b, c) ==> name_le(a, c),
{
    crate::self_update::versioning::law_release_order_reflexive(a);
    crate::self_update::versioning::law_release_order_antisymmetric(a, b);
    lemma_lex_refl(a);
    lemma_lex_flip(a, b);
    if name_order(a, b) == VersionOrder::Equal {
        lemma_lex_equal(a, b);
    }
    if name_le(a, b) && name_le(b, c) {
        crate::self_update::versioning::law_release_order_antisymmetric(b, c);
        crate::self_update::versioning::law_release_order_antisymmetric(a, c);
        law_release_order_transitive(a, b, c);
        if release_order(a, c) == VersionOrder::Equal {
            if release_order(a, b) == VersionOrder::Less {
                law_release_order_transitive(b, c, a);
            } else if release_order(b, c) == VersionOrder::Less {
                law_release_order_transitive(c, a, b);
            } else {
                lemma_lex_trans(a, b, c);
            }
        }
    }
}

/// Compares two version names.
pub fn compare_version_names(left: &str, right: &str) -> (r: VersionOrder)
    ensures
        r == name_order(left@, right@),
{
    let o = compare_versions(left, right);
    match o {
        VersionOrder::Equal => lex_compare(left, right),
        _ => o,
    }
}

/// Puts `x` into the sorted `v` after every name that sorts no later than it.
fn insert_sorted(v: &mut Vec<String>, x: String)
    requires
        names_sorted(lines(old(v)@)),
    ensures
        names_sorted(lines(final(v)@)),
        lines(final(v)@).to_multiset() == lines(old(v)@).to_multiset().insert(x@),
{
    let mut p: usize = 0;
    while p < v.len() && !(compare_version_names(v[p].as_str(), x.as_str()) == VersionOrder::Greater)
        invariant
            p <= v@.len(),
            v@ == old(v)@,
            forall|k: int| 0 <= k < p ==> name_le(#[trigger] lines(v@)[k], x@),
        decreases v.len() - p,
    {
        p = p + 1;
    }
    let ghost s = lines(v@);
    proof {
        if p < v@.len() {
            law_name_order_total(s[p as int], x@, x@);
        }
    }
    v.insert(p, x);
    proof {
        let t = lines(v@);
        assert(t =~= s.insert(p as int, x@));
        vstd::seq_lib::to_multiset_insert(s, p as int, x@);
        assert forall|i: int, j: int| 0 <= i < j < t.len() implies name_le(
            #[trigger] t[i],
            #[trigger] t[j],
        ) by {
            if j < p {
            } else if i < p && j == p {
            } else if i < p {
                assert(t[j] == s[j - 1]);
                law_name_order_total(t[i], x@, s[j - 1]);
                if p < s.len() {
                    law_name_order_total(x@, s[p as int], s[j - 1]);
                }
                law_name_order_total(t[i], s[p as int], s[j - 1]);
            } else if i == p {
                assert(t[j] == s[j - 1]);
                law_name_order_total(s[p as int], x@, x@);
                law_name_order_total(x@, s[p as int], s[j - 1]);
            } else {
                assert(t[i] == s[i - 1]);
                assert(t[j] == s[j - 1]);
            }
        }
    }
}

/// The names sorted ascending in name order.
pub fn sort_version_names(names: Vec<String>) -> (r: Vec<String>)
    ensures
        names_sorted(lines(r@)),
        lines(r@).to_multiset() == lines(names@).to_multiset(),
{
    let mut out: Vec<String> = Vec::new();
    let mut i: usize = 0;
    proof {
        assert(lines(out@) =~= lines(names@).take(0));
    }
    while i < names.len()
        invariant
            i <= names@.len(),
            names_sorted(lines(out@)),
            lines(out@).to_multiset() == lines(names@).take(i as int).to_multiset(),
        decreases names.len() - i,
    {
        let x = names[i].clone();
        insert_sorted(&mut out, x);
        proof {
            let s = lines(names@);
            assert(s.take(i + 1) =~= s.take(i as int).push(s[i as int]));
            vstd::seq_lib::to_multiset_build(s.take(i as int), s[i as int]);
        }
        i = i + 1;
    }
    assert(lines(names@).take(names@.len() as int) =~= lines(names@));
    out
}

/// A runtime directory `<root>/versions/<name>` exists.
pub open spec fn installed(ctx: AppContext, n: Seq<char>) -> bool {
    is_component(n) && ctx.fs.has_dir(join_path(ctx.versions_dir_spec(), n))
}

/// The name is the prefix itself or continues it at a `.` (`3.12` matches `3.12.6`).
pub open spec fn prefix_match(n: Seq<char>, prefix: Seq<char>) -> bool {
    n == prefix || starts_with(n, prefix + "."@)
}

/// An installed runtime matching `prefix` that no other matching one sorts after.
pub open spec fn is_latest(ctx: AppContext, prefix: Seq<char>, n: Seq<char>) -> bool {
    &&& installed(ctx, n)
    &&& prefix_match(n, prefix)
    &&& forall|m: Seq<char>| installed(ctx, m) && prefix_match(m, prefix) ==> name_le(m, n)
}

/// The newest installed runtime matching `prefix`, if any matches.
pub open spec fn latest_installed(ctx: AppContext, prefix: Seq<char>) -> Option<Seq<char>> {
    if exists|n: Seq<char>| installed(ctx, n) && prefix_match(n, prefix) {
        Some(choose|n: Seq<char>| is_latest(ctx, prefix, n))
    } else {
        None
    }
}

/// There is at most one newest match.
pub proof fn lemma_latest_unique(ctx: AppContext, prefix: Seq<char>, a: Seq<char>, b: Seq<char>)
    requires
        is_latest(ctx, prefix, a),
        is_latest(ctx, prefix, b),
    ensures
        a == b,
{
    assert(name_le(a, b));
    assert(name_le(b, a));
    law_name_order_total(a, b, a);
}

/// The names of the installed runtimes, sorted ascending.
pub fn installed_version_names(ctx: &AppContext) -> (r: Vec<String>)
    ensures
        names_sorted(lines(r@)),
        forall|n: Seq<char>| #[trigger] lines(r@).contains(n) <==> installed(*ctx, n),
{
    let base = ctx.versions_dir();
    let found = ctx.fs.child_dirs(base.as_str());
    let sorted = sort_version_names(found);
    proof {
        assert forall|n: Seq<char>| #[trigger] lines(sorted@).contains(n) <==> installed(*ctx, n) by {
            let s = lines(sorted@);
            let f = lines(found@);
            vstd::seq_lib::to_multiset_contains(s, n);
            vstd::seq_lib::to_multiset_contains(f, n);
            if f.contains(n) {
                let k = choose|k: int| 0 <= k < f.len() && f[k] == n;
                assert(found@[k]@ == n);
            }
        }
    }
    sorted
}

/// The newest installed runtime whose name is `prefix` or starts with `prefix.`.
pub fn latest_installed_version(ctx: &AppContext, prefix: &str) -> (r: Option<String>)
    ensures
        match r {
            Some(n) => latest_installed(*ctx, prefix@) == Some(n@),
            None => latest_installed(*ctx, prefix@) is None,
        },
{
    let names = installed_version_names(ctx);
    let dotted = cat(prefix, ".");
    proof {
        reveal_strlit(".");
    }
    let mut best: Option<String> = None;
    let mut i: usize = 0;
    while i < names.len()
        invariant
            i <= names@.len(),
            dotted@ == prefix@ + "."@,
            forall|n: Seq<char>| #[trigger] lines(names@).contains(n) <==> installed(*ctx, n),
            match best {
                Some(b) => installed(*ctx, b@) && prefix_match(b@, prefix@) && forall|k: int|
                    0 <= k < i && prefix_match(#[trigger] lines(names@)[k], prefix@) ==> name_le(
                        lines(names@)[k],
                        b@,
                    ),
                None => forall|k: int| 0 <= k < i ==> !prefix_match(#[trigger] lines(names@)[k], prefix@),
            },
        decreases names.len() - i,
    {
        let n = names[i].as_str();
        assert(lines(names@)[i as int] == n@);
        assert(lines(names@).contains(n@));
        if str_eq(n, prefix) || starts_with_str(n, dotted.as_str()) {
            let take = match &best {
                None => true,
                Some(b) => compare_version_names(n, b.as_str()) == VersionOrder::Greater,
            };
            let ghost gb = best;
            if take {
                proof {
                    if let Some(b) = gb {
                        assert forall|k: int|
                            0 <= k < i + 1 && prefix_match(#[trigger] lines(names@)[k], prefix@)
                                implies name_le(lines(names@)[k], n@) by {
                            law_name_order_total(n@, b@, b@);
                            if k < i {
                                law_name_order_total(lines(names@)[k], b@, n@);
                            } else {
                                law_name_order_total(n@, n@, n@);
                            }
                        }
                    } else {
                        law_name_order_total(n@, n@, n@);
                    }
                }
                best = Some(names[i].clone());
            } else {
                proof {
                    if let Some(b) = gb {
                        law_name_order_total(n@, b@, b@);
                    }
                }
            }
        }
        i = i + 1;
    }
    let ghost gb = best;
    proof {
        match gb {
            Some(b) => {
                assert forall|m: Seq<char>| installed(*ctx, m) && prefix_match(m, prefix@) implies name_le(
                    m,
                    b@,
                ) by {
                    assert(lines(names@).contains(m));
                    let k = choose|k: int| 0 <= k < lines(names@).len() && lines(names@)[k] == m;
                }
                assert(is_latest(*ctx, prefix@, b@));
                let c = choose|n: Seq<char>| is_latest(*ctx, prefix@, n);
                lemma_latest_unique(*ctx, prefix@, b@, c);
            },
            None => {
                assert forall|m: Seq<char>| !(installed(*ctx, m) && prefix_match(m, prefix@)) by {
                    if installed(*ctx, m) {
                        assert(lines(names@).contains(m));
                        let k = choose|k: int| 0 <= k < lines(names@).len() && lines(names@)[k] == m;
                    }
                }
            },
        }
    }
    best
}

} // verus!

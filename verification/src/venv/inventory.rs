//! The managed venvs on disk: listing them in spec order, resolving a spec or a short name,
//! and the records describing each one.
use vstd::prelude::*;

use crate::catalog::{latest_installed, latest_installed_version, law_name_order_total, name_le, compare_version_names};
use crate::context::{child_prefix, is_component, join_path, join_path_str, AppContext};
use crate::error::{error_text, not_installed_text, PyenvError};
use crate::runtime::search::{command_in_prefix, find_command_in_prefix};
use crate::self_update::versioning::VersionOrder;
use crate::strings::{
    cat, cat3, join, join_strings, lines, lower_seq, lower_str, owned, str_eq, strip_prefix_or_self,
    strip_prefix_str, trim, trim_str,
};
use crate::venv_paths::{
    managed_venv_dir, managed_venv_spec, managed_venvs_root, split_managed_venv_spec, split_spec,
    venv_dir_spec, venv_spec, venvs_root_spec,
};
use crate::version::selection::{installed_dir, installed_version_dir};

verus! {

broadcast use vstd::string::group_string_axioms;

/// Where a managed venv is selected.
#[derive(Clone, Copy, PartialEq, Eq, Debug)]
pub enum VenvUseScope {
    Local,
    Global,
}

/// A managed venv: its name, base runtime, spec, directory, and interpreter and pip.
pub struct ManagedVenvInfo {
    pub name: String,
    pub base_version: String,
    pub spec: String,
    pub path: String,
    pub python_path: Option<String>,
    pub pip_path: Option<String>,
}

impl ManagedVenvInfo {
    /// A copy of the record.
    pub fn duplicate(&self) -> (r: Self)
        ensures
            r == *self,
    {
        ManagedVenvInfo {
            name: self.name.clone(),
            base_version: self.base_version.clone(),
            spec: self.spec.clone(),
            path: self.path.clone(),
            python_path: match &self.python_path {
                Some(p) => Some(p.clone()),
                None => None,
            },
            pip_path: match &self.pip_path {
                Some(p) => Some(p.clone()),
                None => None,
            },
        }
    }
}

/// An optional text as an optional sequence.
pub open spec fn opt_view(o: Option<String>) -> Option<Seq<char>> {
    match o {
        Some(s) => Some(s@),
        None => None,
    }
}

/// The first of `commands` found in the prefix.
pub open spec fn first_command(ctx: AppContext, prefix: Seq<char>, commands: Seq<Seq<char>>) -> Option<Seq<char>>
    decreases commands.len(),
{
    if commands.len() == 0 {
        None
    } else {
        match command_in_prefix(ctx.fs, prefix, commands[0], None, ctx.windows) {
            Some(p) => Some(p),
            None => first_command(ctx, prefix, commands.drop_first()),
        }
    }
}

/// The interpreter of a prefix: `python`, `python3` or `pypy3`, the first found.
pub open spec fn interpreter_of(ctx: AppContext, prefix: Seq<char>) -> Option<Seq<char>> {
    first_command(ctx, prefix, seq!["python"@, "python3"@, "pypy3"@])
}

/// The pip of a prefix: `pip` or `pip3`, the first found.
pub open spec fn pip_of(ctx: AppContext, prefix: Seq<char>) -> Option<Seq<char>> {
    first_command(ctx, prefix, seq!["pip"@, "pip3"@])
}

fn find_first_command(ctx: &AppContext, prefix: &str, commands: &Vec<String>) -> (r: Option<String>)
    ensures
        opt_view(r) == first_command(*ctx, prefix@, lines(commands@)),
{
    let mut i: usize = 0;
    assert(lines(commands@).skip(0) =~= lines(commands@));
    while i < commands.len()
        invariant
            i <= commands@.len(),
            first_command(*ctx, prefix@, lines(commands@)) == first_command(
                *ctx,
                prefix@,
                lines(commands@).skip(i as int),
            ),
        decreases commands.len() - i,
    {
        assert(lines(commands@).skip(i as int)[0] == commands@[i as int]@);
        assert(lines(commands@).skip(i as int).drop_first() =~= lines(commands@).skip(i + 1));
        match find_command_in_prefix(&ctx.fs, prefix, commands[i].as_str(), None, ctx.windows) {
            Some(p) => {
                return Some(p);
            },
            None => {},
        }
        i = i + 1;
    }
    None
}

/// The interpreter of a prefix.
pub fn interpreter_for_prefix(ctx: &AppContext, prefix: &str) -> (r: Option<String>)
    ensures
        opt_view(r) == interpreter_of(*ctx, prefix@),
{
    let mut c: Vec<String> = Vec::new();
    c.push(owned("python"));
    c.push(owned("python3"));
    c.push(owned("pypy3"));
    assert(lines(c@) =~= seq!["python"@, "python3"@, "pypy3"@]);
    find_first_command(ctx, prefix, &c)
}

/// The pip of a prefix.
pub fn pip_for_prefix(ctx: &AppContext, prefix: &str) -> (r: Option<String>)
    ensures
        opt_view(r) == pip_of(*ctx, prefix@),
{
    let mut c: Vec<String> = Vec::new();
    c.push(owned("pip"));
    c.push(owned("pip3"));
    assert(lines(c@) =~= seq!["pip"@, "pip3"@]);
    find_first_command(ctx, prefix, &c)
}

/// The record describes the venv `name` on `base` at `path`.
pub open spec fn describes(ctx: AppContext, i: ManagedVenvInfo, base: Seq<char>, name: Seq<char>, path: Seq<char>) -> bool {
    &&& i.name@ == name
    &&& i.base_version@ == base
    &&& i.spec@ == venv_spec(base, name)
    &&& i.path@ == path
    &&& opt_view(i.python_path) == interpreter_of(ctx, path)
    &&& opt_view(i.pip_path) == pip_of(ctx, path)
}

/// The record of a managed venv.
pub fn build_managed_venv_info(ctx: &AppContext, base_version: String, name: String, path: String) -> (r: ManagedVenvInfo)
    ensures
        describes(*ctx, r, base_version@, name@, path@),
{
    let spec = managed_venv_spec(base_version.as_str(), name.as_str());
    let python_path = interpreter_for_prefix(ctx, path.as_str());
    let pip_path = pip_for_prefix(ctx, path.as_str());
    ManagedVenvInfo { name, base_version, spec, path, python_path, pip_path }
}

/// `<root>/venvs/<version>/<name>` is a managed venv directory found when listing.
#[verifier::opaque]
pub open spec fn venv_entry(ctx: AppContext, version: Seq<char>, name: Seq<char>) -> bool {
    let root = venvs_root_spec(ctx);
    &&& is_component(version)
    &&& is_component(name)
    &&& ctx.fs.has_dir(root)
    &&& ctx.fs.has_dir(join_path(root, version))
    &&& ctx.fs.has_dir(join_path(join_path(root, version), name))
}

/// The record listed for an entry: its spec split again into runtime and name.
#[verifier::opaque]
pub open spec fn listed(ctx: AppContext, i: ManagedVenvInfo, version: Seq<char>, name: Seq<char>) -> bool {
    match split_spec(venv_spec(version, name)) {
        Some((b, n)) => describes(ctx, i, b, n, join_path(join_path(venvs_root_spec(ctx), version), name)),
        None => false,
    }
}

/// The record is listed for some managed venv directory.
pub open spec fn is_listed(ctx: AppContext, i: ManagedVenvInfo) -> bool {
    exists|v: Seq<char>, n: Seq<char>| venv_entry(ctx, v, n) && #[trigger] listed(ctx, i, v, n)
}

/// Ascending by spec in version-name order.
pub open spec fn specs_sorted(s: Seq<ManagedVenvInfo>) -> bool {
    forall|i: int, j: int| 0 <= i < j < s.len() ==> name_le(#[trigger] s[i].spec@, #[trigger] s[j].spec@)
}

fn insert_by_spec(v: &mut Vec<ManagedVenvInfo>, x: ManagedVenvInfo)
    requires
        specs_sorted(old(v)@),
    ensures
        specs_sorted(final(v)@),
        final(v)@.to_multiset() == old(v)@.to_multiset().insert(x),
{
    let mut p: usize = 0;
    while p < v.len() && !(compare_version_names(v[p].spec.as_str(), x.spec.as_str()) == VersionOrder::Greater)
        invariant
            p <= v@.len(),
            v@ == old(v)@,
            forall|k: int| 0 <= k < p ==> name_le(#[trigger] v@[k].spec@, x.spec@),
        decreases v.len() - p,
    {
        p = p + 1;
    }
    let ghost s = v@;
    let ghost xs = x.spec@;
    proof {
        if p < v@.len() {
            law_name_order_total(s[p as int].spec@, xs, xs);
        }
    }
    v.insert(p, x);
    proof {
        let t = v@;
        assert(t =~= s.insert(p as int, x));
        vstd::seq_lib::to_multiset_insert(s, p as int, x);
        assert forall|i: int, j: int| 0 <= i < j < t.len() implies name_le(
            #[trigger] t[i].spec@,
            #[trigger] t[j].spec@,
        ) by {
            if j < p {
            } else if i < p && j == p {
            } else if i < p {
                assert(t[j] == s[j - 1]);
                law_name_order_total(t[i].spec@, xs, s[j - 1].spec@);
                if p < s.len() {
                    law_name_order_total(xs, s[p as int].spec@, s[j - 1].spec@);
                }
                law_name_order_total(t[i].spec@, s[p as int].spec@, s[j - 1].spec@);
            } else if i == p {
                assert(t[j] == s[j - 1]);
                law_name_order_total(s[p as int].spec@, xs, xs);
                law_name_order_total(xs, s[p as int].spec@, s[j - 1].spec@);
            } else {
                assert(t[i] == s[i - 1]);
                assert(t[j] == s[j - 1]);
            }
        }
    }
}

/// The records sorted by spec.
pub fn sort_by_spec(items: Vec<ManagedVenvInfo>) -> (r: Vec<ManagedVenvInfo>)
    ensures
        specs_sorted(r@),
        r@.to_multiset() == items@.to_multiset(),
{
    let mut out: Vec<ManagedVenvInfo> = Vec::new();
    let mut rest = items;
    let ghost orig = rest@;
    proof {
        assert(orig.take(0) =~= Seq::<ManagedVenvInfo>::empty());
    }
    let mut i: usize = 0;
    let n = rest.len();
    while i < n
        invariant
            n == orig.len(),
            i <= n,
            rest@ == orig,
            specs_sorted(out@),
            out@.to_multiset() == orig.take(i as int).to_multiset(),
        decreases n - i,
    {
        let x = rest[i].duplicate();
        insert_by_spec(&mut out, x);
        proof {
            assert(orig.take(i + 1) =~= orig.take(i as int).push(orig[i as int]));
            vstd::seq_lib::to_multiset_build(orig.take(i as int), orig[i as int]);
        }
        i = i + 1;
    }
    assert(orig.take(n as int) =~= orig);
    out
}

/// The records of the venvs of one runtime directory, each with the directory name it came
/// from.
#[verifier::rlimit(80)]
#[verifier::spinoff_prover]
fn venvs_of_version(ctx: &AppContext, root: &str, ver: &str) -> (r: (Vec<ManagedVenvInfo>, Ghost<Seq<Seq<char>>>))
    requires
        root@ == venvs_root_spec(*ctx),
        ctx.fs.has_dir(root@),
        is_component(ver@),
        ctx.fs.has_dir(join_path(root@, ver@)),
    ensures
        r.1@.len() == r.0@.len(),
        forall|k: int| #![trigger r.0@[k]] 0 <= k < r.0@.len() ==> listed(*ctx, r.0@[k], ver@, r.1@[k]),
        forall|k: int| #![trigger r.1@[k]] 0 <= k < r.1@.len() ==> venv_entry(*ctx, ver@, r.1@[k]),
        forall|n: Seq<char>|
            #[trigger] venv_entry(*ctx, ver@, n) && split_spec(venv_spec(ver@, n)) is Some ==> r.1@.contains(n),
{
    let base_dir = join_path_str(root, ver);
    let names = ctx.fs.child_dirs(base_dir.as_str());
    let mut out: Vec<ManagedVenvInfo> = Vec::new();
    let ghost mut keys: Seq<Seq<char>> = seq![];
    let mut j: usize = 0;
    while j < names.len()
        invariant
            j <= names@.len(),
            base_dir@ == join_path(root@, ver@),
            root@ == venvs_root_spec(*ctx),
            ctx.fs.has_dir(root@),
            is_component(ver@),
            ctx.fs.has_dir(join_path(root@, ver@)),
            forall|q: int| 0 <= q < names@.len() ==> is_component(#[trigger] names@[q]@) && ctx.fs.has_dir(
                join_path(base_dir@, names@[q]@),
            ),
            keys.len() == out@.len(),
            forall|k: int| #![trigger out@[k]] 0 <= k < out@.len() ==> listed(*ctx, out@[k], ver@, keys[k]),
            forall|k: int| #![trigger keys[k]] 0 <= k < keys.len() ==> venv_entry(*ctx, ver@, keys[k]),
            forall|q: int| 0 <= q < j && split_spec(venv_spec(ver@, #[trigger] names@[q]@)) is Some ==> keys.contains(names@[q]@),
        decreases names.len() - j,
    {
        let ghost nm = names@[j as int]@;
        let spec = managed_venv_spec(ver, names[j].as_str());
        let path = join_path_str(base_dir.as_str(), names[j].as_str());
        match split_managed_venv_spec(spec.as_str()) {
            Some((b, n)) => {
                let info = build_managed_venv_info(ctx, b, n, path);
                let ghost old_out = out@;
                let ghost old_keys = keys;
                out.push(info);
                proof {
                    keys = keys.push(nm);
                    reveal(listed);
                    reveal(venv_entry);
                    assert(listed(*ctx, out@[old_out.len() as int], ver@, nm));
                    assert(venv_entry(*ctx, ver@, nm));
                    assert forall|k: int| #![trigger out@[k]] 0 <= k < out@.len() implies venv_entry(*ctx, ver@, keys[k]) && listed(*ctx, out@[k], ver@, keys[k]) by {
                        if k < old_out.len() {
                            assert(out@[k] == old_out[k]);
                            assert(keys[k] == old_keys[k]);
                            assert(listed(*ctx, old_out[k], ver@, old_keys[k]));
                        }
                    }
                    assert forall|q: int| 0 <= q < j + 1 && split_spec(venv_spec(ver@, #[trigger] names@[q]@)) is Some implies keys.contains(names@[q]@) by {
                        if q < j {
                            let w = choose|w: int| 0 <= w < old_keys.len() && old_keys[w] == names@[q]@;
                            assert(keys[w] == old_keys[w]);
                        } else {
                            assert(keys[old_keys.len() as int] == nm);
                        }
                    }
                }
            },
            None => {
                    },
        }
        j = j + 1;
    }
    proof {
        assert forall|n: Seq<char>|
            #[trigger] venv_entry(*ctx, ver@, n) && split_spec(venv_spec(ver@, n)) is Some implies keys.contains(n) by {
            reveal(venv_entry);
            assert(ctx.fs.has_dir(join_path(base_dir@, n)));
            let w = choose|w: int| 0 <= w < lines(names@).len() && lines(names@)[w] == n;
            assert(names@[w]@ == n);
        }
    }
    (out, Ghost(keys))
}

proof fn lemma_join_is_prefix_plus(base: Seq<char>, name: Seq<char>)
    ensures
        join_path(base, name) == child_prefix(base) + name,
{
    if base.len() == 0 {
        assert(Seq::<char>::empty() + name =~= name);
    } else if base.last() == '/' {
        assert(base + Seq::<char>::empty() =~= base);
    } else {
        assert(base + seq!['/'] + Seq::<char>::empty() =~= base + seq!['/']);
    }
}

proof fn lemma_split_at_slash(v1: Seq<char>, n1: Seq<char>, v2: Seq<char>, n2: Seq<char>)
    requires
        !v1.contains('/'),
        !v2.contains('/'),
        v1 + seq!['/'] + n1 == v2 + seq!['/'] + n2,
    ensures
        v1 == v2,
        n1 == n2,
{
    let x = v1 + seq!['/'] + n1;
    let y = v2 + seq!['/'] + n2;
    if v1.len() < v2.len() {
        assert(x[v1.len() as int] == '/');
        assert(y[v1.len() as int] == v2[v1.len() as int]);
        assert(v2.contains(v2[v1.len() as int]));
    } else if v2.len() < v1.len() {
        assert(y[v2.len() as int] == '/');
        assert(x[v2.len() as int] == v1[v2.len() as int]);
        assert(v1.contains(v1[v2.len() as int]));
    }
    assert(x.take(v1.len() as int) =~= v1);
    assert(y.take(v2.len() as int) =~= v2);
    assert(x.skip(v1.len() as int + 1) =~= n1);
    assert(y.skip(v2.len() as int + 1) =~= n2);
}

/// Two managed venv directories at one path are the same entry.
proof fn lemma_entry_path_injective(ctx: AppContext, v1: Seq<char>, n1: Seq<char>, v2: Seq<char>, n2: Seq<char>)
    requires
        venv_entry(ctx, v1, n1),
        venv_entry(ctx, v2, n2),
        join_path(join_path(venvs_root_spec(ctx), v1), n1) == join_path(join_path(venvs_root_spec(ctx), v2), n2),
    ensures
        v1 == v2,
        n1 == n2,
{
    reveal(venv_entry);
    let r = venvs_root_spec(ctx);
    let p = child_prefix(r);
    lemma_join_is_prefix_plus(r, v1);
    lemma_join_is_prefix_plus(r, v2);
    let a1 = p + v1;
    let a2 = p + v2;
    assert(a1.last() == v1.last());
    assert(v1.contains(v1.last()));
    assert(a2.last() == v2.last());
    assert(v2.contains(v2.last()));
    assert(join_path(a1, n1) == a1 + seq!['/'] + n1);
    assert(join_path(a2, n2) == a2 + seq!['/'] + n2);
    assert((a1 + seq!['/'] + n1).skip(p.len() as int) =~= v1 + seq!['/'] + n1);
    assert((a2 + seq!['/'] + n2).skip(p.len() as int) =~= v2 + seq!['/'] + n2);
    lemma_split_at_slash(v1, n1, v2, n2);
}

/// Records listed at one path are listed for the same directory entry.
proof fn lemma_listed_same_path(ctx: AppContext, a: ManagedVenvInfo, v1: Seq<char>, n1: Seq<char>, b: ManagedVenvInfo, v2: Seq<char>, n2: Seq<char>)
    requires
        venv_entry(ctx, v1, n1),
        venv_entry(ctx, v2, n2),
        listed(ctx, a, v1, n1),
        listed(ctx, b, v2, n2),
        a.path@ == b.path@,
    ensures
        v1 == v2,
        n1 == n2,
{
    reveal(listed);
    lemma_entry_path_injective(ctx, v1, n1, v2, n2);
}

/// Paths of the records, pairwise different.
pub open spec fn paths_distinct(s: Seq<ManagedVenvInfo>) -> bool {
    forall|a: int, b: int| 0 <= a < b < s.len() ==> (#[trigger] s[a]).path@ != (#[trigger] s[b]).path@
}

fn has_path(items: &Vec<ManagedVenvInfo>, p: &str) -> (r: bool)
    ensures
        r == exists|k: int| 0 <= k < items@.len() && (#[trigger] items@[k]).path@ == p@,
{
    let mut i: usize = 0;
    while i < items.len()
        invariant
            i <= items@.len(),
            forall|k: int| 0 <= k < i ==> (#[trigger] items@[k]).path@ != p@,
        decreases items.len() - i,
    {
        if str_eq(items[i].path.as_str(), p) {
            return true;
        }
        i = i + 1;
    }
    false
}

/// The records in order, each path kept once (its first record).
fn dedup_by_path(items: Vec<ManagedVenvInfo>) -> (r: Vec<ManagedVenvInfo>)
    requires
        specs_sorted(items@),
    ensures
        specs_sorted(r@),
        paths_distinct(r@),
        forall|k: int| 0 <= k < r@.len() ==> items@.contains(#[trigger] r@[k]),
        forall|m: int| 0 <= m < items@.len() ==> exists|k: int| 0 <= k < r@.len() && (#[trigger] r@[k]).path@ == (#[trigger] items@[m]).path@,
{
    let mut out: Vec<ManagedVenvInfo> = Vec::new();
    let ghost mut idx: Seq<int> = seq![];
    let mut i: usize = 0;
    while i < items.len()
        invariant
            i <= items@.len(),
            specs_sorted(items@),
            idx.len() == out@.len(),
            forall|k: int| 0 <= k < out@.len() ==> 0 <= #[trigger] idx[k] < i && out@[k] == items@[idx[k]],
            specs_sorted(out@),
            paths_distinct(out@),
            forall|m: int| 0 <= m < i ==> exists|k: int| 0 <= k < out@.len() && (#[trigger] out@[k]).path@ == (#[trigger] items@[m]).path@,
        decreases items.len() - i,
    {
        if !has_path(&out, items[i].path.as_str()) {
            let x = items[i].duplicate();
            let ghost old_out = out@;
            let ghost old_idx = idx;
            out.push(x);
            proof {
                idx = idx.push(i as int);
                assert forall|k: int| 0 <= k < out@.len() implies 0 <= #[trigger] idx[k] < i + 1 && out@[k] == items@[idx[k]] by {
                    if k < old_out.len() {
                        assert(idx[k] == old_idx[k]);
                        assert(out@[k] == old_out[k]);
                    }
                }
                assert forall|a: int, b: int| 0 <= a < b < out@.len() implies name_le(#[trigger] out@[a].spec@, #[trigger] out@[b].spec@) by {
                    if b < old_out.len() {
                        assert(out@[a] == old_out[a]);
                        assert(out@[b] == old_out[b]);
                    } else {
                        assert(out@[a] == items@[idx[a]]);
                        assert(idx[a] < i);
                        assert(out@[b] == items@[i as int]);
                    }
                }
                assert forall|a: int, b: int| 0 <= a < b < out@.len() implies (#[trigger] out@[a]).path@ != (#[trigger] out@[b]).path@ by {
                    if b < old_out.len() {
                        assert(out@[a] == old_out[a]);
                        assert(out@[b] == old_out[b]);
                    } else {
                        assert(out@[a] == old_out[a]);
                    }
                }
                assert forall|m: int| 0 <= m < i + 1 implies exists|k: int| 0 <= k < out@.len() && (#[trigger] out@[k]).path@ == (#[trigger] items@[m]).path@ by {
                    if m < i {
                        let k = choose|k: int| 0 <= k < old_out.len() && (#[trigger] old_out[k]).path@ == items@[m].path@;
                        assert(out@[k] == old_out[k]);
                    } else {
                        assert(out@[old_out.len() as int] == items@[i as int]);
                    }
                }
            }
        } else {
            proof {
                assert forall|m: int| 0 <= m < i + 1 implies exists|k: int| 0 <= k < out@.len() && (#[trigger] out@[k]).path@ == (#[trigger] items@[m]).path@ by {
                    if m == i {
                        let k = choose|k: int| 0 <= k < out@.len() && (#[trigger] out@[k]).path@ == items@[i as int].path@;
                    }
                }
            }
        }
        i = i + 1;
    }
    proof {
        assert forall|k: int| 0 <= k < out@.len() implies items@.contains(#[trigger] out@[k]) by {
            assert(items@[idx[k]] == out@[k]);
        }
    }
    out
}

/// Every managed venv, sorted by spec.
#[verifier::rlimit(40)]
pub fn list_managed_venvs(ctx: &AppContext) -> (r: Vec<ManagedVenvInfo>)
    ensures
        specs_sorted(r@),
        paths_distinct(r@),
        forall|k: int| 0 <= k < r@.len() ==> is_listed(*ctx, #[trigger] r@[k]),
        forall|v: Seq<char>, n: Seq<char>|
            #[trigger] venv_entry(*ctx, v, n) && split_spec(venv_spec(v, n)) is Some ==> exists|k: int|
                0 <= k < r@.len() && #[trigger] listed(*ctx, r@[k], v, n),
{
    let mut results: Vec<ManagedVenvInfo> = Vec::new();
    let root = managed_venvs_root(ctx);
    if !ctx.fs.is_dir(root.as_str()) {
        proof {
            reveal(venv_entry);
        }
        return results;
    }
    let versions = ctx.fs.child_dirs(root.as_str());
    let ghost mut keys: Seq<(Seq<char>, Seq<char>)> = seq![];
    let mut i: usize = 0;
    while i < versions.len()
        invariant
            i <= versions@.len(),
            root@ == venvs_root_spec(*ctx),
            ctx.fs.has_dir(root@),
            forall|q: int| 0 <= q < versions@.len() ==> is_component(#[trigger] versions@[q]@) && ctx.fs.has_dir(
                join_path(root@, versions@[q]@),
            ),
            keys.len() == results@.len(),
            forall|k: int| #![trigger results@[k]] 0 <= k < results@.len() ==> listed(*ctx, results@[k], keys[k].0, keys[k].1),
            forall|k: int| #![trigger keys[k]] 0 <= k < keys.len() ==> venv_entry(*ctx, keys[k].0, keys[k].1),
            forall|q: int, n: Seq<char>|
                0 <= q < i && #[trigger] venv_entry(*ctx, versions@[q]@, n) && split_spec(venv_spec(versions@[q]@, n)) is Some ==> keys.contains((versions@[q]@, n)),
        decreases versions.len() - i,
    {
        let (mut part, Ghost(pk)) = venvs_of_version(ctx, root.as_str(), versions[i].as_str());
        let ghost old_results = results@;
        let ghost old_keys = keys;
        let ghost p = part@;
        let ghost ver = versions@[i as int]@;
        results.append(&mut part);
        proof {
            keys = keys + pk.map_values(|n: Seq<char>| (ver, n));
            assert(results@ =~= old_results + p);
            assert forall|k: int| #![trigger results@[k]] 0 <= k < results@.len() implies listed(*ctx, results@[k], keys[k].0, keys[k].1) by {
                if k < old_results.len() {
                    assert(results@[k] == old_results[k]);
                    assert(keys[k] == old_keys[k]);
                    assert(listed(*ctx, old_results[k], old_keys[k].0, old_keys[k].1));
                } else {
                    let m = k - old_results.len();
                    assert(results@[k] == p[m]);
                    assert(keys[k] == (ver, pk[m]));
                    assert(listed(*ctx, p[m], ver, pk[m]));
                }
            }
            assert forall|k: int| #![trigger keys[k]] 0 <= k < keys.len() implies venv_entry(*ctx, keys[k].0, keys[k].1) by {
                if k < old_keys.len() {
                    assert(keys[k] == old_keys[k]);
                } else {
                    let m = k - old_keys.len();
                    assert(keys[k] == (ver, pk[m]));
                    assert(venv_entry(*ctx, ver, pk[m]));
                }
            }
            assert forall|q: int, n: Seq<char>|
                0 <= q < i + 1 && #[trigger] venv_entry(*ctx, versions@[q]@, n) && split_spec(venv_spec(versions@[q]@, n)) is Some implies keys.contains((versions@[q]@, n)) by {
                if q < i {
                    let w = choose|w: int| 0 <= w < old_keys.len() && old_keys[w] == (versions@[q]@, n);
                    assert(keys[w] == old_keys[w]);
                } else {
                    assert(pk.contains(n));
                    let w = choose|w: int| 0 <= w < pk.len() && pk[w] == n;
                    assert(keys[old_keys.len() + w] == (ver, n));
                }
            }
        }
        i = i + 1;
    }
    let sorted = sort_by_spec(results);
    proof {
        assert forall|k: int| 0 <= k < sorted@.len() implies is_listed(*ctx, #[trigger] sorted@[k]) by {
            vstd::seq_lib::to_multiset_contains(sorted@, sorted@[k]);
            vstd::seq_lib::to_multiset_contains(results@, sorted@[k]);
            assert(sorted@.contains(sorted@[k]));
            assert(results@.contains(sorted@[k]));
            let m = choose|m: int| 0 <= m < results@.len() && results@[m] == sorted@[k];
            assert(results@[m] == sorted@[k]);
            assert(m < keys.len());
            assert(listed(*ctx, results@[m], keys[m].0, keys[m].1));
            assert(venv_entry(*ctx, keys[m].0, keys[m].1));
            assert(listed(*ctx, sorted@[k], keys[m].0, keys[m].1));
        }
        assert forall|v: Seq<char>, n: Seq<char>|
            #[trigger] venv_entry(*ctx, v, n) && split_spec(venv_spec(v, n)) is Some implies exists|k: int|
                0 <= k < sorted@.len() && #[trigger] listed(*ctx, sorted@[k], v, n) by {
            reveal(venv_entry);
            let w = choose|w: int| 0 <= w < lines(versions@).len() && lines(versions@)[w] == v;
            assert(versions@[w]@ == v);
            assert(venv_entry(*ctx, versions@[w]@, n));
            assert(keys.contains((v, n)));
            let m = choose|m: int| 0 <= m < keys.len() && keys[m] == (v, n);
            assert(results@[m] == results@[m]);
            assert(listed(*ctx, results@[m], keys[m].0, keys[m].1));
            assert(listed(*ctx, results@[m], v, n));
            vstd::seq_lib::to_multiset_contains(results@, results@[m]);
            vstd::seq_lib::to_multiset_contains(sorted@, results@[m]);
            let k = choose|k: int| 0 <= k < sorted@.len() && sorted@[k] == results@[m];
            assert(listed(*ctx, sorted@[k], v, n));
        }
    }
    let unique = dedup_by_path(sorted);
    proof {
        assert forall|k: int| 0 <= k < unique@.len() implies is_listed(*ctx, #[trigger] unique@[k]) by {
            let m = choose|m: int| 0 <= m < sorted@.len() && sorted@[m] == unique@[k];
            assert(is_listed(*ctx, sorted@[m]));
        }
        assert forall|v: Seq<char>, n: Seq<char>|
            #[trigger] venv_entry(*ctx, v, n) && split_spec(venv_spec(v, n)) is Some implies exists|k: int|
                0 <= k < unique@.len() && #[trigger] listed(*ctx, unique@[k], v, n) by {
            let m = choose|m: int| 0 <= m < sorted@.len() && #[trigger] listed(*ctx, sorted@[m], v, n);
            let k = choose|k: int| 0 <= k < unique@.len() && (#[trigger] unique@[k]).path@ == sorted@[m].path@;
            let q = choose|q: int| 0 <= q < sorted@.len() && sorted@[q] == unique@[k];
            assert(is_listed(*ctx, sorted@[q]));
            let (v2, n2) = choose|v2: Seq<char>, n2: Seq<char>| venv_entry(*ctx, v2, n2) && #[trigger] listed(*ctx, sorted@[q], v2, n2);
            lemma_listed_same_path(*ctx, sorted@[m], v, n, unique@[k], v2, n2);
            assert(listed(*ctx, unique@[k], v, n));
        }
    }
    unique
}

/// How names are compared: ignoring ASCII case on Windows, exactly elsewhere.
pub open spec fn name_key(ctx: AppContext, n: Seq<char>) -> Seq<char> {
    if ctx.windows {
        lower_seq(n)
    } else {
        n
    }
}

fn name_key_str(ctx: &AppContext, n: &str) -> (r: String)
    ensures
        r@ == name_key(*ctx, n@),
{
    if ctx.windows {
        lower_str(n)
    } else {
        owned(n)
    }
}

/// A listed managed venv whose name matches `name`.
pub open spec fn name_match(ctx: AppContext, i: ManagedVenvInfo, name: Seq<char>) -> bool {
    is_listed(ctx, i) && name_key(ctx, i.name@) == name_key(ctx, name)
}

/// The managed venvs named `name`, sorted by spec.
pub fn find_env_name_matches(ctx: &AppContext, name: &str) -> (r: Vec<ManagedVenvInfo>)
    ensures
        specs_sorted(r@),
        paths_distinct(r@),
        forall|k: int| 0 <= k < r@.len() ==> name_match(*ctx, #[trigger] r@[k], name@),
        forall|v: Seq<char>, n: Seq<char>, i: ManagedVenvInfo|
            venv_entry(*ctx, v, n) && #[trigger] listed(*ctx, i, v, n) && name_key(*ctx, i.name@) == name_key(*ctx, name@)
                ==> exists|k: int| 0 <= k < r@.len() && #[trigger] listed(*ctx, r@[k], v, n),
{
    let all = list_managed_venvs(ctx);
    let requested = name_key_str(ctx, name);
    let mut out: Vec<ManagedVenvInfo> = Vec::new();
    let ghost mut idx: Seq<int> = seq![];
    let mut i: usize = 0;
    while i < all.len()
        invariant
            i <= all@.len(),
            requested@ == name_key(*ctx, name@),
            specs_sorted(all@),
            forall|k: int| 0 <= k < all@.len() ==> is_listed(*ctx, #[trigger] all@[k]),
            idx.len() == out@.len(),
            forall|k: int| #![trigger idx[k]] 0 <= k < idx.len() ==> 0 <= idx[k] < i && all@[idx[k]] == out@[k],
            forall|a: int, b: int| 0 <= a < b < idx.len() ==> #[trigger] idx[a] < #[trigger] idx[b],
            forall|k: int| 0 <= k < out@.len() ==> name_match(*ctx, #[trigger] out@[k], name@),
            forall|q: int| 0 <= q < i && name_key(*ctx, (#[trigger] all@[q]).name@) == name_key(*ctx, name@) ==> out@.contains(all@[q]),
        decreases all.len() - i,
    {
        let key = name_key_str(ctx, all[i].name.as_str());
        if str_eq(key.as_str(), requested.as_str()) {
            let ghost old_out = out@;
            let ghost old_idx = idx;
            out.push(all[i].duplicate());
            proof {
                idx = idx.push(i as int);
                assert(out@[old_out.len() as int] == all@[i as int]);
                assert forall|k: int| #![trigger idx[k]] 0 <= k < idx.len() implies 0 <= idx[k] < i + 1 && all@[idx[k]] == out@[k] by {
                    if k < old_idx.len() {
                        assert(idx[k] == old_idx[k]);
                        assert(out@[k] == old_out[k]);
                    }
                }
                assert forall|a: int, b: int| 0 <= a < b < idx.len() implies #[trigger] idx[a] < #[trigger] idx[b] by {
                    assert(idx[a] == old_idx[a]);
                    if b < old_idx.len() {
                        assert(idx[b] == old_idx[b]);
                    }
                }
                assert forall|q: int| 0 <= q < i + 1 && name_key(*ctx, (#[trigger] all@[q]).name@) == name_key(*ctx, name@) implies out@.contains(all@[q]) by {
                    if q < i {
                        let w = choose|w: int| 0 <= w < old_out.len() && old_out[w] == all@[q];
                        assert(out@[w] == old_out[w]);
                    } else {
                        assert(out@[old_out.len() as int] == all@[q]);
                    }
                }
            }
        }
        i = i + 1;
    }
    proof {
        assert forall|x: int, y: int| 0 <= x < y < out@.len() implies (#[trigger] out@[x]).path@ != (#[trigger] out@[y]).path@ by {
            assert(idx[x] < idx[y]);
            assert(all@[idx[x]] == out@[x]);
            assert(all@[idx[y]] == out@[y]);
        }
        assert forall|x: int, y: int| 0 <= x < y < out@.len() implies name_le(#[trigger] out@[x].spec@, #[trigger] out@[y].spec@) by {
            assert(idx[x] < idx[y]);
            assert(all@[idx[x]] == out@[x]);
            assert(all@[idx[y]] == out@[y]);
        }
        assert forall|v: Seq<char>, n: Seq<char>, i: ManagedVenvInfo|
            venv_entry(*ctx, v, n) && #[trigger] listed(*ctx, i, v, n) && name_key(*ctx, i.name@) == name_key(*ctx, name@)
                implies exists|k: int| 0 <= k < out@.len() && #[trigger] listed(*ctx, out@[k], v, n) by {
            reveal(listed);
            let q = choose|q: int| 0 <= q < all@.len() && #[trigger] listed(*ctx, all@[q], v, n);
            assert(all@[q].name@ == i.name@);
            assert(out@.contains(all@[q]));
            let k = choose|k: int| 0 <= k < out@.len() && out@[k] == all@[q];
            assert(listed(*ctx, out@[k], v, n));
        }
    }
    out
}

/// `s` is a managed-venv spec whose directory exists.
pub open spec fn venv_spec_present(ctx: AppContext, s: Seq<char>) -> bool {
    let t = trim(s);
    t.len() > 0 && match split_spec(t) {
        Some((b, n)) => ctx.fs.has_dir(venv_dir_spec(ctx, b, n)),
        None => false,
    }
}

/// A text in backquotes.
pub open spec fn backquoted(s: Seq<char>) -> Seq<char> {
    "`"@ + s + "`"@
}

/// The specs of the records, each in backquotes, joined with `, `.
pub open spec fn quoted_specs(items: Seq<ManagedVenvInfo>) -> Seq<char> {
    join(items.map_values(|i: ManagedVenvInfo| backquoted(i.spec@)), ", "@)
}

fn render_quoted_specs(items: &Vec<ManagedVenvInfo>) -> (r: String)
    ensures
        r@ == quoted_specs(items@),
{
    let mut parts: Vec<String> = Vec::new();
    let mut i: usize = 0;
    while i < items.len()
        invariant
            i <= items@.len(),
            lines(parts@) == items@.take(i as int).map_values(|x: ManagedVenvInfo| backquoted(x.spec@)),
        decreases items.len() - i,
    {
        let q = cat3("`", items[i].spec.as_str(), "`");
        let ghost before = lines(parts@);
        parts.push(q);
        assert(lines(parts@) =~= before.push(backquoted(items@[i as int].spec@)));
        assert(items@.take(i + 1).map_values(|x: ManagedVenvInfo| backquoted(x.spec@)) =~= items@.take(i as int).map_values(|x: ManagedVenvInfo| backquoted(x.spec@)).push(backquoted(items@[i as int].spec@)));
        i = i + 1;
    }
    assert(items@.take(items@.len() as int) =~= items@);
    join_strings(&parts, ", ")
}

/// The message for an empty venv spec.
pub open spec fn empty_spec_text() -> Seq<char> {
    "pyenv: managed venv spec cannot be empty"@
}

/// The message for a spec whose directory is missing.
pub open spec fn not_installed_venv_text(spec: Seq<char>) -> Seq<char> {
    "pyenv: managed venv `"@ + spec + "` is not installed"@
}

/// The message when no venv has the name.
pub open spec fn no_such_name_text(name: Seq<char>) -> Seq<char> {
    "pyenv: no managed venv named `"@ + name + "` was found"@
}

/// The message when several venvs have the name.
pub open spec fn ambiguous_text(name: Seq<char>, matches: Seq<ManagedVenvInfo>) -> Seq<char> {
    "pyenv: managed venv name `"@ + name + "` is ambiguous; use one of: "@ + quoted_specs(matches)
}

/// What a successful resolution of `spec` gives: the venv its spec names when that directory
/// exists, or the one managed venv with that short name.
pub open spec fn resolve_ok(ctx: AppContext, spec: Seq<char>, i: ManagedVenvInfo) -> bool {
    let t = trim(spec);
    t.len() > 0 && match split_spec(t) {
        Some((b, n)) => ctx.fs.has_dir(venv_dir_spec(ctx, b, n)) && describes(ctx, i, b, n, venv_dir_spec(ctx, b, n)),
        None => unique_match(ctx, t, i),
    }
}

/// Every managed venv named `t` has its path among the records `ms`.
#[verifier::opaque]
pub open spec fn covers_paths(ctx: AppContext, t: Seq<char>, ms: Seq<ManagedVenvInfo>) -> bool {
    forall|j: ManagedVenvInfo| #[trigger] name_match(ctx, j, t) ==> exists|k: int| 0 <= k < ms.len() && (#[trigger] ms[k]).path@ == j.path@
}

/// `m` lists every managed venv named `t`, each once, sorted by spec, and there are at least
/// two of them.
pub open spec fn ambiguous_matches(ctx: AppContext, t: Seq<char>, m: Seq<ManagedVenvInfo>) -> bool {
    &&& m.len() >= 2
    &&& specs_sorted(m)
    &&& paths_distinct(m)
    &&& forall|k: int| 0 <= k < m.len() ==> name_match(ctx, #[trigger] m[k], t)
    &&& covers_paths(ctx, t, m)
}

/// Why resolving `spec` fails: it is blank, its directory is missing, no venv has the short
/// name, or several do.
pub open spec fn resolve_err(ctx: AppContext, spec: Seq<char>, msg: Seq<char>) -> bool {
    let t = trim(spec);
    if t.len() == 0 {
        msg == empty_spec_text()
    } else {
        match split_spec(t) {
            Some((b, n)) => !ctx.fs.has_dir(venv_dir_spec(ctx, b, n)) && msg == not_installed_venv_text(venv_spec(b, n)),
            None => if forall|j: ManagedVenvInfo| !#[trigger] name_match(ctx, j, t) {
                msg == no_such_name_text(t)
            } else {
                exists|m: Seq<ManagedVenvInfo>| #[trigger] ambiguous_text(t, m) == msg && ambiguous_matches(ctx, t, m)
            },
        }
    }
}

/// The records found for a name stand for every managed venv with that name, path by path.
proof fn lemma_matches_paths(ctx: AppContext, t: Seq<char>, ms: Seq<ManagedVenvInfo>)
    requires
        forall|v: Seq<char>, n: Seq<char>, i: ManagedVenvInfo|
            venv_entry(ctx, v, n) && #[trigger] listed(ctx, i, v, n) && name_key(ctx, i.name@) == name_key(ctx, t)
                ==> exists|k: int| 0 <= k < ms.len() && #[trigger] listed(ctx, ms[k], v, n),
    ensures
        covers_paths(ctx, t, ms),
{
    reveal(covers_paths);
    assert forall|j: ManagedVenvInfo| #[trigger] name_match(ctx, j, t) implies exists|k: int| 0 <= k < ms.len() && (#[trigger] ms[k]).path@ == j.path@ by {
        let (v, n) = choose|v: Seq<char>, n: Seq<char>| venv_entry(ctx, v, n) && #[trigger] listed(ctx, j, v, n);
        let k = choose|k: int| 0 <= k < ms.len() && #[trigger] listed(ctx, ms[k], v, n);
        reveal(listed);
        assert(ms[k].path@ == j.path@);
    }
}

/// The managed venvs named `t`, each once, sorted by spec.
fn name_matches(ctx: &AppContext, t: &str) -> (r: Vec<ManagedVenvInfo>)
    ensures
        specs_sorted(r@),
        paths_distinct(r@),
        forall|k: int| 0 <= k < r@.len() ==> name_match(*ctx, #[trigger] r@[k], t@),
        covers_paths(*ctx, t@, r@),
{
    let ms = find_env_name_matches(ctx, t);
    proof {
        lemma_matches_paths(*ctx, t@, ms@);
    }
    ms
}

/// The one record named `t`, up to its path.
pub open spec fn unique_match(ctx: AppContext, t: Seq<char>, i: ManagedVenvInfo) -> bool {
    name_match(ctx, i, t) && forall|j: ManagedVenvInfo| #[trigger] name_match(ctx, j, t) ==> j.path@ == i.path@
}

/// Two successful resolutions of one spec give the same venv: same spec, same directory,
/// same interpreter and pip.
pub proof fn lemma_resolve_ok_unique(ctx: AppContext, spec: Seq<char>, a: ManagedVenvInfo, b: ManagedVenvInfo)
    requires
        resolve_ok(ctx, spec, a),
        resolve_ok(ctx, spec, b),
    ensures
        a.spec@ == b.spec@,
        a.path@ == b.path@,
        a.name@ == b.name@,
        a.base_version@ == b.base_version@,
        opt_view(a.python_path) == opt_view(b.python_path),
        opt_view(a.pip_path) == opt_view(b.pip_path),
{
    let t = trim(spec);
    if split_spec(t) is None {
        assert(name_match(ctx, a, t) && name_match(ctx, b, t));
        assert(b.path@ == a.path@);
        let (v1, n1) = choose|v: Seq<char>, n: Seq<char>| venv_entry(ctx, v, n) && #[trigger] listed(ctx, a, v, n);
        let (v2, n2) = choose|v: Seq<char>, n: Seq<char>| venv_entry(ctx, v, n) && #[trigger] listed(ctx, b, v, n);
        lemma_listed_same_path(ctx, a, v1, n1, b, v2, n2);
        reveal(listed);
    }
}

/// A spec that resolves is never also refused: success and the errors exclude each other.
pub proof fn lemma_resolve_ok_excludes_err(ctx: AppContext, spec: Seq<char>, i: ManagedVenvInfo, msg: Seq<char>)
    requires
        resolve_ok(ctx, spec, i),
    ensures
        !resolve_err(ctx, spec, msg),
{
    let t = trim(spec);
    if split_spec(t) is None && resolve_err(ctx, spec, msg) {
        assert(name_match(ctx, i, t));
        let m = choose|m: Seq<ManagedVenvInfo>| #[trigger] ambiguous_text(t, m) == msg && ambiguous_matches(ctx, t, m);
        assert(name_match(ctx, m[0], t) && name_match(ctx, m[1], t));
        assert(m[0].path@ == i.path@ && m[1].path@ == i.path@);
        assert(false);
    }
}

/// What a short name resolves to: the one managed venv with that name, or the error.
#[verifier::rlimit(60)]
#[verifier::spinoff_prover]
fn resolve_by_name(ctx: &AppContext, trimmed: &String) -> (r: Result<ManagedVenvInfo, PyenvError>)
    requires
        trimmed@.len() > 0,
    ensures
        match r {
            Ok(i) => unique_match(*ctx, trimmed@, i),
            Err(e) => if forall|j: ManagedVenvInfo| !#[trigger] name_match(*ctx, j, trimmed@) {
                error_text(e) == no_such_name_text(trimmed@)
            } else {
                exists|m: Seq<ManagedVenvInfo>| #[trigger] ambiguous_text(trimmed@, m) == error_text(e) && ambiguous_matches(*ctx, trimmed@, m)
            },
        },
        (exists|i: ManagedVenvInfo| #[trigger] unique_match(*ctx, trimmed@, i)) ==> r is Ok,
{
    let matches = name_matches(ctx, trimmed.as_str());
    if matches.len() == 0 {
        proof {
            reveal(covers_paths);
            assert forall|j: ManagedVenvInfo| !#[trigger] name_match(*ctx, j, trimmed@) by {
                if name_match(*ctx, j, trimmed@) {
                    let k = choose|k: int| 0 <= k < matches@.len() && (#[trigger] matches@[k]).path@ == j.path@;
                }
            }
        }
        Err(PyenvError::Io(cat3("pyenv: no managed venv named `", trimmed.as_str(), "` was found")))
    } else if matches.len() == 1 {
        let info = matches[0].duplicate();
        proof {
            reveal(covers_paths);
            assert(name_match(*ctx, matches@[0], trimmed@));
            assert forall|j: ManagedVenvInfo| #[trigger] name_match(*ctx, j, trimmed@) implies j.path@ == info.path@ by {
                let k = choose|k: int| 0 <= k < matches@.len() && (#[trigger] matches@[k]).path@ == j.path@;
            }
        }
        Ok(info)
    } else {
        let listed_specs = render_quoted_specs(&matches);
        let head = cat3("pyenv: managed venv name `", trimmed.as_str(), "` is ambiguous; use one of: ");
        let msg = cat(head.as_str(), listed_specs.as_str());
        proof {
            assert(ambiguous_text(trimmed@, matches@) == msg@);
            assert(ambiguous_matches(*ctx, trimmed@, matches@));
            assert(name_match(*ctx, matches@[0], trimmed@));
            if exists|i: ManagedVenvInfo| #[trigger] unique_match(*ctx, trimmed@, i) {
                let i = choose|i: ManagedVenvInfo| #[trigger] unique_match(*ctx, trimmed@, i);
                assert(name_match(*ctx, matches@[1], trimmed@));
                assert(matches@[0].path@ != matches@[1].path@);
            }
        }
        Err(PyenvError::Io(msg))
    }
}

/// Resolves a spec (`<runtime>/envs/<name>`) or a unique short name to a managed venv.
#[verifier::rlimit(80)]
#[verifier::spinoff_prover]
pub fn resolve_managed_venv(ctx: &AppContext, spec: &str) -> (r: Result<ManagedVenvInfo, PyenvError>)
    ensures
        match r {
            Ok(i) => resolve_ok(*ctx, spec@, i),
            Err(e) => resolve_err(*ctx, spec@, error_text(e)),
        },
        trim(spec@).len() == 0 ==> r is Err,
        trim(spec@).len() > 0 && split_spec(trim(spec@)) is Some ==> (r is Ok <==> venv_spec_present(*ctx, spec@)),
        trim(spec@).len() > 0 && split_spec(trim(spec@)) is None && (forall|j: ManagedVenvInfo| !#[trigger] name_match(*ctx, j, trim(spec@))) ==> r is Err,
        (exists|i: ManagedVenvInfo| #[trigger] resolve_ok(*ctx, spec@, i)) ==> r is Ok,
{
    let trimmed = trim_str(spec);
    if trimmed.as_str().is_empty() {
        return Err(PyenvError::Io(owned("pyenv: managed venv spec cannot be empty")));
    }
    match split_managed_venv_spec(trimmed.as_str()) {
        Some((b, n)) => {
            let path = managed_venv_dir(ctx, b.as_str(), n.as_str());
            let info = build_managed_venv_info(ctx, b, n, path);
            if ctx.fs.is_dir(info.path.as_str()) {
                Ok(info)
            } else {
                Err(PyenvError::Io(cat3("pyenv: managed venv `", info.spec.as_str(), "` is not installed")))
            }
        },
        None => resolve_by_name(ctx, &trimmed),
    }
}

/// Letters, digits, `.`, `_` and `-` only, and not blank.
pub open spec fn safe_env_name(v: Seq<char>) -> bool {
    trim(v).len() > 0 && forall|i: int| 0 <= i < v.len() ==> #[trigger] name_char(v[i])
}

/// A character allowed in a venv name.
pub open spec fn name_char(c: char) -> bool {
    ('a' <= c && c <= 'z') || ('A' <= c && c <= 'Z') || ('0' <= c && c <= '9') || c == '.' || c == '_' || c == '-'
}

/// Whether a venv name is safe to use as a directory name.
pub fn is_safe_env_name(value: &str) -> (r: bool)
    ensures
        r == safe_env_name(value@),
{
    let t = trim_str(value);
    if t.as_str().is_empty() {
        return false;
    }
    let v = crate::strings::chars_of(value);
    let mut i: usize = 0;
    while i < v.len()
        invariant
            i <= v@.len(),
            v@ == value@,
            forall|j: int| 0 <= j < i ==> #[trigger] name_char(v@[j]),
        decreases v.len() - i,
    {
        let c = v[i];
        if !(('a' <= c && c <= 'z') || ('A' <= c && c <= 'Z') || ('0' <= c && c <= '9') || c == '.' || c == '_' || c == '-') {
            assert(!name_char(v@[i as int]));
            return false;
        }
        i = i + 1;
    }
    true
}

/// The message for a name already used by other managed venvs.
pub open spec fn collision_text(name: Seq<char>, collisions: Seq<ManagedVenvInfo>) -> Seq<char> {
    "pyenv: managed venv name `"@ + name + "` already exists; use a unique name or reference one of: "@ + quoted_specs(collisions)
}

/// The collision message listing the colliding specs.
pub fn format_collision_error(name: &str, collisions: &Vec<ManagedVenvInfo>) -> (r: String)
    ensures
        r@ == collision_text(name@, collisions@),
{
    let head = cat3("pyenv: managed venv name `", name, "` already exists; use a unique name or reference one of: ");
    let tail = render_quoted_specs(collisions);
    cat(head.as_str(), tail.as_str())
}

/// The runtime a venv is created on: the request without `python-` and trimmed, when
/// installed, else the newest installed match.
pub open spec fn runtime_for(ctx: AppContext, requested: Seq<char>) -> Option<Seq<char>> {
    let n = trim(strip_prefix_or_self(requested, "python-"@));
    if ctx.fs.has_dir(installed_dir(ctx, n)) {
        Some(n)
    } else {
        latest_installed(ctx, n)
    }
}

/// Resolves the runtime to create a venv on.
pub fn resolve_installed_runtime_version(ctx: &AppContext, requested_version: &str) -> (r: Result<String, PyenvError>)
    ensures
        match runtime_for(*ctx, requested_version@) {
            Some(v) => r matches Ok(s) && s@ == v,
            None => r matches Err(e) && error_text(e) == not_installed_text(
                trim(strip_prefix_or_self(requested_version@, "python-"@)),
                "pyenv venv create"@,
            ),
        },
{
    let stripped = strip_prefix_str(requested_version, "python-");
    let normalized = trim_str(stripped.as_str());
    let dir = installed_version_dir(ctx, normalized.as_str());
    if ctx.fs.is_dir(dir.as_str()) {
        return Ok(normalized);
    }
    match latest_installed_version(ctx, normalized.as_str()) {
        Some(v) => Ok(v),
        None => Err(PyenvError::VersionNotInstalled(normalized, owned("pyenv venv create"))),
    }
}

} // verus!

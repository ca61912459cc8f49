//! Which runtimes are active: read from `PYENV_VERSION` or the governing version file, each
//! resolved to an installed runtime, a managed venv, or the newest installed match.
use vstd::prelude::*;

use crate::catalog::{latest_installed, latest_installed_version};
use crate::context::{join_path, join_path_str, AppContext};
use crate::error::{error_text, not_installed_text, PyenvError};
use crate::strings::{
    lines, owned, split_char, split_on, str_eq, strip_prefix_or_self, strip_prefix_str, text_lines,
    words, words_of,
};
use crate::venv_paths::{managed_venv_dir_from_spec, split_spec, venv_dir_spec};
use crate::version::files::{
    find_local, global_file_name, law_version_file_round_trip, local_file_name, parent, plain_version, read_version_file,
    scan_versions, version_file_for, version_file_path, version_file_text,
};

verus! {

broadcast use vstd::string::group_string_axioms;

/// Where the active versions were set.
pub enum VersionOrigin {
    /// The `PYENV_VERSION` environment variable.
    Environment,
    /// A version file.
    File(String),
}

/// How an origin is printed.
pub open spec fn origin_text(o: VersionOrigin) -> Seq<char> {
    match o {
        VersionOrigin::Environment => "PYENV_VERSION environment variable"@,
        VersionOrigin::File(p) => p@,
    }
}

impl VersionOrigin {
    /// How the origin is printed.
    pub fn to_string(&self) -> (r: String)
        ensures
            r@ == origin_text(*self),
    {
        match self {
            VersionOrigin::Environment => owned("PYENV_VERSION environment variable"),
            VersionOrigin::File(p) => p.clone(),
        }
    }
}

/// The resolved active versions, those that could not be found, and where they were set.
pub struct SelectedVersions {
    pub versions: Vec<String>,
    pub missing: Vec<String>,
    pub origin: VersionOrigin,
}

/// The words of each `:`-separated segment, in order.
pub open spec fn flat_words(parts: Seq<Seq<char>>) -> Seq<Seq<char>>
    decreases parts.len(),
{
    if parts.len() == 0 {
        seq![]
    } else {
        flat_words(parts.drop_last()) + words(parts.last())
    }
}

/// The versions named by a `PYENV_VERSION` value.
pub open spec fn env_versions(value: Seq<char>) -> Seq<Seq<char>> {
    flat_words(split_char(value, ':'))
}

/// Splits a `PYENV_VERSION` value at `:` and whitespace.
pub fn parse_env_versions(value: &str) -> (r: Vec<String>)
    ensures
        lines(r@) == env_versions(value@),
{
    let segments = split_on(value, ':');
    let mut out: Vec<String> = Vec::new();
    let mut i: usize = 0;
    while i < segments.len()
        invariant
            i <= segments@.len(),
            lines(segments@) == split_char(value@, ':'),
            lines(out@) == flat_words(lines(segments@).take(i as int)),
        decreases segments.len() - i,
    {
        assert(lines(segments@).take(i + 1).drop_last() =~= lines(segments@).take(i as int));
        let ws = words_of(segments[i].as_str());
        let mut j: usize = 0;
        let ghost before = lines(out@);
        while j < ws.len()
            invariant
                j <= ws@.len(),
                lines(out@) == before + lines(ws@).take(j as int),
            decreases ws.len() - j,
        {
            let w = ws[j].clone();
            assert(w@ == lines(ws@)[j as int]);
            let ghost old_out = out@;
            out.push(w);
            assert(lines(out@) =~= lines(old_out).push(lines(ws@)[j as int]));
            assert(lines(ws@).take(j + 1) =~= lines(ws@).take(j as int).push(lines(ws@)[j as int]));
            assert(lines(out@) =~= before + lines(ws@).take(j + 1));
            j = j + 1;
        }
        assert(lines(ws@).take(ws@.len() as int) =~= lines(ws@));
        i = i + 1;
    }
    assert(lines(segments@).take(segments@.len() as int) =~= lines(segments@));
    out
}

/// A version without a leading `python-`.
pub open spec fn normalized_name(v: Seq<char>) -> Seq<char> {
    strip_prefix_or_self(v, "python-"@)
}

/// Drops a leading `python-`.
pub fn normalize_version_name(version: &str) -> (r: String)
    ensures
        r@ == normalized_name(version@),
{
    strip_prefix_str(version, "python-")
}

/// `<root>/versions/<version>`.
pub open spec fn installed_dir(ctx: AppContext, version: Seq<char>) -> Seq<char> {
    join_path(ctx.versions_dir_spec(), version)
}

/// The directory a runtime is installed in.
pub fn installed_version_dir(ctx: &AppContext, version: &str) -> (r: String)
    ensures
        r@ == installed_dir(*ctx, version@),
{
    let base = ctx.versions_dir();
    join_path_str(base.as_str(), version)
}

/// `system`, an installed runtime, or an existing managed venv.
pub open spec fn version_present(ctx: AppContext, v: Seq<char>) -> bool {
    ||| v == "system"@
    ||| ctx.fs.has_dir(installed_dir(ctx, v))
    ||| (split_spec(v) matches Some((b, n)) && ctx.fs.has_dir(venv_dir_spec(ctx, b, n)))
}

/// Whether a version names something that can run.
pub fn version_exists(ctx: &AppContext, version: &str) -> (r: bool)
    ensures
        r == version_present(*ctx, version@),
{
    proof {
        reveal_strlit("system");
    }
    if str_eq(version, "system") {
        return true;
    }
    let dir = installed_version_dir(ctx, version);
    if ctx.fs.is_dir(dir.as_str()) {
        return true;
    }
    match managed_venv_dir_from_spec(ctx, version) {
        Some(p) => ctx.fs.is_dir(p.as_str()),
        None => false,
    }
}

/// What a requested version resolves to: itself, without `python-`, the newest installed
/// match of either, the name without `python-` when forced, or nothing.
pub open spec fn resolve_one(ctx: AppContext, raw: Seq<char>, force: bool) -> Option<Seq<char>> {
    let n = normalized_name(raw);
    if version_present(ctx, raw) {
        Some(raw)
    } else if version_present(ctx, n) {
        Some(n)
    } else if latest_installed(ctx, raw) is Some {
        latest_installed(ctx, raw)
    } else if latest_installed(ctx, n) is Some {
        latest_installed(ctx, n)
    } else if force {
        Some(n)
    } else {
        None
    }
}

/// The resolved versions and the missing ones, in request order.
pub open spec fn resolve_all(ctx: AppContext, raws: Seq<Seq<char>>, force: bool) -> (
    Seq<Seq<char>>,
    Seq<Seq<char>>,
)
    decreases raws.len(),
{
    if raws.len() == 0 {
        (seq![], seq![])
    } else {
        let (ok, missing) = resolve_all(ctx, raws.drop_last(), force);
        match resolve_one(ctx, raws.last(), force) {
            Some(v) => (ok.push(v), missing),
            None => (ok, missing.push(raws.last())),
        }
    }
}

/// The versions requested before resolution: `PYENV_VERSION`, else the governing version
/// file, else `system`.
pub open spec fn requested_versions(ctx: AppContext) -> Seq<Seq<char>> {
    match ctx.env_version {
        Some(e) => env_versions(e@),
        None => match ctx.fs.file_text(version_file_for(ctx, ctx.dir@)) {
            Some(t) => {
                let ok = scan_versions(text_lines(t)).0;
                if ok.len() > 0 {
                    ok
                } else {
                    seq!["system"@]
                }
            },
            None => seq!["system"@],
        },
    }
}

/// The active versions and the missing ones.
pub open spec fn selection(ctx: AppContext, force: bool) -> (Seq<Seq<char>>, Seq<Seq<char>>) {
    let raws = requested_versions(ctx);
    let (ok, missing) = resolve_all(ctx, raws, force);
    if ok.len() == 0 && missing.len() == 0 {
        (seq!["system"@], seq![])
    } else {
        (ok, missing)
    }
}

/// The origin of the active versions.
pub open spec fn origin_of(ctx: AppContext) -> Seq<char> {
    if ctx.env_version is Some {
        "PYENV_VERSION environment variable"@
    } else {
        version_file_for(ctx, ctx.dir@)
    }
}

/// Where the active versions are set: the environment, or the governing version file.
pub fn version_origin(ctx: &AppContext) -> (r: VersionOrigin)
    ensures
        r is Environment <==> ctx.env_version is Some,
        origin_text(r) == origin_of(*ctx),
{
    if ctx.env_version.is_some() {
        VersionOrigin::Environment
    } else {
        VersionOrigin::File(version_file_path(ctx, None))
    }
}

/// Resolves one requested version.
pub fn resolve_version(ctx: &AppContext, raw: &str, force: bool) -> (r: Option<String>)
    ensures
        match r {
            Some(v) => resolve_one(*ctx, raw@, force) == Some(v@),
            None => resolve_one(*ctx, raw@, force) is None,
        },
{
    let normalized = normalize_version_name(raw);
    if version_exists(ctx, raw) {
        return Some(owned(raw));
    }
    if version_exists(ctx, normalized.as_str()) {
        return Some(normalized);
    }
    match latest_installed_version(ctx, raw) {
        Some(v) => {
            return Some(v);
        },
        None => {},
    }
    match latest_installed_version(ctx, normalized.as_str()) {
        Some(v) => {
            return Some(v);
        },
        None => {},
    }
    if force {
        Some(normalized)
    } else {
        None
    }
}

fn system_only() -> (r: Vec<String>)
    ensures
        lines(r@) == seq!["system"@],
{
    let mut v: Vec<String> = Vec::new();
    v.push(owned("system"));
    assert(lines(v@) =~= seq!["system"@]);
    v
}

/// The requested versions that resolve to nothing.
pub open spec fn unresolved(ctx: AppContext, force: bool) -> spec_fn(Seq<char>) -> bool {
    |r: Seq<char>| resolve_one(ctx, r, force) is None
}

/// The requested versions that resolve.
pub open spec fn resolvable(ctx: AppContext, force: bool) -> spec_fn(Seq<char>) -> bool {
    |r: Seq<char>| resolve_one(ctx, r, force) is Some
}

/// What a requested version that resolves resolves to.
pub open spec fn resolved_as(ctx: AppContext, force: bool) -> spec_fn(Seq<char>) -> Seq<char> {
    |r: Seq<char>| resolve_one(ctx, r, force).unwrap()
}

/// Resolution sorts every requested version into exactly one of the two lists, keeping the
/// request order in both: the resolved ones (each as what it resolves to) and the missing ones
/// (as requested). `system` always resolves, and with `force` nothing is missing.
pub proof fn law_resolve_all_partition(ctx: AppContext, raws: Seq<Seq<char>>, force: bool)
    ensures
        resolve_all(ctx, raws, force).0.len() + resolve_all(ctx, raws, force).1.len() == raws.len(),
        resolve_all(ctx, raws, force).1 == raws.filter(unresolved(ctx, force)),
        resolve_all(ctx, raws, force).0 == raws.filter(resolvable(ctx, force)).map_values(resolved_as(ctx, force)),
        resolve_one(ctx, "system"@, force) == Some("system"@),
        force ==> resolve_all(ctx, raws, force).1.len() == 0,
    decreases raws.len(),
{
    reveal(Seq::filter);
    if raws.len() > 0 {
        law_resolve_all_partition(ctx, raws.drop_last(), force);
        let f = resolvable(ctx, force);
        let sub = raws.drop_last().filter(f);
        if f(raws.last()) {
            assert(sub.push(raws.last()).map_values(resolved_as(ctx, force))
                =~= sub.map_values(resolved_as(ctx, force)).push(resolve_one(ctx, raws.last(), force).unwrap()));
        }
    }
}

/// When versions are requested, the active and missing versions together are exactly the
/// requested ones, in request order: each resolved one as what it resolves to, each missing
/// one as requested. Nothing requested means `system`.
pub proof fn law_selection_partition(ctx: AppContext, force: bool)
    ensures
        requested_versions(ctx).len() > 0 ==> {
            &&& selection(ctx, force) == resolve_all(ctx, requested_versions(ctx), force)
            &&& selection(ctx, force).0.len() + selection(ctx, force).1.len() == requested_versions(ctx).len()
            &&& selection(ctx, force).1 == requested_versions(ctx).filter(unresolved(ctx, force))
            &&& selection(ctx, force).0 == requested_versions(ctx).filter(resolvable(ctx, force)).map_values(resolved_as(ctx, force))
        },
        requested_versions(ctx).len() == 0 ==> selection(ctx, force) == (seq!["system"@], Seq::<Seq<char>>::empty()),
{
    law_resolve_all_partition(ctx, requested_versions(ctx), force);
    if requested_versions(ctx).len() == 0 {
        assert(requested_versions(ctx) =~= Seq::<Seq<char>>::empty());
    }
}

/// The versions requested before resolution.
pub fn requested_version_list(ctx: &AppContext) -> (r: Vec<String>)
    ensures
        lines(r@) == requested_versions(*ctx),
{
    match &ctx.env_version {
        Some(e) => parse_env_versions(e.as_str()),
        None => {
            let path = version_file_path(ctx, None);
            match read_version_file(&ctx.fs, path.as_str()) {
                Ok(v) => v,
                Err(_) => system_only(),
            }
        },
    }
}

/// The active versions: each requested version resolved, the unresolved ones listed as
/// missing (none when `force`), and `system` when nothing is requested.
pub fn resolve_selected_versions(ctx: &AppContext, force: bool) -> (r: SelectedVersions)
    ensures
        lines(r.versions@) == selection(*ctx, force).0,
        lines(r.missing@) == selection(*ctx, force).1,
        origin_text(r.origin) == origin_of(*ctx),
        r.origin is Environment <==> ctx.env_version is Some,
        force ==> r.missing@.len() == 0,
        requested_versions(*ctx).len() > 0 ==> r.versions@.len() + r.missing@.len() == requested_versions(*ctx).len()
            && lines(r.missing@) == requested_versions(*ctx).filter(unresolved(*ctx, force)),
{
    proof {
        law_selection_partition(*ctx, force);
    }
    let raws = requested_version_list(ctx);
    let origin = version_origin(ctx);
    let mut versions: Vec<String> = Vec::new();
    let mut missing: Vec<String> = Vec::new();
    let mut i: usize = 0;
    while i < raws.len()
        invariant
            i <= raws@.len(),
            lines(versions@) == resolve_all(*ctx, lines(raws@).take(i as int), force).0,
            lines(missing@) == resolve_all(*ctx, lines(raws@).take(i as int), force).1,
            force ==> missing@.len() == 0,
            versions@.len() + missing@.len() == i,
        decreases raws.len() - i,
    {
        assert(lines(raws@).take(i + 1).drop_last() =~= lines(raws@).take(i as int));
        assert(lines(raws@).take(i + 1).last() == raws@[i as int]@);
        match resolve_version(ctx, raws[i].as_str(), force) {
            Some(v) => {
                let ghost before = lines(versions@);
                versions.push(v);
                assert(lines(versions@) =~= before.push(versions@[versions@.len() - 1]@));
            },
            None => {
                let ghost before = lines(missing@);
                missing.push(raws[i].clone());
                assert(lines(missing@) =~= before.push(raws@[i as int]@));
            },
        }
        i = i + 1;
    }
    assert(lines(raws@).take(raws@.len() as int) =~= lines(raws@));
    if versions.len() == 0 && missing.len() == 0 {
        versions = system_only();
    }
    SelectedVersions { versions, missing, origin }
}

/// A version counts as available: present, present without `python-`, or the prefix of an
/// installed runtime (either way).
pub open spec fn version_available(ctx: AppContext, v: Seq<char>) -> bool {
    let n = normalized_name(v);
    version_present(ctx, v) || version_present(ctx, n) || latest_installed(ctx, v) is Some
        || latest_installed(ctx, n) is Some
}

/// The first version in the list that is not available.
pub open spec fn first_unavailable(ctx: AppContext, vs: Seq<Seq<char>>) -> Option<int>
    decreases vs.len(),
{
    if vs.len() == 0 {
        None
    } else {
        match first_unavailable(ctx, vs.drop_last()) {
            Some(i) => Some(i),
            None => if version_available(ctx, vs.last()) {
                None
            } else {
                Some(vs.len() - 1)
            },
        }
    }
}

/// Fails on the first version that is not available, unless `force`.
pub fn ensure_versions_exist(ctx: &AppContext, versions: &Vec<String>, force: bool, origin: &str) -> (r: Result<(), PyenvError>)
    ensures
        force ==> r is Ok,
        !force ==> match first_unavailable(*ctx, lines(versions@)) {
            None => r is Ok,
            Some(i) => r matches Err(e) && e is VersionNotInstalled && error_text(e)
                == not_installed_text(versions@[i]@, origin@),
        },
{
    if force {
        return Ok(());
    }
    let mut i: usize = 0;
    while i < versions.len()
        invariant
            i <= versions@.len(),
            !force,
            first_unavailable(*ctx, lines(versions@).take(i as int)) is None,
        decreases versions.len() - i,
    {
        assert(lines(versions@).take(i + 1).drop_last() =~= lines(versions@).take(i as int));
        assert(lines(versions@).take(i + 1).last() == versions@[i as int]@);
        let v = versions[i].as_str();
        let n = normalize_version_name(v);
        let available = version_exists(ctx, v) || version_exists(ctx, n.as_str())
            || latest_installed_version(ctx, v).is_some() || latest_installed_version(
            ctx,
            n.as_str(),
        ).is_some();
        if !available {
            proof {
                lemma_first_unavailable_prefix(*ctx, lines(versions@), i as int + 1);
            }
            return Err(PyenvError::VersionNotInstalled(versions[i].clone(), owned(origin)));
        }
        i = i + 1;
    }
    assert(lines(versions@).take(versions@.len() as int) =~= lines(versions@));
    Ok(())
}

proof fn lemma_first_unavailable_prefix(ctx: AppContext, vs: Seq<Seq<char>>, k: int)
    requires
        0 <= k <= vs.len(),
        first_unavailable(ctx, vs.take(k)) is Some,
    ensures
        first_unavailable(ctx, vs) == first_unavailable(ctx, vs.take(k)),
    decreases vs.len() - k,
{
    if k < vs.len() {
        assert(vs.take(k + 1).drop_last() =~= vs.take(k));
        lemma_first_unavailable_prefix(ctx, vs, k + 1);
    } else {
        assert(vs.take(k) =~= vs);
    }
}

/// The order the active versions are looked up in: `PYENV_VERSION` first; else the nearest
/// `.python-version`, in the working directory or the closest parent that has one; else the
/// global version file; and `system` when the governing file names no usable version.
pub proof fn law_selection_precedence(ctx: AppContext)
    ensures
        ctx.env_version matches Some(e) ==> requested_versions(ctx) == env_versions(e@)
            && origin_of(ctx) == "PYENV_VERSION environment variable"@,
        ctx.env_version is None && ctx.fs.has_file(join_path(ctx.dir@, local_file_name()))
            ==> origin_of(ctx) == join_path(ctx.dir@, local_file_name()),
        ctx.env_version is None && !ctx.fs.has_file(join_path(ctx.dir@, local_file_name()))
            && parent(ctx.dir@) is Some && parent(ctx.dir@)->0.len() < ctx.dir@.len()
            ==> origin_of(ctx) == version_file_for(ctx, parent(ctx.dir@)->0),
        ctx.env_version is None && find_local(ctx.fs, ctx.dir@) is None
            ==> origin_of(ctx) == join_path(ctx.root@, global_file_name()),
        ctx.env_version is None ==> requested_versions(ctx) == match ctx.fs.file_text(origin_of(ctx)) {
            Some(t) => if scan_versions(text_lines(t)).0.len() > 0 {
                scan_versions(text_lines(t)).0
            } else {
                seq!["system"@]
            },
            None => seq!["system"@],
        },
{
}

proof fn lemma_first_entry_text(fs: crate::context::FsSnapshot, p: Seq<char>)
    requires
        fs.files@.len() > 0,
        fs.files@[0].path@ == p,
    ensures
        fs.has_file(p),
        fs.file_text(p) == Some(fs.files@[0].contents@),
{
    assert(fs.files@[0].path@ == p);
    let k = fs.file_index(p);
    assert(0 <= k < fs.files@.len() && fs.files@[k].path@ == p && forall|j: int| 0 <= j < k ==> (#[trigger] fs.files@[j]).path@ != p);
    if k > 0 {
        assert(fs.files@[0].path@ != p);
    }
}

/// What `pyenv local` writes is what the directory then asks for: once the written
/// `.python-version` stands first in the snapshot (and `PYENV_VERSION` is unset), the
/// requested versions are exactly the ones written, read from that file.
pub proof fn law_local_write_read_back(after: AppContext, vs: Seq<Seq<char>>)
    requires
        vs.len() > 0,
        forall|i: int| 0 <= i < vs.len() ==> plain_version(#[trigger] vs[i]),
        after.env_version is None,
        after.fs.files@.len() > 0,
        after.fs.files@[0].path@ == join_path(after.dir@, local_file_name()),
        after.fs.files@[0].contents@ == version_file_text(vs),
    ensures
        origin_of(after) == join_path(after.dir@, local_file_name()),
        requested_versions(after) == vs,
{
    lemma_first_entry_text(after.fs, join_path(after.dir@, local_file_name()));
    law_version_file_round_trip(vs);
}

/// What `pyenv global` writes is what a directory without a local version file then asks
/// for: once the written `<root>/version` stands first in the snapshot (and `PYENV_VERSION`
/// is unset), the requested versions are exactly the ones written.
pub proof fn law_global_write_read_back(after: AppContext, vs: Seq<Seq<char>>)
    requires
        vs.len() > 0,
        forall|i: int| 0 <= i < vs.len() ==> plain_version(#[trigger] vs[i]),
        after.env_version is None,
        find_local(after.fs, after.dir@) is None,
        after.fs.files@.len() > 0,
        after.fs.files@[0].path@ == join_path(after.root@, global_file_name()),
        after.fs.files@[0].contents@ == version_file_text(vs),
    ensures
        origin_of(after) == join_path(after.root@, global_file_name()),
        requested_versions(after) == vs,
{
    lemma_first_entry_text(after.fs, join_path(after.root@, global_file_name()));
    law_version_file_round_trip(vs);
}

} // verus!

//! The managed-venv commands: listing, describing, selecting, and the checks and plans for
//! creating, deleting, renaming and upgrading a managed venv.
use vstd::prelude::*;

use crate::context::{join_path, AppContext};
use crate::error::{error_text, not_installed_text, PyenvError};
use crate::report::CommandReport;
use crate::strings::{cat, cat3, cat5, lines, owned, strip_prefix_or_self, trim};
use crate::venv::inventory::{
    describes, find_env_name_matches, format_collision_error, interpreter_for_prefix, interpreter_of,
    is_listed, is_safe_env_name, lemma_resolve_ok_unique, paths_distinct, list_managed_venvs, listed, name_match, opt_view, quoted_specs,
    resolve_err, resolve_installed_runtime_version, resolve_managed_venv, resolve_ok, runtime_for,
    safe_env_name, specs_sorted, venv_entry, ManagedVenvInfo, VenvUseScope, collision_text,
};
use crate::venv_paths::{managed_venv_dir, managed_venv_spec, managed_venvs_root, split_spec, venv_dir_spec, venv_spec, venvs_root_spec};
use crate::version::commands::{cmd_global, cmd_local, VersionFileChange};
use crate::venv::upgrade::{code_debug, code_text};
use crate::version::selection::{first_unavailable, installed_dir, installed_version_dir};

verus! {

broadcast use vstd::string::group_string_axioms;

/// A listing of managed venvs: sorted by spec, each venv directory once, every record listed,
/// every venv present.
pub open spec fn venv_listing(ctx: AppContext, items: Seq<ManagedVenvInfo>) -> bool {
    &&& specs_sorted(items)
    &&& paths_distinct(items)
    &&& forall|k: int| 0 <= k < items.len() ==> is_listed(ctx, #[trigger] items[k])
    &&& forall|v: Seq<char>, n: Seq<char>|
        #[trigger] venv_entry(ctx, v, n) && split_spec(venv_spec(v, n)) is Some ==> exists|k: int|
            0 <= k < items.len() && #[trigger] listed(ctx, items[k], v, n)
}

/// An optional path, or `missing`.
pub open spec fn or_missing(p: Option<String>) -> Seq<char> {
    match p {
        Some(s) => s@,
        None => "missing"@,
    }
}

fn render_or_missing(p: &Option<String>) -> (r: String)
    ensures
        r@ == or_missing(*p),
{
    match p {
        Some(s) => s.clone(),
        None => owned("missing"),
    }
}

/// One line of the listing.
pub open spec fn listing_line(i: ManagedVenvInfo) -> Seq<char> {
    "  - "@ + i.spec@ + " (base "@ + i.base_version@ + ", python "@ + or_missing(i.python_path) + ")"@
}

/// What `venv list` prints for the records.
pub open spec fn listing_lines(items: Seq<ManagedVenvInfo>, bare: bool) -> Seq<Seq<char>> {
    if bare {
        items.map_values(|i: ManagedVenvInfo| i.spec@)
    } else if items.len() == 0 {
        seq!["No managed virtual environments found."@, "Create one with `pyenv venv create <runtime> <name>`."@]
    } else {
        seq!["Managed virtual environments:"@] + items.map_values(|i: ManagedVenvInfo| listing_line(i))
    }
}

/// Lists the managed venvs: their specs when `bare`, else a line per venv.
pub fn cmd_venv_list(ctx: &AppContext, bare: bool) -> (r: CommandReport)
    ensures
        exists|items: Seq<ManagedVenvInfo>| #[trigger] venv_listing(*ctx, items) && r.out() == listing_lines(items, bare),
        r.stderr@.len() == 0,
        r.exit_code == 0,
{
    let venvs = list_managed_venvs(ctx);
    assert(venv_listing(*ctx, venvs@));
    let mut out: Vec<String> = Vec::new();
    if bare {
        let mut i: usize = 0;
        while i < venvs.len()
            invariant
                i <= venvs@.len(),
                lines(out@) == venvs@.take(i as int).map_values(|x: ManagedVenvInfo| x.spec@),
            decreases venvs.len() - i,
        {
            let ghost before = lines(out@);
            out.push(venvs[i].spec.clone());
            assert(lines(out@) =~= before.push(venvs@[i as int].spec@));
            assert(venvs@.take(i + 1).map_values(|x: ManagedVenvInfo| x.spec@) =~= venvs@.take(i as int).map_values(|x: ManagedVenvInfo| x.spec@).push(venvs@[i as int].spec@));
            i = i + 1;
        }
        assert(venvs@.take(venvs@.len() as int) =~= venvs@);
        return CommandReport::success(out);
    }
    if venvs.len() == 0 {
        out.push(owned("No managed virtual environments found."));
        out.push(owned("Create one with `pyenv venv create <runtime> <name>`."));
        assert(lines(out@) =~= listing_lines(venvs@, bare));
        return CommandReport::success(out);
    }
    out.push(owned("Managed virtual environments:"));
    let mut i: usize = 0;
    while i < venvs.len()
        invariant
            i <= venvs@.len(),
            lines(out@) == seq!["Managed virtual environments:"@] + venvs@.take(i as int).map_values(|x: ManagedVenvInfo| listing_line(x)),
        decreases venvs.len() - i,
    {
        let info = &venvs[i];
        let py = render_or_missing(&info.python_path);
        let a = cat3("  - ", info.spec.as_str(), " (base ");
        let b = cat5(a.as_str(), info.base_version.as_str(), ", python ", py.as_str(), ")");
        let ghost before = lines(out@);
        out.push(b);
        assert(lines(out@) =~= before.push(listing_line(venvs@[i as int])));
        assert(venvs@.take(i + 1).map_values(|x: ManagedVenvInfo| listing_line(x)) =~= venvs@.take(i as int).map_values(|x: ManagedVenvInfo| listing_line(x)).push(listing_line(venvs@[i as int])));
        i = i + 1;
    }
    assert(venvs@.take(venvs@.len() as int) =~= venvs@);
    CommandReport::success(out)
}

/// What `venv info` prints for a record.
pub open spec fn info_lines(i: ManagedVenvInfo) -> Seq<Seq<char>> {
    seq![
        "Name: "@ + i.name@,
        "Spec: "@ + i.spec@,
        "Base runtime: "@ + i.base_version@,
        "Location: "@ + i.path@,
        "Python: "@ + or_missing(i.python_path),
        "Pip: "@ + or_missing(i.pip_path),
    ]
}

fn render_info_lines(info: &ManagedVenvInfo) -> (r: Vec<String>)
    ensures
        lines(r@) == info_lines(*info),
{
    let mut out: Vec<String> = Vec::new();
    out.push(cat("Name: ", info.name.as_str()));
    out.push(cat("Spec: ", info.spec.as_str()));
    out.push(cat("Base runtime: ", info.base_version.as_str()));
    out.push(cat("Location: ", info.path.as_str()));
    let py = render_or_missing(&info.python_path);
    out.push(cat("Python: ", py.as_str()));
    let pip = render_or_missing(&info.pip_path);
    out.push(cat("Pip: ", pip.as_str()));
    assert(lines(out@) =~= info_lines(*info));
    out
}

/// Describes the managed venv a spec or short name resolves to.
pub fn cmd_venv_info(ctx: &AppContext, spec: &str) -> (r: CommandReport)
    ensures
        r.exit_code == 0 ==> exists|i: ManagedVenvInfo| #[trigger] resolve_ok(*ctx, spec@, i) && r.out() == info_lines(i),
        r.exit_code != 0 ==> r.exit_code == 1 && exists|m: Seq<char>| #[trigger] resolve_err(*ctx, spec@, m) && r.err() == seq![m],
        r.exit_code == 0 ==> r.stderr@.len() == 0,
        (exists|i: ManagedVenvInfo| #[trigger] resolve_ok(*ctx, spec@, i)) ==> r.exit_code == 0,
{
    match resolve_managed_venv(ctx, spec) {
        Ok(info) => {
            let out = render_info_lines(&info);
            assert(resolve_ok(*ctx, spec@, info));
            CommandReport::success(out)
        },
        Err(e) => {
            let m = e.message();
            assert(resolve_err(*ctx, spec@, m@));
            CommandReport::failure_one(m)
        },
    }
}

/// The lines printed when a managed venv is selected.
pub open spec fn use_lines(spec: Seq<char>, scope: VenvUseScope) -> Seq<Seq<char>> {
    seq![
        "Selected managed venv "@ + spec + " for "@ + (if scope == VenvUseScope::Local { "local"@ } else { "global"@ }) + " use."@,
        "Hint: `python` and `pip` will now resolve from "@ + spec + " once shims are active."@,
    ]
}

/// Selects a managed venv for the working directory or globally.
#[verifier::rlimit(60)]
#[verifier::spinoff_prover]
pub fn cmd_venv_use(ctx: &AppContext, spec: &str, scope: VenvUseScope) -> (r: (CommandReport, VersionFileChange))
    ensures
        r.0.exit_code == 0 ==> exists|i: ManagedVenvInfo| #[trigger] resolve_ok(*ctx, spec@, i) && r.0.out() == use_lines(i.spec@, scope)
            && (r.1 matches VersionFileChange::Write(w) && w.contents@ == i.spec@ + "\n"@ && w.path@ == (
            if scope == VenvUseScope::Local {
                join_path(ctx.dir@, ".python-version"@)
            } else {
                join_path(ctx.root@, "version"@)
            })),
        r.0.exit_code != 0 ==> r.1 is Keep,
        forall|i: ManagedVenvInfo| #[trigger] resolve_ok(*ctx, spec@, i) ==> (r.0.exit_code == 0 <==> (scope == VenvUseScope::Local
            || first_unavailable(*ctx, seq![i.spec@]) is None)),
        r.0.exit_code != 0 ==> (exists|m: Seq<char>| #[trigger] resolve_err(*ctx, spec@, m) && r.0.err() == seq![m] && r.0.exit_code == 1)
            || (scope == VenvUseScope::Global && exists|i: ManagedVenvInfo| #[trigger] resolve_ok(*ctx, spec@, i)
                && first_unavailable(*ctx, seq![i.spec@]) is Some && r.0.exit_code == 1),
{
    let info = match resolve_managed_venv(ctx, spec) {
        Ok(i) => i,
        Err(e) => {
            let rep = CommandReport::failure_one(e.message());
            assert(rep.err() =~= seq![error_text(e)]);
            return (rep, VersionFileChange::Keep);
        },
    };
    let mut chosen: Vec<String> = Vec::new();
    chosen.push(info.spec.clone());
    proof {
        assert(lines(chosen@) =~= seq![info.spec@]);
        assert(crate::strings::join(lines(chosen@), "\n"@) == info.spec@);
    }
    let (report, change) = match scope {
        VenvUseScope::Local => cmd_local(ctx, &chosen, false, true),
        VenvUseScope::Global => cmd_global(ctx, &chosen, false),
    };
    if report.exit_code != 0 {
        proof {
            assert forall|i: ManagedVenvInfo| #[trigger] resolve_ok(*ctx, spec@, i) implies i.spec@ == info.spec@ by {
                lemma_resolve_ok_unique(*ctx, spec@, i, info);
            }
            assert(resolve_ok(*ctx, spec@, info));
        }
        return (report, VersionFileChange::Keep);
    }
    let label = match scope {
        VenvUseScope::Local => "local",
        VenvUseScope::Global => "global",
    };
    let a = cat5("Selected managed venv ", info.spec.as_str(), " for ", label, " use.");
    let b = cat3("Hint: `python` and `pip` will now resolve from ", info.spec.as_str(), " once shims are active.");
    let mut out: Vec<String> = Vec::new();
    out.push(a);
    out.push(b);
    proof {
        reveal_strlit("local");
        reveal_strlit("global");
        assert(lines(out@) =~= use_lines(info.spec@, scope));
        assert(resolve_ok(*ctx, spec@, info));
        assert forall|i: ManagedVenvInfo| #[trigger] resolve_ok(*ctx, spec@, i) implies i.spec@ == info.spec@ by {
            lemma_resolve_ok_unique(*ctx, spec@, i, info);
        }
    }
    (CommandReport::success(out), change)
}

/// The message for a name that is not safe as a directory name.
pub open spec fn invalid_name_text(name: Seq<char>) -> Seq<char> {
    "pyenv: invalid managed venv name `"@ + name + "`; use letters, numbers, ., _, or -"@
}

/// What creating a managed venv will do, once its checks pass.
pub struct VenvCreatePlan {
    pub requested_version: String,
    pub resolved_version: String,
    pub name: String,
    pub spec: String,
    /// `<root>/venvs`, to be created first.
    pub registry_root: String,
    pub venv_path: String,
    /// The interpreter that runs `-m venv`.
    pub interpreter: String,
    /// Something is already at `venv_path` and is removed first.
    pub replace_existing: bool,
    /// Write the venv's spec to the local version file afterwards.
    pub set_local: bool,
    /// The progress lines so far.
    pub steps: Vec<String>,
}

/// The creation is refused for the name because other venvs already use it.
pub open spec fn collides(ctx: AppContext, name: Seq<char>, runtime: Seq<char>, force: bool) -> bool {
    (exists|j: ManagedVenvInfo| #[trigger] name_match(ctx, j, name)) && !(force && forall|j: ManagedVenvInfo|
        #[trigger] name_match(ctx, j, name) ==> j.spec@ == venv_spec(runtime, name))
}

/// Something is at the path.
pub open spec fn path_exists(ctx: AppContext, p: Seq<char>) -> bool {
    ctx.fs.has_dir(p) || ctx.fs.has_file(p)
}

/// The creation of the venv `name` on the runtime `requested` goes ahead: a safe name, an
/// installed runtime, no clash with another venv of that name (unless `force` and they are this
/// very venv), an interpreter in the runtime, and nothing at the target unless `force`.
pub open spec fn create_allowed(ctx: AppContext, requested: Seq<char>, name: Seq<char>, force: bool) -> bool {
    &&& safe_env_name(name)
    &&& runtime_for(ctx, requested) is Some
    &&& !collides(ctx, name, runtime_for(ctx, requested).unwrap(), force)
    &&& interpreter_of(ctx, installed_dir(ctx, runtime_for(ctx, requested).unwrap())) is Some
    &&& (force || !path_exists(ctx, venv_dir_spec(ctx, runtime_for(ctx, requested).unwrap(), name)))
}

/// `m` is the collision error for `name` over some non-empty list of venvs.
pub open spec fn collision_refusal(name: Seq<char>, m: Seq<char>) -> bool {
    exists|c: Seq<ManagedVenvInfo>| #[trigger] collision_text(name, c) == m && c.len() > 0
}

/// The error a refused creation reports, by the first check that fails.
pub open spec fn create_refusal(ctx: AppContext, requested: Seq<char>, name: Seq<char>, force: bool, m: Seq<char>) -> bool {
    if !safe_env_name(name) {
        m == invalid_name_text(name)
    } else if runtime_for(ctx, requested) is None {
        m == not_installed_text(trim(strip_prefix_or_self(requested, "python-"@)), "pyenv venv create"@)
    } else {
        let rv = runtime_for(ctx, requested).unwrap();
        if collides(ctx, name, rv, force) {
            collision_refusal(name, m)
        } else if interpreter_of(ctx, installed_dir(ctx, rv)) is None {
            m == "pyenv: failed to locate a Python interpreter under "@ + installed_dir(ctx, rv)
        } else {
            m == "pyenv: managed venv `"@ + venv_spec(rv, name) + "` already exists; use --force to recreate it"@
        }
    }
}

/// The plan of an allowed creation.
pub open spec fn create_plan_of(ctx: AppContext, requested: Seq<char>, name: Seq<char>, force: bool, set_local: bool, p: VenvCreatePlan) -> bool {
    let rv = runtime_for(ctx, requested).unwrap();
    &&& p.requested_version@ == requested
    &&& p.resolved_version@ == rv
    &&& p.name@ == name
    &&& p.spec@ == venv_spec(rv, name)
    &&& p.registry_root@ == venvs_root_spec(ctx)
    &&& p.venv_path@ == venv_dir_spec(ctx, rv, name)
    &&& interpreter_of(ctx, installed_dir(ctx, rv)) == Some(p.interpreter@)
    &&& p.replace_existing == path_exists(ctx, p.venv_path@)
    &&& p.set_local == set_local
    &&& lines(p.steps@) == seq![
        "plan: resolved base runtime "@ + requested + " -> "@ + rv,
        "venv: target managed env path "@ + p.venv_path@,
    ]
}

/// Checks a managed-venv creation and plans it, or gives the error of the first check that
/// fails.
pub fn plan_managed_venv(ctx: &AppContext, requested_version: &str, name: &str, force: bool, set_local: bool) -> (r: Result<VenvCreatePlan, PyenvError>)
    ensures
        r is Ok <==> create_allowed(*ctx, requested_version@, name@, force),
        r matches Ok(p) ==> create_plan_of(*ctx, requested_version@, name@, force, set_local, p),
        r matches Err(e) ==> create_refusal(*ctx, requested_version@, name@, force, error_text(e)),
{
    if !is_safe_env_name(name) {
        return Err(PyenvError::Io(cat3("pyenv: invalid managed venv name `", name, "`; use letters, numbers, ., _, or -")));
    }
    let resolved = match resolve_installed_runtime_version(ctx, requested_version) {
        Ok(v) => v,
        Err(e) => {
            return Err(e);
        },
    };
    let collisions = find_env_name_matches(ctx, name);
    let exact = managed_venv_spec(resolved.as_str(), name);
    if collisions.len() > 0 {
        let mut all_exact = true;
        let mut i: usize = 0;
        while i < collisions.len()
            invariant
                i <= collisions@.len(),
                all_exact == forall|k: int| 0 <= k < i ==> (#[trigger] collisions@[k]).spec@ == exact@,
            decreases collisions.len() - i,
        {
            if !crate::strings::str_eq(collisions[i].spec.as_str(), exact.as_str()) {
                all_exact = false;
            }
            i = i + 1;
        }
        proof {
            lemma_matches_cover(*ctx, name@, collisions@);
            assert(name_match(*ctx, collisions@[0], name@));
            if all_exact {
                assert forall|j: ManagedVenvInfo| #[trigger] name_match(*ctx, j, name@) implies j.spec@ == venv_spec(resolved@, name@) by {
                    let k = choose|k: int| 0 <= k < collisions@.len() && collisions@[k].spec@ == j.spec@;
                }
            } else {
                let k = choose|k: int| 0 <= k < collisions@.len() && (#[trigger] collisions@[k]).spec@ != exact@;
                assert(name_match(*ctx, collisions@[k], name@));
            }
        }
        if !(force && all_exact) {
            let msg = format_collision_error(name, &collisions);
            return Err(PyenvError::Io(msg));
        }
    } else {
        proof {
            lemma_matches_cover(*ctx, name@, collisions@);
        }
    }
    let base_prefix = installed_version_dir(ctx, resolved.as_str());
    let interpreter = match interpreter_for_prefix(ctx, base_prefix.as_str()) {
        Some(p) => p,
        None => {
            return Err(PyenvError::Io(cat("pyenv: failed to locate a Python interpreter under ", base_prefix.as_str())));
        },
    };
    let registry_root = managed_venvs_root(ctx);
    let venv_path = managed_venv_dir(ctx, resolved.as_str(), name);
    let exists = ctx.fs.is_dir(venv_path.as_str()) || ctx.fs.is_file(venv_path.as_str());
    if exists && !force {
        return Err(PyenvError::Io(cat3("pyenv: managed venv `", exact.as_str(), "` already exists; use --force to recreate it")));
    }
    let mut steps: Vec<String> = Vec::new();
    let s1 = cat("plan: resolved base runtime ", requested_version);
    let s1 = cat3(s1.as_str(), " -> ", resolved.as_str());
    steps.push(s1);
    steps.push(cat("venv: target managed env path ", venv_path.as_str()));
    proof {
        assert(lines(steps@) =~= seq![
            "plan: resolved base runtime "@ + requested_version@ + " -> "@ + resolved@,
            "venv: target managed env path "@ + venv_path@,
        ]);
    }
    Ok(VenvCreatePlan {
        requested_version: owned(requested_version),
        resolved_version: resolved,
        name: owned(name),
        spec: exact,
        registry_root,
        venv_path,
        interpreter,
        replace_existing: exists,
        set_local,
        steps,
    })
}

/// The matches of a name stand for every managed venv with the name, spec by spec.
proof fn lemma_matches_cover(ctx: AppContext, name: Seq<char>, ms: Seq<ManagedVenvInfo>)
    requires
        forall|k: int| 0 <= k < ms.len() ==> name_match(ctx, #[trigger] ms[k], name),
        forall|v: Seq<char>, n: Seq<char>, i: ManagedVenvInfo|
            venv_entry(ctx, v, n) && #[trigger] listed(ctx, i, v, n) && crate::venv::inventory::name_key(ctx, i.name@) == crate::venv::inventory::name_key(ctx, name)
                ==> exists|k: int| 0 <= k < ms.len() && #[trigger] listed(ctx, ms[k], v, n),
    ensures
        forall|j: ManagedVenvInfo| #[trigger] name_match(ctx, j, name) ==> exists|k: int| 0 <= k < ms.len() && ms[k].spec@ == j.spec@,
        ms.len() == 0 <==> forall|j: ManagedVenvInfo| !#[trigger] name_match(ctx, j, name),
{
    assert forall|j: ManagedVenvInfo| #[trigger] name_match(ctx, j, name) implies exists|k: int| 0 <= k < ms.len() && ms[k].spec@ == j.spec@ by {
        let (v, n) = choose|v: Seq<char>, n: Seq<char>| venv_entry(ctx, v, n) && #[trigger] listed(ctx, j, v, n);
        let k = choose|k: int| 0 <= k < ms.len() && #[trigger] listed(ctx, ms[k], v, n);
        reveal(listed);
    }
    if ms.len() > 0 {
        assert(name_match(ctx, ms[0], name));
    }
}

/// A progress line, indented under `Progress:`.
pub open spec fn progress_line(step: Seq<char>) -> Seq<char> {
    "  - "@ + step
}

/// What `venv create` prints once the venv exists.
pub open spec fn created_lines(i: ManagedVenvInfo, local_written: bool, steps: Seq<Seq<char>>) -> Seq<Seq<char>> {
    seq!["Progress:"@] + steps.map_values(|s: Seq<char>| progress_line(s)) + seq![
        "Managed venv created: "@ + i.spec@,
        "Location: "@ + i.path@,
        "Python: "@ + or_missing(i.python_path),
        "Pip: "@ + or_missing(i.pip_path),
        "Local version updated: "@ + (if local_written { "true"@ } else { "false"@ }),
    ]
}

/// The report of a finished creation.
pub fn venv_create_report(info: &ManagedVenvInfo, local_written: bool, steps: &Vec<String>) -> (r: CommandReport)
    ensures
        r.out() == created_lines(*info, local_written, lines(steps@)),
        r.stderr@.len() == 0,
        r.exit_code == 0,
{
    let mut out: Vec<String> = Vec::new();
    out.push(owned("Progress:"));
    let mut i: usize = 0;
    while i < steps.len()
        invariant
            i <= steps@.len(),
            lines(out@) == seq!["Progress:"@] + lines(steps@).take(i as int).map_values(|s: Seq<char>| progress_line(s)),
        decreases steps.len() - i,
    {
        let ghost before = lines(out@);
        out.push(cat("  - ", steps[i].as_str()));
        assert(lines(out@) =~= before.push(progress_line(steps@[i as int]@)));
        assert(lines(steps@).take(i + 1).map_values(|s: Seq<char>| progress_line(s)) =~= lines(steps@).take(i as int).map_values(|s: Seq<char>| progress_line(s)).push(progress_line(steps@[i as int]@)));
        i = i + 1;
    }
    assert(lines(steps@).take(steps@.len() as int) =~= lines(steps@));
    let ghost mid = lines(out@);
    out.push(cat("Managed venv created: ", info.spec.as_str()));
    out.push(cat("Location: ", info.path.as_str()));
    let py = render_or_missing(&info.python_path);
    out.push(cat("Python: ", py.as_str()));
    let pip = render_or_missing(&info.pip_path);
    out.push(cat("Pip: ", pip.as_str()));
    let flag = if local_written { "true" } else { "false" };
    out.push(cat("Local version updated: ", flag));
    proof {
        reveal_strlit("true");
        reveal_strlit("false");
        assert(lines(out@) =~= created_lines(*info, local_written, lines(steps@)));
    }
    CommandReport::success(out)
}

/// What `venv create` answers: the plan when the creation is allowed, else the report of the
/// first check that fails.
pub open spec fn create_outcome(ctx: AppContext, requested: Seq<char>, name: Seq<char>, force: bool, set_local: bool, r: Result<VenvCreatePlan, CommandReport>) -> bool {
    &&& (r is Ok <==> create_allowed(ctx, requested, name, force))
    &&& (r matches Ok(p) ==> create_plan_of(ctx, requested, name, force, set_local, p))
    &&& (r matches Err(rep) ==> rep.exit_code == 1 && rep.stdout@.len() == 0 && rep.err().len() == 1
        && create_refusal(ctx, requested, name, force, rep.err()[0]))
}

/// `venv create`: the plan to carry out, or the failure report.
pub fn cmd_venv_create(ctx: &AppContext, requested_version: &str, name: &str, force: bool, set_local: bool) -> (r: Result<VenvCreatePlan, CommandReport>)
    ensures
        create_outcome(*ctx, requested_version@, name@, force, set_local, r),
{
    match plan_managed_venv(ctx, requested_version, name, force, set_local) {
        Ok(p) => Ok(p),
        Err(e) => {
            let rep = CommandReport::failure_one(e.message());
            assert(rep.err() =~= seq![error_text(e)]);
            Err(rep)
        },
    }
}

/// The progress line after an existing venv was removed for `--force`.
pub fn cleanup_step(path: &str) -> (r: String)
    ensures
        r@ == "cleanup: removed existing managed env at "@ + path@,
{
    cat("cleanup: removed existing managed env at ", path)
}

/// The progress line after `-m venv` succeeded.
pub fn created_step(path: &str) -> (r: String)
    ensures
        r@ == "venv: created managed env "@ + path@,
{
    cat("venv: created managed env ", path)
}

/// The progress lines of the pip upgrade: none when the venv has no interpreter, else the
/// attempt and whether it succeeded.
pub fn pip_upgrade_steps(outcome: Option<bool>) -> (r: Vec<String>)
    ensures
        outcome is None ==> r@.len() == 0,
        outcome matches Some(ok) ==> lines(r@) == seq![
            "pip: upgrading pip to the latest release"@,
            if ok { "pip: pip upgraded successfully"@ } else { "pip: pip upgrade skipped or failed; continuing with bundled pip"@ },
        ],
{
    let mut v: Vec<String> = Vec::new();
    match outcome {
        None => {},
        Some(ok) => {
            v.push(owned("pip: upgrading pip to the latest release"));
            if ok {
                v.push(owned("pip: pip upgraded successfully"));
            } else {
                v.push(owned("pip: pip upgrade skipped or failed; continuing with bundled pip"));
            }
            proof {
                assert(lines(v@) =~= seq![
                    "pip: upgrading pip to the latest release"@,
                    if ok { "pip: pip upgraded successfully"@ } else { "pip: pip upgrade skipped or failed; continuing with bundled pip"@ },
                ]);
            }
        },
    }
    v
}

/// The progress line after the local version file was written.
pub fn local_written_step(spec: &str) -> (r: String)
    ensures
        r@ == "selection: wrote local .python-version for "@ + spec@,
{
    cat("selection: wrote local .python-version for ", spec)
}

/// The error when `-m venv` could not be started.
pub fn venv_launch_failed(interpreter: &str, path: &str, error: &str) -> (r: String)
    ensures
        r@ == "pyenv: failed to run '"@ + interpreter@ + "' -m venv "@ + path@ + ": "@ + error@,
{
    let a = cat5("pyenv: failed to run '", interpreter, "' -m venv ", path, ": ");
    cat(a.as_str(), error)
}

/// The error when `-m venv` exited with a failure.
pub fn venv_exit_failed(interpreter: &str, path: &str, code: Option<i32>) -> (r: String)
    ensures
        r@ == "pyenv: '"@ + interpreter@ + "' -m venv "@ + path@ + " exited with status "@ + code_debug(code),
{
    let c = code_text(code);
    let a = cat5("pyenv: '", interpreter, "' -m venv ", path, " exited with status ");
    cat(a.as_str(), c.as_str())
}

/// The question asked before a managed venv is removed.
pub open spec fn delete_prompt_text(spec: Seq<char>) -> Seq<char> {
    "pyenv: remove managed venv "@ + spec + "? [y/N] "@
}

/// The confirmation question for removing a managed venv.
pub fn venv_delete_prompt(info: &ManagedVenvInfo) -> (r: String)
    ensures
        r@ == delete_prompt_text(info.spec@),
{
    cat3("pyenv: remove managed venv ", info.spec.as_str(), "? [y/N] ")
}

/// A removal checked: the venv, and the question to ask first unless forced.
pub struct VenvDeletePlan {
    pub info: ManagedVenvInfo,
    pub prompt: Option<String>,
}

/// `pyenv venv delete`, decided: the venv to remove and, unless `force`, the confirmation
/// question; or the report that the spec does not resolve.
pub fn cmd_venv_delete(ctx: &AppContext, spec: &str, force: bool) -> (r: Result<VenvDeletePlan, CommandReport>)
    ensures
        r matches Ok(p) ==> (resolve_ok(*ctx, spec@, p.info) && (match p.prompt {
            Some(q) => !force && q@ == delete_prompt_text(p.info.spec@),
            None => force,
        })),
        r matches Err(rep) ==> (rep.exit_code == 1 && rep.stdout@.len() == 0 && exists|m: Seq<char>| #[trigger] resolve_err(*ctx, spec@, m) && rep.err() == seq![m]),
        (exists|i: ManagedVenvInfo| #[trigger] resolve_ok(*ctx, spec@, i)) ==> r is Ok,
{
    match resolve_managed_venv(ctx, spec) {
        Ok(i) => {
            let prompt = if force { None } else { Some(venv_delete_prompt(&i)) };
            Ok(VenvDeletePlan { info: i, prompt })
        },
        Err(e) => {
            let m = e.message();
            assert(resolve_err(*ctx, spec@, m@));
            Err(CommandReport::failure_one(m))
        },
    }
}

/// The report of a removal: cancelled when not confirmed, else removed or the error.
pub fn venv_delete_result(info: &ManagedVenvInfo, confirmed: bool, removal_error: Option<String>) -> (r: CommandReport)
    ensures
        !confirmed ==> r.err() == seq!["pyenv: managed venv removal cancelled"@] && r.exit_code == 1,
        confirmed && removal_error is None ==> r.out() == seq![
            "Removed managed venv "@ + info.spec@,
            "Hint: update any `.python-version` files that pointed at this venv."@,
        ] && r.exit_code == 0 && r.stderr@.len() == 0,
        confirmed ==> (removal_error matches Some(e) ==> r.err() == seq![
            "pyenv: failed to remove managed venv "@ + info.path@ + ": "@ + e@,
        ] && r.exit_code == 1),
{
    if !confirmed {
        return CommandReport::failure_one(owned("pyenv: managed venv removal cancelled"));
    }
    match removal_error {
        None => {
            let mut out: Vec<String> = Vec::new();
            out.push(cat("Removed managed venv ", info.spec.as_str()));
            out.push(owned("Hint: update any `.python-version` files that pointed at this venv."));
            assert(lines(out@) =~= seq![
                "Removed managed venv "@ + info.spec@,
                "Hint: update any `.python-version` files that pointed at this venv."@,
            ]);
            CommandReport::success(out)
        },
        Some(e) => {
            let m = cat3("pyenv: failed to remove managed venv ", info.path.as_str(), ": ");
            CommandReport::failure_one(cat(m.as_str(), e.as_str()))
        },
    }
}

/// A rename checked: the venv, and the directory it moves to.
pub struct VenvRenamePlan {
    pub info: ManagedVenvInfo,
    pub target: String,
    pub new_name: String,
}

/// `c` is the list of the managed venvs named `name`, sorted by spec.
#[verifier::opaque]
pub open spec fn all_name_matches(ctx: AppContext, name: Seq<char>, c: Seq<ManagedVenvInfo>) -> bool {
    &&& specs_sorted(c)
    &&& forall|k: int| 0 <= k < c.len() ==> name_match(ctx, #[trigger] c[k], name)
    &&& forall|v: Seq<char>, n: Seq<char>, i: ManagedVenvInfo|
        venv_entry(ctx, v, n) && #[trigger] listed(ctx, i, v, n) && crate::venv::inventory::name_key(ctx, i.name@) == crate::venv::inventory::name_key(ctx, name)
            ==> exists|k: int| 0 <= k < c.len() && #[trigger] listed(ctx, c[k], v, n)
}

/// Why a rename of the venv `i` to `new` is refused, by the first check that fails: an unsafe
/// name; another venv with the name (the message lists them all); something at the target.
#[verifier::opaque]
pub open spec fn rename_blocked(ctx: AppContext, i: ManagedVenvInfo, new: Seq<char>, err: Seq<Seq<char>>) -> bool {
    let target = venv_dir_spec(ctx, i.base_version@, new);
    if !safe_env_name(new) {
        err == seq![invalid_name_text(new)]
    } else if exists|j: ManagedVenvInfo| #[trigger] name_match(ctx, j, new) && j.spec@ != i.spec@ {
        exists|c: Seq<ManagedVenvInfo>| #[trigger] all_name_matches(ctx, new, c) && err == seq![collision_text(new, c)]
    } else {
        path_exists(ctx, target) && err == seq!["pyenv: managed venv target already exists at "@ + target]
    }
}

#[verifier::rlimit(40)]
fn check_rename(ctx: &AppContext, spec: &str, info: ManagedVenvInfo, new_name: &str) -> (r: Result<VenvRenamePlan, CommandReport>)
    requires
        resolve_ok(*ctx, spec@, info),
    ensures
        r matches Ok(p) ==> {
            &&& p.info == info
            &&& safe_env_name(new_name@)
            &&& p.new_name@ == new_name@
            &&& p.target@ == venv_dir_spec(*ctx, p.info.base_version@, new_name@)
            &&& !path_exists(*ctx, p.target@)
            &&& forall|j: ManagedVenvInfo| #[trigger] name_match(*ctx, j, new_name@) ==> j.spec@ == p.info.spec@
        },
        r matches Err(rep) ==> (rep.exit_code == 1 && rep.stdout@.len() == 0 && rename_blocked(*ctx, info, new_name@, rep.err())),
{
    if !is_safe_env_name(new_name) {
        let rep = CommandReport::failure_one(cat3("pyenv: invalid managed venv name `", new_name, "`; use letters, numbers, ., _, or -"));
        assert(rename_blocked(*ctx, info, new_name@, rep.err())) by {
            reveal(rename_blocked);
        }
        return Err(rep);
    }
    let collisions = find_env_name_matches(ctx, new_name);
    let mut clash = false;
    let mut i: usize = 0;
    while i < collisions.len()
        invariant
            i <= collisions@.len(),
            clash == exists|k: int| 0 <= k < i && (#[trigger] collisions@[k]).spec@ != info.spec@,
        decreases collisions.len() - i,
    {
        if !crate::strings::str_eq(collisions[i].spec.as_str(), info.spec.as_str()) {
            clash = true;
        }
        i = i + 1;
    }
    if clash {
        let rep = CommandReport::failure_one(format_collision_error(new_name, &collisions));
        proof {
            let k = choose|k: int| 0 <= k < i && (#[trigger] collisions@[k]).spec@ != info.spec@;
            assert(name_match(*ctx, collisions@[k], new_name@));
            assert(all_name_matches(*ctx, new_name@, collisions@)) by {
                reveal(all_name_matches);
            }
            assert(rename_blocked(*ctx, info, new_name@, rep.err())) by {
                reveal(rename_blocked);
            }
        }
        return Err(rep);
    }
    proof {
        lemma_matches_cover(*ctx, new_name@, collisions@);
        assert forall|j: ManagedVenvInfo| #[trigger] name_match(*ctx, j, new_name@) implies j.spec@ == info.spec@ by {
            let k = choose|k: int| 0 <= k < collisions@.len() && collisions@[k].spec@ == j.spec@;
            assert(!((collisions@[k]).spec@ != info.spec@));
        }
    }
    let target = managed_venv_dir(ctx, info.base_version.as_str(), new_name);
    if ctx.fs.is_dir(target.as_str()) || ctx.fs.is_file(target.as_str()) {
        let rep = CommandReport::failure_one(cat("pyenv: managed venv target already exists at ", target.as_str()));
        assert(!(exists|j: ManagedVenvInfo| #[trigger] name_match(*ctx, j, new_name@) && j.spec@ != info.spec@));
        assert(rename_blocked(*ctx, info, new_name@, rep.err())) by {
            reveal(rename_blocked);
        }
        return Err(rep);
    }
    Ok(VenvRenamePlan { info, target, new_name: owned(new_name) })
}

/// `pyenv venv rename`, decided: the venv resolves, the new name is safe and unused by other
/// venvs, and nothing is at the target directory; else the report of the first check that fails.
pub fn cmd_venv_rename(ctx: &AppContext, spec: &str, new_name: &str) -> (r: Result<VenvRenamePlan, CommandReport>)
    ensures
        r matches Ok(p) ==> {
            &&& resolve_ok(*ctx, spec@, p.info)
            &&& safe_env_name(new_name@)
            &&& p.new_name@ == new_name@
            &&& p.target@ == venv_dir_spec(*ctx, p.info.base_version@, new_name@)
            &&& !path_exists(*ctx, p.target@)
            &&& forall|j: ManagedVenvInfo| #[trigger] name_match(*ctx, j, new_name@) ==> j.spec@ == p.info.spec@
        },
        r matches Err(rep) ==> (rep.exit_code == 1 && rep.stdout@.len() == 0 && (
            (exists|m: Seq<char>| #[trigger] resolve_err(*ctx, spec@, m) && rep.err() == seq![m])
            || (exists|i: ManagedVenvInfo| #[trigger] resolve_ok(*ctx, spec@, i) && rename_blocked(*ctx, i, new_name@, rep.err())))),
        forall|i: ManagedVenvInfo| #[trigger] resolve_ok(*ctx, spec@, i) ==> (r matches Err(rep) ==> rename_blocked(*ctx, i, new_name@, rep.err())),
{
    match resolve_managed_venv(ctx, spec) {
        Ok(i) => {
            let ghost info = i;
            let r = check_rename(ctx, spec, i, new_name);
            proof {
                assert forall|j: ManagedVenvInfo| #[trigger] resolve_ok(*ctx, spec@, j) implies (r matches Err(rep)
                    ==> rename_blocked(*ctx, j, new_name@, rep.err())) by {
                    lemma_resolve_ok_unique(*ctx, spec@, j, info);
                    reveal(rename_blocked);
                }
            }
            r
        },
        Err(e) => {
            let m = e.message();
            assert(resolve_err(*ctx, spec@, m@));
            Err(CommandReport::failure_one(m))
        },
    }
}

/// The report of a rename: done, or the error moving the directory.
pub fn venv_rename_result(plan: &VenvRenamePlan, rename_error: Option<String>) -> (r: CommandReport)
    ensures
        rename_error is None ==> r.out() == seq![
            "Renamed managed venv "@ + plan.info.spec@ + " -> "@ + plan.info.base_version@ + "/envs/"@ + plan.new_name@,
            "Hint: update any `.python-version` files that referenced the old venv spec."@,
        ] && r.exit_code == 0 && r.stderr@.len() == 0,
        rename_error matches Some(e) ==> r.err() == seq![
            "pyenv: failed to rename managed venv "@ + plan.info.spec@ + ": "@ + e@,
        ] && r.exit_code == 1,
{
    match rename_error {
        None => {
            let a = cat3("Renamed managed venv ", plan.info.spec.as_str(), " -> ");
            let b = cat5(a.as_str(), plan.info.base_version.as_str(), "/envs/", plan.new_name.as_str(), "");
            let mut out: Vec<String> = Vec::new();
            out.push(b);
            out.push(owned("Hint: update any `.python-version` files that referenced the old venv spec."));
            proof {
                reveal_strlit("");
                assert(lines(out@) =~= seq![
                    "Renamed managed venv "@ + plan.info.spec@ + " -> "@ + plan.info.base_version@ + "/envs/"@ + plan.new_name@,
                    "Hint: update any `.python-version` files that referenced the old venv spec."@,
                ]);
            }
            CommandReport::success(out)
        },
        Some(e) => {
            let m = cat3("pyenv: failed to rename managed venv ", plan.info.spec.as_str(), ": ");
            CommandReport::failure_one(cat(m.as_str(), e.as_str()))
        },
    }
}

} // verus!

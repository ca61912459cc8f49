//! The `virtualenv`-style commands, answered through managed venvs: creating one on the
//! current runtime, listing, removing, and the prefix of the current or named venv.
use vstd::prelude::*;

use crate::context::AppContext;
use crate::error::{error_text, PyenvError};
use crate::report::CommandReport;
use crate::strings::{cat, cat3, join, join_strings, lines, lower_seq, owned, trim, trim_str, eq_ignore_case};
use crate::venv::commands::{
    cmd_venv_create, cmd_venv_delete, cmd_venv_list, create_outcome, delete_prompt_text, listing_lines, venv_listing, VenvCreatePlan,
    VenvDeletePlan,
};
use crate::venv::inventory::{resolve_err, resolve_managed_venv, resolve_ok, ManagedVenvInfo};
use crate::version::selection::{resolve_selected_versions, selection};

verus! {

broadcast use vstd::string::group_string_axioms;

/// The active selection: a plain runtime or a managed venv.
pub enum CurrentSelection {
    Runtime(String),
    ManagedVenv(ManagedVenvInfo),
}

/// The missing versions, each in backquotes, joined with `, `.
pub open spec fn missing_list(missing: Seq<Seq<char>>) -> Seq<char> {
    join(missing.map_values(|v: Seq<char>| "`"@ + v + "`"@), ", "@)
}

/// The message when the selection names missing versions.
pub open spec fn selection_missing_text(missing: Seq<Seq<char>>) -> Seq<char> {
    "pyenv: the current selection is missing: "@ + missing_list(missing)
}

/// The message when nothing is selected.
pub open spec fn nothing_selected_text() -> Seq<char> {
    "pyenv: no current runtime is selected; set one with `pyenv global <version>` or pass an explicit runtime"@
}

/// The message when the selection is `system`.
pub open spec fn system_selected_text() -> Seq<char> {
    "pyenv: the current selection is `system`; pass an installed runtime explicitly, such as `pyenv virtualenv 3.13 app`"@
}

/// The missing versions as printed.
pub fn render_missing_list(missing: &Vec<String>) -> (r: String)
    ensures
        r@ == missing_list(lines(missing@)),
{
    let mut parts: Vec<String> = Vec::new();
    let mut i: usize = 0;
    while i < missing.len()
        invariant
            i <= missing@.len(),
            lines(parts@) == lines(missing@).take(i as int).map_values(|v: Seq<char>| "`"@ + v + "`"@),
        decreases missing.len() - i,
    {
        let ghost before = lines(parts@);
        parts.push(cat3("`", missing[i].as_str(), "`"));
        assert(lines(parts@) =~= before.push("`"@ + missing@[i as int]@ + "`"@));
        assert(lines(missing@).take(i + 1).map_values(|v: Seq<char>| "`"@ + v + "`"@) =~= lines(missing@).take(i as int).map_values(
            |v: Seq<char>| "`"@ + v + "`"@,
        ).push("`"@ + missing@[i as int]@ + "`"@));
        i = i + 1;
    }
    assert(lines(missing@).take(missing@.len() as int) =~= lines(missing@));
    join_strings(&parts, ", ")
}

/// The active selection: an error when versions are missing, nothing or `system` is
/// selected; else the first active version as a managed venv when it resolves to one, or as
/// a runtime.
pub fn current_selection(ctx: &AppContext) -> (r: Result<CurrentSelection, PyenvError>)
    ensures
        ({
            let (vs, missing) = selection(*ctx, false);
            &&& missing.len() > 0 ==> (r matches Err(e) && error_text(e) == selection_missing_text(missing))
            &&& missing.len() == 0 && vs.len() == 0 ==> (r matches Err(e) && error_text(e) == nothing_selected_text())
            &&& missing.len() == 0 && vs.len() > 0 && lower_seq(vs[0]) == lower_seq("system"@) ==> (r matches Err(e)
                && error_text(e) == system_selected_text())
            &&& missing.len() == 0 && vs.len() > 0 && lower_seq(vs[0]) != lower_seq("system"@) ==> match r {
                Ok(CurrentSelection::ManagedVenv(i)) => resolve_ok(*ctx, vs[0], i),
                Ok(CurrentSelection::Runtime(v)) => v@ == vs[0] && (exists|m: Seq<char>| #[trigger] resolve_err(*ctx, vs[0], m))
                    && forall|i: ManagedVenvInfo| !#[trigger] resolve_ok(*ctx, vs[0], i),
                Err(_) => false,
            }
        }),
{
    let selected = resolve_selected_versions(ctx, false);
    if selected.missing.len() > 0 {
        let listed = render_missing_list(&selected.missing);
        return Err(PyenvError::Io(cat("pyenv: the current selection is missing: ", listed.as_str())));
    }
    if selected.versions.len() == 0 {
        return Err(PyenvError::Io(owned("pyenv: no current runtime is selected; set one with `pyenv global <version>` or pass an explicit runtime")));
    }
    let active = selected.versions[0].as_str();
    if eq_ignore_case(active, "system") {
        return Err(PyenvError::Io(owned("pyenv: the current selection is `system`; pass an installed runtime explicitly, such as `pyenv virtualenv 3.13 app`")));
    }
    match resolve_managed_venv(ctx, active) {
        Ok(info) => Ok(CurrentSelection::ManagedVenv(info)),
        Err(e) => {
            proof {
                let m = error_text(e);
                assert(resolve_err(*ctx, active@, m));
            }
            Ok(CurrentSelection::Runtime(owned(active)))
        },
    }
}

/// The runtime of the active selection: its own name, or the base runtime of the managed venv.
pub fn current_base_runtime(ctx: &AppContext) -> (r: Result<String, PyenvError>)
    ensures
        ({
            let (vs, missing) = selection(*ctx, false);
            &&& missing.len() > 0 ==> (r matches Err(e) && error_text(e) == selection_missing_text(missing))
            &&& missing.len() == 0 && vs.len() > 0 && lower_seq(vs[0]) == lower_seq("system"@) ==> (r matches Err(e)
                && error_text(e) == system_selected_text())
            &&& r matches Ok(v) ==> missing.len() == 0 && vs.len() > 0 && (v@ == vs[0] || exists|i: ManagedVenvInfo|
                #[trigger] resolve_ok(*ctx, vs[0], i) && i.base_version@ == v@)
        }),
{
    match current_selection(ctx) {
        Ok(CurrentSelection::ManagedVenv(info)) => {
            assert(resolve_ok(*ctx, selection(*ctx, false).0[0], info));
            Ok(info.base_version)
        },
        Ok(CurrentSelection::Runtime(v)) => Ok(v),
        Err(e) => Err(e),
    }
}

/// The message when the selection is a runtime but a managed venv is needed.
pub open spec fn runtime_selected_text(v: Seq<char>) -> Seq<char> {
    "pyenv: the current selection `"@ + v + "` is a runtime, not a managed venv; pass a venv name/spec or use `pyenv venv use <name>` first"@
}

/// Why the managed venv named by `spec` (or, for no spec or a blank one, the active one)
/// cannot be had.
pub open spec fn target_err(ctx: AppContext, spec: Option<Seq<char>>, m: Seq<char>) -> bool {
    if spec is Some && trim(spec->0).len() > 0 {
        resolve_err(ctx, spec->0, m)
    } else {
        let (vs, missing) = selection(ctx, false);
        if missing.len() > 0 {
            m == selection_missing_text(missing)
        } else if vs.len() == 0 {
            m == nothing_selected_text()
        } else if lower_seq(vs[0]) == lower_seq("system"@) {
            m == system_selected_text()
        } else {
            (forall|i: ManagedVenvInfo| !#[trigger] resolve_ok(ctx, vs[0], i)) && m == runtime_selected_text(vs[0])
        }
    }
}

/// The managed venv of the active selection.
pub fn current_managed_venv(ctx: &AppContext) -> (r: Result<ManagedVenvInfo, PyenvError>)
    ensures
        match r {
            Ok(i) => prefix_target(*ctx, None, i),
            Err(e) => target_err(*ctx, None, error_text(e)),
        },
        (exists|i: ManagedVenvInfo| #[trigger] prefix_target(*ctx, None, i)) ==> r is Ok,
{
    match current_selection(ctx) {
        Ok(CurrentSelection::ManagedVenv(info)) => Ok(info),
        Ok(CurrentSelection::Runtime(v)) => Err(PyenvError::Io(cat3(
            "pyenv: the current selection `",
            v.as_str(),
            "` is a runtime, not a managed venv; pass a venv name/spec or use `pyenv venv use <name>` first",
        ))),
        Err(e) => Err(e),
    }
}

/// The named managed venv when a non-blank spec is given, else the active one.
pub fn resolve_target_managed_venv(ctx: &AppContext, spec: Option<&str>) -> (r: Result<ManagedVenvInfo, PyenvError>)
    ensures
        match r {
            Ok(i) => prefix_target(*ctx, opt_str(spec), i),
            Err(e) => target_err(*ctx, opt_str(spec), error_text(e)),
        },
        (exists|i: ManagedVenvInfo| #[trigger] prefix_target(*ctx, opt_str(spec), i)) ==> r is Ok,
{
    match spec {
        Some(s) => {
            let t = trim_str(s);
            if !t.as_str().is_empty() {
                return resolve_managed_venv(ctx, s);
            }
            current_managed_venv(ctx)
        },
        None => current_managed_venv(ctx),
    }
}

/// `b` is the runtime of the active selection: the first active version, or the base runtime
/// of the managed venv it names.
pub open spec fn selected_base(ctx: AppContext, b: Seq<char>) -> bool {
    let (vs, missing) = selection(ctx, false);
    missing.len() == 0 && vs.len() > 0 && (b == vs[0] || exists|i: ManagedVenvInfo| #[trigger] resolve_ok(ctx, vs[0], i) && i.base_version@ == b)
}

/// Creates a managed venv on the requested runtime (trimmed), or on the active selection's
/// runtime when none is given.
pub fn cmd_virtualenv(ctx: &AppContext, requested_version: Option<&str>, name: &str, force: bool, set_local: bool) -> (r: Result<VenvCreatePlan, CommandReport>)
    ensures
        requested_version matches Some(v) ==> create_outcome(*ctx, trim(v@), name@, force, set_local, r),
        requested_version is None && selection(*ctx, false).1.len() > 0 ==> (r matches Err(rep) && rep.exit_code == 1
            && rep.err() == seq![selection_missing_text(selection(*ctx, false).1)]),
        requested_version is None && selection(*ctx, false).1.len() == 0 && selection(*ctx, false).0.len() > 0
            && lower_seq(selection(*ctx, false).0[0]) == lower_seq("system"@) ==> (r matches Err(rep) && rep.exit_code == 1
            && rep.err() == seq![system_selected_text()]),
        requested_version is None && r is Ok ==> exists|b: Seq<char>| #[trigger] selected_base(*ctx, b)
            && create_outcome(*ctx, b, name@, force, set_local, r),
{
    let base = match requested_version {
        Some(v) => trim_str(v),
        None => match current_base_runtime(ctx) {
            Ok(v) => v,
            Err(e) => {
                let rep = CommandReport::failure_one(e.message());
                assert(rep.err() =~= seq![error_text(e)]);
                return Err(rep);
            },
        },
    };
    let r = cmd_venv_create(ctx, base.as_str(), name, force, set_local);
    proof {
        if requested_version is None {
            assert(selected_base(*ctx, base@));
        }
    }
    r
}

/// Lists the managed venvs, as `venv list` does.
pub fn cmd_virtualenvs(ctx: &AppContext, bare: bool) -> (r: CommandReport)
    ensures
        exists|items: Seq<ManagedVenvInfo>| #[trigger] venv_listing(*ctx, items) && r.out() == listing_lines(items, bare),
        r.stderr@.len() == 0,
        r.exit_code == 0,
{
    cmd_venv_list(ctx, bare)
}

/// Removes a managed venv, as `venv delete` does.
pub fn cmd_virtualenv_delete(ctx: &AppContext, spec: &str, force: bool) -> (r: Result<VenvDeletePlan, CommandReport>)
    ensures
        r matches Ok(p) ==> (resolve_ok(*ctx, spec@, p.info) && (match p.prompt {
            Some(q) => !force && q@ == delete_prompt_text(p.info.spec@),
            None => force,
        })),
        r matches Err(rep) ==> (rep.exit_code == 1 && rep.stdout@.len() == 0 && exists|m: Seq<char>| #[trigger] resolve_err(*ctx, spec@, m) && rep.err() == seq![m]),
        (exists|i: ManagedVenvInfo| #[trigger] resolve_ok(*ctx, spec@, i)) ==> r is Ok,
{
    cmd_venv_delete(ctx, spec, force)
}

/// An optional text as an optional sequence.
pub open spec fn opt_str(o: Option<&str>) -> Option<Seq<char>> {
    match o {
        Some(s) => Some(s@),
        None => None,
    }
}

/// The managed venv whose directory `virtualenv-prefix` prints: the named one for a non-blank
/// spec, else the active one.
pub open spec fn prefix_target(ctx: AppContext, spec: Option<Seq<char>>, i: ManagedVenvInfo) -> bool {
    match spec {
        Some(s) => if trim(s).len() > 0 {
            resolve_ok(ctx, s, i)
        } else {
            active_venv(ctx, i)
        },
        None => active_venv(ctx, i),
    }
}

/// The active selection is a managed venv, not `system`, and `i` is that venv.
pub open spec fn active_venv(ctx: AppContext, i: ManagedVenvInfo) -> bool {
    let (vs, missing) = selection(ctx, false);
    missing.len() == 0 && vs.len() > 0 && lower_seq(vs[0]) != lower_seq("system"@) && resolve_ok(ctx, vs[0], i)
}

/// Prints the directory of the named managed venv, or of the active one.
pub fn cmd_virtualenv_prefix(ctx: &AppContext, spec: Option<&str>) -> (r: CommandReport)
    ensures
        r.exit_code == 0 ==> r.stderr@.len() == 0 && exists|i: ManagedVenvInfo| #[trigger] prefix_target(*ctx, opt_str(spec), i) && r.out() == seq![i.path@],
        r.exit_code != 0 ==> r.exit_code == 1 && r.stdout@.len() == 0 && exists|m: Seq<char>| #[trigger] target_err(*ctx, opt_str(spec), m)
            && r.err() == seq![m],
        (exists|i: ManagedVenvInfo| #[trigger] prefix_target(*ctx, opt_str(spec), i)) ==> r.exit_code == 0,
{
    match resolve_target_managed_venv(ctx, spec) {
        Ok(info) => {
            let r = CommandReport::success_one(info.path.clone());
            assert(r.out() == seq![info.path@]);
            assert(prefix_target(*ctx, opt_str(spec), info));
            r
        },
        Err(e) => {
            let rep = CommandReport::failure_one(e.message());
            assert(rep.err() =~= seq![error_text(e)]);
            rep
        },
    }
}

} // verus!

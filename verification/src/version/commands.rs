//! The version commands: where the root and version files are, reading and writing version
//! files, and reporting the active versions with their origin.
use vstd::prelude::*;

use crate::context::{join_path, join_path_str, AppContext, FsSnapshot};
use crate::error::{error_text, not_installed_text, PyenvError};
use crate::hooks::{find_hook_override, hook_override, pair_views, HookActions};
use crate::report::CommandReport;
use crate::strings::{cat, cat3, cat5, contains_seq, contains_str, join, join_strings, lines, nonempty, owned, text_lines, trim};
use crate::venv::inventory::{name_match, resolve_managed_venv, venv_spec_present, ManagedVenvInfo};
use crate::venv_paths::{split_spec, venv_dir_spec};
use crate::version::files::{
    error_texts, find_local, find_local_version_file, invalid_texts, parse_version_file,
    read_version_file, scan_versions, version_file_for,
    version_file_path, version_file_text, write_version_file, WritePlan,
};
use crate::version::selection::{
    ensure_versions_exist, env_versions, first_unavailable, origin_of, parse_env_versions,
    resolve_selected_versions, selection, version_origin,
};

verus! {

broadcast use vstd::string::group_string_axioms;

/// Prints the root directory.
pub fn cmd_root(ctx: &AppContext) -> (r: CommandReport)
    ensures
        r.out() == seq![ctx.root@],
        r.stderr@.len() == 0,
        r.exit_code == 0,
{
    CommandReport::success_one(ctx.root.clone())
}

/// Prints the version file that governs `target_dir` (or the working directory).
pub fn cmd_version_file(ctx: &AppContext, target_dir: Option<&str>) -> (r: CommandReport)
    ensures
        r.out() == seq![
            version_file_for(
                *ctx,
                match target_dir {
                    Some(d) => d@,
                    None => ctx.dir@,
                },
            ),
        ],
        r.stderr@.len() == 0,
        r.exit_code == 0,
{
    CommandReport::success_one(version_file_path(ctx, target_dir))
}

/// The non-empty messages of a list of errors, in order.
pub fn render_nonempty_errors(errors: &Vec<PyenvError>) -> (r: Vec<String>)
    ensures
        lines(r@) == nonempty(error_texts(errors@)),
{
    let mut out: Vec<String> = Vec::new();
    let mut i: usize = 0;
    while i < errors.len()
        invariant
            i <= errors@.len(),
            lines(out@) == nonempty(error_texts(errors@.take(i as int))),
        decreases errors.len() - i,
    {
        assert(error_texts(errors@.take(i + 1)).drop_last() =~= error_texts(errors@.take(i as int)));
        let m = errors[i].message();
        assert(error_texts(errors@.take(i + 1)).last() == m@);
        if !m.as_str().is_empty() {
            let ghost before = lines(out@);
            out.push(m);
            assert(lines(out@) =~= before.push(error_text(errors@[i as int])));
        }
        i = i + 1;
    }
    assert(errors@.take(errors@.len() as int) =~= errors@);
    out
}

/// Prints the safe versions of a version file joined by `:`, with a warning per rejected
/// version; fails when the file is missing or names no safe version.
pub fn cmd_version_file_read(fs: &FsSnapshot, path: &str) -> (r: CommandReport)
    ensures
        read_report(*fs, path@, r),
{
    match parse_version_file(fs, path) {
        Ok(parsed) => {
            let joined = join_strings(&parsed.versions, ":");
            let stderr = render_nonempty_errors(&parsed.warnings);
            let mut stdout: Vec<String> = Vec::new();
            stdout.push(joined);
            assert(lines(stdout@) =~= seq![join(lines(parsed.versions@), ":"@)]);
            CommandReport { stdout, stderr, exit_code: 0 }
        },
        Err(errors) => {
            let stderr = render_nonempty_errors(&errors);
            proof {
                if errors@.len() == 0 {
                    assert(error_texts(errors@) =~= Seq::<Seq<char>>::empty());
                }
            }
            CommandReport { stdout: Vec::new(), stderr, exit_code: 1 }
        },
    }
}

/// Checks the versions and says what to write to `path`; nothing is written on failure.
pub fn cmd_version_file_write(ctx: &AppContext, path: &str, versions: &Vec<String>, force: bool) -> (r: (CommandReport, Option<WritePlan>))
    ensures
        versions@.len() == 0 ==> r.0.err() == seq![
            "Usage: pyenv version-file-write [-f|--force] <file> <version> [...]"@,
        ] && r.0.exit_code == 1 && r.0.stdout@.len() == 0 && r.1 is None,
        versions@.len() > 0 && !force && first_unavailable(*ctx, lines(versions@)) is Some ==> {
            let i = first_unavailable(*ctx, lines(versions@)).unwrap();
            r.0.err() == seq![not_installed_text(versions@[i]@, path@)] && r.0.exit_code == 1
                && r.0.stdout@.len() == 0 && r.1 is None
        },
        versions@.len() > 0 && (force || first_unavailable(*ctx, lines(versions@)) is None) ==> {
            &&& r.0.stdout@.len() == 0
            &&& r.0.stderr@.len() == 0
            &&& r.0.exit_code == 0
            &&& r.1 matches Some(w) && w.path@ == path@ && w.contents@ == version_file_text(lines(versions@))
        },
{
    if versions.len() == 0 {
        return (
            CommandReport::failure_one(
                owned("Usage: pyenv version-file-write [-f|--force] <file> <version> [...]"),
            ),
            None,
        );
    }
    match ensure_versions_exist(ctx, versions, force, path) {
        Err(e) => (CommandReport::failure_one(e.message()), None),
        Ok(()) => match write_version_file(path, versions) {
            Ok(plan) => (CommandReport::empty_success(), Some(plan)),
            Err(e) => (CommandReport::failure_one(e.message()), None),
        },
    }
}

/// Prints where the active versions are set, unless a hook supplies another origin.
pub fn cmd_version_origin(ctx: &AppContext, hooks: &HookActions) -> (r: CommandReport)
    ensures
        r.out() == seq![
            match hook_override(pair_views(hooks.env_pairs@), lines(hooks.passthrough_lines@), "PYENV_VERSION_ORIGIN"@) {
                Some(o) => o,
                None => origin_of(*ctx),
            },
        ],
        r.stderr@.len() == 0,
        r.exit_code == 0,
{
    let origin = match find_hook_override(hooks, "PYENV_VERSION_ORIGIN") {
        Some(o) => o,
        None => version_origin(ctx).to_string(),
    };
    CommandReport::success_one(origin)
}

/// The message for each missing version.
pub open spec fn missing_texts(missing: Seq<Seq<char>>, origin: Seq<char>) -> Seq<Seq<char>> {
    missing.map_values(|v: Seq<char>| not_installed_text(v, origin))
}

/// The not-installed message of each missing version.
pub fn missing_messages(missing: &Vec<String>, origin: &str) -> (r: Vec<String>)
    ensures
        lines(r@) == missing_texts(lines(missing@), origin@),
{
    let mut out: Vec<String> = Vec::new();
    let mut i: usize = 0;
    while i < missing.len()
        invariant
            i <= missing@.len(),
            lines(out@) == missing_texts(lines(missing@).take(i as int), origin@),
        decreases missing.len() - i,
    {
        let e = PyenvError::VersionNotInstalled(missing[i].clone(), owned(origin));
        let m = e.message();
        let ghost before = lines(out@);
        out.push(m);
        assert(lines(out@) =~= before.push(not_installed_text(missing@[i as int]@, origin@)));
        assert(missing_texts(lines(missing@).take(i + 1), origin@) =~= missing_texts(
            lines(missing@).take(i as int),
            origin@,
        ).push(not_installed_text(missing@[i as int]@, origin@)));
        i = i + 1;
    }
    assert(lines(missing@).take(missing@.len() as int) =~= lines(missing@));
    out
}

/// The active versions and the missing ones once a hook's `PYENV_VERSION` override applies:
/// a non-empty override replaces the versions and clears the missing list.
pub open spec fn named_versions(ctx: AppContext, force: bool, over: Option<Seq<char>>) -> (
    Seq<Seq<char>>,
    Seq<Seq<char>>,
) {
    match over {
        Some(x) => if env_versions(x).len() > 0 {
            (env_versions(x), seq![])
        } else {
            selection(ctx, force)
        },
        None => selection(ctx, force),
    }
}

/// Prints the active versions joined by `:`, with a message per missing version; fails when
/// one is missing.
pub fn cmd_version_name(ctx: &AppContext, force: bool, hooks: &HookActions) -> (r: CommandReport)
    ensures
        ({
            let (vs, missing) = named_versions(
                *ctx,
                force,
                hook_override(pair_views(hooks.env_pairs@), lines(hooks.passthrough_lines@), "PYENV_VERSION"@),
            );
            &&& r.out() == seq![join(vs, ":"@)]
            &&& r.err() == missing_texts(missing, origin_of(*ctx))
            &&& r.exit_code == (if missing.len() == 0 { 0i32 } else { 1i32 })
        }),
{
    let mut selected = resolve_selected_versions(ctx, force);
    let origin = selected.origin.to_string();
    match find_hook_override(hooks, "PYENV_VERSION") {
        Some(x) => {
            let raw = parse_env_versions(x.as_str());
            if raw.len() > 0 {
                selected.versions = raw;
                selected.missing = Vec::new();
                assert(lines(selected.missing@) =~= Seq::<Seq<char>>::empty());
            }
        },
        None => {},
    }
    let stderr = missing_messages(&selected.missing, origin.as_str());
    let joined = join_strings(&selected.versions, ":");
    let mut stdout: Vec<String> = Vec::new();
    stdout.push(joined);
    assert(lines(stdout@) =~= seq![join(lines(selected.versions@), ":"@)]);
    let exit_code: i32 = if selected.missing.len() == 0 { 0 } else { 1 };
    CommandReport { stdout, stderr, exit_code }
}

/// `<version> (set by <origin>)` for each version.
pub open spec fn described_versions(vs: Seq<Seq<char>>, origin: Seq<char>) -> Seq<Seq<char>> {
    vs.map_values(|v: Seq<char>| v + " (set by "@ + origin + ")"@)
}

/// Prints each active version (with its origin unless `bare`) and a message per missing one.
pub fn cmd_version(ctx: &AppContext, bare: bool) -> (r: CommandReport)
    ensures
        ({
            let (vs, missing) = selection(*ctx, false);
            &&& r.out() == (if bare { vs } else { described_versions(vs, origin_of(*ctx)) })
            &&& r.err() == missing_texts(missing, origin_of(*ctx))
            &&& r.exit_code == (if missing.len() == 0 { 0i32 } else { 1i32 })
        }),
{
    let selected = resolve_selected_versions(ctx, false);
    let origin = selected.origin.to_string();
    let stderr = missing_messages(&selected.missing, origin.as_str());
    let exit_code: i32 = if selected.missing.len() == 0 { 0 } else { 1 };
    if bare {
        return CommandReport { stdout: selected.versions, stderr, exit_code };
    }
    let mut stdout: Vec<String> = Vec::new();
    let mut i: usize = 0;
    while i < selected.versions.len()
        invariant
            i <= selected.versions@.len(),
            lines(stdout@) == described_versions(lines(selected.versions@).take(i as int), origin@),
        decreases selected.versions.len() - i,
    {
        let line = cat3(selected.versions[i].as_str(), " (set by ", origin.as_str());
        let line = crate::strings::cat(line.as_str(), ")");
        let ghost before = lines(stdout@);
        stdout.push(line);
        assert(lines(stdout@) =~= before.push(
            selected.versions@[i as int]@ + " (set by "@ + origin@ + ")"@,
        ));
        assert(described_versions(lines(selected.versions@).take(i + 1), origin@) =~= described_versions(
            lines(selected.versions@).take(i as int),
            origin@,
        ).push(selected.versions@[i as int]@ + " (set by "@ + origin@ + ")"@));
        i = i + 1;
    }
    assert(lines(selected.versions@).take(selected.versions@.len() as int) =~= lines(selected.versions@));
    CommandReport { stdout, stderr, exit_code }
}

/// What a version command does to a version file.
pub enum VersionFileChange {
    /// Nothing on disk changes.
    Keep,
    /// Write the file.
    Write(WritePlan),
    /// Remove the file at this path; a missing file is no error.
    Remove(String),
}

/// The versions in a file that names at least one safe version.
pub open spec fn file_versions(fs: FsSnapshot, path: Seq<char>) -> Option<Seq<Seq<char>>> {
    match fs.file_text(path) {
        Some(t) => {
            let ok = scan_versions(text_lines(t)).0;
            if ok.len() > 0 {
                Some(ok)
            } else {
                None
            }
        },
        None => None,
    }
}

/// The global versions: from `<root>/version`, `<root>/global` or `<root>/default`, the first
/// that names a safe version, else `system`.
pub open spec fn global_versions(ctx: AppContext) -> Seq<Seq<char>> {
    let root = ctx.root@;
    match file_versions(ctx.fs, join_path(root, "version"@)) {
        Some(v) => v,
        None => match file_versions(ctx.fs, join_path(root, "global"@)) {
            Some(v) => v,
            None => match file_versions(ctx.fs, join_path(root, "default"@)) {
                Some(v) => v,
                None => seq!["system"@],
            },
        },
    }
}

/// Prints the global versions.
pub fn show_global_versions(ctx: &AppContext) -> (r: CommandReport)
    ensures
        r.out() == global_versions(*ctx),
        r.stderr@.len() == 0,
        r.exit_code == 0,
{
    let p0 = join_path_str(ctx.root.as_str(), "version");
    match read_version_file(&ctx.fs, p0.as_str()) {
        Ok(v) => {
            return CommandReport::success(v);
        },
        Err(_) => {},
    }
    let p1 = join_path_str(ctx.root.as_str(), "global");
    match read_version_file(&ctx.fs, p1.as_str()) {
        Ok(v) => {
            return CommandReport::success(v);
        },
        Err(_) => {},
    }
    let p2 = join_path_str(ctx.root.as_str(), "default");
    match read_version_file(&ctx.fs, p2.as_str()) {
        Ok(v) => {
            return CommandReport::success(v);
        },
        Err(_) => {},
    }
    let mut v: Vec<String> = Vec::new();
    v.push(owned("system"));
    assert(lines(v@) =~= seq!["system"@]);
    CommandReport::success(v)
}

/// Prints the versions of the nearest `.python-version`, or fails when there is none.
pub fn show_local_versions(ctx: &AppContext) -> (r: CommandReport)
    ensures
        match find_local(ctx.fs, ctx.dir@) {
            Some(p) => read_report(ctx.fs, p, r),
            None => r.err() == seq![error_text(PyenvError::NoLocalVersion)] && r.exit_code == 1 && r.stdout@.len() == 0,
        },
{
    match find_local_version_file(&ctx.fs, ctx.dir.as_str()) {
        Some(p) => cmd_version_file_read(&ctx.fs, p.as_str()),
        None => CommandReport::failure_one(PyenvError::NoLocalVersion.message()),
    }
}

/// The report is what reading the version file at `path` prints.
pub open spec fn read_report(fs: FsSnapshot, path: Seq<char>, r: CommandReport) -> bool {
    match fs.file_text(path) {
        None => r.stdout@.len() == 0 && r.stderr@.len() == 0 && r.exit_code == 1,
        Some(t) => {
            let (ok, bad) = scan_versions(text_lines(t));
            &&& r.err() == nonempty(invalid_texts(bad, path))
            &&& ok.len() > 0 ==> r.out() == seq![join(ok, ":"@)] && r.exit_code == 0
            &&& ok.len() == 0 ==> r.stdout@.len() == 0 && r.exit_code == 1
        },
    }
}

/// The confirmation printed after a version file is written.
pub open spec fn set_message(local: bool, vs: Seq<Seq<char>>, activated: bool) -> Seq<char> {
    "pyenv: "@ + (if local { "locally"@ } else { "globally"@ }) + " "@ + (if activated {
        "activated"@
    } else {
        "set"@
    }) + " "@ + join(vs, ":"@)
}

/// No managed venv answers to `s`: blank, a spec whose directory is missing, or a name no
/// managed venv has.
pub open spec fn venv_absent(ctx: AppContext, s: Seq<char>) -> bool {
    let t = trim(s);
    t.len() == 0 || match split_spec(t) {
        Some((b, n)) => !ctx.fs.has_dir(venv_dir_spec(ctx, b, n)),
        None => forall|j: ManagedVenvInfo| !#[trigger] name_match(ctx, j, t),
    }
}

/// Checks the versions and plans writing them to the global or local version file.
pub fn write_requested_versions(ctx: &AppContext, path: &str, versions: &Vec<String>, force: bool, local: bool) -> (r: (CommandReport, VersionFileChange))
    ensures
        !force && first_unavailable(*ctx, lines(versions@)) is Some ==> {
            let i = first_unavailable(*ctx, lines(versions@)).unwrap();
            r.0.err() == seq![not_installed_text(versions@[i]@, path@)] && r.0.exit_code == 1
                && r.0.stdout@.len() == 0 && r.1 is Keep
        },
        (force || first_unavailable(*ctx, lines(versions@)) is None) && versions@.len() == 0 ==> r.0.err()
            == seq!["pyenv: no versions specified"@] && r.0.exit_code == 1 && r.1 is Keep,
        (force || first_unavailable(*ctx, lines(versions@)) is None) && versions@.len() > 0 ==> {
            &&& r.1 matches VersionFileChange::Write(w) && w.path@ == path@ && w.contents@ == version_file_text(lines(versions@))
            &&& r.0.stderr@.len() == 0
            &&& r.0.exit_code == 0
            &&& exists|act: bool| #[trigger] set_message(local, lines(versions@), act) == r.0.out()[0] && r.0.out().len() == 1
                && (contains_seq(join(lines(versions@), ":"@), "venv:"@) || venv_spec_present(*ctx, versions@[0]@) ==> act)
                && (act ==> contains_seq(join(lines(versions@), ":"@), "venv:"@) || !venv_absent(*ctx, versions@[0]@))
        },
{
    match ensure_versions_exist(ctx, versions, force, path) {
        Err(e) => {
            return (CommandReport::failure_one(e.message()), VersionFileChange::Keep);
        },
        Ok(()) => {},
    }
    let plan = match write_version_file(path, versions) {
        Ok(p) => p,
        Err(e) => {
            return (CommandReport::failure_one(e.message()), VersionFileChange::Keep);
        },
    };
    let formatted = join_strings(versions, ":");
    let activated = contains_str(formatted.as_str(), "venv:") || resolve_managed_venv(ctx, versions[0].as_str()).is_ok();
    let scope = if local { "locally" } else { "globally" };
    let verb = if activated { "activated" } else { "set" };
    let head = cat5("pyenv: ", scope, " ", verb, " ");
    let msg = cat(head.as_str(), formatted.as_str());
    proof {
        reveal_strlit("locally");
        reveal_strlit("globally");
        reveal_strlit("activated");
        reveal_strlit("set");
        assert(msg@ == set_message(local, lines(versions@), activated));
    }
    let report = CommandReport::success_one(msg);
    (report, VersionFileChange::Write(plan))
}

/// `pyenv global`: removes, shows, or writes `<root>/version`.
pub fn cmd_global(ctx: &AppContext, versions: &Vec<String>, unset: bool) -> (r: (CommandReport, VersionFileChange))
    ensures
        unset ==> (r.1 matches VersionFileChange::Remove(p) && p@ == join_path(ctx.root@, "version"@)
            && r.0.stdout@.len() == 0 && r.0.stderr@.len() == 0 && r.0.exit_code == 0),
        !unset && versions@.len() == 0 ==> r.1 is Keep && r.0.out() == global_versions(*ctx)
            && r.0.stderr@.len() == 0 && r.0.exit_code == 0,
        !unset && versions@.len() > 0 ==> (first_unavailable(*ctx, lines(versions@)) is Some <==> r.0.exit_code == 1),
        !unset && versions@.len() > 0 ==> (r.0.exit_code == 0 || r.0.exit_code == 1),
        !unset && versions@.len() > 0 && r.0.exit_code == 0 ==> (r.1 matches VersionFileChange::Write(w)
            && w.path@ == join_path(ctx.root@, "version"@) && w.contents@ == version_file_text(lines(versions@))),
        !unset && versions@.len() > 0 && r.0.exit_code != 0 ==> r.1 is Keep,
{
    let path = join_path_str(ctx.root.as_str(), "version");
    if unset {
        return (CommandReport::empty_success(), VersionFileChange::Remove(path));
    }
    if versions.len() == 0 {
        return (show_global_versions(ctx), VersionFileChange::Keep);
    }
    write_requested_versions(ctx, path.as_str(), versions, false, false)
}

/// `pyenv local`: removes, shows, or writes `<dir>/.python-version`.
pub fn cmd_local(ctx: &AppContext, versions: &Vec<String>, unset: bool, force: bool) -> (r: (CommandReport, VersionFileChange))
    ensures
        unset ==> (r.1 matches VersionFileChange::Remove(p) && p@ == join_path(ctx.dir@, ".python-version"@)
            && r.0.stdout@.len() == 0 && r.0.stderr@.len() == 0 && r.0.exit_code == 0),
        !unset && versions@.len() == 0 ==> r.1 is Keep && match find_local(ctx.fs, ctx.dir@) {
            Some(p) => read_report(ctx.fs, p, r.0),
            None => r.0.err() == seq![error_text(PyenvError::NoLocalVersion)] && r.0.exit_code == 1,
        },
        !unset && versions@.len() > 0 ==> (!force && first_unavailable(*ctx, lines(versions@)) is Some <==> r.0.exit_code == 1),
        !unset && versions@.len() > 0 ==> (r.0.exit_code == 0 || r.0.exit_code == 1),
        !unset && versions@.len() > 0 && r.0.exit_code == 0 ==> (r.1 matches VersionFileChange::Write(w)
            && w.path@ == join_path(ctx.dir@, ".python-version"@) && w.contents@ == version_file_text(lines(versions@))),
        !unset && versions@.len() > 0 && r.0.exit_code != 0 ==> r.1 is Keep,
{
    let path = join_path_str(ctx.dir.as_str(), ".python-version");
    if unset {
        return (CommandReport::empty_success(), VersionFileChange::Remove(path));
    }
    if versions.len() == 0 {
        return (show_local_versions(ctx), VersionFileChange::Keep);
    }
    write_requested_versions(ctx, path.as_str(), versions, force, true)
}

} // verus!

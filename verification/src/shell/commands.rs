//! The shell-facing commands: `init`, the `sh-*` commands that the shell function evaluates,
//! and the plain commands that only say shell integration is missing.
use vstd::prelude::*;

use crate::context::{join_path, join_path_str, AppContext};
use crate::error::{error_text, PyenvError};
use crate::report::CommandReport;
use crate::shell::emit::{
    activate_lines, deactivate_lines, rehash_lines, revert_lines, set_lines, shell_emit_activate,
    shell_emit_deactivate, shell_emit_rehash, shell_emit_revert, shell_emit_set,
    shell_emit_show_current, shell_emit_unset, show_current_lines, unset_lines,
};
use crate::shell::functions::{cmd_quoted_all, render_cmd_exec_line};
use crate::shell::init::{
    detect_shell_lines, detected_shell, effective_shell, init_help_lines, init_path_lines,
    init_print_lines, parse_init_args, parsed_init, render_detect_shell, render_init_help,
    render_init_path, render_init_print,
};
use crate::shell::kinds::{InitMode, ShellKind};
use crate::strings::{
    cat, cat3, join, join_strings, lines, lower_seq, lower_str, nonempty, owned, str_eq, trim,
    trim_str,
};
use crate::venv::inventory::{lemma_resolve_ok_unique, resolve_err, resolve_managed_venv, resolve_ok, ManagedVenvInfo};
use crate::venv_compat::{missing_list, opt_str, render_missing_list, selection_missing_text};
use crate::version::selection::{
    normalize_version_name, resolve_selected_versions, selection, version_available,
    version_exists,
};
use crate::catalog::latest_installed_version;

verus! {

broadcast use vstd::string::group_string_axioms;

/// The message of the commands that need the shell function.
pub open spec fn integration_text() -> Seq<char> {
    "pyenv: shell integration not enabled. Run `pyenv init' for instructions."@
}

/// The message of `activate` and `deactivate` without the shell function.
pub open spec fn activation_integration_text() -> Seq<char> {
    "pyenv: shell integration not enabled. Run `pyenv init` or `pyenv virtualenv-init -` first."@
}

/// `pyenv shell` without the shell function: fails with a pointer to `pyenv init`.
pub fn cmd_shell(ctx: &AppContext, args: &Vec<String>) -> (r: CommandReport)
    ensures
        r.err() == seq![integration_text()],
        r.exit_code == 1,
        r.stdout@.len() == 0,
{
    CommandReport::failure_one(owned("pyenv: shell integration not enabled. Run `pyenv init' for instructions."))
}

/// `pyenv activate` without the shell function.
pub fn cmd_activate(ctx: &AppContext, args: &Vec<String>) -> (r: CommandReport)
    ensures
        r.err() == seq![activation_integration_text()],
        r.exit_code == 1,
        r.stdout@.len() == 0,
{
    CommandReport::failure_one(owned("pyenv: shell integration not enabled. Run `pyenv init` or `pyenv virtualenv-init -` first."))
}

/// `pyenv deactivate` without the shell function.
pub fn cmd_deactivate(ctx: &AppContext, args: &Vec<String>) -> (r: CommandReport)
    ensures
        r.err() == seq![activation_integration_text()],
        r.exit_code == 1,
        r.stdout@.len() == 0,
{
    CommandReport::failure_one(owned("pyenv: shell integration not enabled. Run `pyenv init` or `pyenv virtualenv-init -` first."))
}

/// The arguments without a leading `--`.
pub open spec fn stripped(args: Seq<Seq<char>>) -> Seq<Seq<char>> {
    if args.len() > 0 && args[0] == "--"@ {
        args.drop_first()
    } else {
        args
    }
}

/// Drops a leading `--` separator.
pub fn strip_shell_separator(args: &Vec<String>) -> (r: Vec<String>)
    ensures
        lines(r@) == stripped(lines(args@)),
{
    let start: usize = if args.len() > 0 && str_eq(args[0].as_str(), "--") { 1 } else { 0 };
    proof {
        reveal_strlit("--");
    }
    let mut out: Vec<String> = Vec::new();
    let mut i = start;
    while i < args.len()
        invariant
            start <= i <= args@.len(),
            start <= 1,
            lines(out@) == lines(args@).subrange(start as int, i as int),
        decreases args.len() - i,
    {
        let ghost before = lines(out@);
        out.push(args[i].clone());
        assert(lines(out@) =~= before.push(args@[i as int]@));
        assert(lines(out@) =~= lines(args@).subrange(start as int, i + 1));
        i = i + 1;
    }
    assert(lines(args@).subrange(start as int, args@.len() as int) =~= stripped(lines(args@)));
    out
}

/// The message for a shell version that is not available.
pub open spec fn shell_missing_text(v: Seq<char>) -> Seq<char> {
    "pyenv: version `"@ + v + "` not installed"@
}

/// The first version that is not available.
pub open spec fn first_missing(ctx: AppContext, vs: Seq<Seq<char>>) -> Option<Seq<char>>
    decreases vs.len(),
{
    if vs.len() == 0 {
        None
    } else if !version_available(ctx, vs[0]) {
        Some(vs[0])
    } else {
        first_missing(ctx, vs.drop_first())
    }
}

/// Fails on the first requested version that is not available.
pub fn validate_shell_versions(ctx: &AppContext, versions: &Vec<String>) -> (r: Result<(), PyenvError>)
    ensures
        match first_missing(*ctx, lines(versions@)) {
            None => r is Ok,
            Some(v) => r matches Err(e) && error_text(e) == shell_missing_text(v),
        },
{
    let mut i: usize = 0;
    assert(lines(versions@).skip(0) =~= lines(versions@));
    while i < versions.len()
        invariant
            i <= versions@.len(),
            first_missing(*ctx, lines(versions@)) == first_missing(*ctx, lines(versions@).skip(i as int)),
        decreases versions.len() - i,
    {
        let v = versions[i].as_str();
        assert(lines(versions@).skip(i as int)[0] == v@);
        assert(lines(versions@).skip(i as int).drop_first() =~= lines(versions@).skip(i + 1));
        let n = normalize_version_name(v);
        let available = version_exists(ctx, v) || version_exists(ctx, n.as_str())
            || latest_installed_version(ctx, v).is_some() || latest_installed_version(ctx, n.as_str()).is_some();
        if !available {
            return Err(PyenvError::Io(cat3("pyenv: version `", v, "` not installed")));
        }
        i = i + 1;
    }
    Ok(())
}

/// The trimmed, non-empty arguments.
pub open spec fn requested_of(args: Seq<Seq<char>>) -> Seq<Seq<char>> {
    nonempty(args.map_values(|a: Seq<char>| trim(a)))
}

/// What `sh-shell` prints: (stdout, stderr, exit code).
pub open spec fn sh_shell_outcome(ctx: AppContext, args: Seq<Seq<char>>) -> (Seq<Seq<char>>, Seq<Seq<char>>, int) {
    let shell = detected_shell(ctx);
    let a = stripped(args);
    let none = seq!["pyenv: no shell-specific version configured"@];
    if a.len() == 0 {
        if ctx.env_version is Some {
            (show_current_lines(shell), seq![], 0)
        } else {
            (seq![], none, 1)
        }
    } else if a.len() == 1 && a[0] == "--unset"@ {
        (unset_lines(shell), seq![], 0)
    } else if a.len() == 1 && a[0] == "-"@ {
        (revert_lines(shell), seq![], 0)
    } else {
        let req = requested_of(a);
        if req.len() == 0 {
            (seq![], none, 1)
        } else {
            match first_missing(ctx, req) {
                Some(v) => (seq![], seq![shell_missing_text(v)], 1),
                None => {
                    let value = join(req, ":"@);
                    if ctx.env_version is Some && ctx.env_version.unwrap()@ == value {
                        (seq![], seq![], 0)
                    } else {
                        (set_lines(shell, value), seq![], 0)
                    }
                },
            }
        }
    }
}

/// `sh-shell`: code that shows, sets, unsets or reverts the shell-scoped version.
pub fn cmd_sh_shell(ctx: &AppContext, args: &Vec<String>) -> (r: CommandReport)
    ensures
        (r.out(), r.err(), r.exit_code as int) == sh_shell_outcome(*ctx, lines(args@)),
{
    proof {
        reveal_strlit("--unset");
        reveal_strlit("-");
    }
    let shell = effective_shell(ctx);
    let a = strip_shell_separator(args);
    if a.len() == 0 {
        return match &ctx.env_version {
            Some(_) => CommandReport::success(shell_emit_show_current(shell)),
            None => CommandReport::failure_one(owned("pyenv: no shell-specific version configured")),
        };
    }
    if a.len() == 1 && str_eq(a[0].as_str(), "--unset") {
        return CommandReport::success(shell_emit_unset(shell));
    }
    if a.len() == 1 && str_eq(a[0].as_str(), "-") {
        return CommandReport::success(shell_emit_revert(shell));
    }
    let ghost av = lines(a@);
    let mut requested: Vec<String> = Vec::new();
    let mut i: usize = 0;
    while i < a.len()
        invariant
            i <= a@.len(),
            av == lines(a@),
            lines(requested@) == nonempty(av.take(i as int).map_values(|x: Seq<char>| trim(x))),
        decreases a.len() - i,
    {
        assert(av.take(i + 1).map_values(|x: Seq<char>| trim(x)).drop_last() =~= av.take(i as int).map_values(|x: Seq<char>| trim(x)));
        let t = trim_str(a[i].as_str());
        assert(av.take(i + 1).map_values(|x: Seq<char>| trim(x)).last() == t@);
        if !t.as_str().is_empty() {
            let ghost before = lines(requested@);
            requested.push(t);
            assert(lines(requested@) =~= before.push(trim(av[i as int])));
        }
        i = i + 1;
    }
    assert(av.take(a@.len() as int) =~= av);
    if requested.len() == 0 {
        return CommandReport::failure_one(owned("pyenv: no shell-specific version configured"));
    }
    match validate_shell_versions(ctx, &requested) {
        Err(e) => {
            return CommandReport::failure_one(e.message());
        },
        Ok(()) => {},
    }
    let value = join_strings(&requested, ":");
    let same = match &ctx.env_version {
        Some(e) => str_eq(e.as_str(), value.as_str()),
        None => false,
    };
    if same {
        return CommandReport::empty_success();
    }
    CommandReport::success(shell_emit_set(shell, value.as_str()))
}

/// The executable directory of a venv: `Scripts` then `bin` on Windows, the other way
/// round elsewhere, the first that exists.
pub open spec fn bin_dir_of(ctx: AppContext, prefix: Seq<char>) -> Option<Seq<char>> {
    let (a, b) = if ctx.windows { ("Scripts"@, "bin"@) } else { ("bin"@, "Scripts"@) };
    if ctx.fs.has_dir(join_path(prefix, a)) {
        Some(join_path(prefix, a))
    } else if ctx.fs.has_dir(join_path(prefix, b)) {
        Some(join_path(prefix, b))
    } else {
        None
    }
}

/// Where the executables of a venv live.
pub fn virtualenv_bin_dir(ctx: &AppContext, prefix: &str) -> (r: Option<String>)
    ensures
        match r {
            Some(p) => bin_dir_of(*ctx, prefix@) == Some(p@),
            None => bin_dir_of(*ctx, prefix@) is None,
        },
{
    let (a, b) = if ctx.windows { ("Scripts", "bin") } else { ("bin", "Scripts") };
    let first = join_path_str(prefix, a);
    if ctx.fs.is_dir(first.as_str()) {
        return Some(first);
    }
    let second = join_path_str(prefix, b);
    if ctx.fs.is_dir(second.as_str()) {
        return Some(second);
    }
    None
}

/// The message when no venv is named and none is active.
pub open spec fn no_venv_selected_text() -> Seq<char> {
    "pyenv: no managed venv is selected; pass a venv name/spec such as `pyenv activate api`"@
}

/// The message when the active selection is not a managed venv.
pub open spec fn not_a_venv_text(active: Seq<char>) -> Seq<char> {
    "pyenv: the current selection `"@ + active + "` is not a managed venv; pass a venv name/spec such as `pyenv activate api`"@
}

/// The venv `activate` targets: the named one, else the active selection when it is one.
pub open spec fn activation_ok(ctx: AppContext, requested: Option<Seq<char>>, i: ManagedVenvInfo) -> bool {
    match requested {
        Some(s) => if trim(s).len() > 0 {
            resolve_ok(ctx, trim(s), i)
        } else {
            selected_venv(ctx, i)
        },
        None => selected_venv(ctx, i),
    }
}

/// The active selection is the managed venv `i`.
pub open spec fn selected_venv(ctx: AppContext, i: ManagedVenvInfo) -> bool {
    let (vs, missing) = selection(ctx, false);
    missing.len() == 0 && vs.len() > 0 && resolve_ok(ctx, vs[0], i)
}

/// Why `activate` has no target.
pub open spec fn activation_err(ctx: AppContext, requested: Option<Seq<char>>, msg: Seq<char>) -> bool {
    let named = requested is Some && trim(requested.unwrap()).len() > 0;
    if named {
        resolve_err(ctx, trim(requested.unwrap()), msg)
    } else {
        let (vs, missing) = selection(ctx, false);
        if missing.len() > 0 {
            msg == selection_missing_text(missing)
        } else if vs.len() == 0 {
            msg == no_venv_selected_text()
        } else {
            msg == not_a_venv_text(vs[0]) && exists|m: Seq<char>| #[trigger] resolve_err(ctx, vs[0], m)
        }
    }
}

/// The managed venv to activate.
pub fn resolve_activation_target(ctx: &AppContext, requested: Option<&str>) -> (r: Result<ManagedVenvInfo, PyenvError>)
    ensures
        match r {
            Ok(i) => activation_ok(*ctx, match requested {
                Some(s) => Some(s@),
                None => None,
            }, i),
            Err(e) => activation_err(*ctx, match requested {
                Some(s) => Some(s@),
                None => None,
            }, error_text(e)),
        },
        (exists|i: ManagedVenvInfo| #[trigger] activation_ok(*ctx, opt_str(requested), i)) ==> r is Ok,
{
    match requested {
        Some(s) => {
            let t = trim_str(s);
            if !t.as_str().is_empty() {
                return resolve_managed_venv(ctx, t.as_str());
            }
        },
        None => {},
    }
    let selected = resolve_selected_versions(ctx, false);
    if selected.missing.len() > 0 {
        let listed = render_missing_list(&selected.missing);
        return Err(PyenvError::Io(cat("pyenv: the current selection is missing: ", listed.as_str())));
    }
    if selected.versions.len() == 0 {
        return Err(PyenvError::Io(owned("pyenv: no managed venv is selected; pass a venv name/spec such as `pyenv activate api`")));
    }
    let active = selected.versions[0].as_str();
    assert(lines(selected.versions@)[0] == active@);
    match resolve_managed_venv(ctx, active) {
        Ok(i) => {
            assert(selected_venv(*ctx, i));
            Ok(i)
        },
        Err(e) => {
            proof {
                assert(resolve_err(*ctx, active@, error_text(e)));
            }
            Err(PyenvError::Io(cat3(
                "pyenv: the current selection `",
                active,
                "` is not a managed venv; pass a venv name/spec such as `pyenv activate api`",
            )))
        },
    }
}

/// Two targets of one activation request are the same venv.
pub proof fn lemma_activation_ok_unique(ctx: AppContext, requested: Option<Seq<char>>, a: ManagedVenvInfo, b: ManagedVenvInfo)
    requires
        activation_ok(ctx, requested, a),
        activation_ok(ctx, requested, b),
    ensures
        a.spec@ == b.spec@,
        a.path@ == b.path@,
{
    match requested {
        Some(s) => if trim(s).len() > 0 {
            lemma_resolve_ok_unique(ctx, trim(s), a, b);
        } else {
            lemma_resolve_ok_unique(ctx, selection(ctx, false).0[0], a, b);
        },
        None => {
            lemma_resolve_ok_unique(ctx, selection(ctx, false).0[0], a, b);
        },
    }
}

/// The message when a venv lacks an executable directory.
pub open spec fn missing_bin_text(spec: Seq<char>, path: Seq<char>) -> Seq<char> {
    "pyenv: managed venv `"@ + spec + "` is missing its executable directory under "@ + path
}

/// The report is what `sh-activate` gives for the arguments: the activation code for the
/// target venv, or why there is none.
pub open spec fn sh_activate_report(ctx: AppContext, args: Seq<Seq<char>>, r: CommandReport) -> bool {
    let req = first_arg(stripped(args));
    &&& r.exit_code == 0 ==> r.stderr@.len() == 0 && exists|i: ManagedVenvInfo| #[trigger] activation_ok(ctx, req, i)
        && bin_dir_of(ctx, i.path@) is Some && r.out() == activate_lines(detected_shell(ctx), i.spec@, i.path@, bin_dir_of(ctx, i.path@).unwrap())
    &&& r.exit_code != 0 ==> r.exit_code == 1 && r.stdout@.len() == 0 && ((exists|m: Seq<char>| #[trigger] activation_err(ctx, req, m) && r.err() == seq![m])
        || (exists|i: ManagedVenvInfo| #[trigger] activation_ok(ctx, req, i) && bin_dir_of(ctx, i.path@) is None
            && r.err() == seq![missing_bin_text(i.spec@, i.path@)]))
}

/// `sh-activate`: code that activates the named or selected managed venv.
pub fn cmd_sh_activate(ctx: &AppContext, args: &Vec<String>) -> (r: CommandReport)
    ensures
        sh_activate_report(*ctx, lines(args@), r),
        forall|i: ManagedVenvInfo| #[trigger] activation_ok(*ctx, first_arg(stripped(lines(args@))), i) && bin_dir_of(*ctx, i.path@) is Some
            ==> r.exit_code == 0,
{
    let shell = effective_shell(ctx);
    let a = strip_shell_separator(args);
    let first: Option<&str> = if a.len() > 0 { Some(a[0].as_str()) } else { None };
    assert(first_arg(lines(a@)) == match first {
        Some(s) => Some(s@),
        None => None::<Seq<char>>,
    });
    let info = match resolve_activation_target(ctx, first) {
        Ok(i) => i,
        Err(e) => {
            let m = e.message();
            return CommandReport::failure_one(m);
        },
    };
    proof {
        assert forall|i: ManagedVenvInfo| #[trigger] activation_ok(*ctx, first_arg(stripped(lines(args@))), i) implies i.path@ == info.path@ by {
            lemma_activation_ok_unique(*ctx, first_arg(stripped(lines(args@))), i, info);
        }
    }
    match virtualenv_bin_dir(ctx, info.path.as_str()) {
        None => {
            let head = cat3("pyenv: managed venv `", info.spec.as_str(), "` is missing its executable directory under ");
            CommandReport::failure_one(cat(head.as_str(), info.path.as_str()))
        },
        Some(bin) => CommandReport::success(shell_emit_activate(shell, info.spec.as_str(), info.path.as_str(), bin.as_str())),
    }
}

/// The first argument, if any.
pub open spec fn first_arg(args: Seq<Seq<char>>) -> Option<Seq<char>> {
    if args.len() > 0 {
        Some(args[0])
    } else {
        None
    }
}

/// `sh-deactivate`: code that restores the environment from before activation.
pub fn cmd_sh_deactivate(ctx: &AppContext, args: &Vec<String>) -> (r: CommandReport)
    ensures
        r.out() == deactivate_lines(detected_shell(*ctx)),
        r.stderr@.len() == 0,
        r.exit_code == 0,
{
    CommandReport::success(shell_emit_deactivate(effective_shell(ctx)))
}

/// `sh-rehash`: code that runs `pyenv rehash`.
pub fn cmd_sh_rehash(ctx: &AppContext) -> (r: CommandReport)
    ensures
        r.out() == rehash_lines(detected_shell(*ctx), ctx.exe_path@),
        r.stderr@.len() == 0,
        r.exit_code == 0,
{
    CommandReport::success(shell_emit_rehash(effective_shell(ctx), ctx.exe_path.as_str()))
}

/// `sh-cmd`: what the CMD wrapper evaluates: the `sh-*` output for shell, activate,
/// deactivate and rehash, else a line that runs the command through the executable.
pub fn cmd_sh_cmd(ctx: &AppContext, args: &Vec<String>) -> (r: CommandReport)
    ensures
        ({
            let a = stripped(lines(args@));
            let exe = "\""@ + ctx.exe_path@ + "\""@;
            if a.len() == 0 {
                r.out() == seq![exe] && r.stderr@.len() == 0 && r.exit_code == 0
            } else {
                let c = lower_seq(a[0]);
                let rest = a.drop_first();
                if c == "shell"@ {
                    (r.out(), r.err(), r.exit_code as int) == sh_shell_outcome(*ctx, rest)
                } else if c == "activate"@ {
                    sh_activate_report(*ctx, rest, r)
                } else if c == "deactivate"@ {
                    r.out() == deactivate_lines(detected_shell(*ctx)) && r.stderr@.len() == 0 && r.exit_code == 0
                } else if c == "rehash"@ {
                    r.out() == rehash_lines(detected_shell(*ctx), ctx.exe_path@) && r.stderr@.len() == 0 && r.exit_code == 0
                } else {
                    r.out() == seq![join(seq![exe] + cmd_quoted_all(a), " "@)] && r.stderr@.len() == 0 && r.exit_code == 0
                }
            }
        }),
{
    proof {
        reveal_strlit("shell");
        reveal_strlit("activate");
        reveal_strlit("deactivate");
        reveal_strlit("rehash");
    }
    let a = strip_shell_separator(args);
    if a.len() == 0 {
        return CommandReport::success_one(cat3("\"", ctx.exe_path.as_str(), "\""));
    }
    let c = lower_str(a[0].as_str());
    let mut rest: Vec<String> = Vec::new();
    let mut i: usize = 1;
    while i < a.len()
        invariant
            1 <= i <= a@.len(),
            lines(rest@) == lines(a@).subrange(1, i as int),
        decreases a.len() - i,
    {
        let ghost before = lines(rest@);
        rest.push(a[i].clone());
        assert(lines(rest@) =~= before.push(a@[i as int]@));
        assert(lines(rest@) =~= lines(a@).subrange(1, i + 1));
        i = i + 1;
    }
    assert(lines(a@).subrange(1, a@.len() as int) =~= lines(a@).drop_first());
    if str_eq(c.as_str(), "shell") {
        cmd_sh_shell(ctx, &rest)
    } else if str_eq(c.as_str(), "activate") {
        cmd_sh_activate(ctx, &rest)
    } else if str_eq(c.as_str(), "deactivate") {
        cmd_sh_deactivate(ctx, &rest)
    } else if str_eq(c.as_str(), "rehash") {
        cmd_sh_rehash(ctx)
    } else {
        CommandReport::success_one(render_cmd_exec_line(ctx.exe_path.as_str(), a.as_slice()))
    }
}

/// The report of `pyenv init` for the arguments: the help (on stderr, failing), the detected
/// shell, the PATH setup, or the full init script; or the argument error.
pub open spec fn init_report(ctx: AppContext, args: Seq<Seq<char>>, r: CommandReport) -> bool {
    match parsed_init(ctx, args) {
        Err(e) => r.err() == seq![e] && r.exit_code == 1 && r.stdout@.len() == 0,
        Ok(o) => match o.mode {
            InitMode::Help => r.stdout@.len() == 0 && r.err() == init_help_lines(o.shell) && r.exit_code == 1,
            InitMode::DetectShell => r.out() == detect_shell_lines(o.shell) && r.stderr@.len() == 0 && r.exit_code == 0,
            InitMode::Path => r.out() == init_path_lines(ctx, o) && r.stderr@.len() == 0 && r.exit_code == 0,
            InitMode::Print => r.out() == init_print_lines(ctx, o) && r.stderr@.len() == 0 && r.exit_code == 0,
        },
    }
}

/// The directories `pyenv init` makes sure exist once its arguments parse: the shims
/// directory, then the versions directory.
pub fn init_directories(ctx: &AppContext) -> (r: Vec<String>)
    ensures
        lines(r@) == seq![ctx.shims_dir_spec(), ctx.versions_dir_spec()],
{
    let mut v: Vec<String> = Vec::new();
    v.push(ctx.shims_dir());
    v.push(ctx.versions_dir());
    assert(lines(v@) =~= seq![ctx.shims_dir_spec(), ctx.versions_dir_spec()]);
    v
}

/// The report of `pyenv init` once its directories exist (see `init_plan`).
pub fn cmd_init(ctx: &AppContext, args: &Vec<String>) -> (r: CommandReport)
    ensures
        init_report(*ctx, lines(args@), r),
{
    let options = match parse_init_args(ctx, args.as_slice()) {
        Ok(o) => o,
        Err(e) => {
            return CommandReport::failure_one(e);
        },
    };
    match options.mode {
        InitMode::Help => CommandReport { stdout: Vec::new(), stderr: render_init_help(options.shell), exit_code: 1 },
        InitMode::DetectShell => CommandReport::success(render_detect_shell(options.shell)),
        InitMode::Path => CommandReport::success(render_init_path(ctx, &options)),
        InitMode::Print => CommandReport::success(render_init_print(ctx, &options)),
    }
}

/// `pyenv init`, decided: the refusal when the arguments do not parse; otherwise the
/// directories to create first (the shims and versions directories) and the report to give
/// once they exist.
pub fn init_plan(ctx: &AppContext, args: &Vec<String>) -> (r: Result<(Vec<String>, CommandReport), CommandReport>)
    ensures
        r is Err <==> parsed_init(*ctx, lines(args@)) is Err,
        r matches Err(rep) ==> init_report(*ctx, lines(args@), rep),
        r matches Ok(p) ==> lines(p.0@) == seq![ctx.shims_dir_spec(), ctx.versions_dir_spec()] && init_report(*ctx, lines(args@), p.1),
{
    let report = cmd_init(ctx, args);
    match parse_init_args(ctx, args.as_slice()) {
        Err(_) => Err(report),
        Ok(_) => Ok((init_directories(ctx), report)),
    }
}

/// The report when `pyenv init` cannot create one of its directories.
pub fn init_dirs_failed(error: &str) -> (r: CommandReport)
    ensures
        r.err() == seq![error@],
        r.exit_code == 1,
        r.stdout@.len() == 0,
{
    CommandReport::failure_one(owned(error))
}

/// `pyenv virtualenv-init`: the same output as `pyenv init`.
pub fn cmd_virtualenv_init(ctx: &AppContext, args: &Vec<String>) -> (r: CommandReport)
    ensures
        init_report(*ctx, lines(args@), r),
{
    cmd_init(ctx, args)
}

} // verus!

//! `pyenv init`: argument parsing, shell detection, help text and the PATH bootstrap.
use vstd::prelude::*;

use crate::context::AppContext;
use crate::shell::emit::{rehash_lines, set_shell_lines, shell_emit_rehash, shell_emit_set_shell};
use crate::shell::functions::{render_shell_function, shell_function_lines};
use crate::shell::kinds::{
    canonical_spec, canonical_string, parse_shell, InitCommandOptions, InitMode, ShellKind,
};
use crate::shell::quotes::{ps_single, ps_single_quote};
use crate::strings::{
    cat, cat3, cat5, lines, owned, replace_seq, replace_str, starts_with, starts_with_str,
    str_eq,
};

verus! {

broadcast use vstd::string::group_string_axioms;

/// The shell named by `PYENV_SHELL`, else PowerShell on Windows and bash elsewhere.
pub open spec fn detected_shell(ctx: AppContext) -> ShellKind {
    match ctx.env_shell {
        Some(s) => match parse_shell(s@) {
            Some(k) => k,
            None => if ctx.windows { ShellKind::Pwsh } else { ShellKind::Bash },
        },
        None => if ctx.windows { ShellKind::Pwsh } else { ShellKind::Bash },
    }
}

/// Without a recognised `PYENV_SHELL` the shell is the platform's default: PowerShell on
/// Windows, bash elsewhere; a recognised one is used as named.
pub proof fn law_detected_shell_default(ctx: AppContext)
    ensures
        ctx.env_shell is None ==> detected_shell(ctx) == (if ctx.windows { ShellKind::Pwsh } else { ShellKind::Bash }),
        (ctx.env_shell matches Some(s) && parse_shell(s@) is None) ==> detected_shell(ctx) == (if ctx.windows {
            ShellKind::Pwsh
        } else {
            ShellKind::Bash
        }),
        (ctx.env_shell matches Some(s) && parse_shell(s@) is Some) ==> detected_shell(ctx) == parse_shell(
            ctx.env_shell.unwrap()@,
        ).unwrap(),
        !ctx.windows && ctx.env_shell is None ==> detected_shell(ctx) != ShellKind::Pwsh,
{
}

/// The shell the environment names, with the platform default.
pub fn detect_shell(ctx: &AppContext) -> (r: ShellKind)
    ensures
        r == detected_shell(*ctx),
{
    let named = match &ctx.env_shell {
        Some(s) => ShellKind::parse(s.as_str()),
        None => None,
    };
    match named {
        Some(k) => k,
        None => if ctx.windows {
            ShellKind::Pwsh
        } else {
            ShellKind::Bash
        },
    }
}

/// The shell that `sh-*` commands emit code for.
pub fn effective_shell(ctx: &AppContext) -> (r: ShellKind)
    ensures
        r == detected_shell(*ctx),
{
    detect_shell(ctx)
}

/// The parse state after some arguments: mode, named shell, and the two flags.
pub struct InitParse {
    pub mode: InitMode,
    pub shell: Option<ShellKind>,
    pub no_push_path: bool,
    pub no_rehash: bool,
}

/// One argument applied to the parse state.
pub open spec fn init_step(st: InitParse, a: Seq<char>) -> Result<InitParse, Seq<char>> {
    if a == "-"@ {
        Ok(InitParse { mode: InitMode::Print, ..st })
    } else if a == "--path"@ {
        Ok(InitParse { mode: InitMode::Path, ..st })
    } else if a == "--detect-shell"@ {
        Ok(InitParse { mode: InitMode::DetectShell, ..st })
    } else if a == "--no-push-path"@ {
        Ok(InitParse { no_push_path: true, ..st })
    } else if a == "--no-rehash"@ {
        Ok(InitParse { no_rehash: true, ..st })
    } else if starts_with(a, "-"@) {
        Err("pyenv: unknown init option `"@ + a + "`"@)
    } else {
        match parse_shell(a) {
            Some(k) => Ok(InitParse { shell: Some(k), ..st }),
            None => Err("pyenv: unsupported shell `"@ + a + "`"@),
        }
    }
}

/// The arguments applied in order; the first error stops the parse.
pub open spec fn init_fold(args: Seq<Seq<char>>) -> Result<InitParse, Seq<char>>
    decreases args.len(),
{
    if args.len() == 0 {
        Ok(InitParse { mode: InitMode::Help, shell: None, no_push_path: false, no_rehash: false })
    } else {
        match init_fold(args.drop_last()) {
            Ok(st) => init_step(st, args.last()),
            Err(e) => Err(e),
        }
    }
}

/// `pyenv init` arguments as options; a missing shell is detected from the context.
pub open spec fn parsed_init(ctx: AppContext, args: Seq<Seq<char>>) -> Result<InitCommandOptions, Seq<char>> {
    match init_fold(args) {
        Ok(st) => Ok(InitCommandOptions {
            mode: st.mode,
            shell: match st.shell {
                Some(k) => k,
                None => detected_shell(ctx),
            },
            no_push_path: st.no_push_path,
            no_rehash: st.no_rehash,
        }),
        Err(e) => Err(e),
    }
}

/// Parses the arguments of `pyenv init`.
pub fn parse_init_args(ctx: &AppContext, args: &[String]) -> (r: Result<InitCommandOptions, String>)
    ensures
        match r {
            Ok(o) => parsed_init(*ctx, lines(args@)) == Ok::<InitCommandOptions, Seq<char>>(o),
            Err(e) => parsed_init(*ctx, lines(args@)) == Err::<InitCommandOptions, Seq<char>>(e@),
        },
{
    let mut mode = InitMode::Help;
    let mut shell: Option<ShellKind> = None;
    let mut no_push_path = false;
    let mut no_rehash = false;
    let mut i: usize = 0;
    while i < args.len()
        invariant
            i <= args@.len(),
            init_fold(lines(args@).take(i as int)) == Ok::<InitParse, Seq<char>>(
                InitParse { mode, shell, no_push_path, no_rehash },
            ),
        decreases args.len() - i,
    {
        let a = args[i].as_str();
        assert(lines(args@).take(i + 1).drop_last() =~= lines(args@).take(i as int));
        assert(lines(args@).take(i + 1).last() == a@);
        if str_eq(a, "-") {
            mode = InitMode::Print;
        } else if str_eq(a, "--path") {
            mode = InitMode::Path;
        } else if str_eq(a, "--detect-shell") {
            mode = InitMode::DetectShell;
        } else if str_eq(a, "--no-push-path") {
            no_push_path = true;
        } else if str_eq(a, "--no-rehash") {
            no_rehash = true;
        } else if starts_with_str(a, "-") {
            let e = cat3("pyenv: unknown init option `", a, "`");
            proof {
                lemma_fold_error_sticks(lines(args@), i as int + 1, e@);
            }
            return Err(e);
        } else {
            match ShellKind::parse(a) {
                Some(k) => {
                    shell = Some(k);
                },
                None => {
                    let e = cat3("pyenv: unsupported shell `", a, "`");
                    proof {
                        lemma_fold_error_sticks(lines(args@), i as int + 1, e@);
                    }
                    return Err(e);
                },
            }
        }
        i = i + 1;
    }
    assert(lines(args@).take(args@.len() as int) =~= lines(args@));
    let resolved = match shell {
        Some(k) => k,
        None => detect_shell(ctx),
    };
    Ok(InitCommandOptions { mode, shell: resolved, no_push_path, no_rehash })
}

/// Once the parse fails, later arguments keep the same error.
pub proof fn lemma_fold_error_sticks(args: Seq<Seq<char>>, k: int, e: Seq<char>)
    requires
        0 <= k <= args.len(),
        init_fold(args.take(k)) == Err::<InitParse, Seq<char>>(e),
    ensures
        init_fold(args) == Err::<InitParse, Seq<char>>(e),
    decreases args.len() - k,
{
    if k < args.len() {
        assert(args.take(k + 1).drop_last() =~= args.take(k));
        lemma_fold_error_sticks(args, k + 1, e);
    } else {
        assert(args.take(k) =~= args);
    }
}

pub open spec fn init_help_lines(shell: ShellKind) -> Seq<Seq<char>> {
    match shell {
        ShellKind::Pwsh => seq![
            "# Load pyenv automatically by appending"@,
            "# the following to $PROFILE.CurrentUserCurrentHost:"@,
            Seq::<char>::empty(),
            "iex ((pyenv init - pwsh) -join \"`n\")"@,
            Seq::<char>::empty(),
            "# Restart your shell for the changes to take effect."@,
        ],
        ShellKind::Cmd => seq![
            "REM For CMD, initialize pyenv in each session with:"@,
            "FOR /F \"delims=\" %i IN ('pyenv init - cmd') DO %i"@,
            Seq::<char>::empty(),
            "REM This adds shims to PATH and installs a doskey macro for `pyenv shell`."@,
        ],
        ShellKind::Fish => seq![
            "# Load pyenv automatically by evaluating the generated init script:"@,
            "pyenv init - fish | source"@,
            Seq::<char>::empty(),
            "# Restart your shell for the changes to take effect."@,
        ],
        _ => seq![
            "# Load pyenv automatically by evaluating the generated init script:"@,
            "eval \"$(pyenv init - "@ + canonical_spec(shell) + ")\""@,
            Seq::<char>::empty(),
            "# Restart your shell for the changes to take effect."@,
        ],
    }
}

/// How to load the init script from the shell's profile.
pub fn render_init_help(shell: ShellKind) -> (r: Vec<String>)
    ensures
        lines(r@) == init_help_lines(shell),
{
    let r = match shell {
        ShellKind::Pwsh => vec![
            owned("# Load pyenv automatically by appending"),
            owned("# the following to $PROFILE.CurrentUserCurrentHost:"),
            String::new(),
            owned("iex ((pyenv init - pwsh) -join \"`n\")"),
            String::new(),
            owned("# Restart your shell for the changes to take effect."),
        ],
        ShellKind::Cmd => vec![
            owned("REM For CMD, initialize pyenv in each session with:"),
            owned("FOR /F \"delims=\" %i IN ('pyenv init - cmd') DO %i"),
            String::new(),
            owned("REM This adds shims to PATH and installs a doskey macro for `pyenv shell`."),
        ],
        ShellKind::Fish => vec![
            owned("# Load pyenv automatically by evaluating the generated init script:"),
            owned("pyenv init - fish | source"),
            String::new(),
            owned("# Restart your shell for the changes to take effect."),
        ],
        _ => {
            let name = canonical_string(shell);
            vec![
                owned("# Load pyenv automatically by evaluating the generated init script:"),
                cat3("eval \"$(pyenv init - ", name.as_str(), ")\""),
                String::new(),
                owned("# Restart your shell for the changes to take effect."),
            ]
        },
    };
    assert(lines(r@) =~= init_help_lines(shell));
    r
}

pub open spec fn profile_of(shell: ShellKind) -> (Seq<char>, Seq<char>) {
    match shell {
        ShellKind::Pwsh => ("$PROFILE.CurrentUserCurrentHost"@, "$PROFILE.CurrentUserCurrentHost"@),
        ShellKind::Cmd => (
            "HKCU\\Software\\Microsoft\\Command Processor\\AutoRun"@,
            "HKCU\\Software\\Microsoft\\Command Processor\\AutoRun"@,
        ),
        ShellKind::Bash => ("~/.bash_profile"@, "~/.bashrc"@),
        ShellKind::Zsh => ("~/.zprofile"@, "~/.zshrc"@),
        ShellKind::Fish => ("~/.config/fish/config.fish"@, "~/.config/fish/config.fish"@),
        ShellKind::Sh => ("~/.profile"@, "~/.profile"@),
    }
}

pub open spec fn detect_shell_lines(shell: ShellKind) -> Seq<Seq<char>> {
    seq![
        "PYENV_SHELL_DETECT="@ + canonical_spec(shell),
        "PYENV_PROFILE_DETECT="@ + profile_of(shell).0,
        "PYENV_RC_DETECT="@ + profile_of(shell).1,
    ]
}

/// The detected shell and its profile and rc files, as `KEY=value` lines.
pub fn render_detect_shell(shell: ShellKind) -> (r: Vec<String>)
    ensures
        lines(r@) == detect_shell_lines(shell),
{
    let (profile, rc) = match shell {
        ShellKind::Pwsh => ("$PROFILE.CurrentUserCurrentHost", "$PROFILE.CurrentUserCurrentHost"),
        ShellKind::Cmd => (
            "HKCU\\Software\\Microsoft\\Command Processor\\AutoRun",
            "HKCU\\Software\\Microsoft\\Command Processor\\AutoRun",
        ),
        ShellKind::Bash => ("~/.bash_profile", "~/.bashrc"),
        ShellKind::Zsh => ("~/.zprofile", "~/.zshrc"),
        ShellKind::Fish => ("~/.config/fish/config.fish", "~/.config/fish/config.fish"),
        ShellKind::Sh => ("~/.profile", "~/.profile"),
    };
    let name = canonical_string(shell);
    let r = vec![
        cat("PYENV_SHELL_DETECT=", name.as_str()),
        cat("PYENV_PROFILE_DETECT=", profile),
        cat("PYENV_RC_DETECT=", rc),
    ];
    assert(lines(r@) =~= detect_shell_lines(shell));
    r
}

pub open spec fn pwsh_path_lines(shims: Seq<char>, no_push_path: bool) -> Seq<Seq<char>> {
    if no_push_path {
        seq![
            "$__pyenv_shims = '"@ + ps_single(shims) + "'"@,
            "$Env:_PYENV_SHELL_INIT_SHIMS = $__pyenv_shims"@,
            "$__pyenv_path = if ($Env:PATH) { $Env:PATH -split ';' } else { @() }"@,
            "if (-not ($__pyenv_path | Where-Object { $_ -and ($_ -ieq $__pyenv_shims) })) {"@,
            "  $Env:PATH = (@($__pyenv_shims) + $__pyenv_path) -join ';'"@,
            "}"@,
            "Remove-Variable __pyenv_shims, __pyenv_path -ErrorAction SilentlyContinue"@,
        ]
    } else {
        seq![
            "$__pyenv_shims = '"@ + ps_single(shims) + "'"@,
            "if ($Env:_PYENV_SHELL_INIT_SHIMS -ine $__pyenv_shims) {"@,
            "  $__pyenv_path = if ($Env:PATH) { $Env:PATH -split ';' | Where-Object { $_ -and ($_ -ine $__pyenv_shims) } } else { @() }"@,
            "  $Env:PATH = (@($__pyenv_shims) + $__pyenv_path) -join ';'"@,
            "  $Env:_PYENV_SHELL_INIT_SHIMS = $__pyenv_shims"@,
            "}"@,
            "Remove-Variable __pyenv_shims, __pyenv_path -ErrorAction SilentlyContinue"@,
        ]
    }
}

/// PowerShell code that puts the shims directory first on `PATH` once.
pub fn render_pwsh_path_lines(shims: &str, no_push_path: bool) -> (r: Vec<String>)
    ensures
        lines(r@) == pwsh_path_lines(shims@, no_push_path),
{
    let quoted = ps_single_quote(shims);
    let first = cat3("$__pyenv_shims = '", quoted.as_str(), "'");
    let r = if no_push_path {
        vec![
            first,
            owned("$Env:_PYENV_SHELL_INIT_SHIMS = $__pyenv_shims"),
            owned("$__pyenv_path = if ($Env:PATH) { $Env:PATH -split ';' } else { @() }"),
            owned("if (-not ($__pyenv_path | Where-Object { $_ -and ($_ -ieq $__pyenv_shims) })) {"),
            owned("  $Env:PATH = (@($__pyenv_shims) + $__pyenv_path) -join ';'"),
            owned("}"),
            owned("Remove-Variable __pyenv_shims, __pyenv_path -ErrorAction SilentlyContinue"),
        ]
    } else {
        vec![
            first,
            owned("if ($Env:_PYENV_SHELL_INIT_SHIMS -ine $__pyenv_shims) {"),
            owned("  $__pyenv_path = if ($Env:PATH) { $Env:PATH -split ';' | Where-Object { $_ -and ($_ -ine $__pyenv_shims) } } else { @() }"),
            owned("  $Env:PATH = (@($__pyenv_shims) + $__pyenv_path) -join ';'"),
            owned("  $Env:_PYENV_SHELL_INIT_SHIMS = $__pyenv_shims"),
            owned("}"),
            owned("Remove-Variable __pyenv_shims, __pyenv_path -ErrorAction SilentlyContinue"),
        ]
    };
    assert(lines(r@) =~= pwsh_path_lines(shims@, no_push_path));
    r
}

pub open spec fn cmd_path_lines(shims: Seq<char>, no_push_path: bool) -> Seq<Seq<char>> {
    seq!["set \"__PYENV_SHIMS="@ + shims + "\""@] + if no_push_path {
        seq![
            "set \"__PYENV_PATH_CHECK=;%PATH%;\""@,
            "if /I \"%__PYENV_PATH_CHECK:;%__PYENV_SHIMS%;=%\"==\"%__PYENV_PATH_CHECK%\" set \"PATH=%__PYENV_SHIMS%;%PATH%\""@,
            "set \"_PYENV_SHELL_INIT_SHIMS=%__PYENV_SHIMS%\""@,
            "set \"__PYENV_PATH_CHECK=\""@,
        ]
    } else {
        seq![
            "if /I not \"%_PYENV_SHELL_INIT_SHIMS%\"==\"%__PYENV_SHIMS%\" set \"PATH=%__PYENV_SHIMS%;%PATH%\""@,
            "set \"_PYENV_SHELL_INIT_SHIMS=%__PYENV_SHIMS%\""@,
        ]
    } + seq!["set \"__PYENV_SHIMS=\""@]
}

/// CMD code that puts the shims directory first on `PATH` once.
pub fn render_cmd_path_lines(shims: &str, no_push_path: bool) -> (r: Vec<String>)
    ensures
        lines(r@) == cmd_path_lines(shims@, no_push_path),
{
    let first = cat3("set \"__PYENV_SHIMS=", shims, "\"");
    let r = if no_push_path {
        vec![
            first,
            owned("set \"__PYENV_PATH_CHECK=;%PATH%;\""),
            owned("if /I \"%__PYENV_PATH_CHECK:;%__PYENV_SHIMS%;=%\"==\"%__PYENV_PATH_CHECK%\" set \"PATH=%__PYENV_SHIMS%;%PATH%\""),
            owned("set \"_PYENV_SHELL_INIT_SHIMS=%__PYENV_SHIMS%\""),
            owned("set \"__PYENV_PATH_CHECK=\""),
            owned("set \"__PYENV_SHIMS=\""),
        ]
    } else {
        vec![
            first,
            owned("if /I not \"%_PYENV_SHELL_INIT_SHIMS%\"==\"%__PYENV_SHIMS%\" set \"PATH=%__PYENV_SHIMS%;%PATH%\""),
            owned("set \"_PYENV_SHELL_INIT_SHIMS=%__PYENV_SHIMS%\""),
            owned("set \"__PYENV_SHIMS=\""),
        ]
    };
    assert(lines(r@) =~= cmd_path_lines(shims@, no_push_path));
    r
}

pub open spec fn sh_path_lines(shims: Seq<char>, no_push_path: bool) -> Seq<Seq<char>> {
    if no_push_path {
        seq![
            "case \":${PATH}:\" in"@,
            "  *\":"@ + shims + ":\"*) ;;"@,
            "  *) export PATH=\""@ + shims + ":${PATH}\" ;;"@,
            "esac"@,
            "export _PYENV_SHELL_INIT_SHIMS=\""@ + shims + "\""@,
        ]
    } else {
        seq![
            "if [ \"${_PYENV_SHELL_INIT_SHIMS-}\" != \""@ + shims + "\" ]; then"@,
            "  export PATH=\""@ + shims + ":${PATH}\""@,
            "  export _PYENV_SHELL_INIT_SHIMS=\""@ + shims + "\""@,
            "fi"@,
        ]
    }
}

/// POSIX shell code that puts the shims directory first on `PATH` once.
pub fn render_sh_path_lines(shims: &str, no_push_path: bool) -> (r: Vec<String>)
    ensures
        lines(r@) == sh_path_lines(shims@, no_push_path),
{
    let r = if no_push_path {
        vec![
            owned("case \":${PATH}:\" in"),
            cat3("  *\":", shims, ":\"*) ;;"),
            cat3("  *) export PATH=\"", shims, ":${PATH}\" ;;"),
            owned("esac"),
            cat3("export _PYENV_SHELL_INIT_SHIMS=\"", shims, "\""),
        ]
    } else {
        vec![
            cat3("if [ \"${_PYENV_SHELL_INIT_SHIMS-}\" != \"", shims, "\" ]; then"),
            cat3("  export PATH=\"", shims, ":${PATH}\""),
            cat3("  export _PYENV_SHELL_INIT_SHIMS=\"", shims, "\""),
            owned("fi"),
        ]
    };
    assert(lines(r@) =~= sh_path_lines(shims@, no_push_path));
    r
}

pub open spec fn fish_path_lines(shims: Seq<char>, no_push_path: bool) -> Seq<Seq<char>> {
    if no_push_path {
        seq![
            "if not contains -- '"@ + shims + "' $PATH"@,
            "  set -gx PATH '"@ + shims + "' $PATH"@,
            "end"@,
            "set -gx _PYENV_SHELL_INIT_SHIMS '"@ + shims + "'"@,
        ]
    } else {
        seq![
            replace_seq(
                "if test \"$ _PYENV_SHELL_INIT_SHIMS\" != '"@ + shims + "'"@,
                "$ _PYENV_SHELL_INIT_SHIMS"@,
                "$_PYENV_SHELL_INIT_SHIMS"@,
            ),
            "  set -gx PATH '"@ + shims + "' $PATH"@,
            "  set -gx _PYENV_SHELL_INIT_SHIMS '"@ + shims + "'"@,
            "end"@,
        ]
    }
}

/// fish code that puts the shims directory first on `PATH` once.
pub fn render_fish_path_lines(shims: &str, no_push_path: bool) -> (r: Vec<String>)
    ensures
        lines(r@) == fish_path_lines(shims@, no_push_path),
{
    let r = if no_push_path {
        vec![
            cat3("if not contains -- '", shims, "' $PATH"),
            cat3("  set -gx PATH '", shims, "' $PATH"),
            owned("end"),
            cat3("set -gx _PYENV_SHELL_INIT_SHIMS '", shims, "'"),
        ]
    } else {
        let raw = cat3("if test \"$ _PYENV_SHELL_INIT_SHIMS\" != '", shims, "'");
        proof {
            reveal_strlit("$ _PYENV_SHELL_INIT_SHIMS");
        }
        let first = replace_str(raw.as_str(), "$ _PYENV_SHELL_INIT_SHIMS", "$_PYENV_SHELL_INIT_SHIMS");
        vec![
            first,
            cat3("  set -gx PATH '", shims, "' $PATH"),
            cat3("  set -gx _PYENV_SHELL_INIT_SHIMS '", shims, "'"),
            owned("end"),
        ]
    };
    assert(lines(r@) =~= fish_path_lines(shims@, no_push_path));
    r
}

pub open spec fn shell_path_lines(shell: ShellKind, shims: Seq<char>, no_push_path: bool) -> Seq<Seq<char>> {
    match shell {
        ShellKind::Pwsh => pwsh_path_lines(shims, no_push_path),
        ShellKind::Cmd => cmd_path_lines(shims, no_push_path),
        ShellKind::Fish => fish_path_lines(shims, no_push_path),
        _ => sh_path_lines(shims, no_push_path),
    }
}

/// `pyenv init --path`: the PATH bootstrap, then a rehash unless `--no-rehash`.
pub open spec fn init_path_lines(ctx: AppContext, o: InitCommandOptions) -> Seq<Seq<char>> {
    shell_path_lines(o.shell, ctx.shims_dir_spec(), o.no_push_path) + if o.no_rehash {
        Seq::<Seq<char>>::empty()
    } else {
        rehash_lines(o.shell, ctx.exe_path@)
    }
}

/// `pyenv init -`: the PATH bootstrap, `PYENV_SHELL`, and the `pyenv` function.
pub open spec fn init_print_lines(ctx: AppContext, o: InitCommandOptions) -> Seq<Seq<char>> {
    init_path_lines(ctx, o) + set_shell_lines(o.shell) + shell_function_lines(o.shell, ctx.exe_path@)
}

/// Appends `more` to `v`.
pub fn extend_lines(v: &mut Vec<String>, more: Vec<String>)
    ensures
        lines(final(v)@) == lines(old(v)@) + lines(more@),
{
    let ghost m = more@;
    let mut more = more;
    v.append(&mut more);
    assert(lines(v@) =~= lines(old(v)@) + lines(m));
}

/// The PATH bootstrap for the chosen shell.
pub fn render_init_path(ctx: &AppContext, options: &InitCommandOptions) -> (r: Vec<String>)
    ensures
        lines(r@) == init_path_lines(*ctx, *options),
{
    let shims = ctx.shims_dir();
    let mut out = match options.shell {
        ShellKind::Pwsh => render_pwsh_path_lines(shims.as_str(), options.no_push_path),
        ShellKind::Cmd => render_cmd_path_lines(shims.as_str(), options.no_push_path),
        ShellKind::Fish => render_fish_path_lines(shims.as_str(), options.no_push_path),
        _ => render_sh_path_lines(shims.as_str(), options.no_push_path),
    };
    if !options.no_rehash {
        let more = shell_emit_rehash(options.shell, ctx.exe_path.as_str());
        extend_lines(&mut out, more);
    } else {
        assert(lines(out@) + Seq::<Seq<char>>::empty() =~= lines(out@));
    }
    out
}

/// The full init script.
pub fn render_init_print(ctx: &AppContext, options: &InitCommandOptions) -> (r: Vec<String>)
    ensures
        lines(r@) == init_print_lines(*ctx, *options),
{
    let mut out = render_init_path(ctx, options);
    extend_lines(&mut out, shell_emit_set_shell(options.shell));
    extend_lines(&mut out, render_shell_function(options.shell, ctx.exe_path.as_str()));
    out
}

} // verus!

use pyenv_core::shell::commands::init_plan;
use pyenv_core::context::{AppConfig, AppContext, FileEntry, FsSnapshot};
use pyenv_core::shell::commands::{
    cmd_activate, cmd_deactivate, cmd_init, cmd_sh_activate, cmd_sh_cmd, cmd_sh_deactivate, cmd_sh_rehash,
    cmd_sh_shell, cmd_shell, cmd_virtualenv_init, init_directories,
};
use pyenv_core::shell::kinds::ShellKind;
use pyenv_core::shell::quotes::{cmd_quote, fish_single_quote, ps_double_quote, ps_single_quote, sh_single_quote};

const SHELL_ROOT: &str = "/home/me/.pyenv";
const SHELL_WORK: &str = "/home/me/work";

fn shell_ctx(dirs: &[&str], files: &[&str]) -> AppContext {
    let mut all_dirs = vec![
        SHELL_ROOT.to_string(),
        format!("{SHELL_ROOT}/versions"),
        SHELL_WORK.to_string(),
    ];
    all_dirs.extend(dirs.iter().map(|d| d.to_string()));
    AppContext {
        root: SHELL_ROOT.to_string(),
        dir: SHELL_WORK.to_string(),
        exe_path: "pyenv".to_string(),
        env_version: None,
        env_shell: Some("pwsh".to_string()),
        path_env: Some("C:\\Windows\\System32".to_string()),
        path_ext: Some(".EXE;.CMD;.BAT".to_string()),
        config: AppConfig { auto_use_base_venv: false, pep514_registry: false },
        windows: false,
        fs: FsSnapshot {
            dirs: all_dirs,
            files: files
                .iter()
                .map(|f| FileEntry { path: f.to_string(), contents: String::new(), executable: true })
                .collect(),
        },
    }
}

fn seeded_venv_ctx() -> AppContext {
    shell_ctx(
        &[
            "/home/me/.pyenv/versions/3.12.6",
            "/home/me/.pyenv/venvs",
            "/home/me/.pyenv/venvs/3.12.6",
            "/home/me/.pyenv/venvs/3.12.6/demo",
            "/home/me/.pyenv/venvs/3.12.6/demo/bin",
        ],
        &["/home/me/.pyenv/venvs/3.12.6/demo/bin/python"],
    )
}

fn args(items: &[&str]) -> Vec<String> {
    items.iter().map(|s| s.to_string()).collect()
}

#[test]
fn tests_shell_command_requires_integration() {
    let ctx = shell_ctx(&[], &[]);
    let report = cmd_shell(&ctx, &vec![]);
    assert_eq!(report.exit_code, 1);
    assert!(report.stderr[0].contains("shell integration not enabled"));
}

#[test]
fn activate_and_deactivate_require_integration_without_shell_wrapper() {
    let ctx = shell_ctx(&[], &[]);
    let activate = cmd_activate(&ctx, &args(&["demo"]));
    assert_eq!(activate.exit_code, 1);
    assert!(activate.stderr[0].contains("shell integration not enabled"));

    let deactivate = cmd_deactivate(&ctx, &vec![]);
    assert_eq!(deactivate.exit_code, 1);
    assert!(deactivate.stderr[0].contains("shell integration not enabled"));
}

#[test]
fn tests_sh_shell_reports_missing_shell_version() {
    let mut ctx = shell_ctx(&[], &[]);
    ctx.env_version = None;
    let report = cmd_sh_shell(&ctx, &vec![]);
    assert_eq!(report.exit_code, 1);
    assert!(report.stderr[0].contains("no shell-specific version"));
}

#[test]
fn tests_sh_shell_sets_requested_version_for_pwsh() {
    let ctx = shell_ctx(&["/home/me/.pyenv/versions/3.12.6"], &[]);
    let report = cmd_sh_shell(&ctx, &args(&["3.12"]));
    assert_eq!(report.exit_code, 0);
    assert_eq!(
        report.stdout,
        vec![
            "$Env:PYENV_VERSION_OLD = $Env:PYENV_VERSION".to_string(),
            "$Env:PYENV_VERSION = \"3.12\"".to_string()
        ]
    );
}

#[test]
fn tests_sh_shell_unset_and_rehash_use_pwsh_syntax() {
    let ctx = shell_ctx(&[], &[]);
    let unset_report = cmd_sh_shell(&ctx, &args(&["--unset"]));
    assert_eq!(unset_report.exit_code, 0);
    assert!(unset_report.stdout[0].contains("PYENV_VERSION_OLD"));

    let rehash_report = cmd_sh_rehash(&ctx);
    assert_eq!(rehash_report.exit_code, 0);
    assert!(rehash_report.stdout[0].contains("& 'pyenv' rehash"));
}

#[test]
fn sh_activate_emits_virtualenv_environment_updates() {
    let ctx = seeded_venv_ctx();
    let report = cmd_sh_activate(&ctx, &args(&["demo"]));
    assert_eq!(report.exit_code, 0);
    assert!(report.stdout.iter().any(|line| line.contains("$Env:PYENV_VERSION = \"3.12.6/envs/demo\"")));
    assert!(report.stdout.iter().any(|line| line.contains("$Env:VIRTUAL_ENV =")));
    assert!(report.stdout.iter().any(|line| line.contains("$Env:_PYENV_VIRTUAL_PATH_OLD = $Env:PATH")));
}

#[test]
fn sh_deactivate_emits_restore_commands() {
    let ctx = shell_ctx(&[], &[]);
    let report = cmd_sh_deactivate(&ctx, &vec![]);
    assert_eq!(report.exit_code, 0);
    assert!(report.stdout.iter().any(|line| line.contains("_PYENV_VIRTUAL_PATH_OLD")));
    assert!(report.stdout.iter().any(|line| line.contains("PYENV_VERSION_OLD")));
}

#[test]
fn tests_init_print_for_pwsh_sets_path_env_and_function() {
    let ctx = shell_ctx(&[], &[]);
    let report = cmd_init(&ctx, &args(&["-", "pwsh"]));
    assert_eq!(report.exit_code, 0);
    let dirs = init_directories(&ctx);
    assert!(dirs.contains(&"/home/me/.pyenv/shims".to_string()));
    assert!(dirs.contains(&"/home/me/.pyenv/versions".to_string()));
    let out = &report.stdout;
    assert!(out.iter().any(|line| line.contains("$Env:PYENV_SHELL=\"pwsh\"")));
    assert!(out.iter().any(|line| line.contains("function pyenv")));
    assert!(out.iter().any(|line| line.contains("function Invoke-PyenvPassthrough")));
    assert!(out.iter().any(|line| line.contains("ArgumentList.Add")));
    assert!(out.iter().any(|line| line.contains("Join-PyenvWindowsArguments")));
    assert!(out.iter().any(|line| line.contains("$psi.Arguments = Join-PyenvWindowsArguments")));
    assert!(out
        .iter()
        .any(|line| line.contains("Invoke-PyenvPassthrough $pyenvExe (@([string]$command) + $arguments)")));
    assert!(out.iter().any(|line| line.contains("sh-shell")));
    assert!(out.iter().any(|line| line.contains("sh-activate")));
    assert!(out.iter().any(|line| line.contains("sh-deactivate")));
}

#[test]
fn tests_init_path_no_push_path_guards_duplicate_shims() {
    let ctx = shell_ctx(&[], &[]);
    let report = cmd_init(&ctx, &args(&["--path", "--no-push-path", "pwsh"]));
    assert_eq!(report.exit_code, 0);
    assert!(report
        .stdout
        .iter()
        .any(|line| line.contains("Where-Object { $_ -and ($_ -ieq $__pyenv_shims) }")));
}

#[test]
fn tests_init_help_and_detect_shell_work() {
    let ctx = shell_ctx(&[], &[]);
    let help = cmd_init(&ctx, &args(&["pwsh"]));
    assert_eq!(help.exit_code, 1);
    assert!(help.stderr.iter().any(|line| line.contains("$PROFILE.CurrentUserCurrentHost")));

    let detect = cmd_init(&ctx, &args(&["--detect-shell"]));
    assert_eq!(detect.exit_code, 0);
    assert_eq!(detect.stdout[0], "PYENV_SHELL_DETECT=pwsh");
}

#[test]
fn tests_init_help_for_fish_uses_source_syntax() {
    let ctx = shell_ctx(&[], &[]);
    let report = cmd_init(&ctx, &args(&["fish"]));
    assert_eq!(report.exit_code, 1);
    assert!(report.stderr.iter().any(|line| line == "pyenv init - fish | source"));
}

#[test]
fn tests_init_print_for_bash_and_zsh_emit_sh_function_safely() {
    let ctx = shell_ctx(&[], &[]);
    for shell in ["bash", "zsh"] {
        let report = cmd_init(&ctx, &args(&["-", shell]));
        assert_eq!(report.exit_code, 0);
        assert!(report.stdout.iter().any(|line| line == "pyenv() {"));
        assert!(report.stdout.iter().any(|line| line.contains("if [ \"$#\" -eq 0 ]; then")));
        assert!(report.stdout.iter().all(|line| !line.contains("local ")));
        assert!(report.stdout.iter().any(|line| line.contains("pyenv_output=\"$(\"$pyenv_exe\"")));
    }
}

#[test]
fn tests_init_print_for_fish_emits_fish_specific_function() {
    let ctx = shell_ctx(&[], &[]);
    let report = cmd_init(&ctx, &args(&["-", "fish"]));
    assert_eq!(report.exit_code, 0);
    assert!(report.stdout.iter().any(|line| line == "function pyenv"));
    assert!(report.stdout.iter().any(|line| line.contains("if test (count $argv) -eq 0")));
    assert!(report.stdout.iter().any(|line| line.contains("switch \"$command\"")));
}

#[test]
fn tests_init_no_push_path_for_bash_uses_case_guard() {
    let ctx = shell_ctx(&[], &[]);
    let report = cmd_init(&ctx, &args(&["--path", "--no-push-path", "bash"]));
    assert_eq!(report.exit_code, 0);
    assert!(report.stdout.iter().any(|line| line == "case \":${PATH}:\" in"));
    assert!(report.stdout.iter().all(|line| !line.contains("[[")));
}

#[test]
fn tests_init_path_for_pwsh_tracks_shell_init_guard() {
    let ctx = shell_ctx(&[], &[]);
    let report = cmd_init(&ctx, &args(&["--path", "pwsh"]));
    assert_eq!(report.exit_code, 0);
    assert!(report.stdout.iter().any(|line| line.contains("_PYENV_SHELL_INIT_SHIMS")));
}

#[test]
fn tests_sh_cmd_generates_cmd_lines() {
    let ctx = shell_ctx(&[], &[]);
    let report = cmd_sh_cmd(&ctx, &args(&["versions", "--bare"]));
    assert_eq!(report.exit_code, 0);
    assert!(report.stdout[0].contains("\"pyenv\" versions --bare"));
}

#[test]
fn virtualenv_init_delegates_to_init_output() {
    let ctx = shell_ctx(&[], &[]);
    let report = cmd_virtualenv_init(&ctx, &args(&["-", "pwsh"]));
    assert_eq!(report.exit_code, 0);
    assert!(report.stdout.iter().any(|line| line.contains("function pyenv")));
    assert!(report.stdout.iter().any(|line| line.contains("sh-activate")));
}

#[test]
fn shell_kind_names_round_trip() {
    for kind in [ShellKind::Pwsh, ShellKind::Cmd, ShellKind::Bash, ShellKind::Zsh, ShellKind::Fish, ShellKind::Sh] {
        let name = kind.canonical_name();
        assert_eq!(ShellKind::parse(name), Some(kind));
    }
    assert_eq!(ShellKind::parse("powershell"), Some(ShellKind::Pwsh));
    assert_eq!(ShellKind::parse("tcsh"), None);
}

#[test]
fn sh_shell_rejects_uninstalled_version() {
    let ctx = shell_ctx(&[], &[]);
    let report = cmd_sh_shell(&ctx, &args(&["9.9"]));
    assert_eq!(report.exit_code, 1);
    assert_eq!(report.stdout.len(), 0);
    assert!(report.stderr[0].contains("9.9"));
}

#[test]
fn init_unknown_shell_is_refused() {
    let ctx = shell_ctx(&[], &[]);
    let report = cmd_init(&ctx, &args(&["-", "tcsh"]));
    assert_eq!(report.exit_code, 1);
    assert!(!report.stderr.is_empty());
}

#[test]
fn init_directories_are_shims_then_versions() {
    let ctx = shell_ctx(&[], &[]);
    assert_eq!(
        init_directories(&ctx),
        vec!["/home/me/.pyenv/shims".to_string(), "/home/me/.pyenv/versions".to_string()]
    );
}

#[test]
fn quoting_escapes_each_shell_quote() {
    assert_eq!(ps_single_quote("it's"), "it''s");
    assert_eq!(sh_single_quote("it's"), "it'\\''s");
    assert_eq!(fish_single_quote("it's"), "it\\'s");
    assert_eq!(ps_double_quote("a\"b`c"), "a`\"b``c");
    assert_eq!(cmd_quote("plain"), "plain");
    assert_eq!(cmd_quote("two words"), "\"two words\"");
    assert_eq!(cmd_quote("say \"hi\""), "\"say \"\"hi\"\"\"");
    assert_eq!(cmd_quote(""), "\"\"");
}

#[test]
fn shell_shell_command_requires_integration() {
    tests_shell_command_requires_integration();
}

#[test]
fn shell_sh_shell_reports_missing_shell_version() {
    tests_sh_shell_reports_missing_shell_version();
}

#[test]
fn shell_sh_shell_sets_requested_version_for_pwsh() {
    tests_sh_shell_sets_requested_version_for_pwsh();
}

#[test]
fn shell_sh_shell_unset_and_rehash_use_pwsh_syntax() {
    tests_sh_shell_unset_and_rehash_use_pwsh_syntax();
}

#[test]
fn shell_init_print_for_pwsh_sets_path_env_and_function() {
    tests_init_print_for_pwsh_sets_path_env_and_function();
}

#[test]
fn shell_init_path_no_push_path_guards_duplicate_shims() {
    tests_init_path_no_push_path_guards_duplicate_shims();
}

#[test]
fn shell_init_help_and_detect_shell_work() {
    tests_init_help_and_detect_shell_work();
}

#[test]
fn shell_init_help_for_fish_uses_source_syntax() {
    tests_init_help_for_fish_uses_source_syntax();
}

#[test]
fn shell_init_print_for_bash_and_zsh_emit_sh_function_safely() {
    tests_init_print_for_bash_and_zsh_emit_sh_function_safely();
}

#[test]
fn shell_init_print_for_fish_emits_fish_specific_function() {
    tests_init_print_for_fish_emits_fish_specific_function();
}

#[test]
fn shell_init_no_push_path_for_bash_uses_case_guard() {
    tests_init_no_push_path_for_bash_uses_case_guard();
}

#[test]
fn shell_init_path_for_pwsh_tracks_shell_init_guard() {
    tests_init_path_for_pwsh_tracks_shell_init_guard();
}

#[test]
fn shell_sh_cmd_generates_cmd_lines() {
    tests_sh_cmd_generates_cmd_lines();
}

#[test]
fn init_plan_names_its_directories() {
    let ctx = shell_ctx(&[], &[]);
    match init_plan(&ctx, &vec!["bash".to_string()]) {
        Ok((dirs, report)) => {
            assert_eq!(dirs, vec![format!("{SHELL_ROOT}/shims"), format!("{SHELL_ROOT}/versions")]);
            assert_eq!(report.exit_code, 1);
        },
        Err(_) => panic!("`bash` parses"),
    }
    assert!(init_plan(&ctx, &vec!["--no-such-flag".to_string()]).is_err());
}

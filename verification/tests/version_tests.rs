use pyenv_core::context::{AppConfig, AppContext, FileEntry, FsSnapshot};
use pyenv_core::hooks::{parse_hook_actions, HookActions};
use pyenv_core::version::commands::{
    cmd_global, cmd_local, cmd_version, cmd_version_file_read, cmd_version_file_write, cmd_version_name,
    cmd_version_origin, VersionFileChange,
};
use pyenv_core::version::files::{find_local_version_file, read_version_file, write_version_file};
use pyenv_core::version::interactive::{parse_menu_choice, selection_step, MenuChoice, SelectionStep};
use pyenv_core::version::selection::resolve_selected_versions;

const VROOT: &str = "/home/me/.pyenv";
const VWORK: &str = "/home/me/work";

fn version_ctx(extra_dirs: &[&str], files: &[(&str, &str)]) -> AppContext {
    let mut dirs = vec![VROOT.to_string(), format!("{VROOT}/versions"), VWORK.to_string()];
    dirs.extend(extra_dirs.iter().map(|d| d.to_string()));
    AppContext {
        root: VROOT.to_string(),
        dir: VWORK.to_string(),
        exe_path: "pyenv".to_string(),
        env_version: None,
        env_shell: None,
        path_env: None,
        path_ext: None,
        config: AppConfig { auto_use_base_venv: false, pep514_registry: false },
        windows: false,
        fs: FsSnapshot {
            dirs,
            files: files
                .iter()
                .map(|(p, c)| FileEntry { path: p.to_string(), contents: c.to_string(), executable: false })
                .collect(),
        },
    }
}

fn no_hooks() -> HookActions {
    HookActions { env_pairs: vec![], passthrough_lines: vec![] }
}

fn written(change: VersionFileChange) -> (String, String) {
    match change {
        VersionFileChange::Write(plan) => (plan.path, plan.contents),
        _ => panic!("expected a write"),
    }
}

#[test]
fn tests_version_defaults_to_system_when_unconfigured() {
    let ctx = version_ctx(&[], &[]);
    let report = cmd_version_name(&ctx, false, &no_hooks());
    assert_eq!(report.exit_code, 0);
    assert_eq!(report.stdout, vec!["system"]);
}

#[test]
fn tests_version_name_reports_missing_origin_for_environment_version() {
    let mut ctx = version_ctx(&[], &[]);
    ctx.env_version = Some("1.2".to_string());
    let report = cmd_version_name(&ctx, false, &no_hooks());
    assert_eq!(report.exit_code, 1);
    assert_eq!(report.stdout, vec![""]);
    assert!(report.stderr[0].contains("set by PYENV_VERSION environment variable"));
}

#[test]
fn tests_finds_local_version_file_in_parent_chain() {
    let ctx = version_ctx(
        &["/home/me/work/project", "/home/me/work/project/nested"],
        &[("/home/me/work/project/.python-version", "3.12.1\n")],
    );
    assert_eq!(
        find_local_version_file(&ctx.fs, "/home/me/work/project/nested"),
        Some("/home/me/work/project/.python-version".to_string())
    );
}

#[test]
fn tests_version_name_prefers_environment() {
    let mut ctx = version_ctx(&["/home/me/.pyenv/versions/3.12.1"], &[]);
    ctx.env_version = Some("3.12.1".to_string());
    let report = cmd_version_name(&ctx, false, &no_hooks());
    assert_eq!(report.exit_code, 0);
    assert_eq!(report.stdout, vec!["3.12.1"]);
}

#[test]
fn tests_global_command_writes_version_file() {
    let ctx = version_ctx(&["/home/me/.pyenv/versions/3.11.9"], &[]);
    let (report, change) = cmd_global(&ctx, &vec!["3.11.9".to_string()], false);
    assert_eq!(report.exit_code, 0);
    assert_eq!(written(change), ("/home/me/.pyenv/version".to_string(), "3.11.9\n".to_string()));
}

#[test]
fn tests_local_command_can_force_uninstalled_version() {
    let ctx = version_ctx(&[], &[]);
    let (report, change) = cmd_local(&ctx, &vec!["3.99.0".to_string()], false, true);
    assert_eq!(report.exit_code, 0);
    assert_eq!(written(change), ("/home/me/work/.python-version".to_string(), "3.99.0\n".to_string()));
}

#[test]
fn local_command_refuses_uninstalled_version_without_force() {
    let ctx = version_ctx(&[], &[]);
    let (report, change) = cmd_local(&ctx, &vec!["3.99.0".to_string()], false, false);
    assert_eq!(report.exit_code, 1);
    assert!(matches!(change, VersionFileChange::Keep));
}

#[test]
fn tests_version_name_falls_back_to_latest_prefix() {
    let mut ctx = version_ctx(&["/home/me/.pyenv/versions/3.12.6"], &[]);
    ctx.env_version = Some("python-3.12".to_string());
    let report = cmd_version_name(&ctx, false, &no_hooks());
    assert_eq!(report.exit_code, 0);
    assert_eq!(report.stdout, vec!["3.12.6"]);
}

#[test]
fn tests_version_bare_emits_each_selected_version_on_its_own_line() {
    let mut ctx = version_ctx(&["/home/me/.pyenv/versions/3.12.6", "/home/me/.pyenv/versions/3.11.9"], &[]);
    ctx.env_version = Some("3.12:3.11".to_string());
    let report = cmd_version(&ctx, true);
    assert_eq!(report.exit_code, 0);
    assert_eq!(report.stdout, vec!["3.12.6", "3.11.9"]);
}

#[test]
fn tests_version_file_read_joins_versions_and_reports_safe_warnings() {
    let ctx = version_ctx(&[], &[("/home/me/work/my-version", "3.9.3\n../*\n3.8.9\n# ignored\n")]);
    let report = cmd_version_file_read(&ctx.fs, "/home/me/work/my-version");
    assert_eq!(report.exit_code, 0);
    assert_eq!(report.stdout, vec!["3.9.3:3.8.9"]);
    assert_eq!(report.stderr.len(), 1);
    assert!(report.stderr[0].contains("invalid version"));
    assert!(report.stderr[0].contains("../*"));
}

#[test]
fn tests_version_file_read_allows_internal_parent_components_within_version_tree() {
    let ctx = version_ctx(&[], &[("/home/me/work/my-version", "3.10.3/envs/../test\n")]);
    let versions = read_version_file(&ctx.fs, "/home/me/work/my-version").expect("versions");
    assert_eq!(versions, vec!["3.10.3/envs/../test"]);
}

#[test]
fn tests_version_file_write_persists_versions() {
    let ctx = version_ctx(&["/home/me/.pyenv/versions/3.12.6"], &[]);
    let (report, plan) = cmd_version_file_write(&ctx, "/home/me/work/custom-version", &vec!["3.12.6".to_string()], false);
    assert_eq!(report.exit_code, 0);
    let plan = plan.expect("plan");
    assert_eq!(plan.path, "/home/me/work/custom-version");
    assert_eq!(plan.contents, "3.12.6\n");
}

#[test]
fn tests_version_name_hook_can_override_selected_value() {
    let mut ctx = version_ctx(&["/home/me/.pyenv/versions/3.12.6"], &[]);
    ctx.env_version = Some("3.12".to_string());
    let hooks = parse_hook_actions(&vec!["ENV:PYENV_VERSION=3.12.6".to_string()]);
    let report = cmd_version_name(&ctx, false, &hooks);
    assert_eq!(report.exit_code, 0);
    assert_eq!(report.stdout, vec!["3.12.6"]);
}

#[test]
fn tests_version_origin_hook_can_override_origin_text() {
    let ctx = version_ctx(&[], &[]);
    let hooks = parse_hook_actions(&vec!["ENV:PYENV_VERSION_ORIGIN=hooked-origin".to_string()]);
    let report = cmd_version_origin(&ctx, &hooks);
    assert_eq!(report.exit_code, 0);
    assert_eq!(report.stdout, vec!["hooked-origin"]);
}

#[test]
fn written_versions_read_back_unchanged() {
    let versions = vec!["3.12.6".to_string(), "3.11.9".to_string()];
    let plan = write_version_file("/home/me/work/.python-version", &versions).expect("plan");
    let ctx = version_ctx(&[], &[("/home/me/work/.python-version", plan.contents.as_str())]);
    assert_eq!(read_version_file(&ctx.fs, "/home/me/work/.python-version").expect("read"), versions);
}

#[test]
fn writing_no_versions_is_an_error() {
    assert!(write_version_file("/x", &vec![]).is_err());
}

#[test]
fn menu_answers_are_read_strictly() {
    assert!(matches!(parse_menu_choice(" q ", 3), MenuChoice::Cancel));
    assert!(matches!(parse_menu_choice("", 3), MenuChoice::Cancel));
    assert!(matches!(parse_menu_choice("2", 3), MenuChoice::Pick(1)));
    assert!(matches!(parse_menu_choice("4", 3), MenuChoice::Invalid));
    assert!(matches!(parse_menu_choice("0", 3), MenuChoice::Invalid));
    assert!(matches!(parse_menu_choice("x", 3), MenuChoice::Invalid));
}

#[test]
fn selection_step_picks_actions_and_versions() {
    let options = vec![
        "system".to_string(),
        "3.12.6".to_string(),
        "[Install a new Python version]".to_string(),
        "[Create a new virtual environment]".to_string(),
    ];
    assert!(matches!(selection_step(&options, "3", true), SelectionStep::Install));
    assert!(matches!(selection_step(&options, "4", true), SelectionStep::CreateVenv));
    match selection_step(&options, "2", false) {
        SelectionStep::Choose(v) => assert_eq!(v, "3.12.6"),
        _ => panic!("expected a version"),
    }
    match selection_step(&options, "q", false) {
        SelectionStep::Done(rep) => assert_eq!(rep.stderr, vec!["pyenv: local selection cancelled".to_string()]),
        _ => panic!("expected cancellation"),
    }
}

#[test]
fn local_write_then_version_name_reads_it_back() {
    let mut ctx = version_ctx(&["/home/me/.pyenv/versions/3.12.1", "/home/me/.pyenv/versions/3.11.9"], &[]);
    let (report, change) = cmd_local(&ctx, &vec!["3.12.1".to_string(), "3.11.9".to_string()], false, false);
    assert_eq!(report.exit_code, 0);
    let (path, contents) = written(change);
    ctx.fs.files.insert(0, FileEntry { path, contents, executable: false });
    let name = cmd_version_name(&ctx, false, &no_hooks());
    assert_eq!(name.stdout, vec!["3.12.1:3.11.9"]);
    let origin = cmd_version_origin(&ctx, &no_hooks());
    assert_eq!(origin.stdout, vec!["/home/me/work/.python-version"]);
}

#[test]
fn global_write_then_version_name_reads_it_back() {
    let mut ctx = version_ctx(&["/home/me/.pyenv/versions/3.11.9"], &[]);
    let (report, change) = cmd_global(&ctx, &vec!["3.11.9".to_string()], false);
    assert_eq!(report.exit_code, 0);
    let (path, contents) = written(change);
    ctx.fs.files.insert(0, FileEntry { path, contents, executable: false });
    assert_eq!(cmd_version_name(&ctx, false, &no_hooks()).stdout, vec!["3.11.9"]);
}

#[test]
fn version_finds_local_version_file_in_parent_chain() {
    tests_finds_local_version_file_in_parent_chain();
}

#[test]
fn version_version_name_prefers_environment() {
    tests_version_name_prefers_environment();
}

#[test]
fn version_global_command_writes_version_file() {
    tests_global_command_writes_version_file();
}

#[test]
fn version_local_command_can_force_uninstalled_version() {
    tests_local_command_can_force_uninstalled_version();
}

#[test]
fn version_version_defaults_to_system_when_unconfigured() {
    tests_version_defaults_to_system_when_unconfigured();
}

#[test]
fn version_version_name_falls_back_to_latest_prefix() {
    tests_version_name_falls_back_to_latest_prefix();
}

#[test]
fn version_version_bare_emits_each_selected_version_on_its_own_line() {
    tests_version_bare_emits_each_selected_version_on_its_own_line();
}

#[test]
fn version_version_file_read_joins_versions_and_reports_safe_warnings() {
    tests_version_file_read_joins_versions_and_reports_safe_warnings();
}

#[test]
fn version_version_file_read_allows_internal_parent_components_within_version_tree() {
    tests_version_file_read_allows_internal_parent_components_within_version_tree();
}

#[test]
fn version_version_name_reports_missing_origin_for_environment_version() {
    tests_version_name_reports_missing_origin_for_environment_version();
}

#[test]
fn version_version_file_write_persists_versions() {
    tests_version_file_write_persists_versions();
}

#[test]
fn version_version_name_hook_can_override_selected_value() {
    tests_version_name_hook_can_override_selected_value();
}

#[test]
fn version_version_origin_hook_can_override_origin_text() {
    tests_version_origin_hook_can_override_origin_text();
}

#[test]
fn selection_keeps_each_request_once_in_order() {
    let mut ctx = version_ctx(&["/home/me/.pyenv/versions/3.12.6"], &[]);
    ctx.env_version = Some("3.9:python-3.12:system:2.7".to_string());
    let selected = resolve_selected_versions(&ctx, false);
    assert_eq!(selected.versions, vec!["3.12.6", "system"]);
    assert_eq!(selected.missing, vec!["3.9", "2.7"]);
    assert_eq!(selected.versions.len() + selected.missing.len(), 4);
    let forced = resolve_selected_versions(&ctx, true);
    assert_eq!(forced.versions, vec!["3.9", "3.12.6", "system", "2.7"]);
    assert!(forced.missing.is_empty());
}

#[test]
fn selection_of_python_prefixed_request_resolves_to_installed_runtime() {
    let mut ctx = version_ctx(&["/home/me/.pyenv/versions/3.12.6"], &[]);
    ctx.env_version = Some("python-3.12".to_string());
    let selected = resolve_selected_versions(&ctx, false);
    assert_eq!(selected.versions, vec!["3.12.6"]);
    assert!(selected.missing.is_empty());
}

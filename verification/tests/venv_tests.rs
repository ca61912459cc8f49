use pyenv_core::context::{AppConfig, AppContext, FileEntry, FsSnapshot};
use pyenv_core::venv::commands::{cmd_venv_create, cmd_venv_delete, cmd_venv_info, cmd_venv_list, cmd_venv_use};
use pyenv_core::venv::inventory::{is_safe_env_name, list_managed_venvs, resolve_managed_venv, VenvUseScope};
use pyenv_core::venv::upgrade::{
    cmd_venv_upgrade, needs_cleanup, upgrade_package_specs, upgrade_prompt, upgrade_report, CheckOutcome, CleanupOutcome,
    InstallOutcome, PipPackage, UpgradeOutcome,
};
use pyenv_core::venv_compat::{cmd_virtualenv, cmd_virtualenv_prefix};
use pyenv_core::version::commands::{cmd_global, VersionFileChange};

const ROOT: &str = "/home/me/.pyenv";
const WORK: &str = "/home/me/work";

struct Layout {
    dirs: Vec<String>,
    files: Vec<FileEntry>,
}

impl Layout {
    fn new() -> Layout {
        Layout { dirs: vec![ROOT.to_string(), format!("{ROOT}/versions"), WORK.to_string()], files: vec![] }
    }

    fn dir(&mut self, p: String) {
        if !self.dirs.contains(&p) {
            self.dirs.push(p);
        }
    }

    fn file(&mut self, p: String) {
        self.files.push(FileEntry { path: p, contents: String::new(), executable: true });
    }

    fn runtime(&mut self, version: &str) {
        let v = format!("{ROOT}/versions/{version}");
        self.dir(v.clone());
        self.dir(format!("{v}/bin"));
        self.file(format!("{v}/bin/python"));
        self.file(format!("{v}/bin/pip"));
    }

    fn managed_env(&mut self, version: &str, name: &str) {
        self.dir(format!("{ROOT}/venvs"));
        self.dir(format!("{ROOT}/venvs/{version}"));
        let e = format!("{ROOT}/venvs/{version}/{name}");
        self.dir(e.clone());
        self.dir(format!("{e}/bin"));
        self.file(format!("{e}/bin/python"));
        self.file(format!("{e}/bin/pip"));
    }

    fn ctx(self) -> AppContext {
        AppContext {
            root: ROOT.to_string(),
            dir: WORK.to_string(),
            exe_path: "pyenv".to_string(),
            env_version: None,
            env_shell: None,
            path_env: None,
            path_ext: None,
            config: AppConfig { auto_use_base_venv: false, pep514_registry: false },
            windows: false,
            fs: FsSnapshot { dirs: self.dirs, files: self.files },
        }
    }
}

fn demo_ctx() -> AppContext {
    let mut l = Layout::new();
    l.runtime("3.12.6");
    l.managed_env("3.12.6", "demo");
    l.ctx()
}

#[test]
fn tests_venv_list_reports_managed_env_specs() {
    let ctx = demo_ctx();
    let report = cmd_venv_list(&ctx, true);
    assert_eq!(report.exit_code, 0);
    assert_eq!(report.stdout, vec!["3.12.6/envs/demo".to_string()]);
}

#[test]
fn tests_venv_info_accepts_short_name_when_unique() {
    let ctx = demo_ctx();
    let report = cmd_venv_info(&ctx, "demo");
    assert_eq!(report.exit_code, 0);
    assert!(report.stdout.iter().any(|line| line == "Spec: 3.12.6/envs/demo"));
}

#[test]
fn tests_venv_use_local_writes_env_spec_to_python_version_file() {
    let ctx = demo_ctx();
    let (report, change) = cmd_venv_use(&ctx, "demo", VenvUseScope::Local);
    assert_eq!(report.exit_code, 0);
    match change {
        VersionFileChange::Write(plan) => {
            assert_eq!(plan.path, format!("{WORK}/.python-version"));
            assert_eq!(plan.contents, "3.12.6/envs/demo\n");
        },
        _ => panic!("expected a write of the local version file"),
    }
}

#[test]
fn venv_info_reports_top_level_registry_location() {
    let ctx = demo_ctx();
    let report = cmd_venv_info(&ctx, "demo");
    assert_eq!(report.exit_code, 0);
    let expected = format!("Location: {ROOT}/venvs/3.12.6/demo");
    assert!(report.stdout.iter().any(|line| line == &expected));
}

#[test]
fn tests_venv_create_rejects_duplicate_name_collisions() {
    let mut l = Layout::new();
    l.runtime("3.12.6");
    l.runtime("3.13.1");
    l.managed_env("3.12.6", "demo");
    let ctx = l.ctx();
    match cmd_venv_create(&ctx, "3.13", "demo", false, false) {
        Err(report) => {
            assert_eq!(report.exit_code, 1);
            assert!(report.stderr[0].contains("managed venv name `demo` already exists"));
        },
        Ok(_) => panic!("a duplicate name must be refused"),
    }
}

#[test]
fn venv_create_plans_a_fresh_environment() {
    let mut l = Layout::new();
    l.runtime("3.12.6");
    let ctx = l.ctx();
    let plan = match cmd_venv_create(&ctx, "3.12", "fresh", false, false) {
        Ok(p) => p,
        Err(r) => panic!("unexpected refusal: {:?}", r.stderr),
    };
    assert_eq!(plan.spec, "3.12.6/envs/fresh");
    assert_eq!(plan.interpreter, format!("{ROOT}/versions/3.12.6/bin/python"));
    assert_eq!(plan.venv_path, format!("{ROOT}/venvs/3.12.6/fresh"));
}

#[test]
fn venv_info_reports_unknown_spec() {
    let ctx = demo_ctx();
    let report = cmd_venv_info(&ctx, "nothere");
    assert_eq!(report.exit_code, 1);
    assert!(!report.stderr.is_empty());
}

#[test]
fn venv_resolves_full_spec() {
    let ctx = demo_ctx();
    let info = resolve_managed_venv(&ctx, "3.12.6/envs/demo").ok().expect("resolves");
    assert_eq!(info.name, "demo");
    assert_eq!(info.base_version, "3.12.6");
    assert_eq!(info.python_path, Some(format!("{ROOT}/venvs/3.12.6/demo/bin/python")));
}

#[test]
fn env_names_are_checked() {
    assert!(is_safe_env_name("demo-1.0_x"));
    assert!(!is_safe_env_name(""));
    assert!(!is_safe_env_name("a/b"));
    assert!(is_safe_env_name(".."));
    assert!(!is_safe_env_name("a b"));
}

#[test]
fn venv_delete_without_force_asks_first() {
    let ctx = demo_ctx();
    let plan = cmd_venv_delete(&ctx, "demo", false).ok().expect("resolves");
    assert!(plan.prompt.is_some());
    let plan = cmd_venv_delete(&ctx, "demo", true).ok().expect("resolves");
    assert!(plan.prompt.is_none());
    assert_eq!(plan.info.path, format!("{ROOT}/venvs/3.12.6/demo"));
}

#[test]
fn virtualenv_requires_a_selected_runtime_when_none_is_provided() {
    let ctx = Layout::new().ctx();
    match cmd_virtualenv(&ctx, None, "demo", false, false) {
        Err(report) => {
            assert_eq!(report.exit_code, 1);
            assert!(report.stderr[0].contains("current selection"));
        },
        Ok(_) => panic!("no runtime is selected"),
    }
}

#[test]
fn virtualenv_prefix_uses_current_managed_env_when_not_explicitly_provided() {
    let mut l = Layout::new();
    l.dir(format!("{ROOT}/versions/3.12.6"));
    l.dir(format!("{ROOT}/venvs"));
    l.dir(format!("{ROOT}/venvs/3.12.6"));
    l.dir(format!("{ROOT}/venvs/3.12.6/demo"));
    l.dir(format!("{ROOT}/venvs/3.12.6/demo/bin"));
    l.file(format!("{ROOT}/venvs/3.12.6/demo/bin/python"));
    let mut ctx = l.ctx();
    let (report, change) = cmd_global(&ctx, &vec!["3.12.6/envs/demo".to_string()], false);
    assert_eq!(report.exit_code, 0);
    match change {
        VersionFileChange::Write(plan) => {
            ctx.fs.files.push(FileEntry { path: plan.path, contents: plan.contents, executable: false })
        },
        _ => panic!("expected a write of the global version file"),
    }
    let prefix = cmd_virtualenv_prefix(&ctx, None);
    assert_eq!(prefix.exit_code, 0);
    assert!(prefix.stdout.first().expect("prefix").ends_with("/.pyenv/venvs/3.12.6/demo"));
}

fn pkg(name: &str, version: &str) -> PipPackage {
    PipPackage { name: name.to_string(), version: version.to_string() }
}

#[test]
fn upgrade_carries_over_non_bundled_packages() {
    let specs = upgrade_package_specs(&vec![pkg("pip", "24.0"), pkg("requests", "2.31.0"), pkg("SetupTools", "69"), pkg("rich", "13.7.1")]);
    assert_eq!(specs, vec!["requests==2.31.0", "rich==13.7.1"]);
}

#[test]
fn upgrade_checks_runtime_and_reports_progress() {
    let mut l = Layout::new();
    l.runtime("3.12.6");
    l.runtime("3.13.1");
    l.managed_env("3.12.6", "demo");
    let ctx = l.ctx();
    match cmd_venv_upgrade(&ctx, "demo", "3.99") {
        Err(r) => {
            assert_eq!(r.exit_code, 1);
            assert_eq!(r.stderr[0], "pyenv: target new runtime `3.99` is not installed.");
        },
        Ok(_) => panic!("3.99 is not installed"),
    }
    let plan = cmd_venv_upgrade(&ctx, "demo", "3.13").ok().expect("upgrade plan");
    assert_eq!(plan.new_version, "3.13.1");
    assert_eq!(plan.python, format!("{ROOT}/venvs/3.12.6/demo/bin/python"));
    assert_eq!(
        upgrade_prompt(&plan, 2),
        "pyenv: migrate managed venv 3.12.6/envs/demo to runtime 3.13.1? (this will recreate the environment and attempt to reinstall 2 packages) [y/N] "
    );
    let specs = vec!["requests==2.31.0".to_string(), "rich==13.7.1".to_string()];
    let outcome = UpgradeOutcome {
        backup_ok: true,
        create_steps: vec![],
        new_spec: "3.13.1/envs/demo".to_string(),
        pip_updated: true,
        installs: vec![InstallOutcome::Installed, InstallOutcome::Failed(Some(1))],
        check: CheckOutcome::Passed,
        cleanup: CleanupOutcome::Removed,
    };
    let report = upgrade_report(&plan.info, &specs, &outcome);
    assert_eq!(report.exit_code, 0);
    assert!(report.stdout.contains(&"    [1/2] installing requests==2.31.0...".to_string()));
    assert!(report.stdout.contains(&"      - [WARNING] failed to install rich==13.7.1 (exit code Some(1))".to_string()));
    assert_eq!(report.stdout.last().unwrap(), "Managed venv successfully upgraded to: 3.13.1/envs/demo");
}

#[test]
fn upgrade_cleanup_compares_path_components() {
    assert!(!needs_cleanup("/r/venvs/3.12.6/demo", "/r/venvs/3.12.6/demo/"));
    assert!(!needs_cleanup("/r/venvs/./3.12.6/demo", "/r/venvs/3.12.6/demo"));
    assert!(needs_cleanup("/r/venvs/3.12.6/demo", "/r/venvs/3.13.1/demo"));
}

#[test]
fn venv_venv_list_reports_managed_env_specs() {
    tests_venv_list_reports_managed_env_specs();
}

#[test]
fn venv_venv_info_accepts_short_name_when_unique() {
    tests_venv_info_accepts_short_name_when_unique();
}

#[test]
fn venv_venv_use_local_writes_env_spec_to_python_version_file() {
    tests_venv_use_local_writes_env_spec_to_python_version_file();
}

#[test]
fn venv_venv_create_rejects_duplicate_name_collisions() {
    tests_venv_create_rejects_duplicate_name_collisions();
}

#[test]
fn venv_use_global_selects_the_venv() {
    let ctx = demo_ctx();
    let (report, change) = cmd_venv_use(&ctx, "3.12.6/envs/demo", VenvUseScope::Global);
    assert_eq!(report.exit_code, 0);
    assert_eq!(report.stdout[0], "Selected managed venv 3.12.6/envs/demo for global use.");
    match change {
        VersionFileChange::Write(plan) => assert_eq!(plan.path, format!("{ROOT}/version")),
        _ => panic!("expected a write of the global version file"),
    }
    let (report, _) = cmd_venv_use(&ctx, "nothere", VenvUseScope::Local);
    assert_eq!(report.exit_code, 1);
    assert_eq!(report.stderr, vec!["pyenv: no managed venv named `nothere` was found"]);
}

#[test]
fn short_name_shared_by_two_venvs_is_ambiguous() {
    let mut l = Layout::new();
    l.runtime("3.12.6");
    l.runtime("3.13.1");
    l.managed_env("3.12.6", "demo");
    l.managed_env("3.13.1", "demo");
    let ctx = l.ctx();
    let err = resolve_managed_venv(&ctx, "demo").err().expect("ambiguous");
    assert_eq!(
        err.message(),
        "pyenv: managed venv name `demo` is ambiguous; use one of: `3.12.6/envs/demo`, `3.13.1/envs/demo`"
    );
}

#[test]
fn listing_holds_each_venv_once() {
    let mut l = Layout::new();
    l.runtime("3.12.6");
    l.managed_env("3.12.6", "demo");
    l.dirs.push(format!("{ROOT}/venvs/3.12.6/demo"));
    l.dirs.push(format!("{ROOT}/venvs/3.12.6"));
    let ctx = l.ctx();
    assert_eq!(list_managed_venvs(&ctx).len(), 1);
    assert_eq!(cmd_venv_list(&ctx, true).stdout, vec!["3.12.6/envs/demo"]);
    assert_eq!(resolve_managed_venv(&ctx, "demo").ok().expect("unique").spec, "3.12.6/envs/demo");
}

#[test]
fn virtualenv_prefix_reports_named_and_missing_venvs() {
    let ctx = demo_ctx();
    let named = cmd_virtualenv_prefix(&ctx, Some("demo"));
    assert_eq!(named.exit_code, 0);
    assert_eq!(named.stdout, vec![format!("{ROOT}/venvs/3.12.6/demo")]);
    let missing = cmd_virtualenv_prefix(&ctx, Some("other"));
    assert_eq!(missing.exit_code, 1);
    assert_eq!(missing.stderr, vec!["pyenv: no managed venv named `other` was found"]);
    let system = cmd_virtualenv_prefix(&ctx, None);
    assert_eq!(system.exit_code, 1);
    assert!(system.stderr[0].contains("`system`"));
}

#[test]
fn upgrade_by_unique_short_name_reports_missing_runtime_in_three_lines() {
    let mut l = Layout::new();
    l.runtime("3.12.6");
    l.managed_env("3.12.6", "demo");
    let ctx = l.ctx();
    match cmd_venv_upgrade(&ctx, "demo", "3.99") {
        Err(r) => {
            assert_eq!(r.exit_code, 1);
            assert!(r.stdout.is_empty());
            assert_eq!(
                r.stderr,
                vec![
                    "pyenv: target new runtime `3.99` is not installed.".to_string(),
                    "Error: pyenv: version `3.99' is not installed (set by pyenv venv create)".to_string(),
                    "Hint: install it first with `pyenv install 3.99`".to_string(),
                ]
            );
        },
        Ok(_) => panic!("3.99 is not installed"),
    }
}

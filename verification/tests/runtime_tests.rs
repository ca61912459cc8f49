use pyenv_core::context::{AppConfig, AppContext, FileEntry, FsSnapshot};
use pyenv_core::runtime::inventory::{inventory_roots_for_version, managed_search_roots_for_version};
use pyenv_core::runtime::search::{
    candidate_file_names, executable_extensions, find_command_in_prefix, prefix_bin_dirs, search_path_entries,
};
use pyenv_core::runtime::shim_names::{collect_shim_names_from_prefix, normalize_shim_name};

const ROOT: &str = "/tmp/t/.pyenv";

fn entry(path: &str, executable: bool) -> FileEntry {
    FileEntry { path: path.to_string(), contents: String::new(), executable }
}

fn runtime_ctx(dirs: &[&str], auto_use_base_venv: bool) -> AppContext {
    let mut all = vec![ROOT.to_string(), format!("{ROOT}/versions"), "/tmp/t/work".to_string()];
    all.extend(dirs.iter().map(|d| d.to_string()));
    AppContext {
        root: ROOT.to_string(),
        dir: "/tmp/t/work".to_string(),
        exe_path: "pyenv".to_string(),
        env_version: None,
        env_shell: None,
        path_env: None,
        path_ext: None,
        config: AppConfig { auto_use_base_venv, pep514_registry: false },
        windows: false,
        fs: FsSnapshot { dirs: all, files: vec![] },
    }
}

fn search_roots_case() {
    let vd = format!("{ROOT}/versions/3.12.1");
    let base = format!("{vd}/.pyenv-base-venv");
    let ctx = runtime_ctx(&[vd.as_str(), base.as_str()], true);
    let roots = managed_search_roots_for_version(&ctx, "3.12.1");
    assert_eq!(roots, vec![base, vd]);
}

fn prefix_lookup_case() {
    let prefix = "/tmp/t/runtime";
    let fs = FsSnapshot {
        dirs: vec![prefix.to_string(), format!("{prefix}/bin")],
        files: vec![entry("/tmp/t/runtime/python", true), entry("/tmp/t/runtime/bin/pip", true)],
    };
    let python = find_command_in_prefix(&fs, prefix, "python", None, false).expect("python");
    let pip = find_command_in_prefix(&fs, prefix, "pip", None, false).expect("pip");
    assert_eq!(python, "/tmp/t/runtime/python");
    assert_eq!(pip, "/tmp/t/runtime/bin/pip");
    assert_eq!(prefix_bin_dirs(prefix).len(), 3);
}

fn shim_inventory_case() {
    let prefix = "/tmp/t/runtime";
    let fs = FsSnapshot {
        dirs: vec![prefix.to_string(), format!("{prefix}/bin")],
        files: vec![
            entry("/tmp/t/runtime/bin/python", true),
            entry("/tmp/t/runtime/bin/pip3.13", true),
            entry("/tmp/t/runtime/bin/activate", true),
            entry("/tmp/t/runtime/bin/pythonw.dll", false),
        ],
    };
    let names = collect_shim_names_from_prefix(&fs, prefix, None);
    assert_eq!(names, vec!["activate", "pip3.13", "python"]);
}

fn shim_inventory_windows_case() {
    let prefix = "C:/t/runtime";
    let fs = FsSnapshot {
        dirs: vec![prefix.to_string(), format!("{prefix}/Scripts")],
        files: vec![
            entry("C:/t/runtime/python.exe", false),
            entry("C:/t/runtime/Scripts/pip3.13.cmd", false),
            entry("C:/t/runtime/Scripts/activate.bat", false),
            entry("C:/t/runtime/Scripts/pythonw.dll", false),
        ],
    };
    let names = collect_shim_names_from_prefix(&fs, prefix, Some(".exe;.bat;.cmd"));
    assert_eq!(names, vec!["activate", "pip3.13", "python"]);
}

#[test]
fn tests_search_roots_prefer_base_venv_when_enabled() {
    search_roots_case();
}

#[test]
fn runtime_search_roots_prefer_base_venv_when_enabled() {
    search_roots_case();
}

#[test]
fn search_roots_skip_base_venv_when_disabled() {
    let vd = format!("{ROOT}/versions/3.12.1");
    let base = format!("{vd}/.pyenv-base-venv");
    let ctx = runtime_ctx(&[vd.as_str(), base.as_str()], false);
    assert_eq!(managed_search_roots_for_version(&ctx, "3.12.1"), vec![vd]);
}

#[test]
fn inventory_roots_include_top_level_managed_venvs_for_runtime() {
    let vd = format!("{ROOT}/versions/3.12.1");
    let env = format!("{ROOT}/venvs/3.12.1/demo");
    let venvs = format!("{ROOT}/venvs");
    let base = format!("{ROOT}/venvs/3.12.1");
    let ctx = runtime_ctx(&[vd.as_str(), venvs.as_str(), base.as_str(), env.as_str()], false);
    let roots = inventory_roots_for_version(&ctx, "3.12.1");
    assert!(roots.contains(&vd));
    assert!(roots.contains(&env));
}

#[test]
fn tests_find_command_checks_prefix_root_and_scripts() {
    prefix_lookup_case();
}

#[test]
fn runtime_find_command_checks_prefix_root_and_scripts() {
    prefix_lookup_case();
}

#[test]
fn tests_shim_inventory_normalizes_extensions() {
    shim_inventory_case();
    shim_inventory_windows_case();
}

#[test]
fn runtime_shim_inventory_normalizes_extensions() {
    shim_inventory_case();
    shim_inventory_windows_case();
}

#[test]
fn search_path_entries_skips_windows_apps_trap() {
    let trap = "C:/t/Local/Microsoft/WindowsApps/PythonSoftwareFoundation.Python.3.12_qbz5n2kfra8p0";
    let valid = "C:/t/Python312";
    let fs = FsSnapshot {
        dirs: vec![trap.to_string(), valid.to_string()],
        files: vec![entry(&format!("{trap}/python.exe"), false), entry(&format!("{valid}/python.exe"), false)],
    };
    let dirs = vec![trap.to_string(), valid.to_string()];
    let found = search_path_entries(&fs, &dirs, "python", Some(".exe"), true);
    assert_eq!(found, Some(format!("{valid}/python.exe")));
    let only_trap = vec![trap.to_string()];
    assert_eq!(search_path_entries(&fs, &only_trap, "python", Some(".exe"), true), None);
}

#[test]
fn extensions_and_candidates_follow_pathext() {
    assert_eq!(executable_extensions(Some(".EXE;.Bat")), vec![".EXE", ".Bat"]);
    assert_eq!(candidate_file_names("python", Some(".exe")), vec!["python", "python.exe"]);
    assert_eq!(candidate_file_names("python.exe", Some(".exe")), vec!["python.exe"]);
}

#[test]
fn shim_names_drop_known_extensions_only() {
    assert_eq!(normalize_shim_name("/p/bin/pip3.13", None, true), Some("pip3.13".to_string()));
    assert_eq!(normalize_shim_name("/p/bin/tool", None, false), Some("tool".to_string()));
    assert_eq!(normalize_shim_name("/p/bin/tool.sh", None, false), None);
    assert_eq!(normalize_shim_name("C:/p/x.cmd", Some(".cmd"), false), Some("x".to_string()));
    assert_eq!(normalize_shim_name("C:/p/x.dll", Some(".cmd"), false), None);
}

use pyenv_core::context::{AppConfig, AppContext};
use pyenv_core::context::{FileEntry, FsSnapshot};
use pyenv_core::desktop::{
    check_install_status, configure_shell, get_shell_statuses, data_home, desktop_entry, finalize_summary, find_installer_script,
    installer_args, installer_script_names, path_has_entry, purge_scope, purge_target, purged_message,
    nothing_to_purge_message, shell_init_block, shell_path_label, total_bytes, HostOs, InstallProbe,
};

fn file(path: &str) -> FileEntry {
    FileEntry { path: path.to_string(), contents: String::new(), executable: true }
}

#[test]
fn path_badges_follow_state() {
    assert_eq!(shell_path_label(true, true), "PATH Active");
    assert_eq!(shell_path_label(true, false), "Restart terminal to activate");
    assert_eq!(shell_path_label(false, false), "Shims not on PATH");
}

#[test]
fn path_entries_are_matched_per_platform() {
    assert!(path_has_entry("/usr/bin:/home/me/.pyenv/shims", "/home/me/.pyenv/shims", false));
    assert!(path_has_entry("/usr/bin:/home/me/.pyenv/shims/", "/home/me/.pyenv/shims", false));
    assert!(!path_has_entry("/usr/bin", "/home/me/.pyenv/shims", false));
    assert!(path_has_entry("C:\\Tools;C:\\Users\\Me\\.pyenv\\shims", "c:/users/me/.pyenv/shims", true));
}

#[test]
fn profiles_get_the_shell_block_once() {
    let updated = configure_shell("export A=1", "Bash").expect("bash is supported").expect("not configured yet");
    assert_eq!(updated, "export A=1\n\n# pyenv-native shell initialization\neval \"$(pyenv init - bash)\"\n");
    assert_eq!(configure_shell(&updated, "Bash"), Ok(None));
    assert_eq!(
        configure_shell("", "Tcsh"),
        Err("Unsupported shell for automatic configuration: Tcsh".to_string())
    );
    assert!(shell_init_block("PowerShell 7").expect("pwsh").contains("pyenv init - pwsh"));
    assert!(shell_init_block("Fish").expect("fish").contains("| source"));
}

#[test]
fn finalize_summary_names_configured_shells() {
    assert_eq!(
        finalize_summary("/r", &vec!["Bash".to_string(), "Zsh".to_string()]),
        "Core binaries are ready under /r.\nShim directory refreshed.\nConfigured shell profile(s): Bash, Zsh. Open a new terminal to activate shims."
    );
    assert!(finalize_summary("/r", &vec![]).ends_with("Open a new terminal so shims appear on PATH."));
}

#[test]
fn install_status_distinguishes_portable_and_managed() {
    let probe = InstallProbe {
        root: Some("/home/me/.pyenv".to_string()),
        managed_binaries: true,
        is_portable: false,
        exe_dir: "/opt/app".to_string(),
        cli_on_path: true,
        shims_active: false,
        profile_ok: true,
        os: HostOs::Linux,
    };
    let status = check_install_status(&probe);
    assert!(status.is_installed);
    assert!(status.needs_shell_setup);
    assert_eq!(status.platform, "linux");
    let portable = InstallProbe { root: None, is_portable: true, ..probe };
    let status = check_install_status(&portable);
    assert_eq!(status.root, Some("/opt/app".to_string()));
    assert!(status.needs_shell_setup);
}

#[test]
fn installer_script_is_found_upwards() {
    let fs = FsSnapshot {
        dirs: vec!["/a".to_string(), "/a/b".to_string(), "/a/b/c".to_string(), "/a/scripts".to_string()],
        files: vec![file("/a/scripts/install-pyenv-native.sh"), file("/a/b/c/pyenv")],
    };
    let names = installer_script_names(false);
    assert_eq!(
        find_installer_script(&fs, "/a/b/c", &names),
        Some("/a/scripts/install-pyenv-native.sh".to_string())
    );
    assert_eq!(
        installer_args(&fs, "/a/b/c", "/a/scripts/install-pyenv-native.sh", false),
        vec!["/a/scripts/install-pyenv-native.sh", "--yes", "--source-path", "/a/b/c/pyenv"]
    );
}

#[test]
fn purge_targets_and_scope() {
    assert_eq!(purge_target("/c", "packages"), Ok("/c/packages".to_string()));
    assert_eq!(purge_target("/c", "all"), Ok("/c".to_string()));
    assert_eq!(purge_target("/c", "logs"), Err("Unknown cache target `logs`".to_string()));
    assert_eq!(purge_scope("/c", "/c"), Ok(true));
    assert_eq!(purge_scope("/c", "/c/./packages/"), Ok(false));
    assert_eq!(
        purge_scope("/c", "/cache"),
        Err("Refusing to purge a path outside the pyenv cache root.".to_string())
    );
    assert!(purge_scope("/c/packages", "/c").is_err());
    assert_eq!(nothing_to_purge_message("/c/x"), "Nothing to purge at /c/x");
    assert_eq!(purged_message("metadata", "/c/metadata"), "Purged cache: metadata (/c/metadata)");
}

#[test]
fn cache_totals_saturate() {
    assert_eq!(total_bytes(&vec![1, 2, 3]), 6);
    assert_eq!(total_bytes(&vec![u64::MAX, 5]), u64::MAX);
    assert_eq!(total_bytes(&vec![]), 0);
}

#[test]
fn launcher_and_data_home() {
    assert_eq!(data_home(Some("/x"), Some("/h")), "/x");
    assert_eq!(data_home(None, Some("/h")), "/h/.local/share");
    assert_eq!(data_home(None, None), ".local/share");
    let entry = desktop_entry("/opt/pyenv-gui", "/h/icon.png", false);
    assert!(entry.starts_with("[Desktop Entry]\nType=Application\n"));
    assert!(entry.contains("\nExec=/opt/pyenv-gui\nIcon=com.pyenv-native.gui\n"));
    assert!(desktop_entry("/e", "/h/icon.png", true).contains("\nIcon=/h/icon.png\n"));
    assert!(entry.ends_with("Terminal=false\n"));
}

#[test]
fn bash_is_looked_up_outside_linux_and_macos() {
    let ctx = AppContext {
        root: "/h/.pyenv".to_string(),
        dir: "/h".to_string(),
        exe_path: "pyenv".to_string(),
        env_version: None,
        env_shell: None,
        path_env: None,
        path_ext: None,
        config: AppConfig { auto_use_base_venv: false, pep514_registry: false },
        windows: false,
        fs: FsSnapshot { dirs: vec!["/usr/bin".to_string()], files: vec![] },
    };
    let bsd = get_shell_statuses(&ctx, "/h", "/usr/bin", HostOs::Other);
    let bash = bsd.iter().find(|s| s.name == "Bash").expect("bash row");
    assert!(!bash.is_installed);
    let linux = get_shell_statuses(&ctx, "/h", "/usr/bin", HostOs::Linux);
    assert!(linux.iter().find(|s| s.name == "Bash").expect("bash row").is_installed);
}

use pyenv_core::context::{FileEntry, FsSnapshot};
use pyenv_core::preflight::android::AndroidToolchainState;
use pyenv_core::preflight::host::{detect_os_pretty_name, os_release_pretty_name, read_command_line, OsNameProbe};
use pyenv_core::preflight::intel::{build_platform_intelligence, describe_install_strategy, HostProbe};
use pyenv_core::preflight::report::{cmd_preflight, render_intelligence};
use pyenv_core::preflight::types::{DoctorCheck, DoctorFix, DoctorStatus, PreflightVerdict};

fn idle_android() -> AndroidToolchainState {
    AndroidToolchainState {
        is_termux: false,
        prefix: None,
        api_level: None,
        ready: true,
        missing: vec![],
        detail: String::new(),
    }
}

fn probe_with(checks: Vec<DoctorCheck>, fixes: Vec<DoctorFix>) -> HostProbe {
    HostProbe {
        os: "linux".to_string(),
        arch: "x86_64".to_string(),
        os_pretty_name: "Ubuntu 24.04".to_string(),
        shell: Some("bash".to_string()),
        checks,
        fixes,
        macos: None,
        android: idle_android(),
        sample_provider: None,
    }
}

fn check(name: &str, status: DoctorStatus, detail: &str) -> DoctorCheck {
    DoctorCheck { name: name.to_string(), status, detail: detail.to_string() }
}

#[test]
fn macos_strategy_mentions_source_build() {
    let strategy = describe_install_strategy("macos");
    assert!(strategy.contains("source"));
    assert!(strategy.to_ascii_lowercase().contains("openssl"));
}

#[test]
fn other_os_strategy_names_the_os() {
    assert_eq!(describe_install_strategy("freebsd"), "freebsd native provider resolution");
}

#[test]
fn blocking_warning_blocks_install() {
    let probe = probe_with(
        vec![
            check("source-build-compiler", DoctorStatus::Warn, "no cc"),
            check("root-directory", DoctorStatus::Pass, "ok"),
        ],
        vec![],
    );
    let intel = build_platform_intelligence("/home/me/.pyenv", &probe);
    assert_eq!(intel.verdict, PreflightVerdict::Blocked);
    assert!(!intel.ready_to_install);
    assert_eq!(intel.blocking_issues, vec!["source-build-compiler: no cc".to_string()]);
    assert!(intel.warnings.is_empty());
    let report = render_intelligence(&intel);
    assert_eq!(report.exit_code, 1);
    assert_eq!(report.stderr, vec!["pyenv: preflight reports the host is not ready for a successful install".to_string()]);
    assert_eq!(report.stdout[0], "pyenv platform intelligence [BLOCKED]");
}

#[test]
fn readiness_warning_needs_attention_but_installs() {
    let probe = probe_with(vec![check("root-directory", DoctorStatus::Warn, "missing")], vec![]);
    let intel = build_platform_intelligence("/r", &probe);
    assert_eq!(intel.verdict, PreflightVerdict::NeedsAttention);
    assert!(intel.ready_to_install);
    assert_eq!(intel.warnings, vec!["root-directory: missing".to_string()]);
    let report = cmd_preflight("/r", &probe);
    assert_eq!(report.exit_code, 0);
    assert!(report.stderr.is_empty());
}

#[test]
fn clean_host_is_ready_with_facts() {
    let probe = probe_with(vec![check("other", DoctorStatus::Info, "fine")], vec![]);
    let intel = build_platform_intelligence("/r", &probe);
    assert_eq!(intel.verdict, PreflightVerdict::Ready);
    assert_eq!(intel.summary, "Ubuntu 24.04 looks ready for pyenv-native runtime installs via official CPython source build (requires compiler toolchain + headers).");
    let keys: Vec<&str> = intel.facts.iter().map(|f| f.key.as_str()).collect();
    assert_eq!(keys, vec!["os", "arch", "install-strategy", "pyenv-root", "shell", "build-mode"]);
    let report = render_intelligence(&intel);
    assert_eq!(
        report.stdout[..4].to_vec(),
        vec![
            "pyenv platform intelligence [READY]".to_string(),
            intel.summary.clone(),
            String::new(),
            "Host facts:".to_string()
        ]
    );
    assert!(report.stdout.contains(&"  [INFO] other: fine".to_string()));
}

#[test]
fn only_relevant_fixes_are_recommended() {
    let fixes = vec![
        DoctorFix { key: "macos-clt".to_string(), description: "install clt".to_string(), automated: false, command_hint: Some("xcode-select --install".to_string()) },
        DoctorFix { key: "cache".to_string(), description: "clear cache".to_string(), automated: false, command_hint: None },
        DoctorFix { key: "shims".to_string(), description: "rehash".to_string(), automated: true, command_hint: None },
    ];
    let intel = build_platform_intelligence("/r", &probe_with(vec![], fixes));
    let keys: Vec<&str> = intel.recommended_actions.iter().map(|f| f.key.as_str()).collect();
    assert_eq!(keys, vec!["macos-clt", "shims"]);
    let report = render_intelligence(&intel);
    assert!(report.stdout.contains(&"  - [manual] install clt".to_string()));
    assert!(report.stdout.contains(&"      hint: xcode-select --install".to_string()));
    assert!(report.stdout.contains(&"  - [automated] rehash".to_string()));
    assert_eq!(report.stdout.last().unwrap(), "Tip: run `pyenv doctor --fix` to apply safe automated repairs.");
}

#[test]
fn os_release_pretty_name_is_unquoted() {
    let contents = "NAME=\"Ubuntu\"\nPRETTY_NAME=\"Ubuntu 24.04 LTS\"\nID=ubuntu\n";
    assert_eq!(os_release_pretty_name(contents), Some("Ubuntu 24.04 LTS".to_string()));
    assert_eq!(os_release_pretty_name("ID=arch\n"), None);
}

#[test]
fn pretty_names_per_platform() {
    let probe = OsNameProbe {
        product: Some("macOS".to_string()),
        product_version: Some("14.5".to_string()),
        os_env: None,
        android_release: Some("14".to_string()),
        os_release: None,
        arch: "aarch64".to_string(),
    };
    assert_eq!(detect_os_pretty_name("macos", &probe), "macOS 14.5");
    assert_eq!(detect_os_pretty_name("windows", &probe), "Windows");
    assert_eq!(detect_os_pretty_name("android", &probe), "Android 14 (Termux)");
    assert_eq!(detect_os_pretty_name("linux", &probe), "linux aarch64");
    assert_eq!(read_command_line("  14.5 \n"), Some("14.5".to_string()));
    assert_eq!(read_command_line("   "), None);
}

#[test]
fn snapshot_lookup_finds_files() {
    let fs = FsSnapshot {
        dirs: vec!["/a".to_string()],
        files: vec![FileEntry { path: "/a/b".to_string(), contents: "x".to_string(), executable: false }],
    };
    assert!(fs.is_dir("/a"));
    assert!(fs.is_file("/a/b"));
    assert_eq!(fs.read_file("/a/b"), Some("x".to_string()));
    assert_eq!(fs.read_file("/a/c"), None);
}

#[test]
fn platform_intelligence_includes_os_and_strategy() {
    let probe = probe_with(
        vec![
            check("root-directory", DoctorStatus::Pass, "/home/me/.pyenv"),
            check("shims-on-path", DoctorStatus::Info, "shims present"),
        ],
        vec![],
    );
    let intel = build_platform_intelligence("/home/me/.pyenv", &probe);
    assert!(!intel.os.is_empty());
    assert!(!intel.install_strategy.is_empty());
    assert!(!intel.facts.is_empty());
    assert!(intel.checks.iter().any(|c| c.status == DoctorStatus::Pass
        || c.status == DoctorStatus::Warn
        || c.status == DoctorStatus::Info));
}

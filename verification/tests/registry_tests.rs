use pyenv_core::windows_registry::{
    from_install_paths, pep514_sys_architecture, sys_version_from_tag, windowed_executable_path, Pep514Spec, InstallPlan,
    PEP514_COMPANY,
};

#[test]
fn pep514_spec_uses_dedicated_company_and_full_tag() {
    let spec = from_install_paths(
        "3.14.7t",
        "x64",
        r"C:\Users\me\.pyenv\versions\3.14.7t",
        r"C:\Users\me\.pyenv\versions\3.14.7t\python.exe",
    );
    assert_eq!(spec.company, PEP514_COMPANY);
    assert_eq!(spec.tag, "3.14.7t");
    assert_eq!(spec.sys_version, "3.14");
    assert_eq!(spec.sys_architecture, "64bit");
    assert_eq!(spec.key_path(), r"Software\Python\PyenvNative\3.14.7t");
    assert!(spec.windowed_executable.ends_with("pythonw.exe"));
}

#[test]
fn pep514_x86_is_32bit() {
    let spec = from_install_paths(
        "3.12.10",
        "x86",
        "/opt/pyenv/versions/3.12.10",
        "/opt/pyenv/versions/3.12.10/bin/python",
    );
    assert_eq!(spec.sys_architecture, "32bit");
}

#[test]
fn sys_version_keeps_major_and_minor() {
    assert_eq!(sys_version_from_tag("3.12.10"), "3.12");
    assert_eq!(pep514_sys_architecture("x64"), "64bit");
    assert_eq!(windowed_executable_path(r"C:\py\python.exe"), r"C:\py\pythonw.exe");
}

#[test]
fn spec_from_plan_matches_install_paths() {
    let plan = InstallPlan {
        resolved_version: "3.13.1".to_string(),
        architecture: "x64".to_string(),
        install_dir: r"C:\r\versions\3.13.1".to_string(),
        python_executable: r"C:\r\versions\3.13.1\python.exe".to_string(),
    };
    let a: Pep514Spec = Pep514Spec::from_plan(&plan);
    let b = from_install_paths("3.13.1", "x64", r"C:\r\versions\3.13.1", r"C:\r\versions\3.13.1\python.exe");
    assert_eq!(a.key_path(), b.key_path());
    assert_eq!(a.sys_version, b.sys_version);
    assert_eq!(a.executable, b.executable);
}

#[test]
fn pep514_values_cover_key_and_install_path() {
    let spec = from_install_paths("3.12.6", "x64", r"C:\py\3.12.6", r"C:\py\3.12.6\python.exe");
    let values = pyenv_core::windows_registry::pep514_values(&spec);
    assert_eq!(values.len(), 8);
    let key = r"Software\Python\PyenvNative\3.12.6".to_string();
    let install = r"Software\Python\PyenvNative\3.12.6\InstallPath".to_string();
    assert_eq!(values[0], (key.clone(), "DisplayName".to_string(), spec.display_name.clone()));
    assert_eq!(values[3], (key, "SysVersion".to_string(), "3.12".to_string()));
    assert_eq!(values[5], (install.clone(), String::new(), r"C:\py\3.12.6".to_string()));
    assert_eq!(values[6], (install, "ExecutablePath".to_string(), r"C:\py\3.12.6\python.exe".to_string()));
}

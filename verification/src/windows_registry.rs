//! PEP-514 registration of managed Windows interpreters: the registry entry a runtime gets
//! under the company `PyenvNative`, and whether registration applies.
use vstd::prelude::*;

use crate::context::AppContext;
use crate::strings::{
    cat, cat3, chars_of, ends_with, ends_with_str, lower_seq, lower_str, owned, split_char,
    str_eq, string_from, trim, trim_end_char, trim_str,
};

verus! {

broadcast use vstd::string::group_string_axioms;

/// The registry company the runtimes are listed under.
pub const PEP514_COMPANY: &'static str = "PyenvNative";

/// The registry company the runtimes are listed under.
pub open spec fn company() -> Seq<char> {
    "PyenvNative"@
}

/// The facts of an installation that registration needs.
pub struct InstallPlan {
    pub resolved_version: String,
    pub architecture: String,
    pub install_dir: String,
    pub python_executable: String,
}

/// A PEP-514 registry entry.
pub struct Pep514Spec {
    pub company: String,
    pub tag: String,
    pub display_name: String,
    pub support_url: String,
    pub version: String,
    pub sys_version: String,
    pub sys_architecture: String,
    pub install_dir: String,
    pub executable: String,
    pub windowed_executable: String,
}

/// `major.minor` of a tag without its trailing `t`s, when both parts are non-empty; else the
/// tag without its trailing `t`s.
pub open spec fn sys_version_of(tag: Seq<char>) -> Seq<char> {
    let core = trim_end_char(tag, 't');
    let parts = split_char(core, '.');
    if parts.len() >= 2 && parts[0].len() > 0 && parts[1].len() > 0 {
        parts[0] + "."@ + parts[1]
    } else {
        core
    }
}

/// The Python version a tag names, as PEP-514's `SysVersion`.
pub fn sys_version_from_tag(tag: &str) -> (r: String)
    ensures
        r@ == sys_version_of(tag@),
{
    let v = chars_of(tag);
    let mut n = v.len();
    assert(v@.take(v@.len() as int) =~= v@);
    while n > 0 && v[n - 1] == 't'
        invariant
            n <= v@.len(),
            trim_end_char(v@, 't') == trim_end_char(v@.take(n as int), 't'),
        decreases n,
    {
        assert(v@.take(n as int).drop_last() =~= v@.take(n - 1));
        n = n - 1;
    }
    assert(trim_end_char(v@.take(n as int), 't') == v@.take(n as int));
    let core = string_from(&v, 0, n);
    assert(core@ =~= v@.take(n as int));
    let parts = crate::strings::split_on(core.as_str(), '.');
    if parts.len() >= 2 && !parts[0].as_str().is_empty() && !parts[1].as_str().is_empty() {
        assert(lines(parts@)[0] == parts@[0]@);
        assert(lines(parts@)[1] == parts@[1]@);
        cat3(parts[0].as_str(), ".", parts[1].as_str())
    } else {
        proof {
            if parts@.len() >= 2 {
                assert(lines(parts@)[0] == parts@[0]@);
                assert(lines(parts@)[1] == parts@[1]@);
            }
        }
        core
    }
}

use crate::strings::lines;

/// `32bit` for x86 names (trimmed, any case), else `64bit`.
pub open spec fn sys_architecture_of(arch: Seq<char>) -> Seq<char> {
    let a = lower_seq(trim(arch));
    if a == "x86"@ || a == "win32"@ || a == "i386"@ || a == "i686"@ {
        "32bit"@
    } else {
        "64bit"@
    }
}

/// The architecture as PEP-514's `SysArchitecture`.
pub fn pep514_sys_architecture(architecture: &str) -> (r: String)
    ensures
        r@ == sys_architecture_of(architecture@),
{
    let t = trim_str(architecture);
    let a = lower_str(t.as_str());
    if str_eq(a.as_str(), "x86") || str_eq(a.as_str(), "win32") || str_eq(a.as_str(), "i386") || str_eq(a.as_str(), "i686") {
        owned("32bit")
    } else {
        owned("64bit")
    }
}

/// The windowed interpreter beside an interpreter path: `python.exe` becomes `pythonw.exe`,
/// a trailing `/python` or `\python` becomes `pythonw` (suffixes matched ignoring ASCII case);
/// any other path is kept.
pub open spec fn windowed_of(p: Seq<char>) -> Seq<char> {
    let low = lower_seq(p);
    if ends_with(low, "python.exe"@) {
        p.take(p.len() - 10) + "pythonw.exe"@
    } else if ends_with(low, "/python"@) || ends_with(low, "\\python"@) {
        p.take(p.len() - 6) + "pythonw"@
    } else {
        p
    }
}

/// The windowed interpreter for an interpreter path.
pub fn windowed_executable_path(python_executable: &str) -> (r: String)
    ensures
        r@ == windowed_of(python_executable@),
{
    proof {
        reveal_strlit("python.exe");
        reveal_strlit("/python");
        reveal_strlit("\\python");
    }
    let low = lower_str(python_executable);
    let v = chars_of(python_executable);
    assert(low@.len() == v@.len());
    if ends_with_str(low.as_str(), "python.exe") {
        let head = string_from(&v, 0, v.len() - 10);
        assert(head@ =~= python_executable@.take(python_executable@.len() - 10));
        cat(head.as_str(), "pythonw.exe")
    } else if ends_with_str(low.as_str(), "/python") || ends_with_str(low.as_str(), "\\python") {
        let head = string_from(&v, 0, v.len() - 6);
        assert(head@ =~= python_executable@.take(python_executable@.len() - 6));
        cat(head.as_str(), "pythonw")
    } else {
        owned(python_executable)
    }
}

/// The entry of a runtime: tag is the trimmed version.
pub open spec fn spec_from_paths(s: Pep514Spec, version: Seq<char>, arch: Seq<char>, dir: Seq<char>, exe: Seq<char>) -> bool {
    let tag = trim(version);
    &&& s.company@ == company()
    &&& s.tag@ == tag
    &&& s.display_name@ == "Python "@ + tag + " (pyenv-native)"@
    &&& s.support_url@ == "https://github.com/imyourboyroy/pyenv-native"@
    &&& s.version@ == tag
    &&& s.sys_version@ == sys_version_of(tag)
    &&& s.sys_architecture@ == sys_architecture_of(arch)
    &&& s.install_dir@ == dir
    &&& s.executable@ == exe
    &&& s.windowed_executable@ == windowed_of(exe)
}

/// The registry entry for an installed runtime.
pub fn from_install_paths(resolved_version: &str, architecture: &str, install_dir: &str, python_executable: &str) -> (r: Pep514Spec)
    ensures
        spec_from_paths(r, resolved_version@, architecture@, install_dir@, python_executable@),
{
    let tag = trim_str(resolved_version);
    let sys_version = sys_version_from_tag(tag.as_str());
    let display_name = cat3("Python ", tag.as_str(), " (pyenv-native)");
    Pep514Spec {
        company: owned("PyenvNative"),
        tag: tag.clone(),
        display_name,
        support_url: owned("https://github.com/imyourboyroy/pyenv-native"),
        version: tag,
        sys_version,
        sys_architecture: pep514_sys_architecture(architecture),
        install_dir: owned(install_dir),
        executable: owned(python_executable),
        windowed_executable: windowed_executable_path(python_executable),
    }
}

/// `Software\Python\<company>\<tag>`.
pub open spec fn key_path_of(company: Seq<char>, tag: Seq<char>) -> Seq<char> {
    "Software\\Python\\"@ + company + "\\"@ + tag
}

impl Pep514Spec {
    /// The registry entry of an install plan.
    pub fn from_plan(plan: &InstallPlan) -> (r: Pep514Spec)
        ensures
            spec_from_paths(r, plan.resolved_version@, plan.architecture@, plan.install_dir@, plan.python_executable@),
    {
        from_install_paths(
            plan.resolved_version.as_str(),
            plan.architecture.as_str(),
            plan.install_dir.as_str(),
            plan.python_executable.as_str(),
        )
    }

    /// The key under `HKEY_CURRENT_USER` the entry is written to.
    pub fn key_path(&self) -> (r: String)
        ensures
            r@ == key_path_of(self.company@, self.tag@),
    {
        let a = cat3("Software\\Python\\", self.company.as_str(), "\\");
        cat(a.as_str(), self.tag.as_str())
    }
}

/// What registering an installed runtime amounts to.
pub enum Registration {
    /// Nothing is written; the message says why.
    Skipped(String),
    /// Write the entry; report the message once written.
    Write(Pep514Spec, String),
}

/// Registers a runtime when PEP-514 mode is on and the tool runs on Windows.
pub fn apply_pep514_registration(ctx: &AppContext, plan: &InstallPlan) -> (r: Registration)
    ensures
        !ctx.config.pep514_registry ==> (r matches Registration::Skipped(m) && m@ == "PEP-514 registration skipped (windows.registry_mode=disabled)"@),
        ctx.config.pep514_registry && !ctx.windows ==> (r matches Registration::Skipped(m) && m@ == "PEP-514 registration skipped (Windows-only)"@),
        ctx.config.pep514_registry && ctx.windows ==> (r matches Registration::Write(s, m)
            && spec_from_paths(s, plan.resolved_version@, plan.architecture@, plan.install_dir@, plan.python_executable@)
            && m@ == "registered PEP-514 interpreter at HKCU\\"@ + key_path_of(s.company@, s.tag@)),
{
    if !ctx.config.pep514_registry {
        return Registration::Skipped(owned("PEP-514 registration skipped (windows.registry_mode=disabled)"));
    }
    if !ctx.windows {
        return Registration::Skipped(owned("PEP-514 registration skipped (Windows-only)"));
    }
    let spec = Pep514Spec::from_plan(plan);
    let key = spec.key_path();
    let msg = cat("registered PEP-514 interpreter at HKCU\\", key.as_str());
    Registration::Write(spec, msg)
}

/// The key to delete when a runtime is removed: none for a blank version.
pub fn remove_pep514_registration(version: &str) -> (r: Option<String>)
    ensures
        trim(version@).len() == 0 ==> r is None,
        trim(version@).len() > 0 ==> (r matches Some(k) && k@ == key_path_of(company(), trim(version@))),
{
    let tag = trim_str(version);
    if tag.as_str().is_empty() {
        return None;
    }
    let a = cat3("Software\\Python\\", "PyenvNative", "\\");
    Some(cat(a.as_str(), tag.as_str()))
}

/// One registry value: (key below `HKEY_CURRENT_USER`, value name, data).
pub open spec fn value_view(v: (String, String, String)) -> (Seq<char>, Seq<char>, Seq<char>) {
    (v.0@, v.1@, v.2@)
}

/// The values a registration writes, in order: the entry's descriptive values on its key, then
/// the install directory (as the default value), the interpreter and the windowed interpreter
/// on its `InstallPath` subkey.
pub open spec fn pep514_values_of(s: Pep514Spec) -> Seq<(Seq<char>, Seq<char>, Seq<char>)> {
    let key = key_path_of(s.company@, s.tag@);
    let install = key + "\\InstallPath"@;
    seq![
        (key, "DisplayName"@, s.display_name@),
        (key, "SupportUrl"@, s.support_url@),
        (key, "Version"@, s.version@),
        (key, "SysVersion"@, s.sys_version@),
        (key, "SysArchitecture"@, s.sys_architecture@),
        (install, ""@, s.install_dir@),
        (install, "ExecutablePath"@, s.executable@),
        (install, "WindowedExecutablePath"@, s.windowed_executable@),
    ]
}

/// The registry values to write for an entry.
pub fn pep514_values(spec: &Pep514Spec) -> (r: Vec<(String, String, String)>)
    ensures
        r@.map_values(|v: (String, String, String)| value_view(v)) == pep514_values_of(*spec),
{
    let key = spec.key_path();
    let install = cat(key.as_str(), "\\InstallPath");
    let mut v: Vec<(String, String, String)> = Vec::new();
    v.push((owned(key.as_str()), owned("DisplayName"), owned(spec.display_name.as_str())));
    v.push((owned(key.as_str()), owned("SupportUrl"), owned(spec.support_url.as_str())));
    v.push((owned(key.as_str()), owned("Version"), owned(spec.version.as_str())));
    v.push((owned(key.as_str()), owned("SysVersion"), owned(spec.sys_version.as_str())));
    v.push((owned(key.as_str()), owned("SysArchitecture"), owned(spec.sys_architecture.as_str())));
    v.push((owned(install.as_str()), owned(""), owned(spec.install_dir.as_str())));
    v.push((owned(install.as_str()), owned("ExecutablePath"), owned(spec.executable.as_str())));
    v.push((install, owned("WindowedExecutablePath"), owned(spec.windowed_executable.as_str())));
    assert(v@.map_values(|x: (String, String, String)| value_view(x)) =~= pep514_values_of(*spec));
    v
}

/// Each registry value carries the field it is named after: the entry key holds the display
/// name, support URL, version, system version and architecture; its `InstallPath` subkey holds
/// the install directory as its default value, the interpreter as `ExecutablePath` and the
/// windowed interpreter as `WindowedExecutablePath`. Every one of the eight names is written.
pub proof fn law_pep514_values_named(s: Pep514Spec)
    ensures
        ({
            let vals = pep514_values_of(s);
            let key = key_path_of(s.company@, s.tag@);
            let install = key + "\\InstallPath"@;
            &&& vals.len() == 8
            &&& forall|k: int| 0 <= k < vals.len() ==> {
                let (path, name, value) = #[trigger] vals[k];
                &&& name == "DisplayName"@ ==> path == key && value == s.display_name@
                &&& name == "SupportUrl"@ ==> path == key && value == s.support_url@
                &&& name == "Version"@ ==> path == key && value == s.version@
                &&& name == "SysVersion"@ ==> path == key && value == s.sys_version@
                &&& name == "SysArchitecture"@ ==> path == key && value == s.sys_architecture@
                &&& name == ""@ ==> path == install && value == s.install_dir@
                &&& name == "ExecutablePath"@ ==> path == install && value == s.executable@
                &&& name == "WindowedExecutablePath"@ ==> path == install && value == s.windowed_executable@
            }
            &&& exists|k: int| 0 <= k < vals.len() && (#[trigger] vals[k]).1 == "WindowedExecutablePath"@
            &&& exists|k: int| 0 <= k < vals.len() && (#[trigger] vals[k]).1 == "ExecutablePath"@
        }),
{
    reveal_strlit("DisplayName");
    reveal_strlit("SupportUrl");
    reveal_strlit("Version");
    reveal_strlit("SysVersion");
    reveal_strlit("SysArchitecture");
    reveal_strlit("");
    reveal_strlit("ExecutablePath");
    reveal_strlit("WindowedExecutablePath");
    reveal_strlit("\\InstallPath");
    let vals = pep514_values_of(s);
    let names = seq![
        "DisplayName"@, "SupportUrl"@, "Version"@, "SysVersion"@, "SysArchitecture"@, ""@, "ExecutablePath"@,
        "WindowedExecutablePath"@,
    ];
    assert(forall|k: int| 0 <= k < 8 ==> vals[k].1 == names[k]);
    assert("SupportUrl"@[1] != "SysVersion"@[1]);
    assert("DisplayName"@.len() == 11 && "SupportUrl"@.len() == 10 && "Version"@.len() == 7 && "SysVersion"@.len() == 10);
    assert("SysArchitecture"@.len() == 15 && ""@.len() == 0 && "ExecutablePath"@.len() == 14);
    assert("WindowedExecutablePath"@.len() == 22);
    assert(forall|i: int, j: int| 0 <= i < 8 && 0 <= j < 8 && i != j ==> names[i] != names[j]) by {
        assert forall|i: int, j: int| 0 <= i < 8 && 0 <= j < 8 && i != j implies names[i] != names[j] by {
            if (i == 1 && j == 3) || (i == 3 && j == 1) {
                assert(names[i][1] != names[j][1]);
            } else {
                assert(names[i].len() != names[j].len());
            }
        }
    }
    assert(vals[6].1 == "ExecutablePath"@);
    assert(vals[7].1 == "WindowedExecutablePath"@);
}

/// The windowed interpreter beside `python.exe` is `pythonw.exe` in the same directory.
pub proof fn law_windowed_beside_python_exe(dir: Seq<char>)
    ensures
        windowed_of(dir + "python.exe"@) == dir + "pythonw.exe"@,
        windowed_of(dir + "\\python.exe"@) == dir + "\\pythonw.exe"@,
{
    reveal_strlit("python.exe");
    reveal_strlit("pythonw.exe");
    reveal_strlit("\\python.exe");
    reveal_strlit("\\pythonw.exe");
    reveal_strlit("\\");
    let p = dir + "python.exe"@;
    let low = lower_seq(p);
    assert(low.skip(low.len() - 10) =~= "python.exe"@);
    assert(p.take(p.len() - 10) =~= dir);
    let q = dir + "\\python.exe"@;
    let lq = lower_seq(q);
    assert(lq.skip(lq.len() - 10) =~= "python.exe"@);
    assert(q.take(q.len() - 10) =~= dir + "\\"@);
    assert(dir + "\\"@ + "pythonw.exe"@ =~= dir + "\\pythonw.exe"@);
}

/// The entry of a runtime installed with `<dir>python.exe` lists that interpreter as its
/// executable and `<dir>pythonw.exe` as its windowed one, under the trimmed version as tag.
pub proof fn law_pep514_entry_interpreters(s: Pep514Spec, version: Seq<char>, arch: Seq<char>, install: Seq<char>, exe_dir: Seq<char>)
    requires
        spec_from_paths(s, version, arch, install, exe_dir + "python.exe"@),
    ensures
        s.executable@ == exe_dir + "python.exe"@,
        s.windowed_executable@ == exe_dir + "pythonw.exe"@,
        s.install_dir@ == install,
        s.tag@ == trim(version),
        s.version@ == trim(version),
{
    law_windowed_beside_python_exe(exe_dir);
}

} // verus!

//! What the desktop app decides: which shell profiles it shows and whether each runs
//! `pyenv init`, the block it adds to a profile, whether the install is complete, where the
//! bundled installer script is, and which cache directory a purge may touch.
use vstd::prelude::*;

use crate::context::{join_path, join_path_str, AppContext, FsSnapshot};
use crate::shim::paths::{components, normal_parts_of, paths_equal, same_path, split_path_value, split_paths};
use crate::strings::{cat, cat3, cat5, contains_seq, contains_str, join, join_strings, lines, owned, str_eq};
use crate::text::{append_text_block, appended, configured};
use crate::version::files::{parent, parent_path};

verus! {

broadcast use vstd::string::group_string_axioms;

/// The operating system the desktop app runs on.
#[derive(Clone, Copy, PartialEq, Eq, Structural)]
pub enum HostOs {
    Windows,
    Macos,
    Linux,
    /// Every other Unix.
    Other,
}

/// The badge for a shell's `PATH` state.
pub open spec fn path_label(is_configured: bool, shims_in_path: bool) -> Seq<char> {
    if shims_in_path {
        "PATH Active"@
    } else if is_configured {
        "Restart terminal to activate"@
    } else {
        "Shims not on PATH"@
    }
}

/// The badge for a shell's `PATH` state.
pub fn shell_path_label(is_configured: bool, shims_in_path: bool) -> (r: String)
    ensures
        r@ == path_label(is_configured, shims_in_path),
{
    if shims_in_path {
        owned("PATH Active")
    } else if is_configured {
        owned("Restart terminal to activate")
    } else {
        owned("Shims not on PATH")
    }
}

/// Some entry of the `PATH` value names `target`.
pub open spec fn path_lists(path_env: Seq<char>, target: Seq<char>, windows: bool) -> bool {
    exists|i: int| 0 <= i < split_paths(path_env, windows).len() && #[trigger] same_path(split_paths(path_env, windows)[i], target, windows)
}

/// Whether the `PATH` value lists `target`.
pub fn path_has_entry(path_env: &str, target: &str, windows: bool) -> (r: bool)
    ensures
        r == path_lists(path_env@, target@, windows),
{
    let entries = split_path_value(path_env, windows);
    let mut i: usize = 0;
    while i < entries.len()
        invariant
            i <= entries@.len(),
            lines(entries@) == split_paths(path_env@, windows),
            forall|j: int| 0 <= j < i ==> !#[trigger] same_path(split_paths(path_env@, windows)[j], target@, windows),
        decreases entries.len() - i,
    {
        assert(lines(entries@)[i as int] == entries@[i as int]@);
        if paths_equal(entries[i].as_str(), target, windows) {
            assert(same_path(split_paths(path_env@, windows)[i as int], target@, windows));
            return true;
        }
        i = i + 1;
    }
    false
}

/// A profile runs `pyenv init`: it is a file whose text mentions it.
pub open spec fn profile_configured(fs: FsSnapshot, p: Seq<char>) -> bool {
    match fs.file_text(p) {
        Some(t) => configured(t),
        None => false,
    }
}

fn profile_is_configured(fs: &FsSnapshot, p: &str) -> (r: bool)
    ensures
        r == profile_configured(*fs, p@),
{
    match fs.read_file(p) {
        Some(t) => contains_str(t.as_str(), "pyenv init"),
        None => false,
    }
}

/// `name` (and on Windows `name.exe`) is a file in some `PATH` directory.
pub open spec fn executable_on_path(fs: FsSnapshot, path_env: Seq<char>, windows: bool, name: Seq<char>) -> bool {
    exists|i: int| 0 <= i < split_paths(path_env, windows).len() && #[trigger] dir_has_exe(fs, split_paths(path_env, windows)[i], windows, name)
}

/// The directory holds the executable: `name.exe` or `name` on Windows, `name` elsewhere.
pub open spec fn dir_has_exe(fs: FsSnapshot, d: Seq<char>, windows: bool, name: Seq<char>) -> bool {
    if windows {
        fs.has_file(join_path(d, name + ".exe"@)) || fs.has_file(join_path(d, name))
    } else {
        fs.has_file(join_path(d, name))
    }
}

/// Whether `name` resolves on `PATH`.
pub fn is_executable_in_path(fs: &FsSnapshot, path_env: &str, windows: bool, name: &str) -> (r: bool)
    ensures
        r == executable_on_path(*fs, path_env@, windows, name@),
{
    let entries = split_path_value(path_env, windows);
    let exe = cat(name, ".exe");
    let mut i: usize = 0;
    while i < entries.len()
        invariant
            i <= entries@.len(),
            lines(entries@) == split_paths(path_env@, windows),
            exe@ == name@ + ".exe"@,
            forall|j: int| 0 <= j < i ==> !#[trigger] dir_has_exe(*fs, split_paths(path_env@, windows)[j], windows, name@),
        decreases entries.len() - i,
    {
        assert(lines(entries@)[i as int] == entries@[i as int]@);
        let d = entries[i].as_str();
        let hit = if windows {
            let a = join_path_str(d, exe.as_str());
            let b = join_path_str(d, name);
            fs.is_file(a.as_str()) || fs.is_file(b.as_str())
        } else {
            let a = join_path_str(d, name);
            fs.is_file(a.as_str())
        };
        if hit {
            assert(dir_has_exe(*fs, split_paths(path_env@, windows)[i as int], windows, name@));
            return true;
        }
        i = i + 1;
    }
    false
}

/// A shell as the desktop app shows it.
pub struct ShellStatus {
    pub name: String,
    pub profile_path: String,
    pub is_configured: bool,
    pub active_in_path: bool,
    pub is_installed: bool,
    pub path_label: String,
}

/// The shells shown: (name, profile path, installed) in order; PowerShell 7 always, Windows
/// PowerShell on Windows, then Zsh (taken as installed on macOS), Bash (taken as installed on
/// Linux and macOS) and Fish; every other shell is looked up on `PATH`.
pub open spec fn shell_rows(fs: FsSnapshot, home: Seq<char>, path_env: Seq<char>, os: HostOs) -> Seq<(Seq<char>, Seq<char>, bool)> {
    let win = os == HostOs::Windows;
    let pwsh = if win {
        join_path(join_path(join_path(home, "Documents"@), "PowerShell"@), "Microsoft.PowerShell_profile.ps1"@)
    } else {
        join_path(join_path(join_path(home, ".config"@), "powershell"@), "Microsoft.PowerShell_profile.ps1"@)
    };
    seq![("PowerShell 7 (pwsh)"@, pwsh, executable_on_path(fs, path_env, win, "pwsh"@))] + (if win {
        seq![(
            "Windows PowerShell 5.1"@,
            join_path(join_path(join_path(home, "Documents"@), "WindowsPowerShell"@), "Microsoft.PowerShell_profile.ps1"@),
            true,
        )]
    } else {
        seq![]
    }) + seq![
        ("Zsh"@, join_path(home, ".zshrc"@), if os == HostOs::Macos { true } else { executable_on_path(fs, path_env, win, "zsh"@) }),
        ("Bash"@, join_path(home, ".bashrc"@), if os == HostOs::Linux || os == HostOs::Macos { true } else { executable_on_path(fs, path_env, win, "bash"@) }),
        ("Fish"@, join_path(join_path(join_path(home, ".config"@), "fish"@), "config.fish"@), executable_on_path(fs, path_env, win, "fish"@)),
    ]
}

/// A shown shell as (name, profile, configured, active, installed, label).
pub open spec fn status_view(s: ShellStatus) -> (Seq<char>, Seq<char>, bool, bool, bool, Seq<char>) {
    (s.name@, s.profile_path@, s.is_configured, s.active_in_path, s.is_installed, s.path_label@)
}

/// The status of one shown shell.
pub open spec fn shell_status_of(fs: FsSnapshot, row: (Seq<char>, Seq<char>, bool), shims_in_path: bool) -> (Seq<char>, Seq<char>, bool, bool, bool, Seq<char>) {
    let c = profile_configured(fs, row.1);
    (row.0, row.1, c, shims_in_path, row.2, path_label(c, shims_in_path))
}

fn shell_status(fs: &FsSnapshot, name: &str, profile: String, installed: bool, shims_in_path: bool) -> (r: ShellStatus)
    ensures
        status_view(r) == shell_status_of(*fs, (name@, profile@, installed), shims_in_path),
{
    let c = profile_is_configured(fs, profile.as_str());
    ShellStatus {
        name: owned(name),
        profile_path: profile,
        is_configured: c,
        active_in_path: shims_in_path,
        is_installed: installed,
        path_label: shell_path_label(c, shims_in_path),
    }
}

fn join3(a: &str, b: &str, c: &str, d: &str) -> (r: String)
    ensures
        r@ == join_path(join_path(join_path(a@, b@), c@), d@),
{
    let x = join_path_str(a, b);
    let y = join_path_str(x.as_str(), c);
    join_path_str(y.as_str(), d)
}

/// The shells the desktop app shows, each with its profile, whether the profile runs
/// `pyenv init`, whether the shims are on `PATH`, whether the shell is installed, and the badge.
pub fn get_shell_statuses(ctx: &AppContext, home: &str, path_env: &str, os: HostOs) -> (r: Vec<ShellStatus>)
    ensures
        r@.map_values(|s: ShellStatus| status_view(s)) == shell_rows(ctx.fs, home@, path_env@, os).map_values(
            |row: (Seq<char>, Seq<char>, bool)| shell_status_of(ctx.fs, row, path_lists(path_env@, ctx.shims_dir_spec(), os == HostOs::Windows))),
{
    let win = os == HostOs::Windows;
    let shims = ctx.shims_dir();
    let active = path_has_entry(path_env, shims.as_str(), win);
    let fs = &ctx.fs;
    let mut out: Vec<ShellStatus> = Vec::new();
    let pwsh = if win {
        join3(home, "Documents", "PowerShell", "Microsoft.PowerShell_profile.ps1")
    } else {
        join3(home, ".config", "powershell", "Microsoft.PowerShell_profile.ps1")
    };
    out.push(shell_status(fs, "PowerShell 7 (pwsh)", pwsh, is_executable_in_path(fs, path_env, win, "pwsh"), active));
    if win {
        let p = join3(home, "Documents", "WindowsPowerShell", "Microsoft.PowerShell_profile.ps1");
        out.push(shell_status(fs, "Windows PowerShell 5.1", p, true, active));
    }
    let zsh_installed = if os == HostOs::Macos { true } else { is_executable_in_path(fs, path_env, win, "zsh") };
    out.push(shell_status(fs, "Zsh", join_path_str(home, ".zshrc"), zsh_installed, active));
    let bash_installed = if os == HostOs::Linux || os == HostOs::Macos { true } else { is_executable_in_path(fs, path_env, win, "bash") };
    out.push(shell_status(fs, "Bash", join_path_str(home, ".bashrc"), bash_installed, active));
    out.push(shell_status(fs, "Fish", join3(home, ".config", "fish", "config.fish"), is_executable_in_path(fs, path_env, win, "fish"), active));
    assert(out@.map_values(|s: ShellStatus| status_view(s)) =~= shell_rows(ctx.fs, home@, path_env@, os).map_values(
        |row: (Seq<char>, Seq<char>, bool)| shell_status_of(ctx.fs, row, path_lists(path_env@, ctx.shims_dir_spec(), win))));
    out
}

/// The block that makes a shell run `pyenv init`, by the shell's name.
pub open spec fn init_block_for(shell_name: Seq<char>) -> Option<Seq<char>> {
    if contains_seq(shell_name, "PowerShell"@) {
        Some("\n# pyenv-native shell initialization\niex ((pyenv init - pwsh) -join \"`n\")\n"@)
    } else if contains_seq(shell_name, "Zsh"@) {
        Some("\n# pyenv-native shell initialization\neval \"$(pyenv init - zsh)\"\n"@)
    } else if contains_seq(shell_name, "Bash"@) {
        Some("\n# pyenv-native shell initialization\neval \"$(pyenv init - bash)\"\n"@)
    } else if contains_seq(shell_name, "Fish"@) {
        Some("\n# pyenv-native shell initialization\npyenv init - fish | source\n"@)
    } else {
        None
    }
}

/// The block for a shell, or the error for a shell that cannot be set up.
pub fn shell_init_block(shell_name: &str) -> (r: Result<&'static str, String>)
    ensures
        match init_block_for(shell_name@) {
            Some(b) => r matches Ok(x) && x@ == b,
            None => r matches Err(e) && e@ == "Unsupported shell for automatic configuration: "@ + shell_name@,
        },
{
    if contains_str(shell_name, "PowerShell") {
        Ok("\n# pyenv-native shell initialization\niex ((pyenv init - pwsh) -join \"`n\")\n")
    } else if contains_str(shell_name, "Zsh") {
        Ok("\n# pyenv-native shell initialization\neval \"$(pyenv init - zsh)\"\n")
    } else if contains_str(shell_name, "Bash") {
        Ok("\n# pyenv-native shell initialization\neval \"$(pyenv init - bash)\"\n")
    } else if contains_str(shell_name, "Fish") {
        Ok("\n# pyenv-native shell initialization\npyenv init - fish | source\n")
    } else {
        Err(cat("Unsupported shell for automatic configuration: ", shell_name))
    }
}

/// Setting up a profile: nothing to do when it already runs `pyenv init` (`Ok(None)`), the new
/// text with the shell's block appended, or the error for an unknown shell.
pub fn configure_shell(content: &str, shell_name: &str) -> (r: Result<Option<String>, String>)
    ensures
        configured(content@) ==> r matches Ok(None),
        !configured(content@) ==> match init_block_for(shell_name@) {
            Some(b) => r matches Ok(Some(t)) && t@ == appended(content@, b),
            None => r matches Err(e) && e@ == "Unsupported shell for automatic configuration: "@ + shell_name@,
        },
{
    if contains_str(content, "pyenv init") {
        return Ok(None);
    }
    match shell_init_block(shell_name) {
        Ok(b) => Ok(Some(append_text_block(owned(content), b))),
        Err(e) => Err(e),
    }
}

/// The shells set up after an install: (name, profile, present) for Windows, else Bash, Zsh
/// (when installed) and Fish (when installed).
pub open spec fn finalize_rows(fs: FsSnapshot, home: Seq<char>, path_env: Seq<char>, windows: bool) -> Seq<(Seq<char>, Seq<char>, bool)> {
    if windows {
        seq![
            ("PowerShell 7 (pwsh)"@, join_path(join_path(join_path(home, "Documents"@), "PowerShell"@), "Microsoft.PowerShell_profile.ps1"@), true),
            ("Windows PowerShell 5.1"@, join_path(join_path(join_path(home, "Documents"@), "WindowsPowerShell"@), "Microsoft.PowerShell_profile.ps1"@), true),
        ]
    } else {
        seq![
            ("Bash"@, join_path(home, ".bashrc"@), true),
            ("Zsh"@, join_path(home, ".zshrc"@), executable_on_path(fs, path_env, false, "zsh"@)),
            ("Fish"@, join_path(join_path(join_path(home, ".config"@), "fish"@), "config.fish"@), executable_on_path(fs, path_env, false, "fish"@)),
        ]
    }
}

/// The (name, profile) of each row whose shell is present and whose profile does not run
/// `pyenv init` yet, in order.
pub open spec fn to_configure(fs: FsSnapshot, rows: Seq<(Seq<char>, Seq<char>, bool)>) -> Seq<(Seq<char>, Seq<char>)>
    decreases rows.len(),
{
    if rows.len() == 0 {
        seq![]
    } else {
        let r = to_configure(fs, rows.drop_last());
        let x = rows.last();
        if x.2 && !profile_configured(fs, x.1) {
            r.push((x.0, x.1))
        } else {
            r
        }
    }
}

/// The shells whose profiles an install sets up: present and not yet running `pyenv init`.
pub fn shells_to_configure(ctx: &AppContext, home: &str, path_env: &str, windows: bool) -> (r: Vec<(String, String)>)
    ensures
        r@.map_values(|p: (String, String)| (p.0@, p.1@)) == to_configure(ctx.fs, finalize_rows(ctx.fs, home@, path_env@, windows)),
{
    let fs = &ctx.fs;
    let mut rows: Vec<(String, String, bool)> = Vec::new();
    if windows {
        rows.push((owned("PowerShell 7 (pwsh)"), join3(home, "Documents", "PowerShell", "Microsoft.PowerShell_profile.ps1"), true));
        rows.push((owned("Windows PowerShell 5.1"), join3(home, "Documents", "WindowsPowerShell", "Microsoft.PowerShell_profile.ps1"), true));
    } else {
        rows.push((owned("Bash"), join_path_str(home, ".bashrc"), true));
        rows.push((owned("Zsh"), join_path_str(home, ".zshrc"), is_executable_in_path(fs, path_env, false, "zsh")));
        rows.push((owned("Fish"), join3(home, ".config", "fish", "config.fish"), is_executable_in_path(fs, path_env, false, "fish")));
    }
    let ghost rs = rows@.map_values(|t: (String, String, bool)| (t.0@, t.1@, t.2));
    assert(rs =~= finalize_rows(ctx.fs, home@, path_env@, windows));
    let mut out: Vec<(String, String)> = Vec::new();
    let mut i: usize = 0;
    while i < rows.len()
        invariant
            i <= rows@.len(),
            rs == rows@.map_values(|t: (String, String, bool)| (t.0@, t.1@, t.2)),
            out@.map_values(|p: (String, String)| (p.0@, p.1@)) == to_configure(ctx.fs, rs.take(i as int)),
        decreases rows.len() - i,
    {
        let ghost before = out@.map_values(|p: (String, String)| (p.0@, p.1@));
        assert(rs.take(i + 1).drop_last() =~= rs.take(i as int));
        assert(rs.take(i + 1).last() == rs[i as int]);
        assert(rs[i as int] == (rows@[i as int].0@, rows@[i as int].1@, rows@[i as int].2));
        if rows[i].2 && !profile_is_configured(&ctx.fs, rows[i].1.as_str()) {
            out.push((owned(rows[i].0.as_str()), owned(rows[i].1.as_str())));
            assert(out@.map_values(|p: (String, String)| (p.0@, p.1@)) =~= before.push((rs[i as int].0, rs[i as int].1)));
        }
        i = i + 1;
    }
    assert(rs.take(rows@.len() as int) =~= rs);
    out
}

/// The summary after an install is finalised.
pub open spec fn finalize_text(root: Seq<char>, configured_names: Seq<Seq<char>>) -> Seq<char> {
    "Core binaries are ready under "@ + root + "."@ + "\n"@ + "Shim directory refreshed."@ + "\n"@ + if configured_names.len() == 0 {
        "Shell profiles already include pyenv init. Open a new terminal so shims appear on PATH."@
    } else {
        "Configured shell profile(s): "@ + join(configured_names, ", "@) + ". Open a new terminal to activate shims."@
    }
}

/// The summary after an install is finalised, naming the shells whose profiles were set up.
pub fn finalize_summary(root: &str, configured_names: &Vec<String>) -> (r: String)
    ensures
        r@ == finalize_text(root@, lines(configured_names@)),
{
    let head = cat3("Core binaries are ready under ", root, ".\nShim directory refreshed.\n");
    proof {
        reveal_strlit("\n");
        reveal_strlit(".\nShim directory refreshed.\n");
        reveal_strlit(".");
        reveal_strlit("Shim directory refreshed.");
    }
    assert(head@ =~= "Core binaries are ready under "@ + root@ + "."@ + "\n"@ + "Shim directory refreshed."@ + "\n"@);
    if configured_names.len() == 0 {
        cat(head.as_str(), "Shell profiles already include pyenv init. Open a new terminal so shims appear on PATH.")
    } else {
        let names = join_strings(configured_names, ", ");
        let tail = cat3("Configured shell profile(s): ", names.as_str(), ". Open a new terminal to activate shims.");
        cat(head.as_str(), tail.as_str())
    }
}

/// What the desktop app reports about the install.
pub struct InstallStatus {
    pub is_installed: bool,
    pub root: Option<String>,
    pub is_portable: bool,
    pub cli_on_path: bool,
    pub needs_shell_setup: bool,
    pub platform: String,
}

/// What was found about the install.
pub struct InstallProbe {
    /// The root of the managed install, when the context could be built.
    pub root: Option<String>,
    /// `<root>/bin/pyenv` (or `pyenv.exe`) is a file.
    pub managed_binaries: bool,
    /// `pyenv` sits beside the desktop app.
    pub is_portable: bool,
    /// The directory of the desktop app.
    pub exe_dir: String,
    pub cli_on_path: bool,
    /// The shims directory is on `PATH`.
    pub shims_active: bool,
    /// Some shell profile runs `pyenv init`.
    pub profile_ok: bool,
    pub os: HostOs,
}

/// The platform name reported.
pub open spec fn platform_name(os: HostOs) -> Seq<char> {
    match os {
        HostOs::Windows => "windows"@,
        HostOs::Macos => "macos"@,
        HostOs::Linux => "linux"@,
        HostOs::Other => "linux"@,
    }
}

/// The install state: installed when the managed binaries or a portable copy exist, and shell
/// setup needed while profiles or `PATH` do not pick the shims up.
pub fn check_install_status(p: &InstallProbe) -> (r: InstallStatus)
    ensures
        r.platform@ == platform_name(p.os),
        r.is_portable == p.is_portable,
        r.cli_on_path == p.cli_on_path,
        match p.root {
            Some(root) => {
                &&& r.is_installed == (p.managed_binaries || p.is_portable)
                &&& r.root matches Some(x) && x@ == root@
                &&& r.needs_shell_setup == ((p.managed_binaries || p.is_portable) && (!p.profile_ok || !p.shims_active))
            },
            None => {
                &&& r.is_installed == (p.is_portable || p.cli_on_path)
                &&& (if p.is_portable { r.root matches Some(x) && x@ == p.exe_dir@ } else { r.root is None })
                &&& r.needs_shell_setup == p.is_portable
            },
        },
{
    let platform = match p.os {
        HostOs::Windows => owned("windows"),
        HostOs::Macos => owned("macos"),
        HostOs::Linux => owned("linux"),
        HostOs::Other => owned("linux"),
    };
    match &p.root {
        Some(root) => {
            let binaries = p.managed_binaries || p.is_portable;
            InstallStatus {
                is_installed: binaries,
                root: Some(owned(root.as_str())),
                is_portable: p.is_portable,
                cli_on_path: p.cli_on_path,
                needs_shell_setup: binaries && (!p.profile_ok || !p.shims_active),
                platform,
            }
        },
        None => InstallStatus {
            is_installed: p.is_portable || p.cli_on_path,
            root: if p.is_portable { Some(owned(p.exe_dir.as_str())) } else { None },
            is_portable: p.is_portable,
            cli_on_path: p.cli_on_path,
            needs_shell_setup: p.is_portable,
            platform,
        },
    }
}

/// The first of `names` that is a file in `d`.
pub open spec fn first_named(fs: FsSnapshot, d: Seq<char>, names: Seq<Seq<char>>) -> Option<Seq<char>>
    decreases names.len(),
{
    if names.len() == 0 {
        None
    } else if fs.has_file(join_path(d, names[0])) {
        Some(join_path(d, names[0]))
    } else {
        first_named(fs, d, names.drop_first())
    }
}

/// The installer script: in `dir` or its parent, then one level up, for at most `steps` levels.
pub open spec fn installer_search(fs: FsSnapshot, dir: Seq<char>, names: Seq<Seq<char>>, steps: nat) -> Option<Seq<char>>
    decreases steps,
{
    if steps == 0 {
        None
    } else {
        match first_named(fs, dir, names) {
            Some(p) => Some(p),
            None => match parent(dir) {
                Some(up) => match first_named(fs, up, names) {
                    Some(p) => Some(p),
                    None => installer_search(fs, up, names, (steps - 1) as nat),
                },
                None => None,
            },
        }
    }
}

fn first_named_in(fs: &FsSnapshot, d: &str, names: &Vec<String>) -> (r: Option<String>)
    ensures
        match r {
            Some(p) => first_named(*fs, d@, lines(names@)) == Some(p@),
            None => first_named(*fs, d@, lines(names@)) is None,
        },
{
    let mut i: usize = 0;
    assert(lines(names@).skip(0) =~= lines(names@));
    while i < names.len()
        invariant
            i <= names@.len(),
            first_named(*fs, d@, lines(names@)) == first_named(*fs, d@, lines(names@).skip(i as int)),
        decreases names.len() - i,
    {
        assert(lines(names@).skip(i as int)[0] == names@[i as int]@);
        assert(lines(names@).skip(i as int).drop_first() =~= lines(names@).skip(i + 1));
        let p = join_path_str(d, names[i].as_str());
        if fs.is_file(p.as_str()) {
            return Some(p);
        }
        i = i + 1;
    }
    assert(lines(names@).skip(i as int) =~= Seq::<Seq<char>>::empty());
    None
}

/// Looks for the bundled installer script from the desktop app's directory upwards, at most
/// eight levels.
pub fn find_installer_script(fs: &FsSnapshot, dir: &str, names: &Vec<String>) -> (r: Option<String>)
    ensures
        match r {
            Some(p) => installer_search(*fs, dir@, lines(names@), 8) == Some(p@),
            None => installer_search(*fs, dir@, lines(names@), 8) is None,
        },
{
    let mut curr = owned(dir);
    let mut k: u64 = 8;
    while k > 0
        invariant
            k <= 8,
            installer_search(*fs, dir@, lines(names@), 8) == installer_search(*fs, curr@, lines(names@), k as nat),
        decreases k,
    {
        match first_named_in(fs, curr.as_str(), names) {
            Some(p) => return Some(p),
            None => {},
        }
        match parent_path(curr.as_str()) {
            Some(up) => {
                match first_named_in(fs, up.as_str(), names) {
                    Some(p) => return Some(p),
                    None => {},
                }
                curr = up;
            },
            None => return None,
        }
        k = k - 1;
    }
    None
}

/// The names the installer script is looked up by.
pub open spec fn script_names(windows: bool) -> Seq<Seq<char>> {
    if windows {
        seq!["install-pyenv-native.ps1"@, "scripts/install-pyenv-native.ps1"@]
    } else {
        seq!["install-pyenv-native.sh"@, "scripts/install-pyenv-native.sh"@]
    }
}

/// The names the installer script is looked up by.
pub fn installer_script_names(windows: bool) -> (r: Vec<String>)
    ensures
        lines(r@) == script_names(windows),
{
    let mut v: Vec<String> = Vec::new();
    if windows {
        v.push(owned("install-pyenv-native.ps1"));
        v.push(owned("scripts/install-pyenv-native.ps1"));
    } else {
        v.push(owned("install-pyenv-native.sh"));
        v.push(owned("scripts/install-pyenv-native.sh"));
    }
    assert(lines(v@) =~= script_names(windows));
    v
}

/// The error when the installer script is not found.
pub fn installer_missing_message(windows: bool) -> (r: &'static str)
    ensures
        r@ == (if windows {
            "Installer script not found. Your install is incomplete — re-run the network installer from https://github.com/ImYourBoyRoy/pyenv-native/releases/latest/download/install.ps1"@
        } else {
            "Installer script not found. Your install is incomplete — re-run:\ncurl -fsSL https://github.com/ImYourBoyRoy/pyenv-native/releases/latest/download/install.sh | sh"@
        }),
{
    if windows {
        "Installer script not found. Your install is incomplete — re-run the network installer from https://github.com/ImYourBoyRoy/pyenv-native/releases/latest/download/install.ps1"
    } else {
        "Installer script not found. Your install is incomplete — re-run:\ncurl -fsSL https://github.com/ImYourBoyRoy/pyenv-native/releases/latest/download/install.sh | sh"
    }
}

/// A path exists as a file or a directory.
pub open spec fn exists_at(fs: FsSnapshot, p: Seq<char>) -> bool {
    fs.has_file(p) || fs.has_dir(p)
}

/// A flag and the bundled binary it passes, when that binary is beside the desktop app.
pub open spec fn source_arg(fs: FsSnapshot, dir: Seq<char>, file: Seq<char>, flag: Seq<char>) -> Seq<Seq<char>> {
    if exists_at(fs, join_path(dir, file)) {
        seq![flag, join_path(dir, file)]
    } else {
        seq![]
    }
}

/// The arguments the installer script runs with: PowerShell's on Windows, `sh`'s elsewhere,
/// passing each bundled binary found beside the desktop app.
pub open spec fn installer_arg_list(fs: FsSnapshot, dir: Seq<char>, script: Seq<char>, windows: bool) -> Seq<Seq<char>> {
    if windows {
        seq!["-ExecutionPolicy"@, "Bypass"@, "-File"@, script, "-Yes"@]
            + source_arg(fs, dir, "pyenv.exe"@, "-SourcePath"@)
            + source_arg(fs, dir, "pyenv-mcp.exe"@, "-SourceMcpPath"@)
            + source_arg(fs, dir, "pyenv-gui.exe"@, "-SourceGuiPath"@)
    } else {
        seq![script, "--yes"@]
            + source_arg(fs, dir, "pyenv"@, "--source-path"@)
            + source_arg(fs, dir, "pyenv-mcp"@, "--source-mcp-path"@)
            + source_arg(fs, dir, "pyenv-gui"@, "--source-gui-path"@)
    }
}

fn push_source_arg(out: &mut Vec<String>, fs: &FsSnapshot, dir: &str, file: &str, flag: &str)
    ensures
        lines(final(out)@) == lines(old(out)@) + source_arg(*fs, dir@, file@, flag@),
{
    let ghost start = lines(out@);
    let p = join_path_str(dir, file);
    if fs.is_file(p.as_str()) || fs.is_dir(p.as_str()) {
        out.push(owned(flag));
        out.push(p);
    }
    assert(lines(out@) =~= start + source_arg(*fs, dir@, file@, flag@));
}

/// The arguments to run the installer script with.
pub fn installer_args(fs: &FsSnapshot, dir: &str, script: &str, windows: bool) -> (r: Vec<String>)
    ensures
        lines(r@) == installer_arg_list(*fs, dir@, script@, windows),
{
    let mut out: Vec<String> = Vec::new();
    if windows {
        out.push(owned("-ExecutionPolicy"));
        out.push(owned("Bypass"));
        out.push(owned("-File"));
        out.push(owned(script));
        out.push(owned("-Yes"));
        let ghost h = lines(out@);
        assert(h =~= seq!["-ExecutionPolicy"@, "Bypass"@, "-File"@, script@, "-Yes"@]);
        push_source_arg(&mut out, fs, dir, "pyenv.exe", "-SourcePath");
        push_source_arg(&mut out, fs, dir, "pyenv-mcp.exe", "-SourceMcpPath");
        push_source_arg(&mut out, fs, dir, "pyenv-gui.exe", "-SourceGuiPath");
    } else {
        out.push(owned(script));
        out.push(owned("--yes"));
        let ghost h = lines(out@);
        assert(h =~= seq![script@, "--yes"@]);
        push_source_arg(&mut out, fs, dir, "pyenv", "--source-path");
        push_source_arg(&mut out, fs, dir, "pyenv-mcp", "--source-mcp-path");
        push_source_arg(&mut out, fs, dir, "pyenv-gui", "--source-gui-path");
    }
    out
}

/// The cache directories a purge may name, with the directory of each.
pub open spec fn purge_path(cache_root: Seq<char>, target: Seq<char>) -> Option<Seq<char>> {
    if target == "packages"@ {
        Some(join_path(cache_root, "packages"@))
    } else if target == "python-build"@ {
        Some(join_path(cache_root, "python-build"@))
    } else if target == "metadata"@ {
        Some(join_path(cache_root, "metadata"@))
    } else if target == "all"@ {
        Some(cache_root)
    } else {
        None
    }
}

/// The directory a purge of `target` clears, or the error for an unknown target.
pub fn purge_target(cache_root: &str, target: &str) -> (r: Result<String, String>)
    ensures
        match purge_path(cache_root@, target@) {
            Some(p) => r matches Ok(x) && x@ == p,
            None => r matches Err(e) && e@ == "Unknown cache target `"@ + target@ + "`"@,
        },
{
    if str_eq(target, "packages") {
        Ok(join_path_str(cache_root, "packages"))
    } else if str_eq(target, "python-build") {
        Ok(join_path_str(cache_root, "python-build"))
    } else if str_eq(target, "metadata") {
        Ok(join_path_str(cache_root, "metadata"))
    } else if str_eq(target, "all") {
        Ok(owned(cache_root))
    } else {
        Err(cat3("Unknown cache target `", target, "`"))
    }
}

/// The total of the cache sizes, saturating at the largest `u64`.
pub open spec fn saturating_total(sizes: Seq<u64>) -> u64
    decreases sizes.len(),
{
    if sizes.len() == 0 {
        0
    } else {
        let t = saturating_total(sizes.drop_last()) as int + sizes.last() as int;
        if t > u64::MAX { u64::MAX } else { t as u64 }
    }
}

/// Adds up sizes, saturating at the largest `u64`.
pub fn total_bytes(sizes: &Vec<u64>) -> (r: u64)
    ensures
        r == saturating_total(sizes@),
{
    let mut t: u64 = 0;
    let mut i: usize = 0;
    while i < sizes.len()
        invariant
            i <= sizes@.len(),
            t == saturating_total(sizes@.take(i as int)),
        decreases sizes.len() - i,
    {
        assert(sizes@.take(i + 1).drop_last() =~= sizes@.take(i as int));
        t = t.saturating_add(sizes[i]);
        i = i + 1;
    }
    assert(sizes@.take(sizes@.len() as int) =~= sizes@);
    t
}

/// A POSIX path's components as texts: `/` for the root, `.` for a leading current
/// directory, then the named parts (which are never `/` or `.`).
pub open spec fn component_list(p: Seq<char>) -> Seq<Seq<char>> {
    let (rooted, cur, parts) = components(p);
    (if rooted {
        seq!["/"@]
    } else if cur {
        seq!["."@]
    } else {
        seq![]
    }) + parts
}

/// `Path::starts_with`: the components of `root` begin those of `path`.
pub open spec fn path_within(root: Seq<char>, path: Seq<char>) -> bool {
    let a = component_list(root);
    let b = component_list(path);
    a.len() <= b.len() && b.take(a.len() as int) == a
}

fn component_list_of(p: &str) -> (r: Vec<String>)
    ensures
        lines(r@) == component_list(p@),
{
    let (rooted, cur, parts) = normal_parts_of(p);
    let mut out: Vec<String> = Vec::new();
    proof {
        reveal_strlit("/");
        reveal_strlit(".");
    }
    if rooted {
        out.push(owned("/"));
    } else if cur {
        out.push(owned("."));
    }
    let ghost head = lines(out@);
    let mut i: usize = 0;
    while i < parts.len()
        invariant
            i <= parts@.len(),
            lines(out@) == head + lines(parts@).take(i as int),
        decreases parts.len() - i,
    {
        let ghost before = lines(out@);
        out.push(parts[i].clone());
        assert(lines(out@) =~= before.push(parts@[i as int]@));
        assert(lines(parts@).take(i + 1) =~= lines(parts@).take(i as int).push(parts@[i as int]@));
        i = i + 1;
    }
    assert(lines(parts@).take(parts@.len() as int) =~= lines(parts@));
    assert(lines(out@) =~= component_list(p@));
    out
}

/// The refusal for a purge that would leave the cache root.
pub open spec fn outside_root_text() -> Seq<char> {
    "Refusing to purge a path outside the pyenv cache root."@
}

/// Whether a purge of `path` (both paths resolved) stays inside the cache root: `Ok(true)` when
/// it is the root itself, whose entries are cleared one by one, `Ok(false)` for a directory or
/// file inside it, and the refusal otherwise.
pub fn purge_scope(cache_root: &str, path: &str) -> (r: Result<bool, String>)
    ensures
        match r {
            Ok(whole) => path_within(cache_root@, path@) && (whole <==> component_list(cache_root@) == component_list(path@)),
            Err(e) => !path_within(cache_root@, path@) && e@ == outside_root_text(),
        },
{
    let a = component_list_of(cache_root);
    let b = component_list_of(path);
    if a.len() > b.len() {
        return Err(owned("Refusing to purge a path outside the pyenv cache root."));
    }
    let mut i: usize = 0;
    while i < a.len()
        invariant
            a@.len() <= b@.len(),
            i <= a@.len(),
            lines(a@) == component_list(cache_root@),
            lines(b@) == component_list(path@),
            forall|j: int| 0 <= j < i ==> lines(a@)[j] == lines(b@)[j],
        decreases a.len() - i,
    {
        if !str_eq(a[i].as_str(), b[i].as_str()) {
            assert(lines(b@).take(a@.len() as int)[i as int] != lines(a@)[i as int]);
            return Err(owned("Refusing to purge a path outside the pyenv cache root."));
        }
        i = i + 1;
    }
    assert(lines(b@).take(a@.len() as int) =~= lines(a@));
    proof {
        if a@.len() == b@.len() {
            assert(lines(b@) =~= lines(a@));
        } else {
            assert(lines(b@).len() != lines(a@).len());
        }
    }
    Ok(a.len() == b.len())
}

/// The answer when the purged directory does not exist.
pub fn nothing_to_purge_message(path: &str) -> (r: String)
    ensures
        r@ == "Nothing to purge at "@ + path@,
{
    cat("Nothing to purge at ", path)
}

/// The answer after a purge.
pub fn purged_message(target: &str, path: &str) -> (r: String)
    ensures
        r@ == "Purged cache: "@ + target@ + " ("@ + path@ + ")"@,
{
    let a = cat3("Purged cache: ", target, " (");
    cat3(a.as_str(), path, ")")
}

/// The desktop app's identifier on Linux desktops.
pub open spec fn app_id() -> Seq<char> {
    "com.pyenv-native.gui"@
}

/// `$XDG_DATA_HOME`, else `$HOME/.local/share`, else `.local/share`.
pub open spec fn data_home_of(xdg_data_home: Option<Seq<char>>, home: Option<Seq<char>>) -> Seq<char> {
    match xdg_data_home {
        Some(x) => x,
        None => match home {
            Some(h) => join_path(h, ".local/share"@),
            None => ".local/share"@,
        },
    }
}

/// Where the desktop app's launcher and icons are installed for the user.
pub fn data_home(xdg_data_home: Option<&str>, home: Option<&str>) -> (r: String)
    ensures
        r@ == data_home_of(
            match xdg_data_home { Some(x) => Some(x@), None => None },
            match home { Some(h) => Some(h@), None => None },
        ),
{
    match xdg_data_home {
        Some(x) => owned(x),
        None => match home {
            Some(h) => join_path_str(h, ".local/share"),
            None => owned(".local/share"),
        },
    }
}

/// The launcher file's text: the executable to run and the icon, a path when the icon file is
/// installed, else the application id.
pub open spec fn desktop_entry_text(exe: Seq<char>, icon: Seq<char>) -> Seq<char> {
    "[Desktop Entry]\nType=Application\nVersion=1.0\nName=Pyenv Native\nGenericName=Python Environment Manager\nComment=Manage Python versions and virtual environments\nExec="@
        + exe + "\nIcon="@ + icon + "\nStartupWMClass="@ + app_id() + "\nCategories=Development;Utility;\nTerminal=false\n"@
}

/// The launcher file for the desktop app.
pub fn desktop_entry(exe: &str, icon_path: &str, icon_installed: bool) -> (r: String)
    ensures
        r@ == desktop_entry_text(exe@, if icon_installed { icon_path@ } else { app_id() }),
{
    let icon = if icon_installed {
        icon_path
    } else {
        "com.pyenv-native.gui"
    };
    let a = cat3(
        "[Desktop Entry]\nType=Application\nVersion=1.0\nName=Pyenv Native\nGenericName=Python Environment Manager\nComment=Manage Python versions and virtual environments\nExec=",
        exe,
        "\nIcon=",
    );
    cat5(a.as_str(), icon, "\nStartupWMClass=", "com.pyenv-native.gui", "\nCategories=Development;Utility;\nTerminal=false\n")
}

} // verus!

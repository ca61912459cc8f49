//! Which PowerShell to start on Windows.
use vstd::prelude::*;

use crate::context::{join_path, join_path_str, FsSnapshot};
use crate::shim::paths::{split_path_value, split_paths};
use crate::strings::{cat, lines};

verus! {

broadcast use vstd::string::group_string_axioms;

/// The directory holds `name` or `name.exe` as a file.
pub open spec fn dir_holds(fs: FsSnapshot, d: Seq<char>, name: Seq<char>) -> bool {
    fs.has_file(join_path(d, name)) || fs.has_file(join_path(d, name + ".exe"@))
}

/// Some `PATH` entry holds `name` or `name.exe` as a file.
pub open spec fn on_path(path_env: Option<Seq<char>>, fs: FsSnapshot, windows: bool, name: Seq<char>) -> bool {
    path_env is Some && path_dirs_hold(fs, split_paths(path_env->0, windows), name)
}

/// One of the directories holds `name` or `name.exe` as a file.
pub open spec fn path_dirs_hold(fs: FsSnapshot, dirs: Seq<Seq<char>>, name: Seq<char>) -> bool {
    exists|i: int| 0 <= i < dirs.len() && #[trigger] dir_holds(fs, dirs[i], name)
}

fn command_on_path(path_env: Option<&str>, fs: &FsSnapshot, windows: bool, name: &str) -> (r: bool)
    ensures
        r == on_path(match path_env { Some(p) => Some(p@), None => None }, *fs, windows, name@),
{
    let p = match path_env {
        Some(p) => p,
        None => return false,
    };
    let dirs = split_path_value(p, windows);
    let exe = cat(name, ".exe");
    let mut i: usize = 0;
    while i < dirs.len()
        invariant
            i <= dirs@.len(),
            path_env == Some(p),
            lines(dirs@) == split_paths(p@, windows),
            exe@ == name@ + ".exe"@,
            forall|j: int| 0 <= j < i ==> !#[trigger] dir_holds(*fs, split_paths(p@, windows)[j], name@),
        decreases dirs.len() - i,
    {
        assert(lines(dirs@)[i as int] == dirs@[i as int]@);
        let a = join_path_str(dirs[i].as_str(), name);
        let b = join_path_str(dirs[i].as_str(), exe.as_str());
        if fs.is_file(a.as_str()) || fs.is_file(b.as_str()) {
            assert(0 <= i < split_paths(p@, windows).len());
            assert(dir_holds(*fs, split_paths(p@, windows)[i as int], name@));
            return true;
        }
        i = i + 1;
    }
    false
}

/// PowerShell 7 (`pwsh`) when it is on `PATH`, else Windows PowerShell.
pub open spec fn powershell_host(path_env: Option<Seq<char>>, fs: FsSnapshot, windows: bool) -> Seq<char> {
    if on_path(path_env, fs, windows, "pwsh"@) {
        "pwsh"@
    } else {
        "powershell.exe"@
    }
}

/// The PowerShell to start: `pwsh` when it is on `PATH`, else `powershell.exe`.
pub fn windows_powershell_host(path_env: Option<&str>, fs: &FsSnapshot, windows: bool) -> (r: &'static str)
    ensures
        r@ == powershell_host(match path_env { Some(p) => Some(p@), None => None }, *fs, windows),
{
    if command_on_path(path_env, fs, windows, "pwsh") {
        "pwsh"
    } else {
        "powershell.exe"
    }
}

} // verus!

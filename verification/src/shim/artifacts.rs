//! The files a shim is made of: on Windows a copy of the tool plus `.cmd`, `.bat` and `.ps1`
//! launchers, elsewhere one executable `sh` script that calls `pyenv exec`.
use vstd::prelude::*;

use crate::context::{join_path, join_path_str, AppContext};
use crate::strings::{cat, cat3, lines, owned, replace_char, replace_char_str};

verus! {

broadcast use vstd::string::group_string_axioms;

/// The `.cmd` and `.bat` launchers: run the `.exe` shim of the same name.
pub open spec fn batch_shim_text() -> Seq<char> {
    "@echo off\r\n\"%~dp0%~n0.exe\" %*\r\n"@
}

/// The `.ps1` launcher: run the `.exe` shim of the same name and pass its exit code on.
pub open spec fn ps1_shim_text() -> Seq<char> {
    "$exe = Join-Path $PSScriptRoot ([System.IO.Path]::GetFileNameWithoutExtension($MyInvocation.MyCommand.Name) + '.exe')\r\n& $exe @args\r\nexit $LASTEXITCODE\r\n"@
}

/// The POSIX shim: `exec` the tool's `exec` command with the shim's own name.
pub open spec fn posix_shim_text(exe: Seq<char>) -> Seq<char> {
    "#!/usr/bin/env sh\nexec '"@ + replace_char(exe, '\'', "'\\''"@) + "' exec \"$(basename \"$0\")\" \"$@\"\n"@
}

/// The `.cmd` launcher.
pub fn render_cmd_shim() -> (r: &'static str)
    ensures
        r@ == batch_shim_text(),
{
    "@echo off\r\n\"%~dp0%~n0.exe\" %*\r\n"
}

/// The `.bat` launcher.
pub fn render_bat_shim() -> (r: &'static str)
    ensures
        r@ == batch_shim_text(),
{
    "@echo off\r\n\"%~dp0%~n0.exe\" %*\r\n"
}

/// The `.ps1` launcher.
pub fn render_ps1_shim() -> (r: &'static str)
    ensures
        r@ == ps1_shim_text(),
{
    "$exe = Join-Path $PSScriptRoot ([System.IO.Path]::GetFileNameWithoutExtension($MyInvocation.MyCommand.Name) + '.exe')\r\n& $exe @args\r\nexit $LASTEXITCODE\r\n"
}

/// The POSIX shim for the tool at `exe`.
pub fn render_posix_shim(exe: &str) -> (r: String)
    ensures
        r@ == posix_shim_text(exe@),
{
    let quoted = replace_char_str(exe, '\'', "'\\''");
    cat3("#!/usr/bin/env sh\nexec '", quoted.as_str(), "' exec \"$(basename \"$0\")\" \"$@\"\n")
}

/// The path of the native shim: `<command>.exe` on Windows, else `<command>`.
pub open spec fn native_shim_path(shims: Seq<char>, command: Seq<char>, windows: bool) -> Seq<char> {
    if windows {
        join_path(shims, command + ".exe"@)
    } else {
        join_path(shims, command)
    }
}

/// Every file a shim of `command` may consist of: native, `.cmd`, `.bat`, `.ps1`, POSIX.
pub open spec fn shim_paths(shims: Seq<char>, command: Seq<char>, windows: bool) -> Seq<Seq<char>> {
    seq![
        native_shim_path(shims, command, windows),
        join_path(shims, command + ".cmd"@),
        join_path(shims, command + ".bat"@),
        join_path(shims, command + ".ps1"@),
        join_path(shims, command),
    ]
}

/// The files to remove for a stale shim, when they exist.
pub fn shim_artifact_paths(shims_dir: &str, command: &str, windows: bool) -> (r: Vec<String>)
    ensures
        lines(r@) == shim_paths(shims_dir@, command@, windows),
{
    let mut v: Vec<String> = Vec::new();
    if windows {
        v.push(join_path_str(shims_dir, cat(command, ".exe").as_str()));
    } else {
        v.push(join_path_str(shims_dir, command));
    }
    v.push(join_path_str(shims_dir, cat(command, ".cmd").as_str()));
    v.push(join_path_str(shims_dir, cat(command, ".bat").as_str()));
    v.push(join_path_str(shims_dir, cat(command, ".ps1").as_str()));
    v.push(join_path_str(shims_dir, command));
    assert(lines(v@) =~= shim_paths(shims_dir@, command@, windows));
    v
}

/// One file to produce for a shim.
pub enum ShimArtifact {
    /// Copy the tool's executable to `destination`, unless an identical copy is already there.
    CopyTool { source: String, destination: String },
    /// Write `contents` to `path`, making it executable when asked.
    Write { path: String, contents: String, executable: bool },
}

/// The artifact as (kind, path, contents-or-source, executable); kind 0 copies, 1 writes.
pub open spec fn artifact_view(a: ShimArtifact) -> (bool, Seq<char>, Seq<char>, bool) {
    match a {
        ShimArtifact::CopyTool { source, destination } => (true, destination@, source@, false),
        ShimArtifact::Write { path, contents, executable } => (false, path@, contents@, executable),
    }
}

/// What to produce for a shim of `command`: on Windows the tool copy (when the tool exists as
/// a file) and the three launchers; elsewhere the executable POSIX script.
pub open spec fn shim_plan(ctx: AppContext, command: Seq<char>) -> Seq<(bool, Seq<char>, Seq<char>, bool)> {
    let shims = ctx.shims_dir_spec();
    if ctx.windows {
        (if ctx.fs.has_file(ctx.exe_path@) {
            seq![(true, join_path(shims, command + ".exe"@), ctx.exe_path@, false)]
        } else {
            seq![]
        }) + seq![
            (false, join_path(shims, command + ".cmd"@), batch_shim_text(), false),
            (false, join_path(shims, command + ".bat"@), batch_shim_text(), false),
            (false, join_path(shims, command + ".ps1"@), ps1_shim_text(), false),
        ]
    } else {
        seq![(false, join_path(shims, command), posix_shim_text(ctx.exe_path@), true)]
    }
}

/// The files that make up the shim of `command`.
pub fn shim_artifacts(ctx: &AppContext, command: &str) -> (r: Vec<ShimArtifact>)
    ensures
        r@.map_values(|a: ShimArtifact| artifact_view(a)) == shim_plan(*ctx, command@),
{
    let shims = ctx.shims_dir();
    let mut v: Vec<ShimArtifact> = Vec::new();
    if ctx.windows {
        if ctx.fs.is_file(ctx.exe_path.as_str()) {
            v.push(ShimArtifact::CopyTool {
                source: ctx.exe_path.clone(),
                destination: join_path_str(shims.as_str(), cat(command, ".exe").as_str()),
            });
        }
        v.push(ShimArtifact::Write {
            path: join_path_str(shims.as_str(), cat(command, ".cmd").as_str()),
            contents: owned(render_cmd_shim()),
            executable: false,
        });
        v.push(ShimArtifact::Write {
            path: join_path_str(shims.as_str(), cat(command, ".bat").as_str()),
            contents: owned(render_bat_shim()),
            executable: false,
        });
        v.push(ShimArtifact::Write {
            path: join_path_str(shims.as_str(), cat(command, ".ps1").as_str()),
            contents: owned(render_ps1_shim()),
            executable: false,
        });
    } else {
        v.push(ShimArtifact::Write {
            path: join_path_str(shims.as_str(), command),
            contents: render_posix_shim(ctx.exe_path.as_str()),
            executable: true,
        });
    }
    assert(v@.map_values(|a: ShimArtifact| artifact_view(a)) =~= shim_plan(*ctx, command@));
    v
}

/// Whether an existing copy of the tool is identical to it, byte for byte (then the copy
/// is left alone).
pub fn copy_is_current(existing: &Vec<u8>, tool: &Vec<u8>) -> (r: bool)
    ensures
        r == (existing@ == tool@),
{
    if existing.len() != tool.len() {
        return false;
    }
    let mut i: usize = 0;
    while i < existing.len()
        invariant
            existing@.len() == tool@.len(),
            i <= existing@.len(),
            forall|j: int| 0 <= j < i ==> existing@[j] == tool@[j],
        decreases existing.len() - i,
    {
        if existing[i] != tool[i] {
            return false;
        }
        i = i + 1;
    }
    assert(existing@ =~= tool@);
    true
}

} // verus!

//! Self-uninstall: the confirmation, the Windows helper that removes the install, and what
//! is reported.
use vstd::prelude::*;

use crate::report::CommandReport;
use crate::shell::quotes::{ps_single, ps_single_quote};
use crate::self_update::runner::{confirm_answer, confirms};
use crate::strings::{cat, cat3, lines, owned};

verus! {

broadcast use vstd::string::group_string_axioms;

/// The warning and question asked before uninstalling.
pub fn uninstall_prompt(root: &str) -> (r: Vec<String>)
    ensures
        lines(r@) == seq![
            "WARNING: This will completely remove pyenv-native and ALL installed Python versions and virtual environments."@,
            "Are you sure you want to completely remove "@ + root@ + " ? [y/N] "@,
        ],
{
    let mut out: Vec<String> = Vec::new();
    out.push(owned("WARNING: This will completely remove pyenv-native and ALL installed Python versions and virtual environments."));
    out.push(cat3("Are you sure you want to completely remove ", root, " ? [y/N] "));
    assert(lines(out@) =~= seq![
        "WARNING: This will completely remove pyenv-native and ALL installed Python versions and virtual environments."@,
        "Are you sure you want to completely remove "@ + root@ + " ? [y/N] "@,
    ]);
    out
}

/// The PowerShell helper that waits for this process, drops the root from the user `Path`
/// and `PYENV_ROOT`, and removes the root.
pub open spec fn uninstall_launcher_text(root_path: Seq<char>) -> Seq<char> {
    "param([int]$ParentPid)\n\
         $ErrorActionPreference = 'Stop'\n\
         for ($attempt = 0; $attempt -lt 240; $attempt++) {\n\
           if (-not (Get-Process -Id $ParentPid -ErrorAction SilentlyContinue)) { break }\n\
           Start-Sleep -Milliseconds 500\n\
         }\n\
         $root = '"@ + root_path + "'\n\
         $userPath = [Environment]::GetEnvironmentVariable('Path', 'User')\n\
         if ($userPath) {\n\
             $paths = $userPath -split ';' | Where-Object { $_ -and -not $_.StartsWith($root, [System.StringComparison]::OrdinalIgnoreCase) }\n\
             [Environment]::SetEnvironmentVariable('Path', ($paths -join ';'), 'User')\n\
         }\n\
         [Environment]::SetEnvironmentVariable('PYENV_ROOT', $null, 'User')\n\
         if (Test-Path $root) {\n\
             Remove-Item -Recurse -Force $root -ErrorAction SilentlyContinue\n\
         }\n\
         exit 0\n"@
}

/// The Windows uninstall helper for an install root.
pub fn render_uninstall_launcher(root: &str) -> (r: String)
    ensures
        r@ == uninstall_launcher_text(ps_single(root@)),
{
    let root_path = ps_single_quote(root);
    let mut s = String::new();
    s.append("param([int]$ParentPid)\n\
         $ErrorActionPreference = 'Stop'\n\
         for ($attempt = 0; $attempt -lt 240; $attempt++) {\n\
           if (-not (Get-Process -Id $ParentPid -ErrorAction SilentlyContinue)) { break }\n\
           Start-Sleep -Milliseconds 500\n\
         }\n\
         $root = '");
    s.append(root_path.as_str());
    s.append("'\n\
         $userPath = [Environment]::GetEnvironmentVariable('Path', 'User')\n\
         if ($userPath) {\n\
             $paths = $userPath -split ';' | Where-Object { $_ -and -not $_.StartsWith($root, [System.StringComparison]::OrdinalIgnoreCase) }\n\
             [Environment]::SetEnvironmentVariable('Path', ($paths -join ';'), 'User')\n\
         }\n\
         [Environment]::SetEnvironmentVariable('PYENV_ROOT', $null, 'User')\n\
         if (Test-Path $root) {\n\
             Remove-Item -Recurse -Force $root -ErrorAction SilentlyContinue\n\
         }\n\
         exit 0\n");
    s
}

/// What `self-uninstall` reports: a failure message, else the uninstall started (Windows) or
/// done.
pub fn cmd_self_uninstall(root: &str, windows: bool, failure: Option<String>) -> (r: CommandReport)
    ensures
        failure matches Some(m) ==> r.err() == seq![m@] && r.exit_code == 1 && r.stdout@.len() == 0,
        failure is None && windows ==> r.out() == seq![
            "Started pyenv-native uninstallation for install root "@ + root@ + "."@,
            "Pyenv will be removed shortly after this process exits."@,
        ] && r.exit_code == 0 && r.stderr@.len() == 0,
        failure is None && !windows ==> r.out() == seq!["Uninstalled pyenv-native from "@ + root@ + "."@] && r.exit_code == 0
            && r.stderr@.len() == 0,
{
    match failure {
        Some(m) => CommandReport::failure_one(m),
        None => {
            if windows {
                let mut out: Vec<String> = Vec::new();
                out.push(cat3("Started pyenv-native uninstallation for install root ", root, "."));
                out.push(owned("Pyenv will be removed shortly after this process exits."));
                assert(lines(out@) =~= seq![
                    "Started pyenv-native uninstallation for install root "@ + root@ + "."@,
                    "Pyenv will be removed shortly after this process exits."@,
                ]);
                CommandReport::success(out)
            } else {
                CommandReport::success_one(cat3("Uninstalled pyenv-native from ", root, "."))
            }
        },
    }
}

/// What happens before an uninstall: go ahead, ask first, or refuse.
pub enum UninstallStep {
    /// Confirmed already (`--yes`).
    Proceed,
    /// Print these lines (the last one without a line break) and read the answer.
    Ask(Vec<String>),
    /// Stop with this report; nothing is removed.
    Refuse(CommandReport),
}

/// The refusal when no one can be asked.
pub open spec fn confirmation_required_text() -> Seq<char> {
    "pyenv: self-uninstall requires confirmation; rerun with `pyenv self-uninstall --yes` for non-interactive use"@
}

/// The step before an uninstall: with `--yes` it proceeds; otherwise it asks when input comes
/// from a terminal and refuses when it does not.
pub fn uninstall_confirmation(root: &str, yes: bool, interactive: bool) -> (r: UninstallStep)
    ensures
        yes ==> r is Proceed,
        !yes && !interactive ==> (r matches UninstallStep::Refuse(rep) && rep.err() == seq![confirmation_required_text()]
            && rep.exit_code == 1 && rep.stdout@.len() == 0),
        !yes && interactive ==> (r matches UninstallStep::Ask(q) && lines(q@) == seq![
            "WARNING: This will completely remove pyenv-native and ALL installed Python versions and virtual environments."@,
            "Are you sure you want to completely remove "@ + root@ + " ? [y/N] "@,
        ]),
{
    if yes {
        UninstallStep::Proceed
    } else if !interactive {
        UninstallStep::Refuse(CommandReport::failure_one(owned(
            "pyenv: self-uninstall requires confirmation; rerun with `pyenv self-uninstall --yes` for non-interactive use",
        )))
    } else {
        UninstallStep::Ask(uninstall_prompt(root))
    }
}

/// The outcome of the typed answer: `None` to go ahead (`y` or `yes`), else the cancellation.
pub fn uninstall_answer(answer: &str) -> (r: Option<CommandReport>)
    ensures
        confirms(answer@) ==> r is None,
        !confirms(answer@) ==> (r matches Some(rep) && rep.err() == seq!["pyenv: self-uninstall cancelled"@] && rep.exit_code == 1
            && rep.stdout@.len() == 0),
{
    if confirm_answer(answer) {
        None
    } else {
        Some(CommandReport::failure_one(owned("pyenv: self-uninstall cancelled")))
    }
}

} // verus!

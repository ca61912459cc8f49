//! Emitters for shell-scoped version changes, rehash calls and managed-venv activation.
use vstd::prelude::*;

use crate::shell::kinds::{canonical_spec, canonical_string, ShellKind};
use crate::shell::quotes::{
    fish_single, fish_single_quote, ps_double, ps_double_quote, ps_single, ps_single_quote,
    sh_single, sh_single_quote,
};
use crate::strings::{cat, cat3, lines, owned};

verus! {

broadcast use vstd::string::group_string_axioms;

pub open spec fn set_shell_lines(shell: ShellKind) -> Seq<Seq<char>> {
    match shell {
        ShellKind::Pwsh => seq!["$Env:PYENV_SHELL=\""@ + canonical_spec(shell) + "\""@],
        ShellKind::Cmd => seq!["set \"PYENV_SHELL="@ + canonical_spec(shell) + "\""@],
        ShellKind::Fish => seq!["set -gx PYENV_SHELL "@ + canonical_spec(shell)],
        _ => seq!["export PYENV_SHELL="@ + canonical_spec(shell)],
    }
}

/// Code that records the shell kind in `PYENV_SHELL`.
pub fn shell_emit_set_shell(shell: ShellKind) -> (r: Vec<String>)
    ensures
        lines(r@) == set_shell_lines(shell),
{
    let name = canonical_string(shell);
    let line = match shell {
        ShellKind::Pwsh => cat3("$Env:PYENV_SHELL=\"", name.as_str(), "\""),
        ShellKind::Cmd => cat3("set \"PYENV_SHELL=", name.as_str(), "\""),
        ShellKind::Fish => cat("set -gx PYENV_SHELL ", name.as_str()),
        _ => cat("export PYENV_SHELL=", name.as_str()),
    };
    let r = vec![line];
    assert(lines(r@) =~= set_shell_lines(shell));
    r
}

pub open spec fn show_current_lines(shell: ShellKind) -> Seq<Seq<char>> {
    match shell {
        ShellKind::Pwsh => seq!["Write-Output $Env:PYENV_VERSION"@],
        ShellKind::Cmd => seq!["echo %PYENV_VERSION%"@],
        _ => seq!["echo \"$PYENV_VERSION\""@],
    }
}

/// Code that prints the shell-scoped version.
pub fn shell_emit_show_current(shell: ShellKind) -> (r: Vec<String>)
    ensures
        lines(r@) == show_current_lines(shell),
{
    let r = match shell {
        ShellKind::Pwsh => vec![owned("Write-Output $Env:PYENV_VERSION")],
        ShellKind::Cmd => vec![owned("echo %PYENV_VERSION%")],
        _ => vec![owned("echo \"$PYENV_VERSION\"")],
    };
    assert(lines(r@) =~= show_current_lines(shell));
    r
}

pub open spec fn unset_lines(shell: ShellKind) -> Seq<Seq<char>> {
    match shell {
        ShellKind::Pwsh => seq![
            "$Env:PYENV_VERSION_OLD = $Env:PYENV_VERSION"@,
            "Remove-Item Env:PYENV_VERSION -ErrorAction SilentlyContinue"@,
        ],
        ShellKind::Cmd => seq!["set \"PYENV_VERSION_OLD=%PYENV_VERSION%\""@, "set \"PYENV_VERSION=\""@],
        ShellKind::Fish => seq!["set -gu PYENV_VERSION_OLD \"$PYENV_VERSION\""@, "set -e PYENV_VERSION"@],
        _ => seq!["PYENV_VERSION_OLD=\"${PYENV_VERSION-}\""@, "unset PYENV_VERSION"@],
    }
}

/// Code that clears the shell-scoped version, keeping the old one.
pub fn shell_emit_unset(shell: ShellKind) -> (r: Vec<String>)
    ensures
        lines(r@) == unset_lines(shell),
{
    let r = match shell {
        ShellKind::Pwsh => vec![
            owned("$Env:PYENV_VERSION_OLD = $Env:PYENV_VERSION"),
            owned("Remove-Item Env:PYENV_VERSION -ErrorAction SilentlyContinue"),
        ],
        ShellKind::Cmd => vec![
            owned("set \"PYENV_VERSION_OLD=%PYENV_VERSION%\""),
            owned("set \"PYENV_VERSION=\""),
        ],
        ShellKind::Fish => vec![
            owned("set -gu PYENV_VERSION_OLD \"$PYENV_VERSION\""),
            owned("set -e PYENV_VERSION"),
        ],
        _ => vec![owned("PYENV_VERSION_OLD=\"${PYENV_VERSION-}\""), owned("unset PYENV_VERSION")],
    };
    assert(lines(r@) =~= unset_lines(shell));
    r
}

pub open spec fn revert_lines(shell: ShellKind) -> Seq<Seq<char>> {
    match shell {
        ShellKind::Pwsh => seq![
            "if (Test-Path Env:PYENV_VERSION_OLD) {"@,
            "  $pyenvVersionOld = $Env:PYENV_VERSION_OLD"@,
            "  $Env:PYENV_VERSION_OLD = $Env:PYENV_VERSION"@,
            "  if ([string]::IsNullOrEmpty($pyenvVersionOld)) {"@,
            "    Remove-Item Env:PYENV_VERSION -ErrorAction SilentlyContinue"@,
            "  } else {"@,
            "    $Env:PYENV_VERSION = $pyenvVersionOld"@,
            "  }"@,
            "} else {"@,
            "  Write-Error \"pyenv: Env:PYENV_VERSION_OLD is not set\""@,
            "  return $false"@,
            "}"@,
        ],
        ShellKind::Cmd => seq![
            "if not defined PYENV_VERSION_OLD echo pyenv: PYENV_VERSION_OLD is not set & exit /b 1"@,
            "set \"__PYENV_VERSION_SWAP=%PYENV_VERSION%\""@,
            "set \"PYENV_VERSION=%PYENV_VERSION_OLD%\""@,
            "set \"PYENV_VERSION_OLD=%__PYENV_VERSION_SWAP%\""@,
            "set \"__PYENV_VERSION_SWAP=\""@,
        ],
        ShellKind::Fish => seq![
            "if set -q PYENV_VERSION_OLD"@,
            "  if [ -n \"$PYENV_VERSION_OLD\" ]"@,
            "    set PYENV_VERSION_OLD_ \"$PYENV_VERSION\""@,
            "    set -gx PYENV_VERSION \"$PYENV_VERSION_OLD\""@,
            "    set -gu PYENV_VERSION_OLD \"$PYENV_VERSION_OLD_\""@,
            "    set -e PYENV_VERSION_OLD_"@,
            "  else"@,
            "    set -gu PYENV_VERSION_OLD \"$PYENV_VERSION\""@,
            "    set -e PYENV_VERSION"@,
            "  end"@,
            "else"@,
            "  echo \"pyenv: PYENV_VERSION_OLD is not set\" >&2"@,
            "  false"@,
            "end"@,
        ],
        _ => seq![
            "if [ -n \"${PYENV_VERSION_OLD+x}\" ]; then"@,
            "  if [ -n \"$PYENV_VERSION_OLD\" ]; then"@,
            "    PYENV_VERSION_OLD_=\"$PYENV_VERSION\""@,
            "    export PYENV_VERSION=\"$PYENV_VERSION_OLD\""@,
            "    PYENV_VERSION_OLD=\"$PYENV_VERSION_OLD_\""@,
            "    unset PYENV_VERSION_OLD_"@,
            "  else"@,
            "    PYENV_VERSION_OLD=\"$PYENV_VERSION\""@,
            "    unset PYENV_VERSION"@,
            "  fi"@,
            "else"@,
            "  echo \"pyenv: PYENV_VERSION_OLD is not set\" >&2"@,
            "  false"@,
            "fi"@,
        ],
    }
}

/// Code that swaps the shell-scoped version with the previous one.
pub fn shell_emit_revert(shell: ShellKind) -> (r: Vec<String>)
    ensures
        lines(r@) == revert_lines(shell),
{
    let r = match shell {
        ShellKind::Pwsh => vec![
            owned("if (Test-Path Env:PYENV_VERSION_OLD) {"),
            owned("  $pyenvVersionOld = $Env:PYENV_VERSION_OLD"),
            owned("  $Env:PYENV_VERSION_OLD = $Env:PYENV_VERSION"),
            owned("  if ([string]::IsNullOrEmpty($pyenvVersionOld)) {"),
            owned("    Remove-Item Env:PYENV_VERSION -ErrorAction SilentlyContinue"),
            owned("  } else {"),
            owned("    $Env:PYENV_VERSION = $pyenvVersionOld"),
            owned("  }"),
            owned("} else {"),
            owned("  Write-Error \"pyenv: Env:PYENV_VERSION_OLD is not set\""),
            owned("  return $false"),
            owned("}"),
        ],
        ShellKind::Cmd => vec![
            owned(
                "if not defined PYENV_VERSION_OLD echo pyenv: PYENV_VERSION_OLD is not set & exit /b 1",
            ),
            owned("set \"__PYENV_VERSION_SWAP=%PYENV_VERSION%\""),
            owned("set \"PYENV_VERSION=%PYENV_VERSION_OLD%\""),
            owned("set \"PYENV_VERSION_OLD=%__PYENV_VERSION_SWAP%\""),
            owned("set \"__PYENV_VERSION_SWAP=\""),
        ],
        ShellKind::Fish => vec![
            owned("if set -q PYENV_VERSION_OLD"),
            owned("  if [ -n \"$PYENV_VERSION_OLD\" ]"),
            owned("    set PYENV_VERSION_OLD_ \"$PYENV_VERSION\""),
            owned("    set -gx PYENV_VERSION \"$PYENV_VERSION_OLD\""),
            owned("    set -gu PYENV_VERSION_OLD \"$PYENV_VERSION_OLD_\""),
            owned("    set -e PYENV_VERSION_OLD_"),
            owned("  else"),
            owned("    set -gu PYENV_VERSION_OLD \"$PYENV_VERSION\""),
            owned("    set -e PYENV_VERSION"),
            owned("  end"),
            owned("else"),
            owned("  echo \"pyenv: PYENV_VERSION_OLD is not set\" >&2"),
            owned("  false"),
            owned("end"),
        ],
        _ => vec![
            owned("if [ -n \"${PYENV_VERSION_OLD+x}\" ]; then"),
            owned("  if [ -n \"$PYENV_VERSION_OLD\" ]; then"),
            owned("    PYENV_VERSION_OLD_=\"$PYENV_VERSION\""),
            owned("    export PYENV_VERSION=\"$PYENV_VERSION_OLD\""),
            owned("    PYENV_VERSION_OLD=\"$PYENV_VERSION_OLD_\""),
            owned("    unset PYENV_VERSION_OLD_"),
            owned("  else"),
            owned("    PYENV_VERSION_OLD=\"$PYENV_VERSION\""),
            owned("    unset PYENV_VERSION"),
            owned("  fi"),
            owned("else"),
            owned("  echo \"pyenv: PYENV_VERSION_OLD is not set\" >&2"),
            owned("  false"),
            owned("fi"),
        ],
    };
    assert(lines(r@) =~= revert_lines(shell));
    r
}

pub open spec fn set_lines(shell: ShellKind, v: Seq<char>) -> Seq<Seq<char>> {
    match shell {
        ShellKind::Pwsh => seq![
            "$Env:PYENV_VERSION_OLD = $Env:PYENV_VERSION"@,
            "$Env:PYENV_VERSION = \""@ + ps_double(v) + "\""@,
        ],
        ShellKind::Cmd => seq![
            "set \"PYENV_VERSION_OLD=%PYENV_VERSION%\""@,
            "set \"PYENV_VERSION="@ + v + "\""@,
        ],
        ShellKind::Fish => seq![
            "set -gu PYENV_VERSION_OLD \"$PYENV_VERSION\""@,
            "set -gx PYENV_VERSION \""@ + v + "\""@,
        ],
        _ => seq![
            "PYENV_VERSION_OLD=\"${PYENV_VERSION-}\""@,
            "export PYENV_VERSION=\""@ + v + "\""@,
        ],
    }
}

/// Code that sets the shell-scoped version, keeping the old one.
pub fn shell_emit_set(shell: ShellKind, version_value: &str) -> (r: Vec<String>)
    ensures
        lines(r@) == set_lines(shell, version_value@),
{
    let r = match shell {
        ShellKind::Pwsh => {
            let q = ps_double_quote(version_value);
            vec![
                owned("$Env:PYENV_VERSION_OLD = $Env:PYENV_VERSION"),
                cat3("$Env:PYENV_VERSION = \"", q.as_str(), "\""),
            ]
        },
        ShellKind::Cmd => vec![
            owned("set \"PYENV_VERSION_OLD=%PYENV_VERSION%\""),
            cat3("set \"PYENV_VERSION=", version_value, "\""),
        ],
        ShellKind::Fish => vec![
            owned("set -gu PYENV_VERSION_OLD \"$PYENV_VERSION\""),
            cat3("set -gx PYENV_VERSION \"", version_value, "\""),
        ],
        _ => vec![
            owned("PYENV_VERSION_OLD=\"${PYENV_VERSION-}\""),
            cat3("export PYENV_VERSION=\"", version_value, "\""),
        ],
    };
    assert(lines(r@) =~= set_lines(shell, version_value@));
    r
}

pub open spec fn rehash_lines(shell: ShellKind, exe: Seq<char>) -> Seq<Seq<char>> {
    match shell {
        ShellKind::Pwsh => seq!["& '"@ + ps_single(exe) + "' rehash"@],
        ShellKind::Cmd => seq!["\""@ + exe + "\" rehash"@],
        _ => seq!["\""@ + exe + "\" rehash"@, "hash -r 2>/dev/null || true"@],
    }
}

/// Code that runs `pyenv rehash` through the given executable.
pub fn shell_emit_rehash(shell: ShellKind, exe_path: &str) -> (r: Vec<String>)
    ensures
        lines(r@) == rehash_lines(shell, exe_path@),
{
    let r = match shell {
        ShellKind::Pwsh => {
            let q = ps_single_quote(exe_path);
            vec![cat3("& '", q.as_str(), "' rehash")]
        },
        ShellKind::Cmd => vec![cat3("\"", exe_path, "\" rehash")],
        _ => vec![cat3("\"", exe_path, "\" rehash"), owned("hash -r 2>/dev/null || true")],
    };
    assert(lines(r@) =~= rehash_lines(shell, exe_path@));
    r
}

pub open spec fn activate_lines(shell: ShellKind, version: Seq<char>, venv: Seq<char>, bin: Seq<char>) -> Seq<Seq<char>> {
    match shell {
        ShellKind::Pwsh => seq![
            "$Env:PYENV_VERSION_OLD = $Env:PYENV_VERSION"@,
            "$Env:PYENV_VERSION = \""@ + ps_double(version) + "\""@,
            "if (Test-Path Env:_PYENV_VIRTUAL_PATH_OLD) { $Env:PATH = $Env:_PYENV_VIRTUAL_PATH_OLD }"@,
            "$Env:_PYENV_VIRTUAL_ENV_OLD = $Env:VIRTUAL_ENV"@,
            "$Env:VIRTUAL_ENV = '"@ + ps_single(venv) + "'"@,
            "$Env:_PYENV_VIRTUAL_PATH_OLD = $Env:PATH"@,
            "$Env:PATH = '"@ + ps_single(bin) + ";' + $Env:PATH"@,
        ],
        ShellKind::Cmd => seq![
            "set \"PYENV_VERSION_OLD=%PYENV_VERSION%\""@,
            "set \"PYENV_VERSION="@ + version + "\""@,
            "if defined _PYENV_VIRTUAL_PATH_OLD set \"PATH=%_PYENV_VIRTUAL_PATH_OLD%\""@,
            "set \"_PYENV_VIRTUAL_ENV_OLD=%VIRTUAL_ENV%\""@,
            "set \"VIRTUAL_ENV="@ + venv + "\""@,
            "set \"_PYENV_VIRTUAL_PATH_OLD=%PATH%\""@,
            "set \"PATH="@ + bin + ";%PATH%\""@,
        ],
        ShellKind::Fish => seq![
            "set -gu PYENV_VERSION_OLD \"$PYENV_VERSION\""@,
            "set -gx PYENV_VERSION \""@ + version + "\""@,
            "if set -q _PYENV_VIRTUAL_PATH_OLD"@,
            "  set -gx PATH (string split ':' -- $_PYENV_VIRTUAL_PATH_OLD)"@,
            "end"@,
            "set -gu _PYENV_VIRTUAL_ENV_OLD \"$VIRTUAL_ENV\""@,
            "set -gx VIRTUAL_ENV '"@ + fish_single(venv) + "'"@,
            "set -gx _PYENV_VIRTUAL_PATH_OLD (string join ':' -- $PATH)"@,
            "set -gx PATH '"@ + fish_single(bin) + "' $PATH"@,
        ],
        _ => seq![
            "PYENV_VERSION_OLD=\"${PYENV_VERSION-}\""@,
            "export PYENV_VERSION=\""@ + version + "\""@,
            "if [ -n \"${_PYENV_VIRTUAL_PATH_OLD+x}\" ]; then PATH=\"$_PYENV_VIRTUAL_PATH_OLD\"; fi"@,
            "_PYENV_VIRTUAL_ENV_OLD=\"${VIRTUAL_ENV-}\""@,
            "export VIRTUAL_ENV='"@ + sh_single(venv) + "'"@,
            "export _PYENV_VIRTUAL_PATH_OLD=\"$PATH\""@,
            "export PATH='"@ + sh_single(bin) + "':\"$PATH\""@,
        ],
    }
}

/// Code that activates a managed venv: selects it, records the old state and puts its
/// executable directory first on `PATH`.
pub fn shell_emit_activate(shell: ShellKind, version_value: &str, venv_path: &str, bin_path: &str) -> (r: Vec<String>)
    ensures
        lines(r@) == activate_lines(shell, version_value@, venv_path@, bin_path@),
{
    let r = match shell {
        ShellKind::Pwsh => {
            let qv = ps_double_quote(version_value);
            let qe = ps_single_quote(venv_path);
            let qb = ps_single_quote(bin_path);
            vec![
                owned("$Env:PYENV_VERSION_OLD = $Env:PYENV_VERSION"),
                cat3("$Env:PYENV_VERSION = \"", qv.as_str(), "\""),
                owned("if (Test-Path Env:_PYENV_VIRTUAL_PATH_OLD) { $Env:PATH = $Env:_PYENV_VIRTUAL_PATH_OLD }"),
                owned("$Env:_PYENV_VIRTUAL_ENV_OLD = $Env:VIRTUAL_ENV"),
                cat3("$Env:VIRTUAL_ENV = '", qe.as_str(), "'"),
                owned("$Env:_PYENV_VIRTUAL_PATH_OLD = $Env:PATH"),
                cat3("$Env:PATH = '", qb.as_str(), ";' + $Env:PATH"),
            ]
        },
        ShellKind::Cmd => vec![
            owned("set \"PYENV_VERSION_OLD=%PYENV_VERSION%\""),
            cat3("set \"PYENV_VERSION=", version_value, "\""),
            owned("if defined _PYENV_VIRTUAL_PATH_OLD set \"PATH=%_PYENV_VIRTUAL_PATH_OLD%\""),
            owned("set \"_PYENV_VIRTUAL_ENV_OLD=%VIRTUAL_ENV%\""),
            cat3("set \"VIRTUAL_ENV=", venv_path, "\""),
            owned("set \"_PYENV_VIRTUAL_PATH_OLD=%PATH%\""),
            cat3("set \"PATH=", bin_path, ";%PATH%\""),
        ],
        ShellKind::Fish => {
            let qe = fish_single_quote(venv_path);
            let qb = fish_single_quote(bin_path);
            vec![
                owned("set -gu PYENV_VERSION_OLD \"$PYENV_VERSION\""),
                cat3("set -gx PYENV_VERSION \"", version_value, "\""),
                owned("if set -q _PYENV_VIRTUAL_PATH_OLD"),
                owned("  set -gx PATH (string split ':' -- $_PYENV_VIRTUAL_PATH_OLD)"),
                owned("end"),
                owned("set -gu _PYENV_VIRTUAL_ENV_OLD \"$VIRTUAL_ENV\""),
                cat3("set -gx VIRTUAL_ENV '", qe.as_str(), "'"),
                owned("set -gx _PYENV_VIRTUAL_PATH_OLD (string join ':' -- $PATH)"),
                cat3("set -gx PATH '", qb.as_str(), "' $PATH"),
            ]
        },
        _ => {
            let qe = sh_single_quote(venv_path);
            let qb = sh_single_quote(bin_path);
            vec![
                owned("PYENV_VERSION_OLD=\"${PYENV_VERSION-}\""),
                cat3("export PYENV_VERSION=\"", version_value, "\""),
                owned("if [ -n \"${_PYENV_VIRTUAL_PATH_OLD+x}\" ]; then PATH=\"$_PYENV_VIRTUAL_PATH_OLD\"; fi"),
                owned("_PYENV_VIRTUAL_ENV_OLD=\"${VIRTUAL_ENV-}\""),
                cat3("export VIRTUAL_ENV='", qe.as_str(), "'"),
                owned("export _PYENV_VIRTUAL_PATH_OLD=\"$PATH\""),
                cat3("export PATH='", qb.as_str(), "':\"$PATH\""),
            ]
        },
    };
    assert(lines(r@) =~= activate_lines(shell, version_value@, venv_path@, bin_path@));
    r
}

pub open spec fn deactivate_lines(shell: ShellKind) -> Seq<Seq<char>> {
    match shell {
        ShellKind::Pwsh => seq![
            "if (Test-Path Env:_PYENV_VIRTUAL_PATH_OLD) { $Env:PATH = $Env:_PYENV_VIRTUAL_PATH_OLD; Remove-Item Env:_PYENV_VIRTUAL_PATH_OLD -ErrorAction SilentlyContinue }"@,
            "if (Test-Path Env:_PYENV_VIRTUAL_ENV_OLD) {"@,
            "  $oldVirtualEnv = $Env:_PYENV_VIRTUAL_ENV_OLD"@,
            "  if ([string]::IsNullOrEmpty($oldVirtualEnv)) { Remove-Item Env:VIRTUAL_ENV -ErrorAction SilentlyContinue } else { $Env:VIRTUAL_ENV = $oldVirtualEnv }"@,
            "  Remove-Item Env:_PYENV_VIRTUAL_ENV_OLD -ErrorAction SilentlyContinue"@,
            "} else { Remove-Item Env:VIRTUAL_ENV -ErrorAction SilentlyContinue }"@,
            "if (Test-Path Env:PYENV_VERSION_OLD) {"@,
            "  $oldPyenvVersion = $Env:PYENV_VERSION_OLD"@,
            "  if ([string]::IsNullOrEmpty($oldPyenvVersion)) { Remove-Item Env:PYENV_VERSION -ErrorAction SilentlyContinue } else { $Env:PYENV_VERSION = $oldPyenvVersion }"@,
            "  Remove-Item Env:PYENV_VERSION_OLD -ErrorAction SilentlyContinue"@,
            "} else { Remove-Item Env:PYENV_VERSION -ErrorAction SilentlyContinue }"@,
        ],
        ShellKind::Cmd => seq![
            "if defined _PYENV_VIRTUAL_PATH_OLD set \"PATH=%_PYENV_VIRTUAL_PATH_OLD%\""@,
            "set \"_PYENV_VIRTUAL_PATH_OLD=\""@,
            "if defined _PYENV_VIRTUAL_ENV_OLD (set \"VIRTUAL_ENV=%_PYENV_VIRTUAL_ENV_OLD%\") else set \"VIRTUAL_ENV=\""@,
            "set \"_PYENV_VIRTUAL_ENV_OLD=\""@,
            "if defined PYENV_VERSION_OLD (set \"PYENV_VERSION=%PYENV_VERSION_OLD%\") else set \"PYENV_VERSION=\""@,
            "set \"PYENV_VERSION_OLD=\""@,
        ],
        ShellKind::Fish => seq![
            "if set -q _PYENV_VIRTUAL_PATH_OLD"@,
            "  set -gx PATH (string split ':' -- $_PYENV_VIRTUAL_PATH_OLD)"@,
            "  set -e _PYENV_VIRTUAL_PATH_OLD"@,
            "end"@,
            "if set -q _PYENV_VIRTUAL_ENV_OLD"@,
            "  if test -n \"$_PYENV_VIRTUAL_ENV_OLD\""@,
            "    set -gx VIRTUAL_ENV \"$_PYENV_VIRTUAL_ENV_OLD\""@,
            "  else"@,
            "    set -e VIRTUAL_ENV"@,
            "  end"@,
            "  set -e _PYENV_VIRTUAL_ENV_OLD"@,
            "else"@,
            "  set -e VIRTUAL_ENV"@,
            "end"@,
            "if set -q PYENV_VERSION_OLD"@,
            "  if test -n \"$PYENV_VERSION_OLD\""@,
            "    set -gx PYENV_VERSION \"$PYENV_VERSION_OLD\""@,
            "  else"@,
            "    set -e PYENV_VERSION"@,
            "  end"@,
            "  set -e PYENV_VERSION_OLD"@,
            "else"@,
            "  set -e PYENV_VERSION"@,
            "end"@,
        ],
        _ => seq![
            "if [ -n \"${_PYENV_VIRTUAL_PATH_OLD+x}\" ]; then export PATH=\"$_PYENV_VIRTUAL_PATH_OLD\"; unset _PYENV_VIRTUAL_PATH_OLD; fi"@,
            "if [ -n \"${_PYENV_VIRTUAL_ENV_OLD+x}\" ]; then"@,
            "  if [ -n \"$_PYENV_VIRTUAL_ENV_OLD\" ]; then export VIRTUAL_ENV=\"$_PYENV_VIRTUAL_ENV_OLD\"; else unset VIRTUAL_ENV; fi"@,
            "  unset _PYENV_VIRTUAL_ENV_OLD"@,
            "else"@,
            "  unset VIRTUAL_ENV"@,
            "fi"@,
            "if [ -n \"${PYENV_VERSION_OLD+x}\" ]; then"@,
            "  if [ -n \"$PYENV_VERSION_OLD\" ]; then export PYENV_VERSION=\"$PYENV_VERSION_OLD\"; else unset PYENV_VERSION; fi"@,
            "  unset PYENV_VERSION_OLD"@,
            "else"@,
            "  unset PYENV_VERSION"@,
            "fi"@,
        ],
    }
}

/// Code that undoes an activation: restores `PATH`, `VIRTUAL_ENV` and `PYENV_VERSION`.
pub fn shell_emit_deactivate(shell: ShellKind) -> (r: Vec<String>)
    ensures
        lines(r@) == deactivate_lines(shell),
{
    let r = match shell {
        ShellKind::Pwsh => vec![
            owned("if (Test-Path Env:_PYENV_VIRTUAL_PATH_OLD) { $Env:PATH = $Env:_PYENV_VIRTUAL_PATH_OLD; Remove-Item Env:_PYENV_VIRTUAL_PATH_OLD -ErrorAction SilentlyContinue }"),
            owned("if (Test-Path Env:_PYENV_VIRTUAL_ENV_OLD) {"),
            owned("  $oldVirtualEnv = $Env:_PYENV_VIRTUAL_ENV_OLD"),
            owned("  if ([string]::IsNullOrEmpty($oldVirtualEnv)) { Remove-Item Env:VIRTUAL_ENV -ErrorAction SilentlyContinue } else { $Env:VIRTUAL_ENV = $oldVirtualEnv }"),
            owned("  Remove-Item Env:_PYENV_VIRTUAL_ENV_OLD -ErrorAction SilentlyContinue"),
            owned("} else { Remove-Item Env:VIRTUAL_ENV -ErrorAction SilentlyContinue }"),
            owned("if (Test-Path Env:PYENV_VERSION_OLD) {"),
            owned("  $oldPyenvVersion = $Env:PYENV_VERSION_OLD"),
            owned("  if ([string]::IsNullOrEmpty($oldPyenvVersion)) { Remove-Item Env:PYENV_VERSION -ErrorAction SilentlyContinue } else { $Env:PYENV_VERSION = $oldPyenvVersion }"),
            owned("  Remove-Item Env:PYENV_VERSION_OLD -ErrorAction SilentlyContinue"),
            owned("} else { Remove-Item Env:PYENV_VERSION -ErrorAction SilentlyContinue }"),
        ],
        ShellKind::Cmd => vec![
            owned("if defined _PYENV_VIRTUAL_PATH_OLD set \"PATH=%_PYENV_VIRTUAL_PATH_OLD%\""),
            owned("set \"_PYENV_VIRTUAL_PATH_OLD=\""),
            owned("if defined _PYENV_VIRTUAL_ENV_OLD (set \"VIRTUAL_ENV=%_PYENV_VIRTUAL_ENV_OLD%\") else set \"VIRTUAL_ENV=\""),
            owned("set \"_PYENV_VIRTUAL_ENV_OLD=\""),
            owned("if defined PYENV_VERSION_OLD (set \"PYENV_VERSION=%PYENV_VERSION_OLD%\") else set \"PYENV_VERSION=\""),
            owned("set \"PYENV_VERSION_OLD=\""),
        ],
        ShellKind::Fish => vec![
            owned("if set -q _PYENV_VIRTUAL_PATH_OLD"),
            owned("  set -gx PATH (string split ':' -- $_PYENV_VIRTUAL_PATH_OLD)"),
            owned("  set -e _PYENV_VIRTUAL_PATH_OLD"),
            owned("end"),
            owned("if set -q _PYENV_VIRTUAL_ENV_OLD"),
            owned("  if test -n \"$_PYENV_VIRTUAL_ENV_OLD\""),
            owned("    set -gx VIRTUAL_ENV \"$_PYENV_VIRTUAL_ENV_OLD\""),
            owned("  else"),
            owned("    set -e VIRTUAL_ENV"),
            owned("  end"),
            owned("  set -e _PYENV_VIRTUAL_ENV_OLD"),
            owned("else"),
            owned("  set -e VIRTUAL_ENV"),
            owned("end"),
            owned("if set -q PYENV_VERSION_OLD"),
            owned("  if test -n \"$PYENV_VERSION_OLD\""),
            owned("    set -gx PYENV_VERSION \"$PYENV_VERSION_OLD\""),
            owned("  else"),
            owned("    set -e PYENV_VERSION"),
            owned("  end"),
            owned("  set -e PYENV_VERSION_OLD"),
            owned("else"),
            owned("  set -e PYENV_VERSION"),
            owned("end"),
        ],
        _ => vec![
            owned("if [ -n \"${_PYENV_VIRTUAL_PATH_OLD+x}\" ]; then export PATH=\"$_PYENV_VIRTUAL_PATH_OLD\"; unset _PYENV_VIRTUAL_PATH_OLD; fi"),
            owned("if [ -n \"${_PYENV_VIRTUAL_ENV_OLD+x}\" ]; then"),
            owned("  if [ -n \"$_PYENV_VIRTUAL_ENV_OLD\" ]; then export VIRTUAL_ENV=\"$_PYENV_VIRTUAL_ENV_OLD\"; else unset VIRTUAL_ENV; fi"),
            owned("  unset _PYENV_VIRTUAL_ENV_OLD"),
            owned("else"),
            owned("  unset VIRTUAL_ENV"),
            owned("fi"),
            owned("if [ -n \"${PYENV_VERSION_OLD+x}\" ]; then"),
            owned("  if [ -n \"$PYENV_VERSION_OLD\" ]; then export PYENV_VERSION=\"$PYENV_VERSION_OLD\"; else unset PYENV_VERSION; fi"),
            owned("  unset PYENV_VERSION_OLD"),
            owned("else"),
            owned("  unset PYENV_VERSION"),
            owned("fi"),
        ],
    };
    assert(lines(r@) =~= deactivate_lines(shell));
    r
}

} // verus!

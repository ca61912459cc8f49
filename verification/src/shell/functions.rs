//! The `pyenv` shell function that init scripts define, and the CMD command line for
//! `sh-cmd`.
use vstd::prelude::*;

use crate::shell::kinds::ShellKind;
use crate::shell::quotes::{
    cmd_quote, cmd_quoted, fish_single, fish_single_quote, ps_single, ps_single_quote,
    sh_single, sh_single_quote,
};
use crate::strings::{cat3, join, join_strings, lines, owned};

verus! {

broadcast use vstd::string::group_string_axioms;

pub open spec fn pwsh_function_lines(exe: Seq<char>) -> Seq<Seq<char>> {
    seq![
        "function Join-PyenvWindowsArguments {"@,
        "  param([string[]]$PyenvArgs)"@,
        "  $parts = foreach ($arg in $PyenvArgs) {"@,
        "    if ($null -eq $arg) { '\"\"'; continue }"@,
        "    if ($arg.Length -eq 0) { '\"\"'; continue }"@,
        "    if ($arg -notmatch '[\\s\"]') { $arg; continue }"@,
        "    $escaped = $arg -replace '(\\\\*)\"', '$1$1\\\"'"@,
        "    $escaped = $escaped -replace '(\\\\+)$', '$1$1'"@,
        "    '\"' + $escaped + '\"'"@,
        "  }"@,
        "  return ($parts -join ' ')"@,
        "}"@,
        "function Invoke-PyenvCaptured {"@,
        "  param([string]$PyenvExe, [string[]]$PyenvArgs)"@,
        "  $psi = [System.Diagnostics.ProcessStartInfo]::new()"@,
        "  $psi.FileName = $PyenvExe"@,
        "  $psi.UseShellExecute = $false"@,
        "  $psi.RedirectStandardOutput = $true"@,
        "  $psi.RedirectStandardError = $true"@,
        "  $psi.WorkingDirectory = (Get-Location).Path"@,
        "  if ($psi.PSObject.Properties.Name -contains 'ArgumentList' -and $null -ne $psi.ArgumentList) {"@,
        "    foreach ($arg in $PyenvArgs) { [void]$psi.ArgumentList.Add([string]$arg) }"@,
        "  } else {"@,
        "    $psi.Arguments = Join-PyenvWindowsArguments $PyenvArgs"@,
        "  }"@,
        "  $process = [System.Diagnostics.Process]::Start($psi)"@,
        "  $stdout = $process.StandardOutput.ReadToEnd()"@,
        "  $stderr = $process.StandardError.ReadToEnd()"@,
        "  $process.WaitForExit()"@,
        "  $global:LASTEXITCODE = $process.ExitCode"@,
        "  if ($stderr.Length -gt 0) { [Console]::Error.Write($stderr) }"@,
        "  if ($stdout.Length -eq 0) { return @() }"@,
        "  return ($stdout.TrimEnd() -split \"`r?`n\")"@,
        "}"@,
        "function Invoke-PyenvPassthrough {"@,
        "  param([string]$PyenvExe, [string[]]$PyenvArgs)"@,
        "  $psi = [System.Diagnostics.ProcessStartInfo]::new()"@,
        "  $psi.FileName = $PyenvExe"@,
        "  $psi.UseShellExecute = $false"@,
        "  $psi.WorkingDirectory = (Get-Location).Path"@,
        "  if ($psi.PSObject.Properties.Name -contains 'ArgumentList' -and $null -ne $psi.ArgumentList) {"@,
        "    foreach ($arg in $PyenvArgs) { [void]$psi.ArgumentList.Add([string]$arg) }"@,
        "  } else {"@,
        "    $psi.Arguments = Join-PyenvWindowsArguments $PyenvArgs"@,
        "  }"@,
        "  $psi.RedirectStandardOutput = $false"@,
        "  $psi.RedirectStandardError = $false"@,
        "  $process = [System.Diagnostics.Process]::Start($psi)"@,
        "  $process.WaitForExit()"@,
        "  $global:LASTEXITCODE = $process.ExitCode"@,
        "  return $process.ExitCode"@,
        "}"@,
        "function pyenv {"@,
        "  $pyenvExe = '"@ + ps_single(exe) + "'"@,
        "  if ($args.Count -eq 0) {"@,
        "    Invoke-PyenvPassthrough $pyenvExe @() | Out-Null"@,
        "    return"@,
        "  }"@,
        "  $command = $args[0]"@,
        "  $arguments = if ($args.Count -gt 1) { @($args[1..($args.Count - 1)]) } else { @() }"@,
        "  switch ($command) {"@,
        "    'shell' {"@,
        "      $shellCmds = Invoke-PyenvCaptured $pyenvExe (@('sh-shell', '--') + $arguments)"@,
        "      if ($LASTEXITCODE -eq 0 -and $shellCmds.Count -gt 0) { Invoke-Expression ($shellCmds -join \"`n\") }"@,
        "    }"@,
        "    'activate' {"@,
        "      $shellCmds = Invoke-PyenvCaptured $pyenvExe (@('sh-activate', '--') + $arguments)"@,
        "      if ($LASTEXITCODE -eq 0 -and $shellCmds.Count -gt 0) { Invoke-Expression ($shellCmds -join \"`n\") }"@,
        "    }"@,
        "    'deactivate' {"@,
        "      $shellCmds = Invoke-PyenvCaptured $pyenvExe (@('sh-deactivate') + $arguments)"@,
        "      if ($LASTEXITCODE -eq 0 -and $shellCmds.Count -gt 0) { Invoke-Expression ($shellCmds -join \"`n\") }"@,
        "    }"@,
        "    'rehash' {"@,
        "      $shellCmds = Invoke-PyenvCaptured $pyenvExe (@('sh-rehash') + $arguments)"@,
        "      if ($LASTEXITCODE -eq 0 -and $shellCmds.Count -gt 0) { Invoke-Expression ($shellCmds -join \"`n\") }"@,
        "    }"@,
        "    default {"@,
        "      Invoke-PyenvPassthrough $pyenvExe (@([string]$command) + $arguments) | Out-Null"@,
        "    }"@,
        "  }"@,
        "}"@,
    ]
}

pub open spec fn fish_function_lines(exe: Seq<char>) -> Seq<Seq<char>> {
    seq![
        "function pyenv"@,
        "  set pyenv_exe '"@ + fish_single(exe) + "'"@,
        "  if test (count $argv) -eq 0"@,
        "    $pyenv_exe"@,
        "    return $status"@,
        "  end"@,
        "  set command $argv[1]"@,
        "  set -e argv[1]"@,
        "  switch \"$command\""@,
        "  case shell"@,
        "    set shell_cmds ($pyenv_exe sh-shell -- $argv)"@,
        "    set shell_status $status"@,
        "    if test $shell_status -ne 0"@,
        "      return $shell_status"@,
        "    end"@,
        "    if test (count $shell_cmds) -gt 0"@,
        "      string join \\n -- $shell_cmds | source"@,
        "    end"@,
        "  case activate"@,
        "    set shell_cmds ($pyenv_exe sh-activate -- $argv)"@,
        "    set shell_status $status"@,
        "    if test $shell_status -ne 0"@,
        "      return $shell_status"@,
        "    end"@,
        "    if test (count $shell_cmds) -gt 0"@,
        "      string join \\n -- $shell_cmds | source"@,
        "    end"@,
        "  case deactivate"@,
        "    set shell_cmds ($pyenv_exe sh-deactivate $argv)"@,
        "    set shell_status $status"@,
        "    if test $shell_status -ne 0"@,
        "      return $shell_status"@,
        "    end"@,
        "    if test (count $shell_cmds) -gt 0"@,
        "      string join \\n -- $shell_cmds | source"@,
        "    end"@,
        "  case rehash"@,
        "    set shell_cmds ($pyenv_exe sh-rehash $argv)"@,
        "    set shell_status $status"@,
        "    if test $shell_status -ne 0"@,
        "      return $shell_status"@,
        "    end"@,
        "    if test (count $shell_cmds) -gt 0"@,
        "      string join \\n -- $shell_cmds | source"@,
        "    end"@,
        "  case '*'"@,
        "    $pyenv_exe $command $argv"@,
        "  end"@,
        "end"@,
    ]
}

pub open spec fn sh_function_lines(exe: Seq<char>) -> Seq<Seq<char>> {
    seq![
        "pyenv() {"@,
        "  pyenv_exe='"@ + sh_single(exe) + "'"@,
        "  if [ \"$#\" -eq 0 ]; then"@,
        "    \"$pyenv_exe\""@,
        "    return $?"@,
        "  fi"@,
        "  command_name=${1:-}"@,
        "  shift"@,
        "  case \"$command_name\" in"@,
        "    shell)"@,
        "      pyenv_output=\"$(\"$pyenv_exe\" sh-shell -- \"$@\")\" || return $?"@,
        "      [ -z \"$pyenv_output\" ] || eval \"$pyenv_output\""@,
        "      ;;"@,
        "    activate)"@,
        "      pyenv_output=\"$(\"$pyenv_exe\" sh-activate -- \"$@\")\" || return $?"@,
        "      [ -z \"$pyenv_output\" ] || eval \"$pyenv_output\""@,
        "      ;;"@,
        "    deactivate)"@,
        "      pyenv_output=\"$(\"$pyenv_exe\" sh-deactivate \"$@\")\" || return $?"@,
        "      [ -z \"$pyenv_output\" ] || eval \"$pyenv_output\""@,
        "      ;;"@,
        "    rehash)"@,
        "      pyenv_output=\"$(\"$pyenv_exe\" sh-rehash \"$@\")\" || return $?"@,
        "      [ -z \"$pyenv_output\" ] || eval \"$pyenv_output\""@,
        "      ;;"@,
        "    *)"@,
        "      \"$pyenv_exe\" \"$command_name\" \"$@\""@,
        "      ;;"@,
        "  esac"@,
        "}"@,
    ]
}

pub open spec fn shell_function_lines(shell: ShellKind, exe: Seq<char>) -> Seq<Seq<char>> {
    match shell {
        ShellKind::Pwsh => pwsh_function_lines(exe),
        ShellKind::Cmd => seq![
            "doskey pyenv=for /f \"delims=\" %i in ('\""@ + exe + "\" sh-cmd $*') do %i"@,
        ],
        ShellKind::Fish => fish_function_lines(exe),
        _ => sh_function_lines(exe),
    }
}

fn render_pwsh_function(exe_path: &str) -> (r: Vec<String>)
    ensures
        lines(r@) == pwsh_function_lines(exe_path@),
{
    let q = ps_single_quote(exe_path);
    let r = vec![
        owned("function Join-PyenvWindowsArguments {"),
        owned("  param([string[]]$PyenvArgs)"),
        owned("  $parts = foreach ($arg in $PyenvArgs) {"),
        owned("    if ($null -eq $arg) { '\"\"'; continue }"),
        owned("    if ($arg.Length -eq 0) { '\"\"'; continue }"),
        owned("    if ($arg -notmatch '[\\s\"]') { $arg; continue }"),
        owned("    $escaped = $arg -replace '(\\\\*)\"', '$1$1\\\"'"),
        owned("    $escaped = $escaped -replace '(\\\\+)$', '$1$1'"),
        owned("    '\"' + $escaped + '\"'"),
        owned("  }"),
        owned("  return ($parts -join ' ')"),
        owned("}"),
        owned("function Invoke-PyenvCaptured {"),
        owned("  param([string]$PyenvExe, [string[]]$PyenvArgs)"),
        owned("  $psi = [System.Diagnostics.ProcessStartInfo]::new()"),
        owned("  $psi.FileName = $PyenvExe"),
        owned("  $psi.UseShellExecute = $false"),
        owned("  $psi.RedirectStandardOutput = $true"),
        owned("  $psi.RedirectStandardError = $true"),
        owned("  $psi.WorkingDirectory = (Get-Location).Path"),
        owned("  if ($psi.PSObject.Properties.Name -contains 'ArgumentList' -and $null -ne $psi.ArgumentList) {"),
        owned("    foreach ($arg in $PyenvArgs) { [void]$psi.ArgumentList.Add([string]$arg) }"),
        owned("  } else {"),
        owned("    $psi.Arguments = Join-PyenvWindowsArguments $PyenvArgs"),
        owned("  }"),
        owned("  $process = [System.Diagnostics.Process]::Start($psi)"),
        owned("  $stdout = $process.StandardOutput.ReadToEnd()"),
        owned("  $stderr = $process.StandardError.ReadToEnd()"),
        owned("  $process.WaitForExit()"),
        owned("  $global:LASTEXITCODE = $process.ExitCode"),
        owned("  if ($stderr.Length -gt 0) { [Console]::Error.Write($stderr) }"),
        owned("  if ($stdout.Length -eq 0) { return @() }"),
        owned("  return ($stdout.TrimEnd() -split \"`r?`n\")"),
        owned("}"),
        owned("function Invoke-PyenvPassthrough {"),
        owned("  param([string]$PyenvExe, [string[]]$PyenvArgs)"),
        owned("  $psi = [System.Diagnostics.ProcessStartInfo]::new()"),
        owned("  $psi.FileName = $PyenvExe"),
        owned("  $psi.UseShellExecute = $false"),
        owned("  $psi.WorkingDirectory = (Get-Location).Path"),
        owned("  if ($psi.PSObject.Properties.Name -contains 'ArgumentList' -and $null -ne $psi.ArgumentList) {"),
        owned("    foreach ($arg in $PyenvArgs) { [void]$psi.ArgumentList.Add([string]$arg) }"),
        owned("  } else {"),
        owned("    $psi.Arguments = Join-PyenvWindowsArguments $PyenvArgs"),
        owned("  }"),
        owned("  $psi.RedirectStandardOutput = $false"),
        owned("  $psi.RedirectStandardError = $false"),
        owned("  $process = [System.Diagnostics.Process]::Start($psi)"),
        owned("  $process.WaitForExit()"),
        owned("  $global:LASTEXITCODE = $process.ExitCode"),
        owned("  return $process.ExitCode"),
        owned("}"),
        owned("function pyenv {"),
        cat3("  $pyenvExe = '", q.as_str(), "'"),
        owned("  if ($args.Count -eq 0) {"),
        owned("    Invoke-PyenvPassthrough $pyenvExe @() | Out-Null"),
        owned("    return"),
        owned("  }"),
        owned("  $command = $args[0]"),
        owned("  $arguments = if ($args.Count -gt 1) { @($args[1..($args.Count - 1)]) } else { @() }"),
        owned("  switch ($command) {"),
        owned("    'shell' {"),
        owned("      $shellCmds = Invoke-PyenvCaptured $pyenvExe (@('sh-shell', '--') + $arguments)"),
        owned("      if ($LASTEXITCODE -eq 0 -and $shellCmds.Count -gt 0) { Invoke-Expression ($shellCmds -join \"`n\") }"),
        owned("    }"),
        owned("    'activate' {"),
        owned("      $shellCmds = Invoke-PyenvCaptured $pyenvExe (@('sh-activate', '--') + $arguments)"),
        owned("      if ($LASTEXITCODE -eq 0 -and $shellCmds.Count -gt 0) { Invoke-Expression ($shellCmds -join \"`n\") }"),
        owned("    }"),
        owned("    'deactivate' {"),
        owned("      $shellCmds = Invoke-PyenvCaptured $pyenvExe (@('sh-deactivate') + $arguments)"),
        owned("      if ($LASTEXITCODE -eq 0 -and $shellCmds.Count -gt 0) { Invoke-Expression ($shellCmds -join \"`n\") }"),
        owned("    }"),
        owned("    'rehash' {"),
        owned("      $shellCmds = Invoke-PyenvCaptured $pyenvExe (@('sh-rehash') + $arguments)"),
        owned("      if ($LASTEXITCODE -eq 0 -and $shellCmds.Count -gt 0) { Invoke-Expression ($shellCmds -join \"`n\") }"),
        owned("    }"),
        owned("    default {"),
        owned("      Invoke-PyenvPassthrough $pyenvExe (@([string]$command) + $arguments) | Out-Null"),
        owned("    }"),
        owned("  }"),
        owned("}"),
    ];
    assert(lines(r@) =~= pwsh_function_lines(exe_path@));
    r
}

fn render_fish_function(exe_path: &str) -> (r: Vec<String>)
    ensures
        lines(r@) == fish_function_lines(exe_path@),
{
    let q = fish_single_quote(exe_path);
    let r = vec![
        owned("function pyenv"),
        cat3("  set pyenv_exe '", q.as_str(), "'"),
        owned("  if test (count $argv) -eq 0"),
        owned("    $pyenv_exe"),
        owned("    return $status"),
        owned("  end"),
        owned("  set command $argv[1]"),
        owned("  set -e argv[1]"),
        owned("  switch \"$command\""),
        owned("  case shell"),
        owned("    set shell_cmds ($pyenv_exe sh-shell -- $argv)"),
        owned("    set shell_status $status"),
        owned("    if test $shell_status -ne 0"),
        owned("      return $shell_status"),
        owned("    end"),
        owned("    if test (count $shell_cmds) -gt 0"),
        owned("      string join \\n -- $shell_cmds | source"),
        owned("    end"),
        owned("  case activate"),
        owned("    set shell_cmds ($pyenv_exe sh-activate -- $argv)"),
        owned("    set shell_status $status"),
        owned("    if test $shell_status -ne 0"),
        owned("      return $shell_status"),
        owned("    end"),
        owned("    if test (count $shell_cmds) -gt 0"),
        owned("      string join \\n -- $shell_cmds | source"),
        owned("    end"),
        owned("  case deactivate"),
        owned("    set shell_cmds ($pyenv_exe sh-deactivate $argv)"),
        owned("    set shell_status $status"),
        owned("    if test $shell_status -ne 0"),
        owned("      return $shell_status"),
        owned("    end"),
        owned("    if test (count $shell_cmds) -gt 0"),
        owned("      string join \\n -- $shell_cmds | source"),
        owned("    end"),
        owned("  case rehash"),
        owned("    set shell_cmds ($pyenv_exe sh-rehash $argv)"),
        owned("    set shell_status $status"),
        owned("    if test $shell_status -ne 0"),
        owned("      return $shell_status"),
        owned("    end"),
        owned("    if test (count $shell_cmds) -gt 0"),
        owned("      string join \\n -- $shell_cmds | source"),
        owned("    end"),
        owned("  case '*'"),
        owned("    $pyenv_exe $command $argv"),
        owned("  end"),
        owned("end"),
    ];
    assert(lines(r@) =~= fish_function_lines(exe_path@));
    r
}

fn render_sh_function(exe_path: &str) -> (r: Vec<String>)
    ensures
        lines(r@) == sh_function_lines(exe_path@),
{
    let q = sh_single_quote(exe_path);
    let r = vec![
        owned("pyenv() {"),
        cat3("  pyenv_exe='", q.as_str(), "'"),
        owned("  if [ \"$#\" -eq 0 ]; then"),
        owned("    \"$pyenv_exe\""),
        owned("    return $?"),
        owned("  fi"),
        owned("  command_name=${1:-}"),
        owned("  shift"),
        owned("  case \"$command_name\" in"),
        owned("    shell)"),
        owned("      pyenv_output=\"$(\"$pyenv_exe\" sh-shell -- \"$@\")\" || return $?"),
        owned("      [ -z \"$pyenv_output\" ] || eval \"$pyenv_output\""),
        owned("      ;;"),
        owned("    activate)"),
        owned("      pyenv_output=\"$(\"$pyenv_exe\" sh-activate -- \"$@\")\" || return $?"),
        owned("      [ -z \"$pyenv_output\" ] || eval \"$pyenv_output\""),
        owned("      ;;"),
        owned("    deactivate)"),
        owned("      pyenv_output=\"$(\"$pyenv_exe\" sh-deactivate \"$@\")\" || return $?"),
        owned("      [ -z \"$pyenv_output\" ] || eval \"$pyenv_output\""),
        owned("      ;;"),
        owned("    rehash)"),
        owned("      pyenv_output=\"$(\"$pyenv_exe\" sh-rehash \"$@\")\" || return $?"),
        owned("      [ -z \"$pyenv_output\" ] || eval \"$pyenv_output\""),
        owned("      ;;"),
        owned("    *)"),
        owned("      \"$pyenv_exe\" \"$command_name\" \"$@\""),
        owned("      ;;"),
        owned("  esac"),
        owned("}"),
    ];
    assert(lines(r@) =~= sh_function_lines(exe_path@));
    r
}

/// The `pyenv` wrapper that evaluates `sh-*` output in the calling shell.
pub fn render_shell_function(shell: ShellKind, exe_path: &str) -> (r: Vec<String>)
    ensures
        lines(r@) == shell_function_lines(shell, exe_path@),
{
    match shell {
        ShellKind::Pwsh => render_pwsh_function(exe_path),
        ShellKind::Cmd => {
            let r = vec![
                cat3("doskey pyenv=for /f \"delims=\" %i in ('\"", exe_path, "\" sh-cmd $*') do %i"),
            ];
            assert(lines(r@) =~= shell_function_lines(shell, exe_path@));
            r
        },
        ShellKind::Fish => render_fish_function(exe_path),
        _ => render_sh_function(exe_path),
    }
}

/// The quoted form of each argument.
pub open spec fn cmd_quoted_all(args: Seq<Seq<char>>) -> Seq<Seq<char>> {
    args.map_values(|a: Seq<char>| cmd_quoted(a))
}

/// A CMD line running the executable with the arguments, each quoted for CMD.
pub fn render_cmd_exec_line(exe_path: &str, args: &[String]) -> (r: String)
    ensures
        r@ == join(seq!["\""@ + exe_path@ + "\""@] + cmd_quoted_all(lines(args@)), " "@),
{
    let mut parts: Vec<String> = vec![cat3("\"", exe_path, "\"")];
    let mut i: usize = 0;
    while i < args.len()
        invariant
            i <= args@.len(),
            lines(parts@) == seq!["\""@ + exe_path@ + "\""@] + cmd_quoted_all(lines(args@).take(i as int)),
        decreases args.len() - i,
    {
        let q = cmd_quote(args[i].as_str());
        let ghost before = lines(parts@);
        parts.push(q);
        assert(lines(parts@) =~= before.push(cmd_quoted(args@[i as int]@)));
        assert(cmd_quoted_all(lines(args@).take(i + 1)) =~= cmd_quoted_all(lines(args@).take(i as int)).push(cmd_quoted(args@[i as int]@)));
        assert(lines(parts@) =~= seq!["\""@ + exe_path@ + "\""@] + cmd_quoted_all(lines(args@).take(i + 1)));
        i = i + 1;
    }
    assert(lines(args@).take(args@.len() as int) =~= lines(args@));
    join_strings(&parts, " ")
}

} // verus!

//! The shells the tool emits code for, and the options of `pyenv init`.
use vstd::prelude::*;

use crate::strings::{lower_seq, lower_str, owned, str_eq, trim, trim_str};

verus! {

/// A shell the tool can emit code for.
#[derive(Debug, Clone, Copy, PartialEq, Eq, Structural)]
pub enum ShellKind {
    Pwsh,
    Cmd,
    Bash,
    Zsh,
    Fish,
    Sh,
}

/// What `pyenv init` prints.
#[derive(Debug, Clone, Copy, PartialEq, Eq, Structural)]
pub enum InitMode {
    Help,
    Print,
    Path,
    DetectShell,
}

/// The parsed arguments of `pyenv init`.
#[derive(Debug, Clone, Copy, PartialEq, Eq, Structural)]
pub struct InitCommandOptions {
    pub mode: InitMode,
    pub shell: ShellKind,
    pub no_push_path: bool,
    pub no_rehash: bool,
}

/// The shell a (trimmed, lowercased) name selects.
pub open spec fn shell_for_name(n: Seq<char>) -> Option<ShellKind> {
    if n == "pwsh"@ || n == "powershell"@ || n == "ps"@ {
        Some(ShellKind::Pwsh)
    } else if n == "cmd"@ || n == "cmd.exe"@ || n == "batch"@ {
        Some(ShellKind::Cmd)
    } else if n == "bash"@ {
        Some(ShellKind::Bash)
    } else if n == "zsh"@ {
        Some(ShellKind::Zsh)
    } else if n == "fish"@ {
        Some(ShellKind::Fish)
    } else if n == "sh"@ {
        Some(ShellKind::Sh)
    } else {
        None
    }
}

/// `ShellKind::parse`: the name trimmed and lowercased, then looked up.
pub open spec fn parse_shell(v: Seq<char>) -> Option<ShellKind> {
    shell_for_name(lower_seq(trim(v)))
}

pub open spec fn canonical_spec(k: ShellKind) -> Seq<char> {
    match k {
        ShellKind::Pwsh => "pwsh"@,
        ShellKind::Cmd => "cmd"@,
        ShellKind::Bash => "bash"@,
        ShellKind::Zsh => "zsh"@,
        ShellKind::Fish => "fish"@,
        ShellKind::Sh => "sh"@,
    }
}

impl ShellKind {
    /// Reads a shell name, ignoring surrounding whitespace and ASCII case.
    pub fn parse(value: &str) -> (r: Option<ShellKind>)
        ensures
            r == parse_shell(value@),
    {
        let t = trim_str(value);
        let l = lower_str(t.as_str());
        let n = l.as_str();
        if str_eq(n, "pwsh") || str_eq(n, "powershell") || str_eq(n, "ps") {
            Some(ShellKind::Pwsh)
        } else if str_eq(n, "cmd") || str_eq(n, "cmd.exe") || str_eq(n, "batch") {
            Some(ShellKind::Cmd)
        } else if str_eq(n, "bash") {
            Some(ShellKind::Bash)
        } else if str_eq(n, "zsh") {
            Some(ShellKind::Zsh)
        } else if str_eq(n, "fish") {
            Some(ShellKind::Fish)
        } else if str_eq(n, "sh") {
            Some(ShellKind::Sh)
        } else {
            None
        }
    }

    /// The name the tool prints for the shell.
    pub fn canonical_name(self) -> (r: &'static str)
        ensures
            r@ == canonical_spec(self),
    {
        match self {
            ShellKind::Pwsh => "pwsh",
            ShellKind::Cmd => "cmd",
            ShellKind::Bash => "bash",
            ShellKind::Zsh => "zsh",
            ShellKind::Fish => "fish",
            ShellKind::Sh => "sh",
        }
    }
}

/// Reading back the printed name of a shell gives that shell.
pub proof fn law_parse_canonical_round_trip(k: ShellKind)
    ensures
        parse_shell(canonical_spec(k)) == Some(k),
{
    reveal_strlit("pwsh");
    reveal_strlit("powershell");
    reveal_strlit("ps");
    reveal_strlit("cmd");
    reveal_strlit("cmd.exe");
    reveal_strlit("batch");
    reveal_strlit("bash");
    reveal_strlit("zsh");
    reveal_strlit("fish");
    reveal_strlit("sh");
    let c = canonical_spec(k);
    assert(trim(c) == c) by {
        assert(crate::strings::trim_start(c) == c);
        assert(crate::strings::trim_end(c) == c);
    }
    assert(lower_seq(c) =~= c);
}

/// The canonical name as an owned string.
pub fn canonical_string(k: ShellKind) -> (r: String)
    ensures
        r@ == canonical_spec(k),
{
    owned(k.canonical_name())
}

} // verus!

//! Readiness before a source build: on macOS the Command Line Tools and OpenSSL headers, on
//! Android the Termux packages, must be present.
use vstd::prelude::*;

use crate::error::{error_text, PyenvError};
use crate::preflight::android::AndroidToolchainState;
use crate::preflight::macos::MacosToolchainState;
use crate::strings::{cat, cat3, join, join_strings, lines, owned, str_eq};

verus! {

broadcast use vstd::string::group_string_axioms;

/// Which toolchain a source build on a platform depends on.
#[derive(Debug, Clone, Copy, PartialEq, Eq, Structural)]
pub enum SourceBuildGate {
    Macos,
    Android,
    Unchecked,
}

/// `macos` and `android` are checked by name; any other platform is checked as Android when
/// the tool runs on Android, else not at all.
pub open spec fn gate_for(platform: Seq<char>, on_android: bool) -> SourceBuildGate {
    if platform == "macos"@ {
        SourceBuildGate::Macos
    } else if platform == "android"@ || on_android {
        SourceBuildGate::Android
    } else {
        SourceBuildGate::Unchecked
    }
}

/// The toolchain a source build on `platform` is checked against.
pub fn source_build_gate(platform: &str, on_android: bool) -> (r: SourceBuildGate)
    ensures
        r == gate_for(platform@, on_android),
{
    if str_eq(platform, "macos") {
        SourceBuildGate::Macos
    } else if str_eq(platform, "android") || on_android {
        SourceBuildGate::Android
    } else {
        SourceBuildGate::Unchecked
    }
}

/// The probe a gate was checked with.
pub enum ToolchainProbe {
    Macos(MacosToolchainState),
    Android(AndroidToolchainState),
    Unchecked,
}

/// The problems of a macOS toolchain, in order.
pub open spec fn macos_problems(s: MacosToolchainState) -> Seq<Seq<char>> {
    (if !s.clt_ok {
        seq!["Xcode Command Line Tools: "@ + s.clt_detail@ + ". Run `pyenv doctor --fix` or `xcode-select --install`, then `pyenv preflight`."@]
    } else {
        seq![]
    }) + (if s.openssl_prefix is None {
        seq!["OpenSSL TLS headers: "@ + s.openssl_detail@ + ". Install with `brew install openssl@3` before building CPython."@]
    } else {
        seq![]
    })
}

/// Fails with every macOS problem when there is any.
pub fn ensure_macos_ready(state: &MacosToolchainState) -> (r: Result<(), PyenvError>)
    ensures
        macos_problems(*state).len() == 0 ==> r is Ok,
        macos_problems(*state).len() > 0 ==> (r matches Err(e) && error_text(e) == "pyenv: macOS source-build preflight failed:\n  - "@
            + join(macos_problems(*state), "\n  - "@)),
{
    let mut problems: Vec<String> = Vec::new();
    if !state.clt_ok {
        problems.push(cat3("Xcode Command Line Tools: ", state.clt_detail.as_str(), ". Run `pyenv doctor --fix` or `xcode-select --install`, then `pyenv preflight`."));
    }
    if state.openssl_prefix.is_none() {
        problems.push(cat3("OpenSSL TLS headers: ", state.openssl_detail.as_str(), ". Install with `brew install openssl@3` before building CPython."));
    }
    assert(lines(problems@) =~= macos_problems(*state));
    if problems.len() == 0 {
        return Ok(());
    }
    let body = join_strings(&problems, "\n  - ");
    Err(PyenvError::Io(cat("pyenv: macOS source-build preflight failed:\n  - ", body.as_str())))
}

/// Fails with the probe's detail unless the Termux toolchain is ready.
pub fn ensure_android_ready(state: &AndroidToolchainState) -> (r: Result<(), PyenvError>)
    ensures
        state.ready ==> r is Ok,
        !state.ready ==> (r matches Err(e) && error_text(e) == "pyenv: Android/Termux source-build preflight failed: "@ + state.detail@
            + ". Install missing packages, then re-run `pyenv preflight`."@),
{
    if state.ready {
        return Ok(());
    }
    Err(PyenvError::Io(cat3("pyenv: Android/Termux source-build preflight failed: ", state.detail.as_str(), ". Install missing packages, then re-run `pyenv preflight`.")))
}

/// Whether the probed platform is ready for a source build, with the error when it is not.
pub fn ensure_source_build_ready(probe: &ToolchainProbe) -> (r: Result<(), PyenvError>)
    ensures
        probe is Unchecked ==> r is Ok,
        probe matches ToolchainProbe::Macos(s) ==> (r is Ok <==> macos_problems(*s).len() == 0),
        probe matches ToolchainProbe::Android(s) ==> (r is Ok <==> s.ready),
{
    match probe {
        ToolchainProbe::Macos(s) => ensure_macos_ready(s),
        ToolchainProbe::Android(s) => ensure_android_ready(s),
        ToolchainProbe::Unchecked => Ok(()),
    }
}

} // verus!

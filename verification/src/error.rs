//! The errors commands report, and their messages.
use vstd::prelude::*;

use crate::strings::{cat3, cat5, owned};

verus! {

broadcast use vstd::string::group_string_axioms;

/// A failure of a command.
#[derive(Debug)]
pub enum PyenvError {
    /// A message to print as it is.
    Io(String),
    /// A version file names an unsafe version (version, file).
    InvalidVersion(String, String),
    /// A selected version is not installed (version, where it was set).
    VersionNotInstalled(String, String),
    /// No `.python-version` was found.
    NoLocalVersion,
}

/// The message for a version that is not installed.
pub open spec fn not_installed_text(v: Seq<char>, origin: Seq<char>) -> Seq<char> {
    "pyenv: version `"@ + v + "' is not installed (set by "@ + origin + ")"@
}

/// The message printed for an error.
pub open spec fn error_text(e: PyenvError) -> Seq<char> {
    match e {
        PyenvError::Io(m) => m@,
        PyenvError::InvalidVersion(v, p) => "pyenv: invalid version `"@ + v@ + "' ignored in `"@ + p@ + "'"@,
        PyenvError::VersionNotInstalled(v, o) => not_installed_text(v@, o@),
        PyenvError::NoLocalVersion => "pyenv: no local version configured for this directory"@,
    }
}

impl PyenvError {
    /// The message printed for the error.
    pub fn message(&self) -> (r: String)
        ensures
            r@ == error_text(*self),
    {
        match self {
            PyenvError::Io(m) => m.clone(),
            PyenvError::InvalidVersion(v, p) => cat5(
                "pyenv: invalid version `",
                v.as_str(),
                "' ignored in `",
                p.as_str(),
                "'",
            ),
            PyenvError::VersionNotInstalled(v, o) => cat5(
                "pyenv: version `",
                v.as_str(),
                "' is not installed (set by ",
                o.as_str(),
                ")",
            ),
            PyenvError::NoLocalVersion => owned("pyenv: no local version configured for this directory"),
        }
    }
}

} // verus!

//! Verified core of a Python version manager: version selection, managed virtual
//! environments, shell integration code, shims, self-update and preflight reporting.
use vstd::prelude::*;

pub mod strings;
pub mod report;
pub mod context;
pub mod error;
pub mod venv_paths;
pub mod catalog;
pub mod hooks;
pub mod preflight;
pub mod runtime;
pub mod text;
pub mod venv;
pub mod venv_compat;
pub mod windows_registry;
pub mod version;
pub mod shell;
pub mod self_update;
pub mod shim;
pub mod process;
pub mod desktop;

verus! {

} // verus!

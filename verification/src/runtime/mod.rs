//! Looking up runtimes: where executables live and which prefixes belong to a runtime.
pub mod search;
pub mod inventory;
pub mod shim_names;

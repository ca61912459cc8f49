//! Self-update: release tags and their order, the update flow, and uninstalling.
pub mod versioning;
pub mod ordering;
pub mod runner;
pub mod uninstall;

//! Shims: the commands that get one, what each shim holds, and how a shim runs its target.
pub mod rehash;
pub mod artifacts;
pub mod paths;
pub mod exec;

//! Shell integration: the shells supported, quoting, the code emitted for each shell, and
//! the shell-facing commands.
pub mod kinds;
pub mod quotes;
pub mod emit;
pub mod functions;
pub mod init;
pub mod commands;

pub mod files;
pub mod selection;
pub mod commands;
pub mod interactive;

pub mod inventory;
pub mod commands;
pub mod upgrade;

pub mod config;
pub mod date;
pub mod letter;
pub mod command;
pub mod workspace;

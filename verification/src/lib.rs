pub mod command;
pub mod config;
pub mod text;

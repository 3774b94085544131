pub mod cli;
pub mod codex;
pub mod config;
pub mod gitignore;
pub mod names;
pub mod project;
pub mod prompt;
pub mod register;
pub mod shell;
pub mod templates;
pub mod text;

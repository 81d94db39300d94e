//! A terminal REPL for interactive command input: line editing, key bindings,
//! command dispatch and prompt layout.
pub mod built_ins;
pub mod command;
pub mod commands;
pub mod config;
pub mod error;
pub mod history;
pub mod input;
pub mod keymap;
pub mod log_ecs;
pub mod plugin;
pub mod print;
pub mod prompt;
pub mod registry;
pub mod repl;
pub mod terminal;
pub mod text;
pub mod tracing;

pub use plugin::{ReplPlugins, StdoutRatatuiPlugin};

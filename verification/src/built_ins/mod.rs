//! Built-in commands: help, quit, clear, close, sysinfo, tree.
pub mod clear;
pub mod close;
pub mod help;
pub mod quit;
pub mod sysinfo;
pub mod tree;

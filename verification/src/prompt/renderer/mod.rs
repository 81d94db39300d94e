//! Prompt renderers: where the prompt bar, its text, hint and cursor go.
pub mod helpers;
pub mod alt_screen;
pub mod simple;
pub mod minimal;
pub mod pretty;
pub mod stdout;

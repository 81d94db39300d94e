//! Rendering on the main screen: the single-line layout measured in display
//! columns, and when to create or drop the terminal context.
use crate::prompt::config::ReplPromptConfig;
use crate::prompt::helpers::Rect;
use crate::prompt::renderer::minimal::{display_line_defined, display_line_layout, spec_display_line};
use crate::prompt::renderer::simple::LineLayout;
use crate::repl::{Repl, ReplLifecycleEvent};
use vstd::prelude::*;

verus! {

/// Stdout renderer: prints to stdout without a new terminal screen.
pub struct StdoutRenderer;

impl StdoutRenderer {
    /// The line layout with the configured symbol (no symbol: empty).
    pub fn layout(&self, area: Rect, cfg: &ReplPromptConfig, repl: &Repl) -> (r: Option<Option<LineLayout>>)
        ensures
            ({
                let symbol = match cfg.symbol {
                    Some(s) => s.text@,
                    None => Seq::empty(),
                };
                &&& r is Some <==> display_line_defined(area, symbol, repl.buffer@, repl.cursor_pos)
                &&& r matches Some(o) ==> match spec_display_line(area, symbol, repl.buffer@, repl.cursor_pos) {
                    None => o is None,
                    Some((line, visible, cursor)) => o matches Some(l) && l.area == line && l.visible@ == visible && l.cursor == cursor,
                }
            }),
    {
        let symbol = match &cfg.symbol {
            Some(s) => s.text.clone(),
            None => String::new(),
        };
        display_line_layout(area, symbol.as_str(), repl.buffer.as_str(), repl.cursor_pos)
    }
}

/// What to do with the terminal context on a lifecycle event.
#[derive(Debug, Clone, Copy, PartialEq, Eq, Structural)]
pub enum ContextAction {
    /// Nothing to do.
    Keep,
    /// Create the context (raw mode on) and keep a guard that restores the terminal.
    Init,
    /// Restore the terminal and drop the context and its guard.
    Restore,
}

/// Enabling creates the context when there is none; disabling restores it when
/// there is one; anything else leaves it as it is.
pub open spec fn spec_context_action(event: ReplLifecycleEvent, exists: bool) -> ContextAction {
    match event {
        ReplLifecycleEvent::Enable => if !exists {
            ContextAction::Init
        } else {
            ContextAction::Keep
        },
        ReplLifecycleEvent::Disable => if exists {
            ContextAction::Restore
        } else {
            ContextAction::Keep
        },
        ReplLifecycleEvent::Toggle => ContextAction::Keep,
    }
}

/// Manage the terminal context on lifecycle events (startup/shutdown).
pub fn manage_stdout_context(event: ReplLifecycleEvent, exists: bool) -> (r: ContextAction)
    ensures
        r == spec_context_action(event, exists),
{
    match event {
        ReplLifecycleEvent::Enable => {
            if !exists {
                ContextAction::Init
            } else {
                ContextAction::Keep
            }
        },
        ReplLifecycleEvent::Disable => {
            if exists {
                ContextAction::Restore
            } else {
                ContextAction::Keep
            }
        },
        ReplLifecycleEvent::Toggle => ContextAction::Keep,
    }
}

/// On exit the context is restored and dropped when it exists.
pub fn cleanup_stdout_context_on_exit(exists: bool) -> (r: ContextAction)
    ensures
        r == (if exists {
            ContextAction::Restore
        } else {
            ContextAction::Keep
        }),
{
    if exists {
        ContextAction::Restore
    } else {
        ContextAction::Keep
    }
}

} // verus!

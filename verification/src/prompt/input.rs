//! Prompt input: key presses to buffer events, and buffer events to edits.
use crate::keymap::{KeyEvent, KeyEventKind};
use crate::prompt::keymap::PromptKeymap;
use crate::repl::{
    apply_buffer_event, same_settings, spec_edit, BufferOutcome, Repl, ReplBufferEvent,
    ReplSubmitEvent,
};
use vstd::prelude::*;

verus! {

/// Apply one buffer event to the REPL; a submit hands out the drained line (even
/// an empty one). Clearing the screen is not an edit and changes nothing here.
pub fn update_repl_buffer(repl: &mut Repl, event: ReplBufferEvent) -> (r: Option<ReplSubmitEvent>)
    requires
        old(repl).can_apply(event),
    ensures
        (final(repl).buffer@, final(repl).cursor_pos as int) == spec_edit(
            old(repl).buffer@,
            old(repl).cursor_pos as int,
            event,
        ),
        same_settings(&*final(repl), &*old(repl)),
        event is Submit ==> (r matches Some(s) && s.0@ == old(repl).buffer@),
        !(event is Submit) ==> r is None,
{
    match apply_buffer_event(repl, event) {
        BufferOutcome::Submitted(line) => Some(ReplSubmitEvent(line)),
        _ => None,
    }
}

/// Key presses (not repeats or releases) mapped through the prompt keymap.
pub fn parse_terminal_input(keymap: &PromptKeymap, event: &KeyEvent) -> (r: Option<ReplBufferEvent>)
    ensures
        r == (if event.kind == KeyEventKind::Press {
            keymap.spec_map(*event)
        } else {
            None
        }),
{
    match event.kind {
        KeyEventKind::Press => keymap.map(event),
        _ => None,
    }
}

} // verus!

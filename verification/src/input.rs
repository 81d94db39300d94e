//! Handling one key event from the terminal while the REPL is enabled.
use crate::keymap::{KeyCode, KeyEvent, KeyEventKind, ReplKeymap, CONTROL_BIT};
use crate::repl::{
    apply_buffer_event, same_settings, spec_edit, BufferOutcome, Repl, ReplBufferEvent,
    ReplLifecycleEvent,
};
use vstd::prelude::*;

verus! {

/// Ctrl+C: the terminal is restored and the application exits.
pub open spec fn is_interrupt(ev: KeyEvent) -> bool {
    ev.modifiers.spec_contains(CONTROL_BIT) && ev.code == KeyCode::Char('c')
}

/// What handling a key event asks the application to do.
#[derive(Clone, Debug)]
pub enum KeyOutcome {
    /// Nothing: the REPL is disabled, the key was released, or it is not bound.
    Ignored,
    /// Ctrl+C: restore the terminal and exit the application.
    Exit,
    /// Send this lifecycle event.
    Lifecycle(ReplLifecycleEvent),
    /// The buffer was edited in place.
    Edited,
    /// Clear the terminal screen.
    ClearScreen,
    /// Submit this (non-empty) line.
    Submit(String),
}

/// The buffer action that `ev` leads to, if it is neither ignored nor handled before mapping.
pub open spec fn mapped_action(repl: &Repl, keymap: ReplKeymap, ev: KeyEvent) -> Option<ReplBufferEvent> {
    if repl.enabled && (ev.kind == KeyEventKind::Press || ev.kind == KeyEventKind::Repeat)
        && !is_interrupt(ev) && keymap.spec_check_lifecycle(ev) is None {
        keymap.spec_map(ev)
    } else {
        None
    }
}

/// Whether pending terminal keys are read at all: only while the REPL is
/// enabled; a disabled REPL leaves them unread for the application.
pub fn reads_terminal_keys(repl: &Repl) -> (r: bool)
    ensures
        r == repl.enabled,
{
    repl.enabled
}

/// Handle one key event: presses and repeats only; Ctrl+C exits; lifecycle
/// bindings come before editing bindings; editing actions are applied to the
/// buffer at once, and a non-empty submitted line is handed out.
pub fn capture_terminal_input(repl: &mut Repl, keymap: &ReplKeymap, ev: &KeyEvent) -> (r: KeyOutcome)
    requires
        mapped_action(&*old(repl), *keymap, *ev) matches Some(a) ==> old(repl).can_apply(a),
    ensures
        same_settings(&*final(repl), &*old(repl)),
        match mapped_action(&*old(repl), *keymap, *ev) {
            Some(a) => {
                &&& (final(repl).buffer@, final(repl).cursor_pos as int) == spec_edit(
                    old(repl).buffer@,
                    old(repl).cursor_pos as int,
                    a,
                )
                &&& match a {
                    ReplBufferEvent::ClearScreen => r is ClearScreen,
                    ReplBufferEvent::Submit => if old(repl).buffer@.len() == 0 {
                        r is Ignored
                    } else {
                        (r matches KeyOutcome::Submit(line) && line@ == old(repl).buffer@)
                    },
                    _ => r is Edited,
                }
            },
            None => {
                &&& final(repl).buffer@ == old(repl).buffer@
                &&& final(repl).cursor_pos == old(repl).cursor_pos
                &&& if !old(repl).enabled || !(ev.kind == KeyEventKind::Press || ev.kind
                    == KeyEventKind::Repeat) {
                    r is Ignored
                } else if is_interrupt(*ev) {
                    r is Exit
                } else if keymap.spec_check_lifecycle(*ev) is Some {
                    r == KeyOutcome::Lifecycle(keymap.spec_check_lifecycle(*ev)->0)
                } else {
                    r is Ignored
                }
            },
        },
{
    if !repl.enabled {
        return KeyOutcome::Ignored;
    }
    let pressed = match ev.kind {
        KeyEventKind::Press | KeyEventKind::Repeat => true,
        KeyEventKind::Release => false,
    };
    if !pressed {
        return KeyOutcome::Ignored;
    }
    let ctrl = crate::keymap::KeyModifiers::control();
    if ev.modifiers.contains(ctrl) && ev.code == KeyCode::Char('c') {
        return KeyOutcome::Exit;
    }
    if let Some(lifecycle) = keymap.check_lifecycle(ev) {
        return KeyOutcome::Lifecycle(lifecycle);
    }
    match keymap.map(ev) {
        Some(action) => match apply_buffer_event(repl, action) {
            BufferOutcome::Edited => KeyOutcome::Edited,
            BufferOutcome::ClearScreen => KeyOutcome::ClearScreen,
            BufferOutcome::Submitted(line) => {
                if line.as_str().is_empty() {
                    KeyOutcome::Ignored
                } else {
                    KeyOutcome::Submit(line)
                }
            },
        },
        None => KeyOutcome::Ignored,
    }
}

} // verus!

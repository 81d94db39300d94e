//! The prompt's own keymap: exact chords for editing actions, then plain
//! character insertion.
use crate::keymap::{
    normalize_nonchar_mods, plain_char, plain_char_of, KeyCode, KeyEvent, KeyModifiers,
};
use crate::repl::ReplBufferEvent;
use vstd::prelude::*;

verus! {

/// An exact key chord of the prompt keymap.
#[derive(Clone, Copy, Debug, PartialEq, Eq, Structural)]
pub struct Binding {
    pub code: KeyCode,
    pub mods: KeyModifiers,
}

impl Binding {
    /// Character keys match on code and exact modifiers; other keys ignore SHIFT.
    pub open spec fn spec_matches(self, ev: KeyEvent) -> bool {
        match self.code {
            KeyCode::Char(_) => ev.code == self.code && ev.modifiers == self.mods,
            _ => ev.code == self.code && ev.modifiers.without_shift() == self.mods.without_shift(),
        }
    }

    fn matches(&self, ev: &KeyEvent) -> (r: bool)
        ensures
            r == self.spec_matches(*ev),
    {
        match self.code {
            KeyCode::Char(_) => ev.code == self.code && ev.modifiers == self.mods,
            _ => {
                ev.code == self.code && normalize_nonchar_mods(ev.modifiers)
                    == normalize_nonchar_mods(self.mods)
            },
        }
    }
}

/// `b` is set and matches `ev`.
pub open spec fn hits(b: Option<Binding>, ev: KeyEvent) -> bool {
    match b {
        Some(x) => x.spec_matches(ev),
        None => false,
    }
}

fn binding_hits(b: &Option<Binding>, ev: &KeyEvent) -> (r: bool)
    ensures
        r == hits(*b, *ev),
{
    match b {
        Some(x) => x.matches(ev),
        None => false,
    }
}

/// Keymap for mapping exact (key code, modifiers) to REPL actions.
#[derive(Clone, Copy, Debug)]
pub struct PromptKeymap {
    pub submit: Option<Binding>,
    pub backspace: Option<Binding>,
    pub left: Option<Binding>,
    pub right: Option<Binding>,
    pub home: Option<Binding>,
    pub end: Option<Binding>,
    pub delete: Option<Binding>,
    pub clear: Option<Binding>,
    /// Whether to insert plain chars (no modifiers, or SHIFT alone) into the buffer.
    pub allow_plain_char_insert: bool,
}

impl PromptKeymap {
    /// The action bound to `ev`: explicit bindings in precedence order, then plain
    /// character insertion when allowed.
    pub open spec fn spec_map(self, ev: KeyEvent) -> Option<ReplBufferEvent> {
        if hits(self.submit, ev) {
            Some(ReplBufferEvent::Submit)
        } else if hits(self.backspace, ev) {
            Some(ReplBufferEvent::Backspace)
        } else if hits(self.left, ev) {
            Some(ReplBufferEvent::MoveLeft)
        } else if hits(self.right, ev) {
            Some(ReplBufferEvent::MoveRight)
        } else if hits(self.home, ev) {
            Some(ReplBufferEvent::JumpToStart)
        } else if hits(self.end, ev) {
            Some(ReplBufferEvent::JumpToEnd)
        } else if hits(self.delete, ev) {
            Some(ReplBufferEvent::Delete)
        } else if hits(self.clear, ev) {
            Some(ReplBufferEvent::Clear)
        } else if self.allow_plain_char_insert && plain_char(ev) is Some {
            Some(ReplBufferEvent::Insert(plain_char(ev)->0))
        } else {
            None
        }
    }

    /// Enter submits, Backspace/Delete erase, arrows/Home/End move, Esc clears.
    pub open spec fn spec_default() -> PromptKeymap {
        PromptKeymap {
            submit: Some(Binding { code: KeyCode::Enter, mods: KeyModifiers { bits: 0 } }),
            backspace: Some(Binding { code: KeyCode::Backspace, mods: KeyModifiers { bits: 0 } }),
            left: Some(Binding { code: KeyCode::Left, mods: KeyModifiers { bits: 0 } }),
            right: Some(Binding { code: KeyCode::Right, mods: KeyModifiers { bits: 0 } }),
            home: Some(Binding { code: KeyCode::Home, mods: KeyModifiers { bits: 0 } }),
            end: Some(Binding { code: KeyCode::End, mods: KeyModifiers { bits: 0 } }),
            delete: Some(Binding { code: KeyCode::Delete, mods: KeyModifiers { bits: 0 } }),
            clear: Some(Binding { code: KeyCode::Esc, mods: KeyModifiers { bits: 0 } }),
            allow_plain_char_insert: true,
        }
    }

    pub fn map(&self, event: &KeyEvent) -> (r: Option<ReplBufferEvent>)
        ensures
            r == self.spec_map(*event),
    {
        if binding_hits(&self.submit, event) {
            return Some(ReplBufferEvent::Submit);
        }
        if binding_hits(&self.backspace, event) {
            return Some(ReplBufferEvent::Backspace);
        }
        if binding_hits(&self.left, event) {
            return Some(ReplBufferEvent::MoveLeft);
        }
        if binding_hits(&self.right, event) {
            return Some(ReplBufferEvent::MoveRight);
        }
        if binding_hits(&self.home, event) {
            return Some(ReplBufferEvent::JumpToStart);
        }
        if binding_hits(&self.end, event) {
            return Some(ReplBufferEvent::JumpToEnd);
        }
        if binding_hits(&self.delete, event) {
            return Some(ReplBufferEvent::Delete);
        }
        if binding_hits(&self.clear, event) {
            return Some(ReplBufferEvent::Clear);
        }
        if self.allow_plain_char_insert {
            if let Some(c) = plain_char_of(event) {
                return Some(ReplBufferEvent::Insert(c));
            }
        }
        None
    }

    /// A keymap with no bindings and no character insertion.
    pub fn none() -> (k: PromptKeymap)
        ensures
            forall|ev: KeyEvent| #[trigger] k.spec_map(ev) is None,
    {
        PromptKeymap {
            submit: None,
            backspace: None,
            left: None,
            right: None,
            home: None,
            end: None,
            delete: None,
            clear: None,
            allow_plain_char_insert: false,
        }
    }
}

impl Default for PromptKeymap {
    fn default() -> (k: PromptKeymap)
        ensures
            k == PromptKeymap::spec_default(),
    {
        let plain = KeyModifiers::none();
        PromptKeymap {
            submit: Some(Binding { code: KeyCode::Enter, mods: plain }),
            backspace: Some(Binding { code: KeyCode::Backspace, mods: plain }),
            left: Some(Binding { code: KeyCode::Left, mods: plain }),
            right: Some(Binding { code: KeyCode::Right, mods: plain }),
            home: Some(Binding { code: KeyCode::Home, mods: plain }),
            end: Some(Binding { code: KeyCode::End, mods: plain }),
            delete: Some(Binding { code: KeyCode::Delete, mods: plain }),
            clear: Some(Binding { code: KeyCode::Esc, mods: plain }),
            allow_plain_char_insert: true,
        }
    }
}

/// With the default prompt keymap, every character typed alone or with SHIFT is inserted.
pub proof fn law_default_prompt_keymap_inserts_chars(c: char, shift: bool)
    ensures
        PromptKeymap::spec_default().spec_map(
            KeyEvent {
                code: KeyCode::Char(c),
                modifiers: KeyModifiers { bits: if shift { 1 } else { 0 } },
                kind: crate::keymap::KeyEventKind::Press,
            },
        ) == Some(ReplBufferEvent::Insert(c)),
{
}

} // verus!

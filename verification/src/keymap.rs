//! Key events and the REPL keymap: which key chords edit the buffer and which
//! switch the REPL on or off.
use crate::repl::{spec_edit, ReplBufferEvent, ReplLifecycleEvent};
use crate::text::{byte_len, char_index, remove_at};
use vstd::prelude::*;

verus! {

/// A key as reported by the terminal.
#[derive(Clone, Copy, Debug, PartialEq, Eq, Structural)]
pub enum KeyCode {
    Backspace,
    Enter,
    Left,
    Right,
    Up,
    Down,
    Home,
    End,
    PageUp,
    PageDown,
    Tab,
    BackTab,
    Delete,
    Insert,
    F(u8),
    Char(char),
    Null,
    Esc,
    CapsLock,
    ScrollLock,
    NumLock,
    PrintScreen,
    Pause,
    Menu,
    KeypadBegin,
    /// A media key, by its position in the terminal library's list of media keys.
    Media(u8),
    /// A bare modifier key, by its position in the terminal library's list of modifier keys.
    Modifier(u8),
}

/// Modifier keys held with a key, as a bit set.
#[derive(Clone, Copy, Debug, PartialEq, Eq, Structural)]
pub struct KeyModifiers {
    pub bits: u8,
}

/// The bit that marks SHIFT in a modifier set.
pub const SHIFT_BIT: u8 = 0x01;

/// The bit that marks CONTROL in a modifier set.
pub const CONTROL_BIT: u8 = 0x02;

/// The bit that marks ALT in a modifier set.
pub const ALT_BIT: u8 = 0x04;

impl KeyModifiers {
    pub fn none() -> (m: KeyModifiers)
        ensures
            m.bits == 0,
    {
        KeyModifiers { bits: 0 }
    }

    pub fn shift() -> (m: KeyModifiers)
        ensures
            m.bits == SHIFT_BIT,
    {
        KeyModifiers { bits: SHIFT_BIT }
    }

    pub fn control() -> (m: KeyModifiers)
        ensures
            m.bits == CONTROL_BIT,
    {
        KeyModifiers { bits: CONTROL_BIT }
    }

    pub fn alt() -> (m: KeyModifiers)
        ensures
            m.bits == ALT_BIT,
    {
        KeyModifiers { bits: ALT_BIT }
    }

    pub fn is_empty(&self) -> (b: bool)
        ensures
            b == (self.bits == 0),
    {
        self.bits == 0
    }

    pub open spec fn spec_contains(self, bit: u8) -> bool {
        self.bits & bit == bit
    }

    /// All bits of `other` are set in `self`.
    pub fn contains(&self, other: KeyModifiers) -> (b: bool)
        ensures
            b == self.spec_contains(other.bits),
    {
        self.bits & other.bits == other.bits
    }

    /// The set without SHIFT.
    pub open spec fn without_shift(self) -> KeyModifiers {
        KeyModifiers { bits: self.bits & 0xFE }
    }
}

/// Whether a key was pressed, auto-repeated or released.
#[derive(Clone, Copy, Debug, PartialEq, Eq, Structural)]
pub enum KeyEventKind {
    Press,
    Repeat,
    Release,
}

/// One key event from the terminal.
#[derive(Clone, Copy, Debug, PartialEq, Eq, Structural)]
pub struct KeyEvent {
    pub code: KeyCode,
    pub modifiers: KeyModifiers,
    pub kind: KeyEventKind,
}

/// SHIFT is dropped from the modifiers of non-character keys before comparing,
/// since terminals report it inconsistently for those keys.
pub fn normalize_nonchar_mods(mods: KeyModifiers) -> (m: KeyModifiers)
    ensures
        m == mods.without_shift(),
{
    KeyModifiers { bits: mods.bits & 0xFE }
}

/// An exact key chord: a key code together with its modifiers.
#[derive(Clone, Copy, Debug, PartialEq, Eq, Structural)]
pub struct Binding {
    pub code: KeyCode,
    pub mods: KeyModifiers,
}

impl Binding {
    /// Character keys match on code and exact modifiers. Other keys ignore a
    /// SHIFT that the binding does not ask for (terminals report it
    /// inconsistently for them), but a binding with SHIFT needs SHIFT held.
    pub open spec fn spec_matches(self, ev: KeyEvent) -> bool {
        match self.code {
            KeyCode::Char(_) => ev.code == self.code && ev.modifiers == self.mods,
            _ => {
                &&& ev.code == self.code
                &&& ev.modifiers.without_shift() == self.mods.without_shift()
                &&& self.mods.spec_contains(SHIFT_BIT) ==> ev.modifiers.spec_contains(SHIFT_BIT)
            },
        }
    }

    pub fn new(code: KeyCode, mods: KeyModifiers) -> (b: Binding)
        ensures
            b.code == code,
            b.mods == mods,
    {
        Binding { code, mods }
    }

    pub fn plain(code: KeyCode) -> (b: Binding)
        ensures
            b.code == code,
            b.mods.bits == 0,
    {
        Binding { code, mods: KeyModifiers::none() }
    }

    pub fn matches(&self, ev: &KeyEvent) -> (r: bool)
        ensures
            r == self.spec_matches(*ev),
    {
        match self.code {
            KeyCode::Char(_) => ev.code == self.code && ev.modifiers == self.mods,
            _ => {
                ev.code == self.code && normalize_nonchar_mods(ev.modifiers)
                    == normalize_nonchar_mods(self.mods) && (!self.mods.contains(
                    KeyModifiers::shift(),
                ) || ev.modifiers.contains(KeyModifiers::shift()))
            },
        }
    }
}

/// `b` is set and matches `ev`.
pub open spec fn hits(b: Option<Binding>, ev: KeyEvent) -> bool {
    match b {
        Some(x) => x.spec_matches(ev),
        None => false,
    }
}

pub fn binding_hits(b: &Option<Binding>, ev: &KeyEvent) -> (r: bool)
    ensures
        r == hits(*b, *ev),
{
    match b {
        Some(x) => x.matches(ev),
        None => false,
    }
}

/// A character key typed with no modifiers or with SHIFT alone.
pub open spec fn plain_char(ev: KeyEvent) -> Option<char> {
    match ev.code {
        KeyCode::Char(c) => if ev.modifiers.bits == 0 || ev.modifiers.bits == SHIFT_BIT {
            Some(c)
        } else {
            None
        },
        _ => None,
    }
}

pub fn plain_char_of(ev: &KeyEvent) -> (r: Option<char>)
    ensures
        r == plain_char(*ev),
{
    match ev.code {
        KeyCode::Char(c) => {
            if ev.modifiers.bits == 0 || ev.modifiers.bits == SHIFT_BIT {
                Some(c)
            } else {
                None
            }
        },
        _ => None,
    }
}

/// Keymap for mapping exact (key code, modifiers) to REPL buffer editing actions.
#[derive(Clone, Copy, Debug)]
pub struct ReplKeymap {
    pub enable: Option<Binding>,
    pub disable: Option<Binding>,
    pub toggle: Option<Binding>,
    pub submit: Option<Binding>,
    pub newline: Option<Binding>,
    pub backspace: Option<Binding>,
    pub left: Option<Binding>,
    pub right: Option<Binding>,
    pub home: Option<Binding>,
    pub end: Option<Binding>,
    pub delete: Option<Binding>,
    pub clear: Option<Binding>,
    pub clear_to_start: Option<Binding>,
    pub clear_screen: Option<Binding>,
    /// Whether to insert plain characters (no modifiers or Shift only) into buffer
    pub allow_plain_char_insert: bool,
}

impl ReplKeymap {
    /// The lifecycle transition that `ev` asks for: toggle first, then enable, then disable.
    pub open spec fn spec_check_lifecycle(self, ev: KeyEvent) -> Option<ReplLifecycleEvent> {
        if hits(self.toggle, ev) {
            Some(ReplLifecycleEvent::Toggle)
        } else if hits(self.enable, ev) {
            Some(ReplLifecycleEvent::Enable)
        } else if hits(self.disable, ev) {
            Some(ReplLifecycleEvent::Disable)
        } else {
            None
        }
    }

    /// The buffer action bound to `ev`: explicit bindings in precedence order, then
    /// plain character insertion when allowed.
    pub open spec fn spec_map(self, ev: KeyEvent) -> Option<ReplBufferEvent> {
        if hits(self.newline, ev) {
            Some(ReplBufferEvent::Insert('\n'))
        } else if hits(self.submit, ev) {
            Some(ReplBufferEvent::Submit)
        } else if hits(self.backspace, ev) {
            Some(ReplBufferEvent::Backspace)
        } else if hits(self.left, ev) {
            Some(ReplBufferEvent::MoveLeft)
        } else if hits(self.right, ev) {
            Some(ReplBufferEvent::MoveRight)
        } else if hits(self.home, ev) {
            Some(ReplBufferEvent::JumpToStart)
        } else if hits(self.end, ev) {
            Some(ReplBufferEvent::JumpToEnd)
        } else if hits(self.delete, ev) {
            Some(ReplBufferEvent::Delete)
        } else if hits(self.clear, ev) {
            Some(ReplBufferEvent::Clear)
        } else if hits(self.clear_to_start, ev) {
            Some(ReplBufferEvent::ClearToStart)
        } else if hits(self.clear_screen, ev) {
            Some(ReplBufferEvent::ClearScreen)
        } else if self.allow_plain_char_insert && plain_char(ev) is Some {
            Some(ReplBufferEvent::Insert(plain_char(ev)->0))
        } else {
            None
        }
    }

    /// The default bindings: backquote toggles, Enter submits, Shift+Enter inserts a
    /// newline, arrows/Home/End move, Backspace/Delete erase, Ctrl+C clears,
    /// Ctrl+U clears to the start, Ctrl+L clears the screen.
    pub open spec fn spec_default() -> ReplKeymap {
        ReplKeymap {
            enable: None,
            disable: None,
            toggle: Some(Binding { code: KeyCode::Char('`'), mods: KeyModifiers { bits: 0 } }),
            submit: Some(Binding { code: KeyCode::Enter, mods: KeyModifiers { bits: 0 } }),
            newline: Some(Binding { code: KeyCode::Enter, mods: KeyModifiers { bits: SHIFT_BIT } }),
            backspace: Some(Binding { code: KeyCode::Backspace, mods: KeyModifiers { bits: 0 } }),
            left: Some(Binding { code: KeyCode::Left, mods: KeyModifiers { bits: 0 } }),
            right: Some(Binding { code: KeyCode::Right, mods: KeyModifiers { bits: 0 } }),
            home: Some(Binding { code: KeyCode::Home, mods: KeyModifiers { bits: 0 } }),
            end: Some(Binding { code: KeyCode::End, mods: KeyModifiers { bits: 0 } }),
            delete: Some(Binding { code: KeyCode::Delete, mods: KeyModifiers { bits: 0 } }),
            clear: Some(Binding { code: KeyCode::Char('c'), mods: KeyModifiers { bits: CONTROL_BIT } }),
            clear_to_start: Some(
                Binding { code: KeyCode::Char('u'), mods: KeyModifiers { bits: CONTROL_BIT } },
            ),
            clear_screen: Some(
                Binding { code: KeyCode::Char('l'), mods: KeyModifiers { bits: CONTROL_BIT } },
            ),
            allow_plain_char_insert: true,
        }
    }

    /// A keymap with no bindings and no character insertion.
    pub open spec fn spec_unset() -> ReplKeymap {
        ReplKeymap {
            enable: None,
            disable: None,
            toggle: None,
            submit: None,
            newline: None,
            backspace: None,
            left: None,
            right: None,
            home: None,
            end: None,
            delete: None,
            clear: None,
            clear_to_start: None,
            clear_screen: None,
            allow_plain_char_insert: false,
        }
    }

    /// Check if the key event matches any lifecycle transitions (enable, disable, toggle).
    pub fn check_lifecycle(&self, event: &KeyEvent) -> (r: Option<ReplLifecycleEvent>)
        ensures
            r == self.spec_check_lifecycle(*event),
    {
        if binding_hits(&self.toggle, event) {
            return Some(ReplLifecycleEvent::Toggle);
        }
        if binding_hits(&self.enable, event) {
            return Some(ReplLifecycleEvent::Enable);
        }
        if binding_hits(&self.disable, event) {
            return Some(ReplLifecycleEvent::Disable);
        }
        None
    }

    /// Map key event to a buffer modification action.
    pub fn map(&self, event: &KeyEvent) -> (r: Option<ReplBufferEvent>)
        ensures
            r == self.spec_map(*event),
    {
        if binding_hits(&self.newline, event) {
            return Some(ReplBufferEvent::Insert('\n'));
        }
        if binding_hits(&self.submit, event) {
            return Some(ReplBufferEvent::Submit);
        }
        if binding_hits(&self.backspace, event) {
            return Some(ReplBufferEvent::Backspace);
        }
        if binding_hits(&self.left, event) {
            return Some(ReplBufferEvent::MoveLeft);
        }
        if binding_hits(&self.right, event) {
            return Some(ReplBufferEvent::MoveRight);
        }
        if binding_hits(&self.home, event) {
            return Some(ReplBufferEvent::JumpToStart);
        }
        if binding_hits(&self.end, event) {
            return Some(ReplBufferEvent::JumpToEnd);
        }
        if binding_hits(&self.delete, event) {
            return Some(ReplBufferEvent::Delete);
        }
        if binding_hits(&self.clear, event) {
            return Some(ReplBufferEvent::Clear);
        }
        if binding_hits(&self.clear_to_start, event) {
            return Some(ReplBufferEvent::ClearToStart);
        }
        if binding_hits(&self.clear_screen, event) {
            return Some(ReplBufferEvent::ClearScreen);
        }
        if self.allow_plain_char_insert {
            if let Some(c) = plain_char_of(event) {
                return Some(ReplBufferEvent::Insert(c));
            }
        }
        None
    }

    pub fn unset() -> (k: ReplKeymap)
        ensures
            k == ReplKeymap::spec_unset(),
    {
        ReplKeymap {
            enable: None,
            disable: None,
            toggle: None,
            submit: None,
            newline: None,
            backspace: None,
            left: None,
            right: None,
            home: None,
            end: None,
            delete: None,
            clear: None,
            clear_to_start: None,
            clear_screen: None,
            allow_plain_char_insert: false,
        }
    }
}

impl Default for ReplKeymap {
    fn default() -> (k: ReplKeymap)
        ensures
            k == ReplKeymap::spec_default(),
    {
        ReplKeymap {
            enable: None,
            disable: None,
            toggle: Some(Binding::plain(KeyCode::Char('`'))),
            submit: Some(Binding::plain(KeyCode::Enter)),
            newline: Some(Binding::new(KeyCode::Enter, KeyModifiers::shift())),
            backspace: Some(Binding::plain(KeyCode::Backspace)),
            left: Some(Binding::plain(KeyCode::Left)),
            right: Some(Binding::plain(KeyCode::Right)),
            home: Some(Binding::plain(KeyCode::Home)),
            end: Some(Binding::plain(KeyCode::End)),
            delete: Some(Binding::plain(KeyCode::Delete)),
            clear: Some(Binding::new(KeyCode::Char('c'), KeyModifiers::control())),
            clear_to_start: Some(Binding::new(KeyCode::Char('u'), KeyModifiers::control())),
            clear_screen: Some(Binding::new(KeyCode::Char('l'), KeyModifiers::control())),
            allow_plain_char_insert: true,
        }
    }
}

/// A keymap without bindings never maps an event to an action or a lifecycle change.
pub proof fn law_unset_keymap_is_inert(ev: KeyEvent)
    ensures
        ReplKeymap::spec_unset().spec_map(ev) is None,
        ReplKeymap::spec_unset().spec_check_lifecycle(ev) is None,
{
}

/// For keys other than characters, holding SHIFT does not change whether a
/// binding without SHIFT matches.
pub proof fn law_shift_ignored_for_nonchar_keys(b: Binding, ev: KeyEvent)
    requires
        !(b.code is Char),
        !b.mods.spec_contains(SHIFT_BIT),
    ensures
        b.spec_matches(ev) == b.spec_matches(
            KeyEvent { modifiers: KeyModifiers { bits: ev.modifiers.bits | SHIFT_BIT }, ..ev },
        ),
{
    let m = ev.modifiers.bits;
    assert((m | 0x01u8) & 0xFEu8 == m & 0xFEu8) by (bit_vector);
    assert((m | 0x01u8) & 0x01u8 == 0x01u8) by (bit_vector);
}

/// With the default keymap a plain Enter submits the line and Shift+Enter
/// inserts a newline.
pub proof fn law_default_enter_submits(kind: KeyEventKind)
    ensures
        ReplKeymap::spec_default().spec_map(
            KeyEvent { code: KeyCode::Enter, modifiers: KeyModifiers { bits: 0 }, kind },
        ) == Some(ReplBufferEvent::Submit),
        ReplKeymap::spec_default().spec_map(
            KeyEvent { code: KeyCode::Enter, modifiers: KeyModifiers { bits: SHIFT_BIT }, kind },
        ) == Some(ReplBufferEvent::Insert('\n')),
{
    assert(0u8 & 0x01u8 == 0u8) by (bit_vector);
    assert(0x01u8 & 0x01u8 == 0x01u8) by (bit_vector);
    assert(0x01u8 & 0xFEu8 == 0u8) by (bit_vector);
    assert(0u8 & 0xFEu8 == 0u8) by (bit_vector);
}

/// With the default keymap every plain character key inserts that character,
/// except the backquote, which toggles the REPL instead.
pub proof fn law_default_plain_chars_insert(c: char)
    requires
        c != '`',
    ensures
        ReplKeymap::spec_default().spec_map(
            KeyEvent {
                code: KeyCode::Char(c),
                modifiers: KeyModifiers { bits: 0 },
                kind: KeyEventKind::Press,
            },
        ) == Some(ReplBufferEvent::Insert(c)),
        ReplKeymap::spec_default().spec_check_lifecycle(
            KeyEvent {
                code: KeyCode::Char(c),
                modifiers: KeyModifiers { bits: 0 },
                kind: KeyEventKind::Press,
            },
        ) is None,
{
}

/// An event that hits a binding, and none of the bindings checked before it
/// (newline, submit, backspace, left, right, home, end, delete, clear,
/// clear-to-start, clear-screen, in that order), gets that binding's own action.
pub proof fn law_binding_gives_its_action(k: ReplKeymap, ev: KeyEvent)
    ensures
        hits(k.newline, ev) ==> k.spec_map(ev) == Some(ReplBufferEvent::Insert('\n')),
        !hits(k.newline, ev) && hits(k.submit, ev) ==> k.spec_map(ev) == Some(ReplBufferEvent::Submit),
        !hits(k.newline, ev) && !hits(k.submit, ev) && hits(k.backspace, ev) ==> k.spec_map(ev) == Some(ReplBufferEvent::Backspace),
        !hits(k.newline, ev) && !hits(k.submit, ev) && !hits(k.backspace, ev) && hits(k.left, ev) ==> k.spec_map(ev) == Some(ReplBufferEvent::MoveLeft),
        !hits(k.newline, ev) && !hits(k.submit, ev) && !hits(k.backspace, ev) && !hits(k.left, ev) && hits(k.right, ev) ==> k.spec_map(ev) == Some(ReplBufferEvent::MoveRight),
        !hits(k.newline, ev) && !hits(k.submit, ev) && !hits(k.backspace, ev) && !hits(k.left, ev) && !hits(k.right, ev) && hits(k.home, ev) ==> k.spec_map(ev) == Some(ReplBufferEvent::JumpToStart),
        !hits(k.newline, ev) && !hits(k.submit, ev) && !hits(k.backspace, ev) && !hits(k.left, ev) && !hits(k.right, ev) && !hits(k.home, ev) && hits(k.end, ev) ==> k.spec_map(ev) == Some(ReplBufferEvent::JumpToEnd),
        !hits(k.newline, ev) && !hits(k.submit, ev) && !hits(k.backspace, ev) && !hits(k.left, ev) && !hits(k.right, ev) && !hits(k.home, ev) && !hits(k.end, ev) && hits(k.delete, ev) ==> k.spec_map(ev) == Some(ReplBufferEvent::Delete),
        !hits(k.newline, ev) && !hits(k.submit, ev) && !hits(k.backspace, ev) && !hits(k.left, ev) && !hits(k.right, ev) && !hits(k.home, ev) && !hits(k.end, ev) && !hits(k.delete, ev) && hits(k.clear, ev) ==> k.spec_map(ev) == Some(ReplBufferEvent::Clear),
        !hits(k.newline, ev) && !hits(k.submit, ev) && !hits(k.backspace, ev) && !hits(k.left, ev) && !hits(k.right, ev) && !hits(k.home, ev) && !hits(k.end, ev) && !hits(k.delete, ev) && !hits(k.clear, ev) && hits(k.clear_to_start, ev) ==> k.spec_map(ev) == Some(ReplBufferEvent::ClearToStart),
        !hits(k.newline, ev) && !hits(k.submit, ev) && !hits(k.backspace, ev) && !hits(k.left, ev) && !hits(k.right, ev) && !hits(k.home, ev) && !hits(k.end, ev) && !hits(k.delete, ev) && !hits(k.clear, ev) && !hits(k.clear_to_start, ev) && hits(k.clear_screen, ev) ==> k.spec_map(ev) == Some(ReplBufferEvent::ClearScreen),
{
}

/// Every named editing action comes from its own binding: the keymap answers
/// Backspace only to an event that hits its backspace binding, MoveLeft only to
/// one that hits its left binding, and so on; a character is inserted only by
/// the newline binding or, when allowed, as a plain character.
pub proof fn law_actions_come_from_their_bindings(k: ReplKeymap, ev: KeyEvent, c: char)
    ensures
        k.spec_map(ev) == Some(ReplBufferEvent::Submit) ==> hits(k.submit, ev),
        k.spec_map(ev) == Some(ReplBufferEvent::Backspace) ==> hits(k.backspace, ev),
        k.spec_map(ev) == Some(ReplBufferEvent::MoveLeft) ==> hits(k.left, ev),
        k.spec_map(ev) == Some(ReplBufferEvent::MoveRight) ==> hits(k.right, ev),
        k.spec_map(ev) == Some(ReplBufferEvent::JumpToStart) ==> hits(k.home, ev),
        k.spec_map(ev) == Some(ReplBufferEvent::JumpToEnd) ==> hits(k.end, ev),
        k.spec_map(ev) == Some(ReplBufferEvent::Delete) ==> hits(k.delete, ev),
        k.spec_map(ev) == Some(ReplBufferEvent::Clear) ==> hits(k.clear, ev),
        k.spec_map(ev) == Some(ReplBufferEvent::ClearToStart) ==> hits(k.clear_to_start, ev),
        k.spec_map(ev) == Some(ReplBufferEvent::ClearScreen) ==> hits(k.clear_screen, ev),
        k.spec_map(ev) == Some(ReplBufferEvent::Insert(c)) ==> (hits(k.newline, ev) && c == '\n')
            || (k.allow_plain_char_insert && plain_char(ev) == Some(c)),
{
}

/// With the default keymap the editing keys do what they are named for,
/// whether or not SHIFT is held and however the key was reported (press,
/// repeat or release): Backspace and Delete erase, the arrows, Home and End
/// move, Ctrl+C clears, Ctrl+U clears to the start, Ctrl+L clears the screen,
/// and the backquote toggles the REPL.
pub proof fn law_default_editing_keys(kind: KeyEventKind, shift: bool)
    ensures
        ({
            let d = ReplKeymap::spec_default();
            let m = KeyModifiers { bits: if shift { SHIFT_BIT } else { 0 } };
            let ctrl = KeyModifiers { bits: CONTROL_BIT };
            &&& d.spec_map(KeyEvent { code: KeyCode::Backspace, modifiers: m, kind }) == Some(
                ReplBufferEvent::Backspace,
            )
            &&& d.spec_map(KeyEvent { code: KeyCode::Delete, modifiers: m, kind }) == Some(
                ReplBufferEvent::Delete,
            )
            &&& d.spec_map(KeyEvent { code: KeyCode::Left, modifiers: m, kind }) == Some(
                ReplBufferEvent::MoveLeft,
            )
            &&& d.spec_map(KeyEvent { code: KeyCode::Right, modifiers: m, kind }) == Some(
                ReplBufferEvent::MoveRight,
            )
            &&& d.spec_map(KeyEvent { code: KeyCode::Home, modifiers: m, kind }) == Some(
                ReplBufferEvent::JumpToStart,
            )
            &&& d.spec_map(KeyEvent { code: KeyCode::End, modifiers: m, kind }) == Some(
                ReplBufferEvent::JumpToEnd,
            )
            &&& d.spec_map(KeyEvent { code: KeyCode::Char('c'), modifiers: ctrl, kind }) == Some(
                ReplBufferEvent::Clear,
            )
            &&& d.spec_map(KeyEvent { code: KeyCode::Char('u'), modifiers: ctrl, kind }) == Some(
                ReplBufferEvent::ClearToStart,
            )
            &&& d.spec_map(KeyEvent { code: KeyCode::Char('l'), modifiers: ctrl, kind }) == Some(
                ReplBufferEvent::ClearScreen,
            )
            &&& d.spec_check_lifecycle(
                KeyEvent { code: KeyCode::Char('`'), modifiers: KeyModifiers { bits: 0 }, kind },
            ) == Some(ReplLifecycleEvent::Toggle)
        }),
{
    assert(0u8 & 0x01u8 == 0u8) by (bit_vector);
    assert(0x01u8 & 0x01u8 == 0x01u8) by (bit_vector);
    assert(0x01u8 & 0xFEu8 == 0u8) by (bit_vector);
    assert(0u8 & 0xFEu8 == 0u8) by (bit_vector);
}

/// With the default keymap, on a buffer `s` with the cursor at byte `cur`
/// inside it: Backspace removes the character before the cursor and moves the
/// cursor back, Delete removes the character at the cursor and keeps it, and
/// Left and Right move the cursor by one without touching the text.
pub proof fn law_default_keys_edit_the_buffer(s: Seq<char>, cur: int, kind: KeyEventKind)
    requires
        0 < cur < byte_len(s),
    ensures
        ({
            let d = ReplKeymap::spec_default();
            let m = KeyModifiers { bits: 0 };
            &&& spec_edit(
                s,
                cur,
                d.spec_map(KeyEvent { code: KeyCode::Backspace, modifiers: m, kind })->0,
            ) == (remove_at(s, char_index(s, cur - 1)), cur - 1)
            &&& spec_edit(
                s,
                cur,
                d.spec_map(KeyEvent { code: KeyCode::Delete, modifiers: m, kind })->0,
            ) == (remove_at(s, char_index(s, cur)), cur)
            &&& spec_edit(
                s,
                cur,
                d.spec_map(KeyEvent { code: KeyCode::Left, modifiers: m, kind })->0,
            ) == (s, cur - 1)
            &&& spec_edit(
                s,
                cur,
                d.spec_map(KeyEvent { code: KeyCode::Right, modifiers: m, kind })->0,
            ) == (s, cur + 1)
        }),
{
    law_default_editing_keys(kind, false);
}

} // verus!

//! The REPL state: whether it is enabled, the prompt symbol, the line being
//! edited with its cursor, the keymap and the registered commands.
//!
//! `cursor_pos` is a byte offset into `buffer`, as in Rust's `String` API. The
//! contracts describe the buffer by its characters and locate the cursor with
//! `char_index`; editing at a byte offset that is not a character boundary is
//! where `String` itself would panic, and those inputs are excluded.
use crate::command::CommandTable;
use crate::keymap::ReplKeymap;
use crate::text::{
    all_ascii, byte_len, byte_offset, char_index, char_index_of_byte, char_width, insert_at,
    is_boundary, lemma_ascii_byte_len, lemma_ascii_offsets, lemma_byte_len_empty,
    lemma_byte_len_push, lemma_byte_offset_full, lemma_byte_offset_strict, lemma_char_index,
    remove_at, str_byte_len, string_from_chars, string_from_range, to_chars,
};
use vstd::prelude::*;

verus! {

/// Editing actions on the REPL buffer.
#[derive(Clone, Copy, Debug, PartialEq, Eq, Structural)]
pub enum ReplBufferEvent {
    Insert(char),
    Backspace,
    Delete,
    MoveLeft,
    MoveRight,
    JumpToStart,
    JumpToEnd,
    Clear,
    ClearToStart,
    ClearScreen,
    Submit,
}

/// A line submitted from the prompt.
#[derive(Clone, Debug)]
pub struct ReplSubmitEvent(pub String);

/// Request to enable, disable or toggle the REPL.
#[derive(Clone, Copy, Debug, PartialEq, Eq, Structural)]
pub enum ReplLifecycleEvent {
    Enable,
    Disable,
    Toggle,
}

/// The REPL resource holds the state of the REPL, including the buffer, cursor position, and commands.
pub struct Repl {
    pub enabled: bool,
    pub prompt_symbol: String,
    pub buffer: String,
    pub cursor_pos: usize,
    pub keymap: ReplKeymap,
    pub commands: CommandTable,
}

/// `a` and `b` agree on everything but the buffer and the cursor.
pub open spec fn same_settings(a: &Repl, b: &Repl) -> bool {
    &&& a.enabled == b.enabled
    &&& a.prompt_symbol@ == b.prompt_symbol@
    &&& a.keymap == b.keymap
    &&& a.commands == b.commands
}

impl Repl {
    /// Length of the buffer in bytes.
    pub open spec fn buffer_len(&self) -> nat {
        byte_len(self.buffer@)
    }

    /// The buffer's byte length fits in `usize` (always true of a real `String`)
    /// and the cursor does not lie past its end.
    pub open spec fn wf(&self) -> bool {
        &&& self.buffer_len() <= usize::MAX
        &&& self.cursor_pos <= self.buffer_len()
    }

    /// The cursor sits on a character boundary.
    pub open spec fn cursor_on_boundary(&self) -> bool {
        is_boundary(self.buffer@, self.cursor_pos as int)
    }

    /// Character index of the cursor.
    pub open spec fn cursor_index(&self) -> int {
        char_index(self.buffer@, self.cursor_pos as int)
    }

    /// What `insert` needs: a cursor on a character boundary, and room for the new byte count.
    pub open spec fn can_insert(&self, c: char) -> bool {
        &&& self.cursor_on_boundary()
        &&& self.buffer_len() + char_width(c) <= usize::MAX
    }

    /// What `backspace` needs: the byte before the cursor starts a character.
    pub open spec fn can_backspace(&self) -> bool {
        self.cursor_pos == 0 || (self.cursor_pos - 1 < self.buffer_len() && is_boundary(
            self.buffer@,
            self.cursor_pos - 1,
        ))
    }

    /// What `delete` needs: the cursor is at or past the end, or on a character boundary.
    pub open spec fn can_delete(&self) -> bool {
        &&& self.buffer_len() <= usize::MAX
        &&& (self.cursor_pos >= self.buffer_len() || self.cursor_on_boundary())
    }

    /// What `clear_to_start` needs: the cursor is at the start or on a character boundary.
    pub open spec fn can_clear_to_start(&self) -> bool {
        self.cursor_pos == 0 || self.cursor_on_boundary()
    }

    /// What applying `ev` needs (the requirement of the matching editing method).
    pub open spec fn can_apply(&self, ev: ReplBufferEvent) -> bool {
        match ev {
            ReplBufferEvent::Insert(c) => self.can_insert(c),
            ReplBufferEvent::Backspace => self.can_backspace(),
            ReplBufferEvent::Delete => self.can_delete(),
            ReplBufferEvent::MoveRight => self.buffer_len() <= usize::MAX,
            ReplBufferEvent::JumpToEnd => self.buffer_len() <= usize::MAX,
            ReplBufferEvent::ClearToStart => self.can_clear_to_start(),
            _ => true,
        }
    }

    /// The state a fresh REPL starts in.
    pub open spec fn is_initial(&self) -> bool {
        &&& !self.enabled
        &&& self.prompt_symbol@ == seq!['>', ' ']
        &&& self.buffer@ == Seq::<char>::empty()
        &&& self.cursor_pos == 0
        &&& self.keymap == ReplKeymap::spec_default()
        &&& self.commands.wf()
        &&& self.commands.view() == Map::<Seq<char>, usize>::empty()
    }

    pub fn enable(&mut self)
        ensures
            final(self).enabled,
            final(self).prompt_symbol@ == old(self).prompt_symbol@,
            final(self).buffer@ == old(self).buffer@,
            final(self).cursor_pos == old(self).cursor_pos,
            final(self).keymap == old(self).keymap,
            final(self).commands == old(self).commands,
    {
        self.enabled = true;
    }

    pub fn disable(&mut self)
        ensures
            !final(self).enabled,
            final(self).prompt_symbol@ == old(self).prompt_symbol@,
            final(self).buffer@ == old(self).buffer@,
            final(self).cursor_pos == old(self).cursor_pos,
            final(self).keymap == old(self).keymap,
            final(self).commands == old(self).commands,
    {
        self.enabled = false;
    }

    pub fn toggle(&mut self)
        ensures
            final(self).enabled == !old(self).enabled,
            final(self).prompt_symbol@ == old(self).prompt_symbol@,
            final(self).buffer@ == old(self).buffer@,
            final(self).cursor_pos == old(self).cursor_pos,
            final(self).keymap == old(self).keymap,
            final(self).commands == old(self).commands,
    {
        self.enabled = !self.enabled;
    }

    /// Take the whole buffer, leaving it empty with the cursor at the start.
    pub fn drain_buffer(&mut self) -> (r: String)
        ensures
            r@ == old(self).buffer@,
            final(self).buffer@ == Seq::<char>::empty(),
            final(self).cursor_pos == 0,
            same_settings(&*final(self), &*old(self)),
    {
        let buffer = self.buffer.clone();
        self.clear_buffer();
        buffer
    }

    /// Empty the buffer and move the cursor to the start.
    pub fn clear_buffer(&mut self)
        ensures
            final(self).buffer@ == Seq::<char>::empty(),
            final(self).cursor_pos == 0,
            same_settings(&*final(self), &*old(self)),
    {
        self.buffer = String::new();
        self.cursor_pos = 0;
    }

    /// Remove everything before the cursor and move the cursor to the start.
    pub fn clear_to_start(&mut self)
        requires
            old(self).can_clear_to_start(),
        ensures
            old(self).cursor_pos > 0 ==> final(self).buffer@ == old(self).buffer@.skip(
                old(self).cursor_index(),
            ) && final(self).cursor_pos == 0,
            old(self).cursor_pos == 0 ==> final(self).buffer@ == old(self).buffer@
                && final(self).cursor_pos == 0,
            same_settings(&*final(self), &*old(self)),
    {
        if self.cursor_pos > 0 {
            let v = to_chars(self.buffer.as_str());
            let k = char_index_of_byte(&v, self.cursor_pos).unwrap();
            self.buffer = string_from_range(&v, k, v.len());
            self.cursor_pos = 0;
            proof {
                assert(v@.subrange(k as int, v@.len() as int) =~= v@.skip(k as int));
            }
        }
    }

    /// Remove the character before the cursor and move the cursor back one byte.
    pub fn backspace(&mut self)
        requires
            old(self).can_backspace(),
        ensures
            old(self).cursor_pos > 0 ==> final(self).buffer@ == remove_at(
                old(self).buffer@,
                char_index(old(self).buffer@, old(self).cursor_pos - 1),
            ) && final(self).cursor_pos == old(self).cursor_pos - 1,
            old(self).cursor_pos == 0 ==> final(self).buffer@ == old(self).buffer@
                && final(self).cursor_pos == 0,
            same_settings(&*final(self), &*old(self)),
    {
        if self.cursor_pos > 0 {
            let v = to_chars(self.buffer.as_str());
            let k = char_index_of_byte(&v, self.cursor_pos - 1).unwrap();
            proof {
                lemma_byte_offset_full(v@);
                if k == v.len() {
                    assert(false);
                }
            }
            let mut w = v;
            w.remove(k);
            proof {
                assert(w@ =~= remove_at(v@, k as int));
            }
            self.buffer = string_from_chars(&w);
            self.cursor_pos = self.cursor_pos - 1;
        }
    }

    /// Remove the character at the cursor, if the cursor is not at the end.
    pub fn delete(&mut self)
        requires
            old(self).can_delete(),
        ensures
            old(self).cursor_pos < old(self).buffer_len() ==> final(self).buffer@ == remove_at(
                old(self).buffer@,
                old(self).cursor_index(),
            ),
            old(self).cursor_pos >= old(self).buffer_len() ==> final(self).buffer@ == old(
                self,
            ).buffer@,
            final(self).cursor_pos == old(self).cursor_pos,
            same_settings(&*final(self), &*old(self)),
    {
        let len = str_byte_len(self.buffer.as_str());
        if self.cursor_pos < len {
            let v = to_chars(self.buffer.as_str());
            let k = char_index_of_byte(&v, self.cursor_pos).unwrap();
            proof {
                lemma_byte_offset_full(v@);
                if k == v.len() {
                    assert(false);
                }
            }
            let mut w = v;
            w.remove(k);
            proof {
                assert(w@ =~= remove_at(v@, k as int));
            }
            self.buffer = string_from_chars(&w);
        }
    }

    /// Move the cursor back one byte, unless it is at the start.
    pub fn left(&mut self)
        ensures
            old(self).cursor_pos > 0 ==> final(self).cursor_pos == old(self).cursor_pos - 1,
            old(self).cursor_pos == 0 ==> final(self).cursor_pos == 0,
            final(self).buffer@ == old(self).buffer@,
            same_settings(&*final(self), &*old(self)),
    {
        if self.cursor_pos > 0 {
            self.cursor_pos = self.cursor_pos - 1;
        }
    }

    /// Move the cursor forward one byte, unless it is at the end.
    pub fn right(&mut self)
        requires
            old(self).buffer_len() <= usize::MAX,
        ensures
            old(self).cursor_pos < old(self).buffer_len() ==> final(self).cursor_pos == old(
                self,
            ).cursor_pos + 1,
            old(self).cursor_pos >= old(self).buffer_len() ==> final(self).cursor_pos == old(
                self,
            ).cursor_pos,
            final(self).buffer@ == old(self).buffer@,
            same_settings(&*final(self), &*old(self)),
    {
        let len = str_byte_len(self.buffer.as_str());
        if self.cursor_pos < len {
            self.cursor_pos = self.cursor_pos + 1;
        }
    }

    /// Move the cursor to the start of the buffer.
    pub fn home(&mut self)
        ensures
            final(self).cursor_pos == 0,
            final(self).buffer@ == old(self).buffer@,
            same_settings(&*final(self), &*old(self)),
    {
        self.cursor_pos = 0;
    }

    /// Move the cursor to the end of the buffer.
    pub fn end(&mut self)
        requires
            old(self).buffer_len() <= usize::MAX,
        ensures
            final(self).cursor_pos == old(self).buffer_len(),
            final(self).buffer@ == old(self).buffer@,
            same_settings(&*final(self), &*old(self)),
    {
        self.cursor_pos = str_byte_len(self.buffer.as_str());
    }

    /// Insert `c` at the cursor and move the cursor forward one byte.
    pub fn insert(&mut self, c: char)
        requires
            old(self).can_insert(c),
        ensures
            final(self).buffer@ == insert_at(old(self).buffer@, old(self).cursor_index(), c),
            final(self).cursor_pos == old(self).cursor_pos + 1,
            char_width(c) == 1 ==> final(self).cursor_on_boundary() && final(self).cursor_index()
                == old(self).cursor_index() + 1,
            same_settings(&*final(self), &*old(self)),
    {
        let v = to_chars(self.buffer.as_str());
        let k = char_index_of_byte(&v, self.cursor_pos).unwrap();
        proof {
            lemma_byte_offset_full(v@);
            if k < v.len() {
                lemma_byte_offset_strict(v@, k as int, v@.len() as int);
            }
        }
        let mut w = v;
        w.insert(k, c);
        proof {
            assert(w@ =~= insert_at(v@, k as int, c));
            lemma_insert_offsets(v@, k as int, c);
            if char_width(c) == 1 {
                lemma_char_index(w@, k + 1);
            }
        }
        self.buffer = string_from_chars(&w);
        self.cursor_pos = self.cursor_pos + 1;
    }
}

impl Default for Repl {
    fn default() -> (r: Repl)
        ensures
            r.is_initial(),
            r.wf(),
    {
        let prompt = String::from_str("> ");
        proof {
            reveal_strlit("> ");
        }
        let r = Repl {
            enabled: false,
            prompt_symbol: prompt,
            buffer: String::new(),
            cursor_pos: 0,
            keymap: ReplKeymap::default(),
            commands: CommandTable::new(),
        };
        proof {
            lemma_byte_len_empty();
            assert(r.prompt_symbol@ =~= seq!['>', ' ']);
            assert(r.keymap == ReplKeymap::spec_default());
        }
        r
    }
}

/// Buffer and cursor after applying `ev` to buffer `s` with the cursor at byte `cur`.
pub open spec fn spec_edit(s: Seq<char>, cur: int, ev: ReplBufferEvent) -> (Seq<char>, int) {
    match ev {
        ReplBufferEvent::Insert(c) => (insert_at(s, char_index(s, cur), c), cur + 1),
        ReplBufferEvent::Backspace => if cur > 0 {
            (remove_at(s, char_index(s, cur - 1)), cur - 1)
        } else {
            (s, cur)
        },
        ReplBufferEvent::Delete => if cur < byte_len(s) {
            (remove_at(s, char_index(s, cur)), cur)
        } else {
            (s, cur)
        },
        ReplBufferEvent::MoveLeft => if cur > 0 {
            (s, cur - 1)
        } else {
            (s, cur)
        },
        ReplBufferEvent::MoveRight => if cur < byte_len(s) {
            (s, cur + 1)
        } else {
            (s, cur)
        },
        ReplBufferEvent::JumpToStart => (s, 0),
        ReplBufferEvent::JumpToEnd => (s, byte_len(s) as int),
        ReplBufferEvent::Clear => (Seq::empty(), 0),
        ReplBufferEvent::ClearToStart => if cur > 0 {
            (s.skip(char_index(s, cur)), 0)
        } else {
            (s, cur)
        },
        ReplBufferEvent::ClearScreen => (s, cur),
        ReplBufferEvent::Submit => (Seq::empty(), 0),
    }
}

/// What applying a buffer event produced besides the edit.
#[derive(Clone, Debug)]
pub enum BufferOutcome {
    /// The buffer or cursor was edited (or left as it was).
    Edited,
    /// The terminal screen is to be cleared; the buffer is untouched.
    ClearScreen,
    /// The line was taken out of the buffer and submitted.
    Submitted(String),
}

/// Apply one buffer event to the REPL.
pub fn apply_buffer_event(repl: &mut Repl, ev: ReplBufferEvent) -> (r: BufferOutcome)
    requires
        old(repl).can_apply(ev),
    ensures
        (final(repl).buffer@, final(repl).cursor_pos as int) == spec_edit(
            old(repl).buffer@,
            old(repl).cursor_pos as int,
            ev,
        ),
        same_settings(&*final(repl), &*old(repl)),
        ev is Submit ==> (r matches BufferOutcome::Submitted(line) && line@ == old(repl).buffer@),
        ev is ClearScreen ==> r is ClearScreen,
        !(ev is Submit) && !(ev is ClearScreen) ==> r is Edited,
{
    match ev {
        ReplBufferEvent::Insert(c) => repl.insert(c),
        ReplBufferEvent::Backspace => repl.backspace(),
        ReplBufferEvent::Delete => repl.delete(),
        ReplBufferEvent::MoveLeft => repl.left(),
        ReplBufferEvent::MoveRight => repl.right(),
        ReplBufferEvent::JumpToStart => repl.home(),
        ReplBufferEvent::JumpToEnd => repl.end(),
        ReplBufferEvent::Clear => repl.clear_buffer(),
        ReplBufferEvent::ClearToStart => repl.clear_to_start(),
        ReplBufferEvent::ClearScreen => {
            return BufferOutcome::ClearScreen;
        },
        ReplBufferEvent::Submit => {
            let line = repl.drain_buffer();
            return BufferOutcome::Submitted(line);
        },
    }
    BufferOutcome::Edited
}

/// Inserting at a character index keeps the offsets before it and adds the
/// inserted character's width at the next index.
pub proof fn lemma_insert_offsets(s: Seq<char>, k: int, c: char)
    requires
        0 <= k <= s.len(),
    ensures
        forall|j: int| 0 <= j <= k ==> byte_offset(insert_at(s, k, c), j) == byte_offset(s, j),
        byte_offset(insert_at(s, k, c), k + 1) == byte_offset(s, k) + char_width(c),
        insert_at(s, k, c).len() == s.len() + 1,
{
    let t = insert_at(s, k, c);
    assert forall|j: int| 0 <= j <= k implies byte_offset(t, j) == byte_offset(s, j) by {
        assert(t.take(j) =~= s.take(j));
    }
    assert(t.take(k + 1) =~= s.take(k).push(c));
    lemma_byte_len_push(s.take(k), c);
}

/// Removing the character at an index keeps the offsets up to that index.
pub proof fn lemma_remove_offsets(s: Seq<char>, k: int)
    requires
        0 <= k < s.len(),
    ensures
        forall|j: int| 0 <= j <= k ==> byte_offset(remove_at(s, k), j) == byte_offset(s, j),
        remove_at(s, k).len() == s.len() - 1,
{
    let t = remove_at(s, k);
    assert forall|j: int| 0 <= j <= k implies byte_offset(t, j) == byte_offset(s, j) by {
        assert(t.take(j) =~= s.take(j));
    }
}

/// Typing a character and then pressing Backspace gives back the buffer
/// and cursor that were there before: after the insertion the byte before the
/// cursor starts a character (so Backspace is allowed), and removing it
/// restores the characters that were there before.
pub proof fn law_insert_then_backspace(s: Seq<char>, b: int, c: char)
    requires
        is_boundary(s, b),
    ensures
        is_boundary(insert_at(s, char_index(s, b), c), b),
        b < byte_len(insert_at(s, char_index(s, b), c)),
        remove_at(
            insert_at(s, char_index(s, b), c),
            char_index(insert_at(s, char_index(s, b), c), b),
        ) == s,
        ({
            let (t, cur) = spec_edit(s, b, ReplBufferEvent::Insert(c));
            spec_edit(t, cur, ReplBufferEvent::Backspace) == (s, b)
        }),
{
    let k = char_index(s, b);
    let t = insert_at(s, k, c);
    lemma_insert_offsets(s, k, c);
    lemma_char_index(t, k);
    lemma_byte_offset_full(t);
    lemma_byte_offset_strict(t, k, t.len() as int);
    assert(remove_at(t, k) =~= s);
}

/// On an ASCII buffer every byte offset up to the length is a character
/// boundary, and the character index equals the byte offset; so all editing
/// operations are allowed wherever the cursor is.
pub proof fn law_ascii_cursor_is_char_index(s: Seq<char>, b: int)
    requires
        all_ascii(s),
        0 <= b <= s.len(),
    ensures
        is_boundary(s, b),
        char_index(s, b) == b,
        byte_len(s) == s.len(),
{
    lemma_ascii_offsets(s, b);
    lemma_char_index(s, b);
    lemma_ascii_byte_len(s);
}

/// Inserting an ASCII character into an ASCII buffer keeps it ASCII.
pub proof fn law_insert_keeps_ascii(s: Seq<char>, k: int, c: char)
    requires
        all_ascii(s),
        0 <= k <= s.len(),
        char_width(c) == 1,
    ensures
        all_ascii(insert_at(s, k, c)),
{
    let t = insert_at(s, k, c);
    assert forall|i: int| 0 <= i < t.len() implies (#[trigger] t[i] as u32) <= 0x7F by {
        if i < k {
            assert(t[i] == s[i]);
        } else if i == k {
            assert(t[i] == c);
        } else {
            assert(t[i] == s[i - 1]);
        }
    }
}

/// Removing a character from an ASCII buffer keeps it ASCII.
pub proof fn law_remove_keeps_ascii(s: Seq<char>, k: int)
    requires
        all_ascii(s),
        0 <= k < s.len(),
    ensures
        all_ascii(remove_at(s, k)),
{
    let t = remove_at(s, k);
    assert forall|i: int| 0 <= i < t.len() implies (#[trigger] t[i] as u32) <= 0x7F by {
        if i < k {
            assert(t[i] == s[i]);
        } else {
            assert(t[i] == s[i + 1]);
        }
    }
}

} // verus!

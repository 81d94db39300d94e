//! The direct prompt: key codes straight to buffer events, and the prompt text
//! wrapped to the terminal width on the bottom row.
use crate::keymap::{KeyCode, KeyEvent, KeyEventKind, KeyModifiers};
use crate::prompt::renderer::helpers::{byte_range, byte_slice};
use crate::repl::{spec_edit, Repl, ReplBufferEvent};
use crate::text::{byte_len, concat, is_boundary, str_byte_len, views};
use vstd::prelude::*;

verus! {

/// Settings of the direct prompt.
#[derive(Clone, Debug)]
pub struct PromptPlugin {
    /// The prompt to display in the REPL console to the left of the input area.
    pub prompt: String,
    /// Enable a border around the REPL console.
    pub border: bool,
}

impl Default for PromptPlugin {
    fn default() -> (p: PromptPlugin)
        ensures
            p.prompt@ == seq!['>', ' '],
            p.border,
    {
        let prompt = String::from_str("> ");
        proof {
            reveal_strlit("> ");
            assert(prompt@ =~= seq!['>', ' ']);
        }
        PromptPlugin { prompt, border: true }
    }
}

/// A buffer submitted for parsing.
#[derive(Clone, Debug)]
pub struct ParseReplBufferEvent {
    pub buffer: String,
}

/// The buffer event for a key press: Enter submits, characters are inserted,
/// Backspace/Delete erase, arrows/Home/End move; other keys and non-press events
/// give nothing.
pub open spec fn spec_capture(ev: KeyEvent) -> Option<ReplBufferEvent> {
    if ev.kind != KeyEventKind::Press {
        None
    } else {
        match ev.code {
            KeyCode::Enter => Some(ReplBufferEvent::Submit),
            KeyCode::Char(c) => Some(ReplBufferEvent::Insert(c)),
            KeyCode::Backspace => Some(ReplBufferEvent::Backspace),
            KeyCode::Left => Some(ReplBufferEvent::MoveLeft),
            KeyCode::Right => Some(ReplBufferEvent::MoveRight),
            KeyCode::Home => Some(ReplBufferEvent::JumpToStart),
            KeyCode::End => Some(ReplBufferEvent::JumpToEnd),
            KeyCode::Delete => Some(ReplBufferEvent::Delete),
            _ => None,
        }
    }
}

/// Turn a key event into a buffer event.
pub fn capture_repl_input(ev: &KeyEvent) -> (r: Option<ReplBufferEvent>)
    ensures
        r == spec_capture(*ev),
{
    if ev.kind != KeyEventKind::Press {
        return None;
    }
    match ev.code {
        KeyCode::Enter => Some(ReplBufferEvent::Submit),
        KeyCode::Char(c) => Some(ReplBufferEvent::Insert(c)),
        KeyCode::Backspace => Some(ReplBufferEvent::Backspace),
        KeyCode::Left => Some(ReplBufferEvent::MoveLeft),
        KeyCode::Right => Some(ReplBufferEvent::MoveRight),
        KeyCode::Home => Some(ReplBufferEvent::JumpToStart),
        KeyCode::End => Some(ReplBufferEvent::JumpToEnd),
        KeyCode::Delete => Some(ReplBufferEvent::Delete),
        _ => None,
    }
}

/// The text cut into pieces of `width` bytes from byte `start` on (the last may be shorter).
pub open spec fn byte_chunks(text: Seq<char>, start: int, width: int) -> Seq<Seq<char>>
    decreases byte_len(text) - start,
    when width > 0
{
    if start >= byte_len(text) {
        Seq::empty()
    } else {
        let end = if start + width < byte_len(text) {
            start + width
        } else {
            byte_len(text) as int
        };
        seq![byte_range(text, start, end)] + byte_chunks(text, end, width)
    }
}

/// Every piece boundary from byte `start` on falls between characters.
pub open spec fn chunks_defined(text: Seq<char>, start: int, width: int) -> bool
    decreases byte_len(text) - start,
    when width > 0
{
    if start >= byte_len(text) {
        true
    } else {
        let end = if start + width < byte_len(text) {
            start + width
        } else {
            byte_len(text) as int
        };
        is_boundary(text, end) && chunks_defined(text, end, width)
    }
}

/// What the direct prompt draws.
#[derive(Debug)]
pub struct PromptDisplay {
    /// The bottom row of the terminal.
    pub row: u16,
    /// The prompt text cut into pieces of the terminal width, written one after the other.
    pub lines: Vec<String>,
    /// The cursor column: symbol bytes plus cursor bytes, as `u16`, clamped to the last column.
    pub cursor_x: u16,
}

/// The prompt text: the symbol, when there is one, followed by the buffer.
pub open spec fn prompt_text(symbol: Option<Seq<char>>, buffer: Seq<char>) -> Seq<char> {
    match symbol {
        Some(s) => s + buffer,
        None => buffer,
    }
}

/// Byte length of the prompt symbol (zero without one).
pub open spec fn symbol_len(symbol: Option<Seq<char>>) -> nat {
    match symbol {
        Some(s) => byte_len(s),
        None => 0,
    }
}

/// Drawing terminates (a zero width would cut a non-empty text forever), the
/// pieces fall between characters and the lengths and the cursor arithmetic
/// fit in `usize`.
pub open spec fn display_prompt_defined(symbol: Option<Seq<char>>, repl: &Repl, width: u16) -> bool {
    let text = prompt_text(symbol, repl.buffer@);
    &&& width > 0 || byte_len(text) == 0
    &&& byte_len(text) <= usize::MAX
    &&& symbol_len(symbol) + repl.cursor_pos <= usize::MAX
    &&& is_boundary(text, 0)
    &&& width > 0 ==> chunks_defined(text, 0, width as int)
}

/// The last column of a terminal `width` columns wide (column 0 when it has none).
pub open spec fn last_column(width: u16) -> u16 {
    if width > 0 {
        (width - 1) as u16
    } else {
        0
    }
}

/// Display the current input buffer at the bottom of the terminal; `None` where
/// slicing would cut inside a character or the cutting would never finish (a
/// zero width with text to show).
pub fn display_prompt(symbol: Option<&str>, repl: &Repl, width: u16, height: u16) -> (r: Option<PromptDisplay>)
    ensures
        r is Some <==> display_prompt_defined(
            match symbol {
                Some(s) => Some(s@),
                None => None,
            },
            repl,
            width,
        ),
        r matches Some(d) ==> ({
            let text = prompt_text(
                match symbol {
                    Some(s) => Some(s@),
                    None => None,
                },
                repl.buffer@,
            );
            // the cursor sits after the symbol, at its position in the buffer
            let x = (symbol_len(
                match symbol {
                    Some(s) => Some(s@),
                    None => None,
                },
            ) + repl.cursor_pos) as u16;
            &&& d.row == (if height > 0 { height - 1 } else { 0 })
            &&& views(d.lines@) == (if width > 0 {
                byte_chunks(text, 0, width as int)
            } else {
                Seq::<Seq<char>>::empty()
            })
            &&& d.cursor_x == (if x < last_column(width) { x } else { last_column(width) })
        }),
{
    let ghost sym = match symbol {
        Some(s) => Some(s@),
        None => None,
    };
    let text = match symbol {
        Some(s) => concat(s, repl.buffer.as_str()),
        None => repl.buffer.clone(),
    };
    let ghost t = text@;
    assert(t == prompt_text(sym, repl.buffer@));
    proof {
        assert(t.take(0) =~= Seq::<char>::empty());
        crate::text::lemma_byte_len_empty();
        assert(crate::text::byte_offset(t, 0) == 0);
        assert(is_boundary(t, 0));
    }
    let len = match crate::prompt::renderer::helpers::checked_len(text.as_str()) {
        Some(l) => l,
        None => {
            return None;
        },
    };
    let sym_len: usize = match symbol {
        Some(s) => {
            proof {
                crate::text::lemma_byte_len_concat(s@, repl.buffer@);
            }
            match crate::prompt::renderer::helpers::checked_len(s) {
                Some(l) => l,
                None => {
                    return None;
                },
            }
        },
        None => 0,
    };
    if repl.cursor_pos > usize::MAX - sym_len {
        return None;
    }
    if width == 0 {
        if len == 0 {
            return Some(
                PromptDisplay { row: if height > 0 { height - 1 } else { 0 }, lines: Vec::new(), cursor_x: 0 },
            );
        }
        return None;
    }
    let w = width as usize;
    let mut lines: Vec<String> = Vec::new();
    let mut start: usize = 0;
    proof {
        assert(t.take(0) =~= Seq::<char>::empty());
        crate::text::lemma_byte_len_empty();
        assert(crate::text::byte_offset(t, 0) == 0);
        assert(is_boundary(t, 0));
    }
    while start < len
        invariant
            t == text@,
            t == prompt_text(sym, repl.buffer@),
            sym == (match symbol {
                Some(s) => Some(s@),
                None => None,
            }),
            len == byte_len(t),
            sym_len + repl.cursor_pos <= usize::MAX,
            sym_len == symbol_len(sym),
            w == width as usize,
            w > 0,
            start <= len,
            is_boundary(t, 0),
            is_boundary(t, start as int),
            views(lines@) + byte_chunks(t, start as int, w as int) == byte_chunks(t, 0, w as int),
            chunks_defined(t, 0, w as int) == chunks_defined(t, start as int, w as int),
        decreases len - start,
    {
        let end = if w < len - start {
            start + w
        } else {
            len
        };
        let piece = match byte_slice(text.as_str(), start, end) {
            Some(p) => p,
            None => {
                proof {
                    assert(!is_boundary(t, end as int));
                    assert(!chunks_defined(t, start as int, w as int));
                    assert(!chunks_defined(t, 0, width as int));
                    assert(!display_prompt_defined(sym, repl, width));
                }
                return None;
            },
        };
        let ghost before = lines@;
        lines.push(piece);
        proof {
            assert(views(lines@) =~= views(before).push(piece@));
            assert(views(lines@) + byte_chunks(t, end as int, w as int) =~= views(before)
                + byte_chunks(t, start as int, w as int));
        }
        start = end;
    }
    proof {
        assert(byte_chunks(t, start as int, w as int) =~= Seq::<Seq<char>>::empty());
        assert(views(lines@) =~= byte_chunks(t, 0, w as int));
    }
    let x = (sym_len + repl.cursor_pos) as u16;
    let max_x = width - 1;
    let cursor_x = if x < max_x {
        x
    } else {
        max_x
    };
    Some(PromptDisplay { row: if height > 0 { height - 1 } else { 0 }, lines, cursor_x })
}

/// Only key presses are captured, and each captured key gives the action of
/// its own name: Enter submits, Backspace and Delete erase, Left and Right
/// move left and right, Home and End jump to the start and the end, and a
/// character key inserts that very character (whatever the modifiers).
pub proof fn law_capture_keys_name_their_actions(ev: KeyEvent, c: char)
    ensures
        ev.kind != KeyEventKind::Press ==> spec_capture(ev) is None,
        spec_capture(ev) == Some(ReplBufferEvent::Submit) <==> (ev.kind == KeyEventKind::Press && ev.code
            == KeyCode::Enter),
        spec_capture(ev) == Some(ReplBufferEvent::Backspace) <==> (ev.kind == KeyEventKind::Press && ev.code
            == KeyCode::Backspace),
        spec_capture(ev) == Some(ReplBufferEvent::MoveLeft) <==> (ev.kind == KeyEventKind::Press && ev.code
            == KeyCode::Left),
        spec_capture(ev) == Some(ReplBufferEvent::MoveRight) <==> (ev.kind == KeyEventKind::Press && ev.code
            == KeyCode::Right),
        spec_capture(ev) == Some(ReplBufferEvent::JumpToStart) <==> (ev.kind == KeyEventKind::Press && ev.code
            == KeyCode::Home),
        spec_capture(ev) == Some(ReplBufferEvent::JumpToEnd) <==> (ev.kind == KeyEventKind::Press && ev.code
            == KeyCode::End),
        spec_capture(ev) == Some(ReplBufferEvent::Delete) <==> (ev.kind == KeyEventKind::Press && ev.code
            == KeyCode::Delete),
        spec_capture(ev) == Some(ReplBufferEvent::Insert(c)) <==> (ev.kind == KeyEventKind::Press
            && ev.code == KeyCode::Char(c)),
{
}

/// A captured Left press moves the cursor one position back and a captured
/// Right press one position forward, leaving the text as it is; at the start
/// (or the end) the cursor stays.
pub proof fn law_captured_arrows_move_the_cursor(s: Seq<char>, cur: int, m: KeyModifiers)
    requires
        0 <= cur <= byte_len(s),
    ensures
        ({
            let left = spec_capture(KeyEvent { code: KeyCode::Left, modifiers: m, kind: KeyEventKind::Press });
            let right = spec_capture(KeyEvent { code: KeyCode::Right, modifiers: m, kind: KeyEventKind::Press });
            &&& left is Some && right is Some
            &&& spec_edit(s, cur, left->0) == (s, if cur > 0 { cur - 1 } else { cur })
            &&& spec_edit(s, cur, right->0) == (s, if cur < byte_len(s) { cur + 1 } else { cur })
        }),
{
}

} // verus!

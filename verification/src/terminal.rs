//! A terminal model: a bounded scrollback of log lines above a one-line input
//! area with a cursor and a prompt.
use crate::text::{
    all_whitespace, byte_len, char_index, char_index_of_byte, concat, insert_at, is_boundary,
    lemma_byte_len_empty, lemma_byte_offset_full, lemma_byte_offset_strict, remove_at,
    str_byte_len, string_from_chars, to_chars, trim_is_empty,
};
use std::collections::VecDeque;
use vstd::prelude::*;

verus! {

/// The last `n` elements of `s` (all of them when there are fewer).
pub open spec fn keep_last(s: Seq<Seq<char>>, n: nat) -> Seq<Seq<char>> {
    if s.len() > n {
        s.skip(s.len() - n)
    } else {
        s
    }
}

/// `c` is an ASCII control character (`char::is_ascii_control`).
pub open spec fn is_ascii_control(c: char) -> bool {
    (c as u32) < 0x20 || (c as u32) == 0x7F
}

/// Terminal state management for the REPL.
pub struct BevyRatatuiTerminal {
    /// Scrollable log output
    log_lines: VecDeque<String>,
    /// Current input line
    current_line: String,
    /// Cursor position in input line (a byte offset)
    cursor_position: usize,
    /// Terminal prompt
    prompt: String,
    /// Maximum number of log lines to keep
    max_log_lines: usize,
    /// Whether the terminal is active
    is_active: bool,
}

impl BevyRatatuiTerminal {
    /// The log lines, oldest first.
    pub closed spec fn log(&self) -> Seq<Seq<char>> {
        self.log_lines@.map_values(|s: String| s@)
    }

    pub closed spec fn line(&self) -> Seq<char> {
        self.current_line@
    }

    pub closed spec fn cursor(&self) -> usize {
        self.cursor_position
    }

    pub closed spec fn prompt_text(&self) -> Seq<char> {
        self.prompt@
    }

    pub closed spec fn max_lines(&self) -> usize {
        self.max_log_lines
    }

    pub closed spec fn active(&self) -> bool {
        self.is_active
    }

    /// The log holds at most the maximum number of lines.
    pub open spec fn wf(&self) -> bool {
        self.log().len() <= self.max_lines()
    }

    /// A fresh terminal with the given prompt: empty log and line, a thousand-line log, active.
    pub open spec fn is_fresh(&self, prompt: Seq<char>) -> bool {
        &&& self.log() == Seq::<Seq<char>>::empty()
        &&& self.line() == Seq::<char>::empty()
        &&& self.cursor() == 0
        &&& self.prompt_text() == prompt
        &&& self.max_lines() == 1000
        &&& self.active()
    }

    /// Create a new terminal with custom prompt
    pub fn new(prompt: String) -> (t: BevyRatatuiTerminal)
        ensures
            t.is_fresh(prompt@),
            t.wf(),
    {
        let t = BevyRatatuiTerminal {
            log_lines: VecDeque::new(),
            current_line: String::new(),
            cursor_position: 0,
            prompt,
            max_log_lines: 1000,
            is_active: true,
        };
        proof {
            assert(t.log() =~= Seq::<Seq<char>>::empty());
        }
        t
    }

    /// Add a line to the log output, dropping the oldest lines beyond the maximum.
    pub fn add_log_line(&mut self, line: String)
        ensures
            final(self).log() == keep_last(old(self).log().push(line@), old(self).max_lines() as nat),
            final(self).log().len() <= final(self).max_lines(),
            final(self).line() == old(self).line(),
            final(self).cursor() == old(self).cursor(),
            final(self).prompt_text() == old(self).prompt_text(),
            final(self).max_lines() == old(self).max_lines(),
            final(self).active() == old(self).active(),
    {
        let ghost all = self.log().push(line@);
        self.log_lines.push_back(line);
        proof {
            assert(self.log() =~= all);
        }
        while self.log_lines.len() > self.max_log_lines
            invariant
                self.max_log_lines == old(self).max_log_lines,
                self.current_line == old(self).current_line,
                self.cursor_position == old(self).cursor_position,
                self.prompt == old(self).prompt,
                self.is_active == old(self).is_active,
                self.log_lines@.len() >= self.max_log_lines ==> self.log() == all.skip(
                    all.len() - self.log_lines@.len(),
                ),
                self.log_lines@.len() <= all.len(),
                self.log_lines@.len() < self.max_log_lines ==> self.log() == all,
            decreases self.log_lines@.len(),
        {
            let ghost before = self.log();
            self.log_lines.pop_front();
            proof {
                assert(self.log() =~= before.drop_first());
                assert(all.skip(all.len() - self.log_lines@.len()) =~= all.skip(
                    all.len() - (self.log_lines@.len() + 1),
                ).drop_first());
            }
        }
        proof {
            if all.len() > self.max_log_lines {
                assert(self.log_lines@.len() == self.max_log_lines);
            } else {
                assert(self.log() =~= all) by {
                    if self.log_lines@.len() >= self.max_log_lines {
                        assert(all.skip(0) =~= all);
                    }
                };
            }
        }
    }

    /// Get the current input line
    pub fn get_current_line(&self) -> (r: &str)
        ensures
            r@ == self.line(),
    {
        self.current_line.as_str()
    }

    /// Set the current input line and move the cursor to its end.
    pub fn set_current_line(&mut self, line: String)
        requires
            byte_len(line@) <= usize::MAX,
        ensures
            final(self).line() == line@,
            final(self).cursor() == byte_len(line@),
            final(self).log() == old(self).log(),
            final(self).prompt_text() == old(self).prompt_text(),
            final(self).max_lines() == old(self).max_lines(),
            final(self).active() == old(self).active(),
    {
        self.cursor_position = str_byte_len(line.as_str());
        self.current_line = line;
    }

    /// Clear the current input line
    pub fn clear_line(&mut self)
        ensures
            final(self).line() == Seq::<char>::empty(),
            final(self).cursor() == 0,
            final(self).log() == old(self).log(),
            final(self).prompt_text() == old(self).prompt_text(),
            final(self).max_lines() == old(self).max_lines(),
            final(self).active() == old(self).active(),
    {
        self.current_line = String::new();
        self.cursor_position = 0;
    }

    /// What `handle_char(c)` needs: an edit at the cursor happens on a character
    /// boundary, and the submitted line fits in memory.
    pub open spec fn can_handle(&self, c: char) -> bool {
        self.active() ==> {
            if c == '\n' || c == '\r' {
                true
            } else if c == '\x08' || c == '\x7f' {
                self.cursor() == 0 || (self.cursor() - 1 < byte_len(self.line()) && is_boundary(
                    self.line(),
                    self.cursor() - 1,
                ))
            } else if is_ascii_control(c) {
                true
            } else {
                &&& is_boundary(self.line(), self.cursor() as int)
                &&& byte_len(self.line()) + 4 <= usize::MAX
            }
        }
    }

    /// Handle character input: Enter logs the non-blank line after the prompt and
    /// clears it; Backspace/Delete erase before the cursor; other control
    /// characters are ignored; anything else is inserted at the cursor.
    pub fn handle_char(&mut self, c: char)
        requires
            old(self).can_handle(c),
        ensures
            final(self).prompt_text() == old(self).prompt_text(),
            final(self).max_lines() == old(self).max_lines(),
            final(self).active() == old(self).active(),
            !old(self).active() ==> final(self).log() == old(self).log() && final(self).line()
                == old(self).line() && final(self).cursor() == old(self).cursor(),
            old(self).active() && (c == '\n' || c == '\r') ==> {
                &&& final(self).line() == Seq::<char>::empty()
                &&& final(self).cursor() == 0
                &&& final(self).log() == if all_whitespace(old(self).line()) {
                    old(self).log()
                } else {
                    keep_last(
                        old(self).log().push(old(self).prompt_text() + old(self).line()),
                        old(self).max_lines() as nat,
                    )
                }
            },
            old(self).active() && (c == '\x08' || c == '\x7f') ==> {
                &&& final(self).log() == old(self).log()
                &&& old(self).cursor() > 0 ==> final(self).line() == remove_at(
                    old(self).line(),
                    char_index(old(self).line(), old(self).cursor() - 1),
                ) && final(self).cursor() == old(self).cursor() - 1
                &&& old(self).cursor() == 0 ==> final(self).line() == old(self).line()
                    && final(self).cursor() == 0
            },
            old(self).active() && c != '\n' && c != '\r' && c != '\x08' && c != '\x7f'
                && is_ascii_control(c) ==> final(self).log() == old(self).log()
                && final(self).line() == old(self).line() && final(self).cursor() == old(self).cursor(),
            old(self).active() && !is_ascii_control(c) ==> {
                &&& final(self).log() == old(self).log()
                &&& final(self).line() == insert_at(
                    old(self).line(),
                    char_index(old(self).line(), old(self).cursor() as int),
                    c,
                )
                &&& final(self).cursor() == old(self).cursor() + 1
            },
    {
        if !self.is_active {
            return;
        }
        if c == '\n' || c == '\r' {
            let line = self.current_line.clone();
            if !trim_is_empty(line.as_str()) {
                let entry = concat(self.prompt.as_str(), line.as_str());
                self.add_log_line(entry);
            }
            self.clear_line();
            return;
        }
        if c == '\x08' || c == '\x7f' {
            if self.cursor_position > 0 {
                let v = to_chars(self.current_line.as_str());
                let k = char_index_of_byte(&v, self.cursor_position - 1).unwrap();
                proof {
                    lemma_byte_offset_full(v@);
                    if k == v.len() {
                        assert(false);
                    }
                }
                let mut w = v;
                w.remove(k);
                proof {
                    assert(w@ =~= remove_at(v@, k as int));
                }
                self.current_line = string_from_chars(&w);
                self.cursor_position = self.cursor_position - 1;
            }
            return;
        }
        let u = c as u32;
        if u < 0x20 || u == 0x7F {
            return;
        }
        let v = to_chars(self.current_line.as_str());
        let k = char_index_of_byte(&v, self.cursor_position).unwrap();
        proof {
            lemma_byte_offset_full(v@);
            if k < v.len() {
                lemma_byte_offset_strict(v@, k as int, v@.len() as int);
            }
        }
        let mut w = v;
        w.insert(k, c);
        proof {
            assert(w@ =~= insert_at(v@, k as int, c));
        }
        self.current_line = string_from_chars(&w);
        self.cursor_position = self.cursor_position + 1;
    }

    /// Get the cursor position in the input line
    pub fn get_cursor_position(&self) -> (r: usize)
        ensures
            r == self.cursor(),
    {
        self.cursor_position
    }

    /// Set the terminal prompt
    pub fn set_prompt(&mut self, prompt: String)
        ensures
            final(self).prompt_text() == prompt@,
            final(self).log() == old(self).log(),
            final(self).line() == old(self).line(),
            final(self).cursor() == old(self).cursor(),
            final(self).max_lines() == old(self).max_lines(),
            final(self).active() == old(self).active(),
    {
        self.prompt = prompt;
    }

    /// Get the terminal prompt
    pub fn get_prompt(&self) -> (r: &str)
        ensures
            r@ == self.prompt_text(),
    {
        self.prompt.as_str()
    }

    /// Toggle terminal active state
    pub fn toggle_active(&mut self)
        ensures
            final(self).active() == !old(self).active(),
            final(self).log() == old(self).log(),
            final(self).line() == old(self).line(),
            final(self).cursor() == old(self).cursor(),
            final(self).prompt_text() == old(self).prompt_text(),
            final(self).max_lines() == old(self).max_lines(),
    {
        self.is_active = !self.is_active;
    }

    /// Check if terminal is active
    pub fn is_active(&self) -> (r: bool)
        ensures
            r == self.active(),
    {
        self.is_active
    }
}

impl Default for BevyRatatuiTerminal {
    fn default() -> (t: BevyRatatuiTerminal)
        ensures
            t.is_fresh(seq!['>', ' ']),
            t.wf(),
    {
        let prompt = String::from_str("> ");
        proof {
            reveal_strlit("> ");
            assert(prompt@ =~= seq!['>', ' ']);
        }
        BevyRatatuiTerminal::new(prompt)
    }
}

/// However many lines are added, the log never holds more than its maximum and
/// its newest entry is the line just added (when the maximum is not zero).
pub proof fn law_log_is_bounded(log: Seq<Seq<char>>, line: Seq<char>, max: nat)
    ensures
        keep_last(log.push(line), max).len() <= max || keep_last(log.push(line), max).len()
            == log.len() + 1 && log.len() + 1 <= max,
        max > 0 ==> keep_last(log.push(line), max).last() == line,
{
}

} // verus!

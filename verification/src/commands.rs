//! Reading a command from the terminal's input line, and reporting the
//! outcome of parsing it.
use crate::terminal::{keep_last, BevyRatatuiTerminal};
use crate::text::{all_whitespace, concat, split_whitespace, trim_is_empty, views, words_of};
use vstd::prelude::*;

verus! {

/// The arguments of the terminal's input line: `None` when the line is blank
/// (it is then skipped), else its whitespace-separated words.
pub fn parse_command_input(terminal: &BevyRatatuiTerminal) -> (r: Option<Vec<String>>)
    ensures
        r is None <==> all_whitespace(terminal.line()),
        r matches Some(args) ==> views(args@) == words_of(terminal.line()),
{
    let input = terminal.get_current_line();
    if trim_is_empty(input) {
        None
    } else {
        Some(split_whitespace(input))
    }
}

pub open spec fn error_line(message: Seq<char>) -> Seq<char> {
    "Error: "@ + message
}

/// After a line was parsed: on success the line is cleared; on failure the
/// error is logged as `Error: <message>` and the line is cleared.
pub fn finish_command_input(terminal: &mut BevyRatatuiTerminal, outcome: Result<(), String>)
    ensures
        final(terminal).line() == Seq::<char>::empty(),
        final(terminal).cursor() == 0,
        match outcome {
            Ok(_) => final(terminal).log() == old(terminal).log(),
            Err(m) => final(terminal).log() == keep_last(
                old(terminal).log().push(error_line(m@)),
                old(terminal).max_lines() as nat,
            ),
        },
        final(terminal).prompt_text() == old(terminal).prompt_text(),
        final(terminal).max_lines() == old(terminal).max_lines(),
        final(terminal).active() == old(terminal).active(),
{
    match outcome {
        Ok(_) => {
            terminal.clear_line();
        },
        Err(m) => {
            terminal.add_log_line(concat("Error: ", m.as_str()));
            terminal.clear_line();
        },
    }
}

} // verus!

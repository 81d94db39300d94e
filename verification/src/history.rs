//! Command history.
use std::collections::VecDeque;
use vstd::prelude::*;

verus! {

/// Submitted lines, oldest first, with a position for browsing.
pub struct ReplHistory {
    pub history: VecDeque<String>,
    pub history_index: usize,
}

impl ReplHistory {
    pub fn new() -> (h: ReplHistory)
        ensures
            h.history@.len() == 0,
            h.history_index == 0,
    {
        ReplHistory { history: VecDeque::new(), history_index: 0 }
    }
}

impl Default for ReplHistory {
    fn default() -> (h: ReplHistory)
        ensures
            h.history@.len() == 0,
            h.history_index == 0,
    {
        ReplHistory::new()
    }
}

/// A line to print to the REPL.
#[derive(Clone, Debug)]
pub struct PrintReplLine(pub String);

} // verus!

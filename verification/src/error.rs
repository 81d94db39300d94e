//! Errors of command handling and their messages.
use crate::text::concat;
use vstd::prelude::*;

verus! {

#[derive(Debug, Clone)]
pub enum ReplError {
    CommandNotFound(String),
    /// A clap error, by its formatted message.
    ClapError(String),
    /// An execution error, by its message.
    ExecutionError(String),
    WorldAccessError(String),
}

pub open spec fn spec_message(e: ReplError) -> Seq<char> {
    match e {
        ReplError::CommandNotFound(cmd) => seq!['C', 'o', 'm', 'm', 'a', 'n', 'd', ' ', '\''] + cmd@
            + seq!['\'', ' ', 'n', 'o', 't', ' ', 'f', 'o', 'u', 'n', 'd'],
        ReplError::ClapError(m) => m@,
        ReplError::ExecutionError(m) => seq![
            'E', 'x', 'e', 'c', 'u', 't', 'i', 'o', 'n', ' ', 'e', 'r', 'r', 'o', 'r', ':', ' ',
        ] + m@,
        ReplError::WorldAccessError(m) => seq![
            'W', 'o', 'r', 'l', 'd', ' ', 'a', 'c', 'c', 'e', 's', 's', ' ', 'e', 'r', 'r', 'o', 'r',
            ':', ' ',
        ] + m@,
    }
}

impl ReplError {
    /// The message shown for the error.
    pub fn message(&self) -> (s: String)
        ensures
            s@ == spec_message(*self),
    {
        match self {
            ReplError::CommandNotFound(cmd) => {
                let a = concat("Command '", cmd.as_str());
                proof {
                    reveal_strlit("Command '");
                    reveal_strlit("' not found");
                }
                let s = concat(a.as_str(), "' not found");
                proof {
                    assert(s@ =~= spec_message(*self));
                }
                s
            },
            ReplError::ClapError(m) => m.clone(),
            ReplError::ExecutionError(m) => {
                proof {
                    reveal_strlit("Execution error: ");
                }
                let s = concat("Execution error: ", m.as_str());
                proof {
                    assert(s@ =~= spec_message(*self));
                }
                s
            },
            ReplError::WorldAccessError(m) => {
                proof {
                    reveal_strlit("World access error: ");
                }
                let s = concat("World access error: ", m.as_str());
                proof {
                    assert(s@ =~= spec_message(*self));
                }
                s
            },
        }
    }
}

} // verus!

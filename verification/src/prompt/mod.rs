//! The prompt bar: its visual configuration, key handling and layout.
pub mod helpers;
pub mod renderer;
pub mod config;
pub mod input;
pub mod keymap;
pub mod echo;

use vstd::prelude::*;

verus! {

/// The prompt's state: the symbol shown before the input, and the input typed so far.
#[derive(Clone, Debug, Default)]
pub struct ReplPrompt {
    pub symbol: Option<String>,
    pub buffer: String,
}

impl ReplPrompt {
    /// The prompt a plugin starts with: the configured symbol, or `"> "` when
    /// none is configured, and an empty buffer.
    pub fn initial(symbol: Option<String>) -> (p: ReplPrompt)
        ensures
            p.symbol matches Some(s) && s@ == (match symbol {
                Some(c) => c@,
                None => seq!['>', ' '],
            }),
            p.buffer@ == Seq::<char>::empty(),
    {
        let s = match symbol {
            Some(c) => c,
            None => {
                proof {
                    reveal_strlit("> ");
                }
                let d = String::from_str("> ");
                proof {
                    assert(d@ =~= seq!['>', ' ']);
                }
                d
            },
        };
        ReplPrompt { symbol: Some(s), buffer: String::new() }
    }
}

} // verus!

//! `close` (aliases `quit`, `exit`, `q`): closes the REPL but keeps the application running.
use crate::command::builder::{
    clap_alias, clap_command_about_of, clap_command_aliases_of, clap_command_args_of,
    clap_command_name_of, clap_command_subcommands_of, clap_command_subcommand_keys_of, clap_command_plain,
    clap_command_consistent, command_with_about,
};
use crate::repl::ReplLifecycleEvent;
use vstd::prelude::*;

verus! {

/// Close command - closes the REPL but does not exit the application
#[derive(Clone, Copy, Debug, Default)]
pub struct CloseReplCommand;

/// The message printed after closing.
pub open spec fn close_message() -> Seq<char> {
    seq![
        'R', 'E', 'P', 'L', ' ', 'd', 'i', 's', 'a', 'b', 'l', 'e', 'd', '.', ' ', 'A', 'p', 'p',
        'l', 'i', 'c', 'a', 't', 'i', 'o', 'n', ' ', 'w', 'i', 'l', 'l', ' ', 'c', 'o', 'n', 't',
        'i', 'n', 'u', 'e', ' ', 'r', 'u', 'n', 'n', 'i', 'n', 'g', '.',
    ]
}

impl CloseReplCommand {
    pub fn command(&self) -> (cmd: clap::Command)
        ensures
            clap_command_name_of(cmd) == "close"@,
            clap_command_about_of(cmd) == Some("Close the REPL but do not exit the application"@),
            clap_command_aliases_of(cmd) == seq!["quit"@, "exit"@, "q"@],
            clap_command_args_of(cmd).len() == 0,
            clap_command_subcommands_of(cmd) == Seq::<Seq<char>>::empty(),
            clap_command_subcommand_keys_of(cmd) == Seq::<Seq<char>>::empty(),
            clap_command_plain(cmd),
            clap_command_consistent(cmd),
    {
        let cmd = command_with_about("close", "Close the REPL but do not exit the application");
        let cmd = clap_alias(cmd, "quit");
        let cmd = clap_alias(cmd, "exit");
        clap_alias(cmd, "q")
    }

    /// Running the command disables the REPL and reports it.
    pub fn execute(&self) -> (r: (ReplLifecycleEvent, String))
        ensures
            r.0 == ReplLifecycleEvent::Disable,
            r.1@ == close_message(),
    {
        let msg = String::from_str("REPL disabled. Application will continue running.");
        proof {
            reveal_strlit("REPL disabled. Application will continue running.");
            assert(msg@ =~= close_message());
        }
        (ReplLifecycleEvent::Disable, msg)
    }
}

} // verus!

//! `quit` (aliases `q`, `exit`): exits the application.
use crate::command::builder::{
    clap_command_about_of, clap_command_aliases_of, clap_command_args_of, clap_command_name_of,
    clap_command_subcommands_of, clap_command_subcommand_keys_of, clap_command_plain,
    clap_command_consistent, clap_visible_alias, command_with_about,
};
use vstd::prelude::*;

verus! {

/// The quit command.
#[derive(Clone, Copy, Debug, Default)]
pub struct QuitCommand;

impl QuitCommand {
    pub fn clap_command() -> (cmd: clap::Command)
        ensures
            clap_command_name_of(cmd) == "quit"@,
            clap_command_about_of(cmd) == Some("Exits the app gracefully"@),
            clap_command_aliases_of(cmd) == seq!["q"@, "exit"@],
            clap_command_args_of(cmd).len() == 0,
            clap_command_subcommands_of(cmd) == Seq::<Seq<char>>::empty(),
            clap_command_subcommand_keys_of(cmd) == Seq::<Seq<char>>::empty(),
            clap_command_plain(cmd),
            clap_command_consistent(cmd),
    {
        let cmd = command_with_about("quit", "Exits the app gracefully");
        let cmd = clap_visible_alias(cmd, "q");
        clap_visible_alias(cmd, "exit")
    }
}

} // verus!

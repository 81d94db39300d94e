//! `clear`: clears previous output from the REPL.
use crate::command::builder::{
    clap_command_about_of, clap_command_aliases_of, clap_command_args_of, clap_command_name_of,
    clap_command_subcommands_of, clap_command_subcommand_keys_of, clap_command_plain,
    clap_command_consistent, command_with_about,
};
use vstd::prelude::*;

verus! {

/// The clear command.
#[derive(Clone, Copy, Debug, Default)]
pub struct ClearCommand;

impl ClearCommand {
    pub fn clap_command() -> (cmd: clap::Command)
        ensures
            clap_command_name_of(cmd) == "clear"@,
            clap_command_about_of(cmd) == Some("Clears previous outputs from the REPL"@),
            clap_command_aliases_of(cmd) == Seq::<Seq<char>>::empty(),
            clap_command_args_of(cmd).len() == 0,
            clap_command_subcommands_of(cmd) == Seq::<Seq<char>>::empty(),
            clap_command_subcommand_keys_of(cmd) == Seq::<Seq<char>>::empty(),
            clap_command_plain(cmd),
            clap_command_consistent(cmd),
    {
        command_with_about("clear", "Clears previous outputs from the REPL")
    }
}

} // verus!

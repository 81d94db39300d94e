//! `help` (alias `h`): lists the registered command names.
use crate::command::builder::{
    clap_command_about_of, clap_command_aliases_of, clap_command_args_of, clap_command_name_of,
    clap_command_subcommands_of, clap_command_subcommand_keys_of, clap_command_plain,
    clap_command_consistent, clap_visible_alias, command_with_about,
};
use crate::command::CommandTable;
use crate::text::{concat, views};
use vstd::prelude::*;

verus! {

/// The help command.
#[derive(Clone, Copy, Debug, Default)]
pub struct HelpCommand;

/// The heading of the help output.
pub open spec fn help_heading() -> Seq<char> {
    seq!['A', 'v', 'a', 'i', 'l', 'a', 'b', 'l', 'e', ' ', 'c', 'o', 'm', 'm', 'a', 'n', 'd', 's', ':']
}

/// Each name indented by two spaces.
pub open spec fn indented(names: Seq<Seq<char>>) -> Seq<Seq<char>> {
    names.map_values(|n: Seq<char>| seq![' ', ' '] + n)
}

impl HelpCommand {
    pub fn clap_command() -> (cmd: clap::Command)
        ensures
            clap_command_name_of(cmd) == "help"@,
            clap_command_about_of(cmd) == Some("Shows available REPL commands"@),
            clap_command_aliases_of(cmd) == seq!["h"@],
            clap_command_args_of(cmd).len() == 0,
            clap_command_subcommands_of(cmd) == Seq::<Seq<char>>::empty(),
            clap_command_subcommand_keys_of(cmd) == Seq::<Seq<char>>::empty(),
            clap_command_plain(cmd),
            clap_command_consistent(cmd),
    {
        let cmd = command_with_about("help", "Shows available REPL commands");
        clap_visible_alias(cmd, "h")
    }
}

/// The lines that `help` prints: a heading, then every registered name (and
/// alias), indented, in registration order.
pub fn on_help(commands: &CommandTable) -> (lines: Vec<String>)
    requires
        commands.wf(),
    ensures
        views(lines@) == seq![help_heading()] + indented(commands.key_seq()),
{
    let mut lines: Vec<String> = Vec::new();
    let heading = String::from_str("Available commands:");
    proof {
        reveal_strlit("Available commands:");
        assert(heading@ =~= help_heading());
    }
    lines.push(heading);
    let names = commands.keys();
    let indent = String::from_str("  ");
    proof {
        reveal_strlit("  ");
        assert(indent@ =~= seq![' ', ' ']);
        assert(views(lines@) =~= seq![help_heading()] + indented(commands.key_seq().take(0)));
    }
    let mut i: usize = 0;
    while i < names.len()
        invariant
            views(names@) == commands.key_seq(),
            indent@ == seq![' ', ' '],
            i <= names.len(),
            views(lines@) == seq![help_heading()] + indented(commands.key_seq().take(i as int)),
        decreases names.len() - i,
    {
        let line = concat(indent.as_str(), names[i].as_str());
        let ghost before = lines@;
        lines.push(line);
        proof {
            let ks = commands.key_seq();
            assert(ks[i as int] == names@[i as int]@);
            assert(ks.take(i + 1) =~= ks.take(i as int).push(ks[i as int]));
            assert(indented(ks.take(i + 1)) =~= indented(ks.take(i as int)).push(seq![' ', ' '] + ks[i as int]));
            assert(views(lines@) =~= views(before).push(line@));
        }
        i = i + 1;
    }
    proof {
        assert(commands.key_seq().take(i as int) =~= commands.key_seq());
    }
    lines
}

} // verus!

//! Building clap command definitions.
//!
//! A `clap::Command` is opaque to the proofs. What the logic reads of one is
//! named below: its name, its description (`about`), its aliases (visible and
//! hidden, in the order they were added), its arguments (each by its id, help
//! text, whether it is required and its range of values) and the names of its
//! subcommands. Each builder wrapper says how it changes these and that it
//! leaves the rest as it was; everything else a command holds is left unsaid.
use vstd::prelude::*;

verus! {

#[verifier::external_type_specification]
#[verifier::external_body]
pub struct ExClapArg(clap::Arg);

/// The name a command was created with (`Command::get_name`).
pub uninterp spec fn clap_command_name_of(cmd: clap::Command) -> Seq<char>;

/// The description a command was given (`Command::get_about`), if any.
pub uninterp spec fn clap_command_about_of(cmd: clap::Command) -> Option<Seq<char>>;

/// A command's aliases, visible and hidden, in the order they were added
/// (`Command::get_all_aliases`).
pub uninterp spec fn clap_command_aliases_of(cmd: clap::Command) -> Seq<Seq<char>>;

/// A command's arguments in the order they were added, each as its id, help
/// text, whether it is required, and its range of values (`Command::get_arguments`).
pub uninterp spec fn clap_command_args_of(cmd: clap::Command) -> Seq<
    (Seq<char>, Option<Seq<char>>, bool, Option<(usize, usize)>),
>;

/// The names of a command's subcommands, in the order they were added
/// (`Command::get_subcommands`).
pub uninterp spec fn clap_command_subcommands_of(cmd: clap::Command) -> Seq<Seq<char>>;

/// The names and aliases of a command's subcommands, in order: each
/// subcommand's name followed by its aliases (what clap checks for duplicates).
pub uninterp spec fn clap_command_subcommand_keys_of(cmd: clap::Command) -> Seq<Seq<char>>;

/// The command was set up only through the builder calls of this module: a
/// name, a description, aliases, the two parsing settings below, and plain
/// arguments and plain subcommands. It has no flags, groups, version or other
/// settings.
pub uninterp spec fn clap_command_plain(cmd: clap::Command) -> bool;

/// The argument was set up only through the argument calls of this module: an
/// id, a help text, whether it is required and a range of values. It is a
/// positional argument with no flags, action or other settings.
pub uninterp spec fn clap_arg_plain(arg: clap::Arg) -> bool;

/// clap's debug-build consistency checks (run when a command is first used to
/// parse, on the command and on each subcommand it parses into) accept the command.
pub uninterp spec fn clap_command_consistent(cmd: clap::Command) -> bool;

/// An argument's id (`Arg::get_id`).
pub uninterp spec fn clap_arg_id_of(arg: clap::Arg) -> Seq<char>;

/// An argument's help text (`Arg::get_help`), if any.
pub uninterp spec fn clap_arg_help_of(arg: clap::Arg) -> Option<Seq<char>>;

/// Whether an argument is required (`Arg::is_required_set`).
pub uninterp spec fn clap_arg_required_of(arg: clap::Arg) -> bool;

/// An argument's range of values (`Arg::get_num_args`), if one was set.
pub uninterp spec fn clap_arg_num_args_of(arg: clap::Arg) -> Option<(usize, usize)>;

/// Calls `clap::Command::new`: a command with this name and nothing else set.
#[verifier::external_body]
pub(crate) fn clap_new(name: &'static str) -> (cmd: clap::Command)
    ensures
        clap_command_name_of(cmd) == name@,
        clap_command_about_of(cmd) is None,
        clap_command_aliases_of(cmd) == Seq::<Seq<char>>::empty(),
        clap_command_args_of(cmd).len() == 0,
        clap_command_subcommands_of(cmd) == Seq::<Seq<char>>::empty(),
        clap_command_subcommand_keys_of(cmd) == Seq::<Seq<char>>::empty(),
        clap_command_plain(cmd),
        clap_command_consistent(cmd),
{
    clap::Command::new(name)
}

/// Calls `clap::Command::about`: sets the description.
#[verifier::external_body]
pub(crate) fn clap_about(cmd: clap::Command, about: &'static str) -> (r: clap::Command)
    ensures
        clap_command_name_of(r) == clap_command_name_of(cmd),
        clap_command_about_of(r) == Some(about@),
        clap_command_aliases_of(r) == clap_command_aliases_of(cmd),
        clap_command_args_of(r) == clap_command_args_of(cmd),
        clap_command_subcommands_of(r) == clap_command_subcommands_of(cmd),
        clap_command_subcommand_keys_of(r) == clap_command_subcommand_keys_of(cmd),
        clap_command_plain(r) == clap_command_plain(cmd),
        clap_command_consistent(r) == clap_command_consistent(cmd),
{
    cmd.about(about)
}

/// Calls `clap::Command::visible_alias`: adds an alias shown in help.
#[verifier::external_body]
pub(crate) fn clap_visible_alias(cmd: clap::Command, alias: &'static str) -> (r: clap::Command)
    ensures
        clap_command_name_of(r) == clap_command_name_of(cmd),
        clap_command_about_of(r) == clap_command_about_of(cmd),
        clap_command_aliases_of(r) == clap_command_aliases_of(cmd).push(alias@),
        clap_command_args_of(r) == clap_command_args_of(cmd),
        clap_command_subcommands_of(r) == clap_command_subcommands_of(cmd),
        clap_command_subcommand_keys_of(r) == clap_command_subcommand_keys_of(cmd),
        clap_command_plain(r) == clap_command_plain(cmd),
        clap_command_consistent(r) == clap_command_consistent(cmd),
{
    cmd.visible_alias(alias)
}

/// Calls `clap::Command::alias`: adds a hidden alias.
#[verifier::external_body]
pub(crate) fn clap_alias(cmd: clap::Command, alias: &'static str) -> (r: clap::Command)
    ensures
        clap_command_name_of(r) == clap_command_name_of(cmd),
        clap_command_about_of(r) == clap_command_about_of(cmd),
        clap_command_aliases_of(r) == clap_command_aliases_of(cmd).push(alias@),
        clap_command_args_of(r) == clap_command_args_of(cmd),
        clap_command_subcommands_of(r) == clap_command_subcommands_of(cmd),
        clap_command_subcommand_keys_of(r) == clap_command_subcommand_keys_of(cmd),
        clap_command_plain(r) == clap_command_plain(cmd),
        clap_command_consistent(r) == clap_command_consistent(cmd),
{
    cmd.alias(alias)
}

/// Calls `clap::Command::subcommand_negates_reqs`: a parsing setting only.
#[verifier::external_body]
pub(crate) fn clap_subcommand_negates_reqs(cmd: clap::Command, yes: bool) -> (r: clap::Command)
    ensures
        clap_command_name_of(r) == clap_command_name_of(cmd),
        clap_command_about_of(r) == clap_command_about_of(cmd),
        clap_command_aliases_of(r) == clap_command_aliases_of(cmd),
        clap_command_args_of(r) == clap_command_args_of(cmd),
        clap_command_subcommands_of(r) == clap_command_subcommands_of(cmd),
        clap_command_subcommand_keys_of(r) == clap_command_subcommand_keys_of(cmd),
        clap_command_plain(r) == clap_command_plain(cmd),
        clap_command_plain(cmd) ==> clap_command_consistent(r) == clap_command_consistent(cmd),
{
    cmd.subcommand_negates_reqs(yes)
}

/// Calls `clap::Command::arg_required_else_help`: a parsing setting only.
#[verifier::external_body]
pub(crate) fn clap_arg_required_else_help(cmd: clap::Command, yes: bool) -> (r: clap::Command)
    ensures
        clap_command_name_of(r) == clap_command_name_of(cmd),
        clap_command_about_of(r) == clap_command_about_of(cmd),
        clap_command_aliases_of(r) == clap_command_aliases_of(cmd),
        clap_command_args_of(r) == clap_command_args_of(cmd),
        clap_command_subcommands_of(r) == clap_command_subcommands_of(cmd),
        clap_command_subcommand_keys_of(r) == clap_command_subcommand_keys_of(cmd),
        clap_command_plain(r) == clap_command_plain(cmd),
        clap_command_plain(cmd) ==> clap_command_consistent(r) == clap_command_consistent(cmd),
{
    cmd.arg_required_else_help(yes)
}

/// Calls `clap::Command::subcommand`: adds `sub` as the last subcommand.
#[verifier::external_body]
pub(crate) fn clap_subcommand(cmd: clap::Command, sub: clap::Command) -> (r: clap::Command)
    ensures
        clap_command_name_of(r) == clap_command_name_of(cmd),
        clap_command_about_of(r) == clap_command_about_of(cmd),
        clap_command_aliases_of(r) == clap_command_aliases_of(cmd),
        clap_command_args_of(r) == clap_command_args_of(cmd),
        clap_command_subcommands_of(r) == clap_command_subcommands_of(cmd).push(
            clap_command_name_of(sub),
        ),
        clap_command_subcommand_keys_of(r) == clap_command_subcommand_keys_of(cmd) + seq![
            clap_command_name_of(sub),
        ] + clap_command_aliases_of(sub),
        clap_command_plain(r) == (clap_command_plain(cmd) && clap_command_plain(sub)),
        // clap checks that subcommand names and aliases are unique, counting the
        // `help` subcommand it adds itself
        ({
            let keys = seq![clap_command_name_of(sub)] + clap_command_aliases_of(sub);
            &&& clap_command_plain(cmd)
            &&& clap_command_plain(sub)
            &&& clap_command_consistent(cmd)
            &&& clap_command_consistent(sub)
            &&& keys.no_duplicates()
            &&& forall|k: Seq<char>|
                #[trigger] keys.contains(k) ==> !clap_command_subcommand_keys_of(cmd).contains(k)
                    && k != "help"@
        }) ==> clap_command_consistent(r),
{
    cmd.subcommand(sub)
}

/// Calls `clap::Command::arg`: adds `arg` as the last argument.
#[verifier::external_body]
pub(crate) fn clap_command_arg(cmd: clap::Command, arg: clap::Arg) -> (r: clap::Command)
    ensures
        clap_command_name_of(r) == clap_command_name_of(cmd),
        clap_command_about_of(r) == clap_command_about_of(cmd),
        clap_command_aliases_of(r) == clap_command_aliases_of(cmd),
        clap_command_args_of(r) == clap_command_args_of(cmd).push(
            (
                clap_arg_id_of(arg),
                clap_arg_help_of(arg),
                clap_arg_required_of(arg),
                clap_arg_num_args_of(arg),
            ),
        ),
        clap_command_subcommands_of(r) == clap_command_subcommands_of(cmd),
        clap_command_subcommand_keys_of(r) == clap_command_subcommand_keys_of(cmd),
        clap_command_plain(r) == (clap_command_plain(cmd) && clap_arg_plain(arg)),
        // a first, optional positional argument of at most one value, whose id
        // is not that of the `--help` flag clap adds
        clap_command_plain(cmd) && clap_arg_plain(arg) && clap_command_consistent(cmd)
            && clap_command_args_of(cmd).len() == 0 && clap_command_subcommands_of(cmd).len() == 0
            && clap_arg_id_of(arg) != "help"@ && !clap_arg_required_of(arg) && clap_arg_num_args_of(
            arg,
        ) == Some((0usize, 1usize)) ==> clap_command_consistent(r),
{
    cmd.arg(arg)
}

/// Calls `Clone::clone` on a command definition: a copy with the same contents.
#[verifier::external_body]
pub(crate) fn clap_command_clone(cmd: &clap::Command) -> (r: clap::Command)
    ensures
        clap_command_name_of(r) == clap_command_name_of(*cmd),
        clap_command_about_of(r) == clap_command_about_of(*cmd),
        clap_command_aliases_of(r) == clap_command_aliases_of(*cmd),
        clap_command_args_of(r) == clap_command_args_of(*cmd),
        clap_command_subcommands_of(r) == clap_command_subcommands_of(*cmd),
        clap_command_consistent(r) == clap_command_consistent(*cmd),
        clap_command_subcommand_keys_of(r) == clap_command_subcommand_keys_of(*cmd),
        clap_command_plain(r) == clap_command_plain(*cmd),
{
    cmd.clone()
}

/// Calls `clap::Arg::new`: an argument with this id and nothing else set.
#[verifier::external_body]
pub(crate) fn clap_arg(name: &'static str) -> (arg: clap::Arg)
    ensures
        clap_arg_id_of(arg) == name@,
        clap_arg_help_of(arg) is None,
        !clap_arg_required_of(arg),
        clap_arg_num_args_of(arg) is None,
        clap_arg_plain(arg),
{
    clap::Arg::new(name)
}

/// Calls `clap::Arg::help`: sets the help text.
#[verifier::external_body]
pub(crate) fn clap_arg_help(arg: clap::Arg, help: &'static str) -> (r: clap::Arg)
    ensures
        clap_arg_id_of(r) == clap_arg_id_of(arg),
        clap_arg_help_of(r) == Some(help@),
        clap_arg_required_of(r) == clap_arg_required_of(arg),
        clap_arg_num_args_of(r) == clap_arg_num_args_of(arg),
        clap_arg_plain(r) == clap_arg_plain(arg),
{
    arg.help(help)
}

/// Calls `clap::Arg::required`: sets whether the argument is required.
#[verifier::external_body]
pub(crate) fn clap_arg_required(arg: clap::Arg, yes: bool) -> (r: clap::Arg)
    ensures
        clap_arg_id_of(r) == clap_arg_id_of(arg),
        clap_arg_help_of(r) == clap_arg_help_of(arg),
        clap_arg_required_of(r) == yes,
        clap_arg_num_args_of(r) == clap_arg_num_args_of(arg),
        clap_arg_plain(r) == clap_arg_plain(arg),
{
    arg.required(yes)
}

/// Calls `clap::Arg::num_args` with the inclusive range `min..=max`.
#[verifier::external_body]
pub(crate) fn clap_arg_num_args(arg: clap::Arg, min: usize, max: usize) -> (r: clap::Arg)
    requires
        min <= max,
    ensures
        clap_arg_id_of(r) == clap_arg_id_of(arg),
        clap_arg_help_of(r) == clap_arg_help_of(arg),
        clap_arg_required_of(r) == clap_arg_required_of(arg),
        clap_arg_num_args_of(r) == Some((min, max)),
        clap_arg_plain(r) == clap_arg_plain(arg),
{
    arg.num_args(min..=max)
}

/// A command with a name and a one-line description, and nothing else.
pub(crate) fn command_with_about(name: &'static str, about: &'static str) -> (cmd: clap::Command)
    ensures
        clap_command_name_of(cmd) == name@,
        clap_command_about_of(cmd) == Some(about@),
        clap_command_aliases_of(cmd) == Seq::<Seq<char>>::empty(),
        clap_command_args_of(cmd).len() == 0,
        clap_command_subcommands_of(cmd) == Seq::<Seq<char>>::empty(),
        clap_command_subcommand_keys_of(cmd) == Seq::<Seq<char>>::empty(),
        clap_command_plain(cmd),
        clap_command_consistent(cmd),
{
    clap_about(clap_new(name), about)
}

/// Add an optional positional argument that takes at most one value.
pub(crate) fn with_optional_arg(
    cmd: clap::Command,
    name: &'static str,
    help: &'static str,
) -> (r: clap::Command)
    ensures
        clap_command_name_of(r) == clap_command_name_of(cmd),
        clap_command_about_of(r) == clap_command_about_of(cmd),
        clap_command_aliases_of(r) == clap_command_aliases_of(cmd),
        clap_command_args_of(r) == clap_command_args_of(cmd).push(
            (name@, Some(help@), false, Some((0usize, 1usize))),
        ),
        clap_command_subcommands_of(r) == clap_command_subcommands_of(cmd),
        clap_command_subcommand_keys_of(r) == clap_command_subcommand_keys_of(cmd),
        clap_command_plain(r) == clap_command_plain(cmd),
        clap_command_plain(cmd) && clap_command_consistent(cmd) && clap_command_args_of(cmd).len()
            == 0 && clap_command_subcommands_of(cmd).len() == 0 && name@ != "help"@
            ==> clap_command_consistent(r),
{
    let arg = clap_arg(name);
    let arg = clap_arg_help(arg, help);
    let arg = clap_arg_required(arg, false);
    let arg = clap_arg_num_args(arg, 0, 1);
    clap_command_arg(cmd, arg)
}

} // verus!

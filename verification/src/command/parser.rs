//! From a submitted line to a command: shell-like tokenizing, routing by the
//! first word, and what to do with the outcome of argument parsing.
use crate::command::builder::clap_command_consistent;
use crate::command::CommandTable;
use crate::text::{lines_of, no_newlines, split_lines, views, lemma_lines_no_newlines};
use vstd::prelude::*;

verus! {

#[verifier::external_type_specification]
#[verifier::external_body]
pub struct ExShellParseError(shell_words::ParseError);

#[verifier::external_type_specification]
#[verifier::external_body]
pub struct ExClapCommand(clap::Command);

#[verifier::external_type_specification]
#[verifier::external_body]
pub struct ExArgMatches(clap::ArgMatches);

#[verifier::external_type_specification]
#[verifier::external_body]
pub struct ExClapErrorKind(clap::error::ErrorKind);

/// The words that `shell_words::split` makes of a line (`None` where it fails).
pub uninterp spec fn spec_shell_split(input: Seq<char>) -> Option<Seq<Seq<char>>>;

/// Calls `shell_words::split`: it tokenizes like a POSIX shell (quotes, escapes,
/// comments) and fails only when the line ends inside a quote. The contract
/// ties the outcome to `spec_shell_split` of the input and states that a line
/// without quote characters always splits.
#[verifier::external_body]
fn shell_split(input: &str) -> (r: Result<Vec<String>, shell_words::ParseError>)
    ensures
        match r {
            Ok(v) => spec_shell_split(input@) == Some(views(v@)),
            Err(_) => spec_shell_split(input@) is None,
        },
        !input@.contains('\'') && !input@.contains('"') ==> r is Ok,
{
    shell_words::split(input)
}

/// Why tokenizing a line failed.
#[derive(Clone, Copy, Debug, PartialEq, Eq, Structural)]
pub enum TokenizeError {
    /// A quote was opened and never closed.
    MissingClosingQuote,
}

/// Split a line into words the way a shell would; a line without quote
/// characters always splits.
pub fn tokenize(input: &str) -> (r: Result<Vec<String>, TokenizeError>)
    ensures
        match r {
            Ok(v) => spec_shell_split(input@) == Some(views(v@)),
            Err(_) => spec_shell_split(input@) is None,
        },
        !input@.contains('\'') && !input@.contains('"') ==> r is Ok,
{
    match shell_split(input) {
        Ok(v) => Ok(v),
        Err(_) => Err(TokenizeError::MissingClosingQuote),
    }
}

/// A failure reported by clap: its kind and its formatted message.
#[derive(Clone, Debug)]
pub struct ClapFailure {
    pub kind: ClapErrorKind,
    pub message: String,
}

/// What clap makes of the words `argv` (the first is taken as the program
/// name) against `cmd`: on success, the name of the subcommand that was given,
/// if any; on failure, the error's kind (as `clap_error_kind` sorts it) and its
/// `Display` text. With this crate's clap features (no terminal-width help
/// wrapping, no environment variables, styles stripped by `Display`) this is a
/// function of the command and the words alone.
pub uninterp spec fn clap_parse_of(cmd: clap::Command, argv: Seq<Seq<char>>) -> Result<
    Option<Seq<char>>,
    (ClapErrorKind, Seq<char>),
>;

/// The name of the subcommand present in a set of matches (`ArgMatches::subcommand_name`).
pub uninterp spec fn clap_matches_subcommand_of(m: clap::ArgMatches) -> Option<Seq<char>>;

/// `m` is the set of matches (argument values and subcommand) that clap's
/// parse of the words `argv` against `cmd` produces.
pub uninterp spec fn clap_matches_for(cmd: clap::Command, argv: Seq<Seq<char>>, m: clap::ArgMatches) -> bool;

/// `sm` is the set of matches that `m` holds for its subcommand
/// (`ArgMatches::subcommand`).
pub uninterp spec fn clap_submatches_for(m: clap::ArgMatches, sm: clap::ArgMatches) -> bool;

/// Calls `clap::Command::try_get_matches_from` on a copy of the command and,
/// on failure, keeps the error's kind and its `Display` text. In debug builds
/// clap first runs its consistency checks on the command and panics on a
/// malformed one (two arguments with one id, clashing subcommand names, ...);
/// such commands are left out by `requires`. The outcome is the one
/// `clap_parse_of` names; on success the matches are the ones clap produced
/// for these words (`clap_matches_for`) and carry the subcommand named there.
#[verifier::external_body]
pub(crate) fn clap_try_get_matches(cmd: &clap::Command, argv: &Vec<String>) -> (r: Result<
    clap::ArgMatches,
    ClapFailure,
>)
    requires
        clap_command_consistent(*cmd),
    ensures
        match r {
            Ok(m) => clap_parse_of(*cmd, views(argv@)) == Ok::<
                Option<Seq<char>>,
                (ClapErrorKind, Seq<char>),
            >(clap_matches_subcommand_of(m)) && clap_matches_for(*cmd, views(argv@), m),
            Err(f) => clap_parse_of(*cmd, views(argv@)) == Err::<
                Option<Seq<char>>,
                (ClapErrorKind, Seq<char>),
            >((f.kind, f.message@)),
        },
{
    cmd.clone().try_get_matches_from(argv.iter()).map_err(
        |e| ClapFailure { kind: clap_error_kind(e.kind()), message: e.to_string() },
    )
}

/// The kinds of clap failure that the parsing logic tells apart.
#[derive(Clone, Copy, Debug, PartialEq, Eq, Structural)]
pub enum ClapErrorKind {
    /// Help text was requested.
    DisplayHelp,
    /// Version text was requested.
    DisplayVersion,
    /// An argument the command does not know.
    UnknownArgument,
    /// A subcommand the command does not know.
    InvalidSubcommand,
    /// Any other failure (a missing or invalid value, a conflict, ...).
    Other,
}

/// Names clap's `ErrorKind` variants that the logic tells apart, one arm each.
#[verifier::external_body]
fn clap_error_kind(k: clap::error::ErrorKind) -> (r: ClapErrorKind) {
    match k {
        clap::error::ErrorKind::DisplayHelp => ClapErrorKind::DisplayHelp,
        clap::error::ErrorKind::DisplayVersion => ClapErrorKind::DisplayVersion,
        clap::error::ErrorKind::UnknownArgument => ClapErrorKind::UnknownArgument,
        clap::error::ErrorKind::InvalidSubcommand => ClapErrorKind::InvalidSubcommand,
        _ => ClapErrorKind::Other,
    }
}

/// A clap failure is shown to the user (and the line counts as handled) unless
/// it only says that the words belong to some other command.
pub open spec fn clap_error_is_reported(k: ClapErrorKind) -> bool {
    !(k == ClapErrorKind::UnknownArgument || k == ClapErrorKind::InvalidSubcommand)
}

pub fn clap_error_reported(k: ClapErrorKind) -> (r: bool)
    ensures
        r == clap_error_is_reported(k),
{
    match k {
        ClapErrorKind::UnknownArgument | ClapErrorKind::InvalidSubcommand => false,
        _ => true,
    }
}

/// The lines of a message (such as clap's formatted error or help text), for
/// printing one by one above the prompt.
pub fn message_lines(text: &str) -> (r: Vec<String>)
    ensures
        views(r@) == lines_of(text@),
        no_newlines(views(r@)),
{
    let lines = split_lines(text);
    proof {
        lemma_lines_no_newlines(text@);
    }
    lines
}

/// What a command's parser made of a submitted line.
pub enum ParseResolution {
    /// The line does not tokenize (unterminated quote); other parsers may try.
    Unparsable,
    /// The line has no words; other parsers may try.
    Empty,
    /// The arguments matched the command; the application converts and triggers it.
    Matched(clap::ArgMatches),
    /// Clap rejected the words as not belonging to this command; other parsers may try.
    Rejected(ClapErrorKind),
    /// Clap produced a message (an error, or help/version text) to print; the line is handled.
    Reported(ClapErrorKind, Vec<String>),
}

impl ParseResolution {
    /// The line was handled by this parser (its outcome is the parser's `bool`).
    pub open spec fn spec_handled(&self) -> bool {
        self is Matched || self is Reported
    }

    pub fn handled(&self) -> (r: bool)
        ensures
            r == self.spec_handled(),
    {
        match self {
            ParseResolution::Matched(_) | ParseResolution::Reported(_, _) => true,
            _ => false,
        }
    }
}

/// `r` is what clap's parse of the words `argv` against `cmd` resolves to: the
/// matches clap produced for them on success; on failure a rejection, or the
/// message's lines when the failure is reported.
pub open spec fn resolves_to(r: ParseResolution, cmd: clap::Command, argv: Seq<Seq<char>>) -> bool {
    match clap_parse_of(cmd, argv) {
        Ok(_) => r matches ParseResolution::Matched(m) && clap_matches_for(cmd, argv, m),
        Err((k, msg)) => if clap_error_is_reported(k) {
            r matches ParseResolution::Reported(k2, lines) && k2 == k && views(lines@) == lines_of(
                msg,
            )
        } else {
            r == ParseResolution::Rejected(k)
        },
    }
}

/// How a clap failure on a line resolves: a request for help or version text,
/// and every failure other than an unknown argument or subcommand, is printed
/// line by line and the line counts as handled; an unknown argument or
/// subcommand only rejects the line, which is then not handled, so that other
/// commands may try it.
pub proof fn law_clap_failures_resolve(
    r: ParseResolution,
    cmd: clap::Command,
    argv: Seq<Seq<char>>,
    k: ClapErrorKind,
    msg: Seq<char>,
)
    requires
        resolves_to(r, cmd, argv),
        clap_parse_of(cmd, argv) == Err::<Option<Seq<char>>, (ClapErrorKind, Seq<char>)>((k, msg)),
    ensures
        k == ClapErrorKind::DisplayHelp || k == ClapErrorKind::DisplayVersion || k
            == ClapErrorKind::Other ==> (r matches ParseResolution::Reported(k2, lines) && k2 == k
            && views(lines@) == lines_of(msg)),
        k == ClapErrorKind::UnknownArgument || k == ClapErrorKind::InvalidSubcommand ==> r
            == ParseResolution::Rejected(k),
        r.spec_handled() <==> !(k == ClapErrorKind::UnknownArgument || k
            == ClapErrorKind::InvalidSubcommand),
{
}

/// A line that clap accepts always resolves to matches and counts as handled.
pub proof fn law_clap_success_is_handled(r: ParseResolution, cmd: clap::Command, argv: Seq<Seq<char>>)
    requires
        resolves_to(r, cmd, argv),
        clap_parse_of(cmd, argv) is Ok,
    ensures
        r is Matched,
        r.spec_handled(),
{
}

/// Parse a submitted line against one command: tokenize it, give up on an
/// empty or untokenizable line, run clap on the words (the command name is the
/// first word), and sort clap's failure into reported or rejected.
pub fn parse_and_trigger(cmd: clap::Command, input: &str) -> (r: ParseResolution)
    requires
        clap_command_consistent(cmd),
    ensures
        match spec_shell_split(input@) {
            Some(argv) => argv.len() > 0 ==> resolves_to(r, cmd, argv),
            None => true,
        },
        r is Unparsable <==> spec_shell_split(input@) is None,
        r is Empty <==> spec_shell_split(input@) == Some(Seq::<Seq<char>>::empty()),
        r matches ParseResolution::Rejected(k) ==> !clap_error_is_reported(k),
        r matches ParseResolution::Reported(k, lines) ==> clap_error_is_reported(k) && no_newlines(
            views(lines@),
        ),
{
    let argv = match tokenize(input) {
        Ok(v) => v,
        Err(_) => {
            return ParseResolution::Unparsable;
        },
    };
    if argv.len() == 0 {
        proof {
            assert(views(argv@) =~= Seq::<Seq<char>>::empty());
        }
        return ParseResolution::Empty;
    }
    proof {
        assert(views(argv@).len() == argv@.len());
    }
    resolve_clap_outcome(clap_try_get_matches(&cmd, &argv))
}

/// What clap's outcome on a line means: matches are kept; a failure that only
/// says the words belong to another command is a rejection; any other failure
/// (help and version text included) is reported line by line.
pub fn resolve_clap_outcome(outcome: Result<clap::ArgMatches, ClapFailure>) -> (r: ParseResolution)
    ensures
        match outcome {
            Ok(m) => r == ParseResolution::Matched(m),
            Err(f) => if clap_error_is_reported(f.kind) {
                r matches ParseResolution::Reported(k, lines) && k == f.kind && views(lines@)
                    == lines_of(f.message@) && no_newlines(views(lines@))
            } else {
                r == ParseResolution::Rejected(f.kind)
            },
        },
{
    match outcome {
        Ok(matches) => ParseResolution::Matched(matches),
        Err(failure) => {
            if clap_error_reported(failure.kind) {
                ParseResolution::Reported(failure.kind, message_lines(failure.message.as_str()))
            } else {
                ParseResolution::Rejected(failure.kind)
            }
        },
    }
}

/// Where a submitted line goes.
#[derive(Clone, Copy, Debug, PartialEq, Eq, Structural)]
pub enum CommandRoute {
    /// Nothing to do: the line is empty or has no words.
    Ignored,
    /// The line does not tokenize; it is reported as invalid input.
    Invalid,
    /// The first word names a registered command; its parser has this identifier.
    Dispatch(usize),
    /// The first word names no registered command.
    Unknown,
}

/// The route of `input` given the command table.
pub open spec fn spec_route(input: Seq<char>, commands: Map<Seq<char>, usize>) -> CommandRoute {
    if input.len() == 0 {
        CommandRoute::Ignored
    } else {
        match spec_shell_split(input) {
            None => CommandRoute::Invalid,
            Some(argv) => if argv.len() == 0 {
                CommandRoute::Ignored
            } else if commands.dom().contains(argv[0]) {
                CommandRoute::Dispatch(commands[argv[0]])
            } else {
                CommandRoute::Unknown
            },
        }
    }
}

/// Route one submitted line: skip empty input, tokenize, and look up the first
/// word (command name or alias) among the registered commands.
pub fn parse_input_buffer_for_commands(input: &str, commands: &CommandTable) -> (r: CommandRoute)
    requires
        commands.wf(),
    ensures
        r == spec_route(input@, commands.view()),
{
    if input.is_empty() {
        return CommandRoute::Ignored;
    }
    let argv = match tokenize(input) {
        Ok(v) => v,
        Err(_) => {
            return CommandRoute::Invalid;
        },
    };
    if argv.len() == 0 {
        return CommandRoute::Ignored;
    }
    proof {
        assert(views(argv@)[0] == argv@[0]@);
    }
    match commands.get(argv[0].as_str()) {
        Some(id) => CommandRoute::Dispatch(id),
        None => CommandRoute::Unknown,
    }
}

} // verus!

//! The registry of executable commands: each registered command definition
//! under its name, the root command assembled from them, and the decision of
//! which command runs for a submitted line.
use crate::command::builder::{
    clap_arg_required_else_help, clap_command_about_of, clap_command_aliases_of,
    clap_command_args_of, clap_command_clone, clap_command_consistent, clap_command_name_of,
    clap_command_plain, clap_command_subcommand_keys_of, clap_command_subcommands_of, clap_new,
    clap_about, clap_subcommand, clap_subcommand_negates_reqs,
};
use crate::command::parser::{
    clap_matches_for, clap_matches_subcommand_of, clap_parse_of, clap_submatches_for,
    clap_try_get_matches,
};
use crate::command::register::clap_command_name;
use crate::command::CommandTable;
use crate::error::{spec_message, ReplError};
use crate::text::{concat, split_whitespace, views, words_of};
use vstd::prelude::*;

verus! {

/// Calls `clap::ArgMatches::subcommand`: the name and matches of the
/// subcommand that was present, if any; the name is the one the matches carry
/// and the matches are that subcommand's own (cloned).
#[verifier::external_body]
fn clap_subcommand_of(matches: &clap::ArgMatches) -> (r: Option<(String, clap::ArgMatches)>)
    ensures
        match r {
            Some((n, sm)) => clap_matches_subcommand_of(*matches) == Some(n@) && clap_submatches_for(
                *matches,
                sm,
            ),
            None => clap_matches_subcommand_of(*matches) is None,
        },
{
    matches.subcommand().map(|(name, sub)| (name.to_string(), sub.clone()))
}

/// Registered commands: a name table whose identifiers are positions in the
/// list of definitions, and the root command built from those definitions.
pub struct ReplCommandRegistry {
    commands: CommandTable,
    definitions: Vec<clap::Command>,
    app: Option<clap::Command>,
}

/// What to do with a submitted line.
pub enum Dispatch {
    /// Run the command with this identifier on these matches.
    Execute(usize, clap::ArgMatches),
    /// Print this message; no command runs.
    Message(String),
}

pub open spec fn no_commands_message() -> Seq<char> {
    "No commands registered. Register commands with `add_repl_command`."@
}

pub open spec fn no_help_message() -> Seq<char> {
    "No command specified. Help command not found."@
}

pub open spec fn unknown_command_message(name: Seq<char>) -> Seq<char> {
    "Unknown command: `"@ + name + "`. Use 'help' to see available commands."@
}

pub open spec fn help_name() -> Seq<char> {
    "help"@
}

/// `app` is the root command built from `defs`: named `bevy_repl`, described
/// as "Bevy REPL Commands", with no aliases or arguments of its own and the
/// definitions as its subcommands, in order.
pub open spec fn app_built_from(app: clap::Command, defs: Seq<clap::Command>) -> bool {
    &&& clap_command_name_of(app) == "bevy_repl"@
    &&& clap_command_about_of(app) == Some("Bevy REPL Commands"@)
    &&& clap_command_aliases_of(app) == Seq::<Seq<char>>::empty()
    &&& clap_command_args_of(app).len() == 0
    &&& clap_command_subcommands_of(app) == defs.map_values(|c: clap::Command| clap_command_name_of(c))
}

/// The names and aliases of the definitions, in order: each definition's name
/// followed by its aliases.
pub open spec fn definition_keys(defs: Seq<clap::Command>) -> Seq<Seq<char>>
    decreases defs.len(),
{
    if defs.len() == 0 {
        Seq::empty()
    } else {
        definition_keys(defs.drop_last()) + seq![clap_command_name_of(defs.last())]
            + clap_command_aliases_of(defs.last())
    }
}

/// The definitions can stand side by side under one root command: each is a
/// plain, consistent command, and no name or alias occurs twice or is `help`.
pub open spec fn definitions_compatible(defs: Seq<clap::Command>) -> bool {
    &&& forall|i: int|
        0 <= i < defs.len() ==> clap_command_plain(#[trigger] defs[i]) && clap_command_consistent(
            defs[i],
        )
    &&& definition_keys(defs).no_duplicates()
    &&& !definition_keys(defs).contains("help"@)
}

/// The keys of a prefix of the definitions come first among the keys of all.
proof fn lemma_definition_keys_prefix(defs: Seq<clap::Command>, j: int) -> (rest: Seq<Seq<char>>)
    requires
        0 <= j <= defs.len(),
    ensures
        definition_keys(defs) == definition_keys(defs.take(j)) + rest,
    decreases defs.len(),
{
    if j == defs.len() {
        assert(defs.take(j) =~= defs);
        assert(definition_keys(defs) =~= definition_keys(defs.take(j)) + Seq::<Seq<char>>::empty());
        Seq::empty()
    } else {
        let d = defs.drop_last();
        let r = lemma_definition_keys_prefix(d, j);
        assert(d.take(j) =~= defs.take(j));
        let k = seq![clap_command_name_of(defs.last())] + clap_command_aliases_of(defs.last());
        assert(definition_keys(defs) =~= definition_keys(defs.take(j)) + (r + k));
        r + k
    }
}

/// What a line that clap parsed into `matches` leads to: the named subcommand,
/// if registered, run on the subcommand's own matches, else an unknown-command
/// message; with no subcommand, the `help` command, if registered, run on the
/// whole matches, else a message.
pub open spec fn dispatches(view: Map<Seq<char>, usize>, matches: clap::ArgMatches, d: Dispatch) -> bool {
    match clap_matches_subcommand_of(matches) {
        Some(n) => if view.dom().contains(n) {
            d matches Dispatch::Execute(id, sm) && id == view[n] && clap_submatches_for(matches, sm)
        } else {
            d matches Dispatch::Message(m) && m@ == unknown_command_message(n)
        },
        None => if view.dom().contains(help_name()) {
            d matches Dispatch::Execute(id, hm) && id == view[help_name()] && hm == matches
        } else {
            d matches Dispatch::Message(m) && m@ == no_help_message()
        },
    }
}

/// The output line for the outcome of running a command: its output, or the
/// error's message after `Error: `.
pub open spec fn spec_execution_output(r: Result<Seq<char>, ReplError>) -> Seq<char> {
    match r {
        Ok(s) => s,
        Err(e) => "Error: "@ + spec_message(e),
    }
}

impl ReplCommandRegistry {
    /// The table from command name to identifier.
    pub closed spec fn view(&self) -> Map<Seq<char>, usize> {
        self.commands.view()
    }

    /// Names in registration order.
    pub closed spec fn names(&self) -> Seq<Seq<char>> {
        self.commands.key_seq()
    }

    /// Number of registered definitions (the identifiers are `0..count`).
    pub closed spec fn count(&self) -> nat {
        self.definitions@.len()
    }

    /// The root command has been built.
    pub closed spec fn has_app(&self) -> bool {
        self.app is Some
    }

    /// The registered definitions; the identifier of each is its position.
    pub closed spec fn definitions(&self) -> Seq<clap::Command> {
        self.definitions@
    }

    /// The root command, once built.
    pub closed spec fn app(&self) -> Option<clap::Command> {
        self.app
    }

    /// Identifiers are the positions of the names: the `i`-th name has identifier `i`.
    pub closed spec fn wf(&self) -> bool {
        &&& self.commands.wf()
        &&& self.commands.key_seq().len() == self.definitions@.len()
        &&& forall|i: int|
            0 <= i < self.commands.key_seq().len() ==> #[trigger] self.commands.view()[self.commands.key_seq()[i]]
                == i
        &&& forall|k: Seq<char>| #[trigger]
            self.commands.view().dom().contains(k) <==> self.commands.key_seq().contains(k)
    }

    pub fn new() -> (r: ReplCommandRegistry)
        ensures
            r.wf(),
            r.view() == Map::<Seq<char>, usize>::empty(),
            r.names() == Seq::<Seq<char>>::empty(),
            r.count() == 0,
            r.definitions() == Seq::<clap::Command>::empty(),
            !r.has_app(),
    {
        ReplCommandRegistry { commands: CommandTable::new(), definitions: Vec::new(), app: None }
    }

    /// The registered names, in registration order.
    pub fn get_command_names(&self) -> (r: Vec<String>)
        requires
            self.wf(),
        ensures
            views(r@) == self.names(),
    {
        let r = self.commands.keys();
        proof {
            assert(views(r@) =~= r@.map_values(|s: String| s@));
        }
        r
    }

    /// The root command, once a command has been registered.
    pub fn get_app(&self) -> (r: Option<&clap::Command>)
        ensures
            r is Some <==> self.has_app(),
    {
        self.app.as_ref()
    }

    pub fn has_command(&self, name: &str) -> (r: bool)
        requires
            self.wf(),
        ensures
            r == self.view().dom().contains(name@),
    {
        self.commands.contains_key(name)
    }

    /// The identifier of the command registered under `name`.
    pub fn get_command(&self, name: &str) -> (r: Option<usize>)
        requires
            self.wf(),
        ensures
            r == (if self.view().dom().contains(name@) {
                Some(self.view()[name@])
            } else {
                None
            }),
            r matches Some(id) ==> id < self.count(),
    {
        let r = self.commands.get(name);
        proof {
            if self.view().dom().contains(name@) {
                let i = choose|i: int|
                    0 <= i < self.commands.key_seq().len() && self.commands.key_seq()[i] == name@;
                assert(self.commands.view()[self.commands.key_seq()[i]] == i);
            }
        }
        r
    }

    /// Register `command` under `name`: a new name gets the next identifier, a
    /// name registered before keeps its identifier and gets the new definition.
    /// The root command is rebuilt. Returns the identifier.
    pub fn register_named(&mut self, name: String, command: clap::Command) -> (id: usize)
        requires
            old(self).wf(),
            old(self).count() < usize::MAX,
        ensures
            final(self).wf(),
            id == (if old(self).view().dom().contains(name@) {
                old(self).view()[name@] as int
            } else {
                old(self).count() as int
            }),
            final(self).view() == old(self).view().insert(name@, id),
            final(self).names() == (if old(self).view().dom().contains(name@) {
                old(self).names()
            } else {
                old(self).names().push(name@)
            }),
            final(self).count() == (if old(self).view().dom().contains(name@) {
                old(self).count()
            } else {
                old(self).count() + 1
            }),
            final(self).definitions() == (if old(self).view().dom().contains(name@) {
                old(self).definitions().update(id as int, command)
            } else {
                old(self).definitions().push(command)
            }),
            final(self).has_app(),
            final(self).app() matches Some(a) && app_built_from(a, final(self).definitions()),
            definitions_compatible(final(self).definitions()) ==> (final(self).app() matches Some(
                a,
            ) && clap_command_consistent(a)),
    {
        let ghost keys0 = self.commands.key_seq();
        let ghost map0 = self.commands.view();
        let ghost command0 = command;
        let id = match self.get_command(name.as_str()) {
            Some(id) => {
                self.definitions.set(id, command);
                id
            },
            None => {
                let id = self.definitions.len();
                self.commands.insert(name, id);
                self.definitions.push(command);
                proof {
                    let keys = self.commands.key_seq();
                    assert(keys == keys0.push(name@));
                    assert forall|i: int| 0 <= i < keys.len() implies #[trigger] self.commands.view()[keys[i]] == i by {
                        if i < keys0.len() {
                            assert(keys[i] == keys0[i]);
                            assert(keys0[i] != name@);
                        }
                    }
                    assert forall|k: Seq<char>| #[trigger] self.commands.view().dom().contains(k) <==> keys.contains(k) by {
                        if keys.contains(k) && k != name@ {
                            let j = choose|j: int| 0 <= j < keys.len() && keys[j] == k;
                            assert(keys0[j] == k);
                        }
                        if keys0.contains(k) {
                            let j = choose|j: int| 0 <= j < keys0.len() && keys0[j] == k;
                            assert(keys[j] == k);
                        }
                        if k == name@ {
                            assert(keys[keys0.len() as int] == k);
                        }
                    }
                }
                id
            },
        };
        proof {
            if map0.dom().contains(name@) {
                assert(map0.insert(name@, id) =~= map0);
                assert(self.definitions@ == old(self).definitions@.update(id as int, command0));
            } else {
                assert(self.definitions@ == old(self).definitions@.push(command0));
            }
        }
        self.rebuild_app();
        id
    }

    /// Register `command` under its own name; see `register_named`.
    pub fn register(&mut self, command: clap::Command) -> (id: usize)
        requires
            old(self).wf(),
            old(self).count() < usize::MAX,
        ensures
            final(self).wf(),
            final(self).has_app(),
            id == (if old(self).view().dom().contains(clap_command_name_of(command)) {
                old(self).view()[clap_command_name_of(command)] as int
            } else {
                old(self).count() as int
            }),
            final(self).view() == old(self).view().insert(clap_command_name_of(command), id),
            final(self).names() == (if old(self).view().dom().contains(clap_command_name_of(command)) {
                old(self).names()
            } else {
                old(self).names().push(clap_command_name_of(command))
            }),
            final(self).definitions() == (if old(self).view().dom().contains(
                clap_command_name_of(command),
            ) {
                old(self).definitions().update(id as int, command)
            } else {
                old(self).definitions().push(command)
            }),
            final(self).app() matches Some(a) && app_built_from(a, final(self).definitions()),
            definitions_compatible(final(self).definitions()) ==> (final(self).app() matches Some(
                a,
            ) && clap_command_consistent(a)),
    {
        let name = clap_command_name(&command);
        self.register_named(name, command)
    }

    /// Build the root command: named `bevy_repl`, with every registered
    /// definition as a subcommand, in registration order.
    fn rebuild_app(&mut self)
        ensures
            final(self).has_app(),
            final(self).commands == old(self).commands,
            final(self).definitions == old(self).definitions,
            final(self).app() matches Some(a) && app_built_from(a, final(self).definitions()),
            definitions_compatible(final(self).definitions()) ==> (final(self).app() matches Some(
                a,
            ) && clap_command_consistent(a)),
    {
        let app = clap_new("bevy_repl");
        let app = clap_about(app, "Bevy REPL Commands");
        let app = clap_subcommand_negates_reqs(app, true);
        let mut app = clap_arg_required_else_help(app, false);
        let mut i: usize = 0;
        while i < self.definitions.len()
            invariant
                i <= self.definitions@.len(),
                clap_command_name_of(app) == "bevy_repl"@,
                clap_command_about_of(app) == Some("Bevy REPL Commands"@),
                clap_command_aliases_of(app) == Seq::<Seq<char>>::empty(),
                clap_command_args_of(app).len() == 0,
                clap_command_subcommands_of(app) == self.definitions@.take(i as int).map_values(
                    |c: clap::Command| clap_command_name_of(c),
                ),
                clap_command_subcommand_keys_of(app) == definition_keys(
                    self.definitions@.take(i as int),
                ),
                definitions_compatible(self.definitions@) ==> clap_command_plain(app)
                    && clap_command_consistent(app),
            decreases self.definitions@.len() - i,
        {
            let ghost before = clap_command_subcommands_of(app);
            let ghost defs = self.definitions@;
            proof {
                assert(defs.take(i + 1).drop_last() =~= defs.take(i as int));
                assert(defs.take(i + 1).last() == defs[i as int]);
                if definitions_compatible(defs) {
                    let d = defs[i as int];
                    let a = definition_keys(defs.take(i as int));
                    let kn = seq![clap_command_name_of(d)] + clap_command_aliases_of(d);
                    let rest = lemma_definition_keys_prefix(defs, i + 1);
                    let whole = definition_keys(defs);
                    assert(definition_keys(defs.take(i + 1)) == a + kn);
                    assert(whole == a + kn + rest);
                    assert(clap_command_plain(defs[i as int]));
                    assert forall|x: int, y: int| 0 <= x < y < kn.len() implies kn[x] != kn[y] by {
                        assert(whole[a.len() + x] == kn[x]);
                        assert(whole[a.len() + y] == kn[y]);
                    }
                    assert forall|k: Seq<char>| #[trigger] kn.contains(k) implies !a.contains(k)
                        && k != "help"@ by {
                        let x = choose|x: int| 0 <= x < kn.len() && kn[x] == k;
                        assert(whole[a.len() + x] == k);
                        if a.contains(k) {
                            let y = choose|y: int| 0 <= y < a.len() && a[y] == k;
                            assert(whole[y] == k);
                        }
                    }
                }
            }
            app = clap_subcommand(app, clap_command_clone(&self.definitions[i]));
            proof {
                assert(self.definitions@.take(i + 1) =~= self.definitions@.take(i as int).push(
                    self.definitions@[i as int],
                ));
                assert(self.definitions@.take(i + 1).map_values(
                    |c: clap::Command| clap_command_name_of(c),
                ) =~= before.push(clap_command_name_of(self.definitions@[i as int])));
            }
            i = i + 1;
        }
        proof {
            assert(self.definitions@.take(i as int) =~= self.definitions@);
        }
        self.app = Some(app);
    }

    /// Decide what runs once clap has parsed a line: the named subcommand if
    /// it is registered (with its own matches), an unknown-command message if
    /// not; with no subcommand, the `help` command (with the whole matches) if
    /// registered, else a message.
    pub fn resolve_matches(
        &self,
        sub: Option<(String, clap::ArgMatches)>,
        matches: clap::ArgMatches,
    ) -> (r: Dispatch)
        requires
            self.wf(),
        ensures
            match sub {
                Some((name, sm)) => if self.view().dom().contains(name@) {
                    r == Dispatch::Execute(self.view()[name@], sm)
                } else {
                    r matches Dispatch::Message(m) && m@ == unknown_command_message(name@)
                },
                None => if self.view().dom().contains(help_name()) {
                    r == Dispatch::Execute(self.view()[help_name()], matches)
                } else {
                    r matches Dispatch::Message(m) && m@ == no_help_message()
                },
            },
            r matches Dispatch::Execute(id, _) ==> id < self.count(),
    {
        match sub {
            Some((name, sm)) => match self.get_command(name.as_str()) {
                Some(id) => Dispatch::Execute(id, sm),
                None => {
                    let a = concat("Unknown command: `", name.as_str());
                    let m = concat(a.as_str(), "`. Use 'help' to see available commands.");
                    Dispatch::Message(m)
                },
            },
            None => {
                proof {
                    reveal_strlit("help");
                }
                match self.get_command("help") {
                    Some(id) => Dispatch::Execute(id, matches),
                    None => Dispatch::Message(
                        String::from_str("No command specified. Help command not found."),
                    ),
                }
            },
        }
    }

    /// Parse a submitted line against the root command and decide what runs.
    /// With no command registered there is nothing to parse against; a line
    /// that clap rejects comes back as its error.
    pub fn parse_and_execute(&self, input: &str) -> (r: Result<Dispatch, ReplError>)
        requires
            self.wf(),
            self.app() matches Some(a) ==> clap_command_consistent(a),
        ensures
            !self.has_app() ==> (r matches Ok(Dispatch::Message(m)) && m@ == no_commands_message()),
            match self.app() {
                Some(a) => match clap_parse_of(a, words_of(input@)) {
                    Err((_, msg)) => r matches Err(ReplError::ClapError(e)) && e@ == msg,
                    Ok(_) => r matches Ok(d) && exists|m: clap::ArgMatches|
                        #[trigger] clap_matches_for(a, words_of(input@), m) && dispatches(
                            self.view(),
                            m,
                            d,
                        ),
                },
                None => true,
            },
            r matches Ok(Dispatch::Execute(id, _)) ==> id < self.count(),
    {
        match &self.app {
            None => Ok(Dispatch::Message(
                String::from_str("No commands registered. Register commands with `add_repl_command`."),
            )),
            Some(app) => {
                let words = split_whitespace(input);
                match clap_try_get_matches(app, &words) {
                    Err(failure) => Err(ReplError::ClapError(failure.message)),
                    Ok(matches) => {
                        let ghost m = matches;
                        let sub = clap_subcommand_of(&matches);
                        let d = self.resolve_matches(sub, matches);
                        proof {
                            assert(clap_matches_for(*app, words_of(input@), m));
                            assert(dispatches(self.view(), m, d));
                        }
                        Ok(d)
                    },
                }
            },
        }
    }
}

impl Default for ReplCommandRegistry {
    fn default() -> (r: ReplCommandRegistry)
        ensures
            r.wf(),
            r.view() == Map::<Seq<char>, usize>::empty(),
            r.count() == 0,
            !r.has_app(),
    {
        ReplCommandRegistry::new()
    }
}

/// The line printed for the outcome of running a command.
pub fn execution_output(r: Result<String, ReplError>) -> (s: String)
    ensures
        s@ == spec_execution_output(
            match r {
                Ok(o) => Ok(o@),
                Err(e) => Err(e),
            },
        ),
{
    match r {
        Ok(o) => o,
        Err(e) => {
            let m = e.message();
            concat("Error: ", m.as_str())
        },
    }
}

} // verus!

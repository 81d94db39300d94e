//! Registering a command under its name and all of its aliases.
use crate::command::parser::{spec_route, spec_shell_split, CommandRoute};
use crate::command::builder::{clap_command_aliases_of, clap_command_name_of};
use crate::command::CommandTable;
use crate::repl::Repl;
use crate::text::views;
use vstd::prelude::*;

verus! {

/// Calls `clap::Command::get_name`: the name the command was created with.
#[verifier::external_body]
pub(crate) fn clap_command_name(cmd: &clap::Command) -> (s: String)
    ensures
        s@ == clap_command_name_of(*cmd),
{
    cmd.get_name().to_string()
}

/// Calls `clap::Command::get_all_aliases`: the visible and hidden aliases, in
/// the order they were added.
#[verifier::external_body]
fn clap_command_aliases(cmd: &clap::Command) -> (v: Vec<String>)
    ensures
        views(v@) == clap_command_aliases_of(*cmd),
{
    cmd.get_all_aliases().map(|a| a.to_string()).collect()
}

/// The table after registering `names` for parser `id`.
pub open spec fn with_names(
    m: Map<Seq<char>, usize>,
    names: Seq<Seq<char>>,
    id: usize,
) -> Map<Seq<char>, usize> {
    Map::new(
        |k: Seq<char>| m.dom().contains(k) || names.contains(k),
        |k: Seq<char>|
            if names.contains(k) {
                id
            } else {
                m[k]
            },
    )
}

/// Register the primary name and then every alias, all for parser `id`;
/// names registered before under another parser are taken over.
pub fn register_names(table: &mut CommandTable, primary: String, aliases: Vec<String>, id: usize)
    requires
        old(table).wf(),
    ensures
        final(table).wf(),
        final(table).view() == with_names(
            old(table).view(),
            seq![primary@] + views(aliases@),
            id,
        ),
{
    let ghost names = seq![primary@] + views(aliases@);
    let ghost m0 = table.view();
    table.insert(primary, id);
    proof {
        assert(table.view() =~= with_names(m0, names.take(1), id)) by {
            assert(names.take(1) =~= seq![names[0]]);
        }
    }
    let mut i: usize = 0;
    while i < aliases.len()
        invariant
            table.wf(),
            i <= aliases.len(),
            names == seq![primary@] + views(aliases@),
            table.view() == with_names(m0, names.take(i + 1), id),
        decreases aliases.len() - i,
    {
        let alias = aliases[i].clone();
        let ghost before = table.view();
        table.insert(alias, id);
        proof {
            assert(names[i + 1] == aliases@[i as int]@);
            let t = names.take(i + 1);
            let a = names[i + 1];
            assert(names.take(i + 2) =~= t.push(a));
            assert forall|k: Seq<char>| t.push(a).contains(k) <==> (t.contains(k) || k == a) by {
                if t.push(a).contains(k) && k != a {
                    let j = choose|j: int| 0 <= j < t.push(a).len() && t.push(a)[j] == k;
                    assert(t[j] == k);
                }
                if t.contains(k) {
                    let j = choose|j: int| 0 <= j < t.len() && t[j] == k;
                    assert(t.push(a)[j] == k);
                }
                if k == a {
                    assert(t.push(a)[t.len() as int] == k);
                }
            }
            assert(alias@ == a);
            assert(table.view() == before.insert(a, id));
            assert(before == with_names(m0, t, id));
            let lhs = with_names(m0, t.push(a), id);
            let rhs = with_names(m0, t, id).insert(a, id);
            assert forall|k: Seq<char>| #[trigger] lhs.dom().contains(k) <==> rhs.dom().contains(k) by {
                assert(t.push(a).contains(k) <==> (t.contains(k) || k == a));
            }
            assert forall|k: Seq<char>| #[trigger] lhs.dom().contains(k) implies lhs[k] == rhs[k] by {
                assert(t.push(a).contains(k) <==> (t.contains(k) || k == a));
            }
            assert(lhs =~= rhs);
            assert(table.view() =~= with_names(m0, names.take(i + 2), id));
        }
        i = i + 1;
    }
    proof {
        assert(names.take(i + 1) =~= names);
    }
}

/// Register a clap command in the REPL under its name and all of its aliases:
/// every one of those names then maps to `id`, and no other entry changes.
pub fn register_command_in_repl(repl: &mut Repl, cmd: &clap::Command, id: usize)
    requires
        old(repl).commands.wf(),
    ensures
        final(repl).commands.wf(),
        final(repl).commands.view() == with_names(
            old(repl).commands.view(),
            seq![clap_command_name_of(*cmd)] + clap_command_aliases_of(*cmd),
            id,
        ),
        final(repl).enabled == old(repl).enabled,
        final(repl).buffer@ == old(repl).buffer@,
        final(repl).cursor_pos == old(repl).cursor_pos,
        final(repl).prompt_symbol@ == old(repl).prompt_symbol@,
        final(repl).keymap == old(repl).keymap,
{
    let primary = clap_command_name(cmd);
    let aliases = clap_command_aliases(cmd);
    register_names(&mut repl.commands, primary, aliases, id);
}

/// After a command is registered under some names, a line whose first word is
/// one of those names goes to that command's parser.
pub proof fn law_registered_names_route_to_parser(
    m: Map<Seq<char>, usize>,
    names: Seq<Seq<char>>,
    id: usize,
    input: Seq<char>,
)
    requires
        input.len() > 0,
        spec_shell_split(input) matches Some(argv) && argv.len() > 0 && names.contains(argv[0]),
    ensures
        spec_route(input, with_names(m, names, id)) == CommandRoute::Dispatch(id),
{
}

} // verus!

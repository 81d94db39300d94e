//! `tree`: lists entities with their components as a tree.
use crate::command::builder::{
    clap_command_about_of, clap_command_aliases_of, clap_command_args_of, clap_command_name_of,
    clap_command_subcommands_of, clap_command_subcommand_keys_of, clap_command_plain,
    clap_command_consistent, command_with_about, with_optional_arg,
};
use crate::text::{concat, push_char, views};
use vstd::prelude::*;

verus! {

/// Tree command - list entities with components as a tree
#[derive(Clone, Copy, Debug, Default)]
pub struct TreeCommand;

/// One entity and the names of its components.
#[derive(Clone, Debug)]
pub struct EntityEntry {
    /// How the entity is shown (its debug form).
    pub label: String,
    pub components: Vec<String>,
}

pub open spec fn tree_heading() -> Seq<char> {
    seq!['E', 'n', 't', 'i', 't', 'y', ' ', 'T', 'r', 'e', 'e', ':', '\n']
}

/// `    - {name}\n` for each component.
pub open spec fn component_lines(names: Seq<Seq<char>>) -> Seq<char>
    decreases names.len(),
{
    if names.len() == 0 {
        Seq::empty()
    } else {
        component_lines(names.drop_last()) + seq![' ', ' ', ' ', ' ', '-', ' '] + names.last()
            + seq!['\n']
    }
}

/// `  Entity {label}\n` followed by its components.
pub open spec fn entity_block(label: Seq<char>, components: Seq<Seq<char>>) -> Seq<char> {
    seq![' ', ' ', 'E', 'n', 't', 'i', 't', 'y', ' '] + label + seq!['\n'] + component_lines(components)
}

pub open spec fn entity_blocks(entries: Seq<EntityEntry>) -> Seq<char>
    decreases entries.len(),
{
    if entries.len() == 0 {
        Seq::empty()
    } else {
        entity_blocks(entries.drop_last()) + entity_block(
            entries.last().label@,
            views(entries.last().components@),
        )
    }
}

impl TreeCommand {
    pub fn name(&self) -> (r: &'static str)
        ensures
            r@ == seq!['t', 'r', 'e', 'e'],
    {
        proof {
            reveal_strlit("tree");
        }
        "tree"
    }

    pub fn command(&self) -> (cmd: clap::Command)
        ensures
            clap_command_name_of(cmd) == "tree"@,
            clap_command_about_of(cmd) == Some("List entities with components as a tree"@),
            clap_command_aliases_of(cmd) == Seq::<Seq<char>>::empty(),
            clap_command_args_of(cmd) == seq![
                ("entity"@, Some("Show tree for specific entity ID"@), false, Some((0usize, 1usize))),
            ],
            clap_command_subcommands_of(cmd) == Seq::<Seq<char>>::empty(),
            clap_command_subcommand_keys_of(cmd) == Seq::<Seq<char>>::empty(),
            clap_command_plain(cmd),
            clap_command_consistent(cmd),
    {
        let cmd = command_with_about("tree", "List entities with components as a tree");
        proof {
            reveal_strlit("entity");
            reveal_strlit("help");
            assert("entity"@.len() != "help"@.len());
        }
        with_optional_arg(cmd, "entity", "Show tree for specific entity ID")
    }

    /// The command's output for the given entities, in the order given.
    pub fn execute(&self, entities: &Vec<EntityEntry>) -> (out: String)
        ensures
            out@ == tree_heading() + entity_blocks(entities@),
    {
        let mut out = String::from_str("Entity Tree:\n");
        proof {
            reveal_strlit("Entity Tree:\n");
            assert(out@ =~= tree_heading() + entity_blocks(entities@.take(0)));
        }
        let mut i: usize = 0;
        while i < entities.len()
            invariant
                i <= entities.len(),
                out@ == tree_heading() + entity_blocks(entities@.take(i as int)),
            decreases entities.len() - i,
        {
            let e = &entities[i];
            let head = String::from_str("  Entity ");
            proof {
                reveal_strlit("  Entity ");
            }
            let mut block = concat(head.as_str(), e.label.as_str());
            push_char(&mut block, '\n');
            proof {
                assert(block@ =~= seq![' ', ' ', 'E', 'n', 't', 'i', 't', 'y', ' '] + e.label@ + seq!['\n']);
                assert(block@ + component_lines(views(e.components@).take(0)) =~= block@);
            }
            let mut j: usize = 0;
            let ghost start = block@;
            while j < e.components.len()
                invariant
                    j <= e.components.len(),
                    block@ == start + component_lines(views(e.components@).take(j as int)),
                decreases e.components.len() - j,
            {
                let item = String::from_str("    - ");
                proof {
                    reveal_strlit("    - ");
                }
                let ghost b0 = block@;
                let line = concat(item.as_str(), e.components[j].as_str());
                block = concat(block.as_str(), line.as_str());
                push_char(&mut block, '\n');
                proof {
                    let cs = views(e.components@);
                    assert(cs.take(j + 1).drop_last() =~= cs.take(j as int));
                    assert(cs.take(j + 1).last() == e.components@[j as int]@);
                    assert(block@ =~= start + component_lines(cs.take(j + 1)));
                }
                j = j + 1;
            }
            proof {
                assert(views(e.components@).take(j as int) =~= views(e.components@));
                assert(entities@.take(i + 1).drop_last() =~= entities@.take(i as int));
            }
            let ghost o0 = out@;
            out = concat(out.as_str(), block.as_str());
            proof {
                assert(out@ =~= tree_heading() + entity_blocks(entities@.take(i + 1)));
            }
            i = i + 1;
        }
        proof {
            assert(entities@.take(i as int) =~= entities@);
        }
        out
    }
}

} // verus!

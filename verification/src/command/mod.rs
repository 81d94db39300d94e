//! Commands known to the REPL: the table from command names (and aliases) to
//! the parser that handles them, and the parsing pipeline of submitted lines.
use vstd::prelude::*;

pub mod builder;
pub mod parser;
pub mod register;

pub use parser::{
    parse_and_trigger, parse_input_buffer_for_commands, ClapErrorKind, CommandRoute,
    ParseResolution,
};
pub use register::register_command_in_repl;


verus! {

/// The map that `names[..]`/`ids[..]` describe, later entries taking precedence.
pub open spec fn table_map(names: Seq<Seq<char>>, ids: Seq<usize>) -> Map<Seq<char>, usize>
    decreases names.len(),
{
    if names.len() == 0 || ids.len() == 0 {
        Map::empty()
    } else {
        table_map(names.drop_last(), ids.drop_last()).insert(names.last(), ids.last())
    }
}

/// Names of registered commands, each mapped to the identifier of its parser.
///
/// Identifiers are chosen by the caller; the application keeps the parser
/// objects themselves and looks them up by identifier.
#[derive(Clone, Debug)]
pub struct CommandTable {
    names: Vec<String>,
    ids: Vec<usize>,
}

impl CommandTable {
    pub closed spec fn name_seq(self) -> Seq<Seq<char>> {
        self.names@.map_values(|s: String| s@)
    }

    /// The table as a map from command name to parser identifier.
    pub closed spec fn view(self) -> Map<Seq<char>, usize> {
        table_map(self.name_seq(), self.ids@)
    }

    /// The names in the order in which they were first registered.
    pub closed spec fn key_seq(self) -> Seq<Seq<char>> {
        self.name_seq()
    }

    /// Internal consistency: one identifier per name, no name twice.
    pub closed spec fn wf(self) -> bool {
        &&& self.names@.len() == self.ids@.len()
        &&& forall|i: int, j: int|
            0 <= i < j < self.names@.len() ==> self.names@[i]@ != self.names@[j]@
    }

    proof fn lemma_map_contains(names: Seq<Seq<char>>, ids: Seq<usize>, k: Seq<char>)
        requires
            names.len() == ids.len(),
        ensures
            table_map(names, ids).dom().contains(k) <==> names.contains(k),
        decreases names.len(),
    {
        if names.len() > 0 {
            Self::lemma_map_contains(names.drop_last(), ids.drop_last(), k);
            if names.drop_last().contains(k) {
                let i = choose|i: int| 0 <= i < names.drop_last().len() && names.drop_last()[i] == k;
                assert(names[i] == k);
            }
            if names.contains(k) && k != names.last() {
                let i = choose|i: int| 0 <= i < names.len() && names[i] == k;
                assert(names.drop_last()[i] == k);
            }
        }
    }

    proof fn lemma_map_index(names: Seq<Seq<char>>, ids: Seq<usize>, i: int)
        requires
            names.len() == ids.len(),
            0 <= i < names.len(),
            forall|a: int, b: int| 0 <= a < b < names.len() ==> names[a] != names[b],
        ensures
            table_map(names, ids).dom().contains(names[i]),
            table_map(names, ids)[names[i]] == ids[i],
        decreases names.len(),
    {
        Self::lemma_map_contains(names, ids, names[i]);
        if i < names.len() - 1 {
            Self::lemma_map_index(names.drop_last(), ids.drop_last(), i);
        }
    }

    proof fn lemma_map_update(names: Seq<Seq<char>>, ids: Seq<usize>, i: int, v: usize)
        requires
            names.len() == ids.len(),
            0 <= i < names.len(),
            forall|a: int, b: int| 0 <= a < b < names.len() ==> names[a] != names[b],
        ensures
            table_map(names, ids.update(i, v)) == table_map(names, ids).insert(names[i], v),
        decreases names.len(),
    {
        if i == names.len() - 1 {
            assert(ids.update(i, v).drop_last() =~= ids.drop_last());
            Self::lemma_map_contains(names.drop_last(), ids.drop_last(), names[i]);
            assert(!names.drop_last().contains(names[i]));
            assert(table_map(names, ids.update(i, v)) =~= table_map(names, ids).insert(
                names[i],
                v,
            ));
        } else {
            assert(ids.update(i, v).drop_last() =~= ids.drop_last().update(i, v));
            Self::lemma_map_update(names.drop_last(), ids.drop_last(), i, v);
            assert(table_map(names, ids.update(i, v)) =~= table_map(names, ids).insert(
                names[i],
                v,
            ));
        }
    }

    pub fn new() -> (t: CommandTable)
        ensures
            t.wf(),
            t.view() == Map::<Seq<char>, usize>::empty(),
            t.key_seq() == Seq::<Seq<char>>::empty(),
    {
        let t = CommandTable { names: Vec::new(), ids: Vec::new() };
        proof {
            assert(t.name_seq() =~= Seq::<Seq<char>>::empty());
        }
        t
    }

    /// Number of names in the table.
    pub fn len(&self) -> (n: usize)
        requires
            self.wf(),
        ensures
            n == self.key_seq().len(),
            n == self.view().dom().len(),
    {
        proof {
            self.lemma_dom_len();
        }
        self.names.len()
    }

    proof fn lemma_dom_len(self)
        requires
            self.wf(),
        ensures
            self.view().dom().len() == self.key_seq().len(),
            self.view().dom().finite(),
            self.key_seq().len() == self.names@.len(),
    {
        Self::lemma_dom_len_rec(self.name_seq(), self.ids@);
    }

    proof fn lemma_dom_len_rec(names: Seq<Seq<char>>, ids: Seq<usize>)
        requires
            names.len() == ids.len(),
            forall|a: int, b: int| 0 <= a < b < names.len() ==> names[a] != names[b],
        ensures
            table_map(names, ids).dom().len() == names.len(),
            table_map(names, ids).dom().finite(),
        decreases names.len(),
    {
        if names.len() > 0 {
            Self::lemma_dom_len_rec(names.drop_last(), ids.drop_last());
            Self::lemma_map_contains(names.drop_last(), ids.drop_last(), names.last());
            assert(!names.drop_last().contains(names.last())) by {
                if names.drop_last().contains(names.last()) {
                    let i = choose|i: int|
                        0 <= i < names.drop_last().len() && names.drop_last()[i] == names.last();
                    assert(names[i] == names[names.len() - 1]);
                }
            }
        } else {
            assert(table_map(names, ids).dom() =~= Set::<Seq<char>>::empty());
        }
    }

    fn position(&self, name: &str) -> (r: Option<usize>)
        requires
            self.wf(),
        ensures
            r matches Some(i) ==> i < self.names@.len() && self.names@[i as int]@ == name@,
            r is None ==> forall|i: int| 0 <= i < self.names@.len() ==> self.names@[i]@ != name@,
    {
        let mut i: usize = 0;
        while i < self.names.len()
            invariant
                i <= self.names@.len(),
                forall|j: int| 0 <= j < i ==> self.names@[j]@ != name@,
            decreases self.names@.len() - i,
        {
            if crate::text::str_eq(self.names[i].as_str(), name) {
                return Some(i);
            }
            i = i + 1;
        }
        None
    }

    /// The parser identifier registered under `name`.
    pub fn get(&self, name: &str) -> (r: Option<usize>)
        requires
            self.wf(),
        ensures
            r == (if self.view().dom().contains(name@) {
                Some(self.view()[name@])
            } else {
                None
            }),
    {
        match self.position(name) {
            Some(i) => {
                proof {
                    assert(self.name_seq()[i as int] == name@);
                    Self::lemma_map_index(self.name_seq(), self.ids@, i as int);
                }
                Some(self.ids[i])
            },
            None => {
                proof {
                    Self::lemma_map_contains(self.name_seq(), self.ids@, name@);
                    if self.name_seq().contains(name@) {
                        let i = choose|i: int|
                            0 <= i < self.name_seq().len() && self.name_seq()[i] == name@;
                        assert(self.names@[i]@ == name@);
                    }
                }
                None
            },
        }
    }

    /// `name` is registered.
    pub fn contains_key(&self, name: &str) -> (r: bool)
        requires
            self.wf(),
        ensures
            r == self.view().dom().contains(name@),
    {
        self.get(name).is_some()
    }

    /// Register `name` for parser `id`, replacing an earlier registration of the same name.
    pub fn insert(&mut self, name: String, id: usize)
        requires
            old(self).wf(),
        ensures
            final(self).wf(),
            final(self).view() == old(self).view().insert(name@, id),
            old(self).view().dom().contains(name@) ==> final(self).key_seq() == old(self).key_seq(),
            !old(self).view().dom().contains(name@) ==> final(self).key_seq() == old(
                self,
            ).key_seq().push(name@),
    {
        proof {
            Self::lemma_map_contains(self.name_seq(), self.ids@, name@);
        }
        match self.position(name.as_str()) {
            Some(i) => {
                proof {
                    assert(self.name_seq()[i as int] == name@);
                    Self::lemma_map_update(self.name_seq(), self.ids@, i as int, id);
                    assert(self.name_seq().contains(name@));
                }
                self.ids.set(i, id);
            },
            None => {
                let ghost old_names = self.name_seq();
                proof {
                    if self.name_seq().contains(name@) {
                        let j = choose|j: int|
                            0 <= j < self.name_seq().len() && self.name_seq()[j] == name@;
                        assert(self.names@[j]@ == name@);
                    }
                }
                self.names.push(name);
                self.ids.push(id);
                proof {
                    assert(self.name_seq() =~= old_names.push(name@));
                    assert(self.name_seq().drop_last() =~= old_names);
                    assert(self.ids@.drop_last() =~= old(self).ids@);
                }
            },
        }
    }

    /// The registered names, in registration order.
    pub fn keys(&self) -> (r: Vec<String>)
        requires
            self.wf(),
        ensures
            r@.map_values(|s: String| s@) == self.key_seq(),
    {
        let mut r: Vec<String> = Vec::new();
        let mut i: usize = 0;
        while i < self.names.len()
            invariant
                i <= self.names@.len(),
                r@.map_values(|s: String| s@) == self.key_seq().take(i as int),
            decreases self.names@.len() - i,
        {
            let name = self.names[i].clone();
            let ghost before = r@;
            r.push(name);
            proof {
                assert(r@ == before.push(name));
                assert(before.push(name).map_values(|s: String| s@) =~= before.map_values(
                    |s: String| s@,
                ).push(name@));
                assert(self.key_seq()[i as int] == self.names@[i as int]@);
                assert(self.key_seq().take(i + 1) =~= self.key_seq().take(i as int).push(
                    self.key_seq()[i as int],
                ));
            }
            i = i + 1;
            proof {
                assert(r@.map_values(|s: String| s@) =~= self.key_seq().take(i as int));
            }
        }
        proof {
            assert(self.key_seq().take(i as int) =~= self.key_seq());
        }
        r
    }
}

impl Default for CommandTable {
    fn default() -> (t: CommandTable)
        ensures
            t.wf(),
            t.view() == Map::<Seq<char>, usize>::empty(),
            t.key_seq() == Seq::<Seq<char>>::empty(),
    {
        CommandTable::new()
    }
}

/// Reading a name back after registering it gives the identifier just
/// registered; every other name reads as it did before.
pub proof fn law_table_get_after_insert(
    before: Map<Seq<char>, usize>,
    name: Seq<char>,
    id: usize,
    other: Seq<char>,
)
    ensures
        before.insert(name, id).dom().contains(name),
        before.insert(name, id)[name] == id,
        other != name ==> (before.insert(name, id).dom().contains(other) <==> before.dom().contains(
            other,
        )),
        other != name && before.dom().contains(other) ==> before.insert(name, id)[other]
            == before[other],
{
}

} // verus!

//! The keymap: which command each note name runs.

use vstd::prelude::*;
use toml::Table;
use crate::config::ConfigError;
use crate::document::{table_get, table_items, table_keys, Entry, Item};

verus! {

/// Whether every value of a table is text, so that the table is a plain
/// mapping from strings to strings.
pub open spec fn is_flat(items: Map<Seq<char>, Item>) -> bool {
    forall|k: Seq<char>| items.contains_key(k) ==> #[trigger] items[k] is Text
}

/// The text stored under each key of a table; a key whose value is not text
/// is left out.
pub open spec fn commands_of(items: Map<Seq<char>, Item>) -> Map<Seq<char>, Seq<char>> {
    Map::new(
        |k: Seq<char>| items.contains_key(k) && items[k] is Text,
        |k: Seq<char>|
            match items[k] {
                Item::Text(command) => command,
                _ => Seq::empty(),
            },
    )
}

/// A keymap binds a name exactly when the table holds that very name with a
/// text under it, and then to that text. Nothing is folded, trimmed or
/// matched by likeness: a name that differs from every key in any character
/// is not bound.
pub proof fn lemma_lookup_is_exact(items: Map<Seq<char>, Item>, name: Seq<char>)
    ensures
        commands_of(items).contains_key(name) <==> items.contains_key(name) && items[name] is Text,
        commands_of(items).contains_key(name) ==> items[name] == Item::Text(
            commands_of(items)[name],
        ),
        (forall|key: Seq<char>| items.contains_key(key) ==> key != name) ==> !commands_of(
            items,
        ).contains_key(name),
{
}

/// A keymap with a single binding matches that one name and no other.
pub proof fn lemma_single_binding(bound: Seq<char>, command: Seq<char>, name: Seq<char>)
    ensures
        is_flat(Map::<Seq<char>, Item>::empty().insert(bound, Item::Text(command))),
        commands_of(
            Map::<Seq<char>, Item>::empty().insert(bound, Item::Text(command)),
        ).contains_key(name) <==> name == bound,
        commands_of(Map::<Seq<char>, Item>::empty().insert(bound, Item::Text(command)))[bound]
            == command,
{
}

/// An empty table is a keymap, and it binds no name at all.
pub proof fn lemma_empty_keymap(name: Seq<char>)
    ensures
        is_flat(Map::<Seq<char>, Item>::empty()),
        !commands_of(Map::<Seq<char>, Item>::empty()).contains_key(name),
{
}

/// Tells whether a table is a plain mapping from strings to strings, by
/// looking at the value under each of its keys.
pub fn table_is_flat(table: &Table) -> (flat: bool)
    ensures
        flat == is_flat(table_items(*table)),
{
    let keys: Vec<String> = table_keys(table);
    let mut i: usize = 0;
    while i < keys.len()
        invariant
            i <= keys@.len(),
            forall|j: int|
                0 <= j < keys@.len() ==> table_items(*table).contains_key(#[trigger] keys@[j]@),
            forall|j: int| 0 <= j < i ==> table_items(*table)[#[trigger] keys@[j]@] is Text,
        decreases keys@.len() - i,
    {
        match table_get(table, keys[i].as_str()) {
            Some(Entry::Text(_)) => {},
            _ => {
                assert(!(table_items(*table)[keys@[i as int]@] is Text));
                return false;
            },
        }
        i += 1;
    }
    assert forall|k: Seq<char>|
        table_items(*table).contains_key(k) implies #[trigger] table_items(*table)[k] is Text by {
        let j = choose|j: int| 0 <= j < keys@.len() && #[trigger] keys@[j]@ == k;
        assert(table_items(*table)[keys@[j]@] is Text);
    }
    true
}

/// A mapping from note names to commands. It is built once from a table of
/// the configuration and never changes afterwards.
#[derive(Debug)]
pub struct Keymap {
    table: Table,
}

impl View for Keymap {
    type V = Map<Seq<char>, Seq<char>>;

    closed spec fn view(&self) -> Map<Seq<char>, Seq<char>> {
        commands_of(table_items(self.table))
    }
}

impl Keymap {
    #[verifier::type_invariant]
    spec fn flat(self) -> bool {
        is_flat(table_items(self.table))
    }

    /// Takes a table as the keymap. A table that is not a plain mapping from
    /// strings to strings is refused; an empty one is a keymap that binds
    /// nothing.
    pub fn from_table(table: Table) -> (r: Result<Keymap, ConfigError>)
        ensures
            match r {
                Ok(keymap) => is_flat(table_items(table)) && keymap@ == commands_of(
                    table_items(table),
                ),
                Err(e) => !is_flat(table_items(table)) && e == ConfigError::MalformedHotkeys,
            },
    {
        if !table_is_flat(&table) {
            return Err(ConfigError::MalformedHotkeys);
        }
        Ok(Keymap { table })
    }

    /// The command bound to a note name, if any. Names match only when they
    /// are equal character by character.
    pub fn lookup(&self, note_name: &str) -> (r: Option<&str>)
        ensures
            match r {
                Some(command) => self@.contains_key(note_name@) && self@[note_name@] == command@,
                None => !self@.contains_key(note_name@),
            },
    {
        proof {
            use_type_invariant(self);
        }
        match table_get(&self.table, note_name) {
            Some(Entry::Text(command)) => Some(command),
            _ => None,
        }
    }

    /// The table that the keymap was built from.
    pub fn as_table(&self) -> (r: &Table)
        ensures
            is_flat(table_items(*r)),
            self@ == commands_of(table_items(*r)),
    {
        proof {
            use_type_invariant(self);
        }
        &self.table
    }
}

} // verus!

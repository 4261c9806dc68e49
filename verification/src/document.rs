//! TOML documents as the rest of the library sees them.
//!
//! Tables are kept as `toml` builds them. What a table holds is modelled by
//! [`table_items`]: a map from keys to [`Item`]s. The functions of this module
//! that touch a table are trusted to agree with that model; everything else
//! in the library is proved from their contracts.

use vstd::prelude::*;
use toml::Table;
use toml::Value;

verus! {

/// `toml::map::Map`, the map that `toml` keeps a table in. Nothing of its
/// inside is known here.
#[verifier::external_type_specification]
#[verifier::external_body]
#[verifier::reject_recursive_types(K)]
#[verifier::reject_recursive_types(V)]
pub struct ExMap<K, V>(toml::map::Map<K, V>);

/// `toml::Value`, one value of a table. Nothing of its inside is known here.
#[verifier::external_type_specification]
#[verifier::external_body]
pub struct ExValue(toml::Value);

/// `toml::de::Error`, what a text that is no TOML document is refused with.
#[verifier::external_type_specification]
#[verifier::external_body]
pub struct ExDeError(toml::de::Error);

/// What a TOML value amounts to for this library: text, an integer, a nested
/// table, or a value of some other kind (float, boolean, date, array).
pub enum Item {
    Text(Seq<char>),
    Integer(i64),
    Table(Map<Seq<char>, Item>),
    Other,
}

/// The entries of a table, by key.
pub uninterp spec fn table_items(table: Table) -> Map<Seq<char>, Item>;

/// The entries of the table that a text is the TOML notation of, or `None`
/// for a text that is not a TOML document.
pub uninterp spec fn toml_document(text: Seq<char>) -> Option<Map<Seq<char>, Item>>;

/// One value of a table, borrowed from it.
pub enum Entry<'a> {
    Text(&'a str),
    Integer(i64),
    Table(&'a Table),
    Other,
}

impl<'a> Entry<'a> {
    /// The item that this entry stands for.
    pub open spec fn item(self) -> Item {
        match self {
            Entry::Text(s) => Item::Text(s@),
            Entry::Integer(i) => Item::Integer(i),
            Entry::Table(t) => Item::Table(table_items(*t)),
            Entry::Other => Item::Other,
        }
    }
}

/// Parses a TOML document with `str::parse::<toml::Table>`. The entries of
/// the table that comes back are those that [`toml_document`] names for the
/// text; an error comes back exactly for a text that it names none for.
#[verifier::external_body]
pub(crate) fn parse_table(text: &str) -> (r: Result<Table, toml::de::Error>)
    ensures
        match r {
            Ok(table) => toml_document(text@) == Some(table_items(table)),
            Err(_) => toml_document(text@) is None,
        },
{
    text.parse::<Table>()
}

/// Looks a key up with `toml::Table::get`: `None` if the table has no such
/// key, else the value stored under it, told apart by its kind.
#[verifier::external_body]
pub(crate) fn table_get<'a>(table: &'a Table, key: &str) -> (r: Option<Entry<'a>>)
    ensures
        match r {
            Some(entry) => table_items(*table).contains_key(key@) && table_items(*table)[key@]
                == entry.item(),
            None => !table_items(*table).contains_key(key@),
        },
{
    match table.get(key) {
        None => None,
        Some(Value::String(s)) => Some(Entry::Text(s.as_str())),
        Some(Value::Integer(i)) => Some(Entry::Integer(*i)),
        Some(Value::Table(t)) => Some(Entry::Table(t)),
        Some(Value::Float(_)) => Some(Entry::Other),
        Some(Value::Boolean(_)) => Some(Entry::Other),
        Some(Value::Datetime(_)) => Some(Entry::Other),
        Some(Value::Array(_)) => Some(Entry::Other),
    }
}

/// Lists the keys of a table with `toml::Table::keys`: every key of the
/// table occurs in the list, and nothing else does.
#[verifier::external_body]
pub(crate) fn table_keys(table: &Table) -> (r: Vec<String>)
    ensures
        forall|i: int| 0 <= i < r@.len() ==> table_items(*table).contains_key(#[trigger] r@[i]@),
        forall|k: Seq<char>|
            table_items(*table).contains_key(k) ==> exists|i: int|
                0 <= i < r@.len() && #[trigger] r@[i]@ == k,
{
    table.keys().cloned().collect()
}

/// Copies a table with `Clone::clone`: the copy holds the same entries.
#[verifier::external_body]
pub(crate) fn table_clone(table: &Table) -> (r: Table)
    ensures
        table_items(r) == table_items(*table),
{
    table.clone()
}

} // verus!

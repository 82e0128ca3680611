//! What a project's `railsup.toml` says.

use vstd::prelude::*;

verus! {

/// `toml::map::Map`, the table of the `toml` crate, as an opaque type.
#[verifier::external_type_specification]
#[verifier::external_body]
#[verifier::reject_recursive_types(K)]
#[verifier::reject_recursive_types(V)]
pub struct ExTomlMap<K, V>(toml::map::Map<K, V>);

/// `toml::Value`, a value of the `toml` crate, as an opaque type.
#[verifier::external_type_specification]
#[verifier::external_body]
pub struct ExTomlValue(toml::Value);

/// The top-level entries of a table whose values are strings, by key.
pub uninterp spec fn table_strings(table: toml::map::Map<String, toml::Value>) -> Map<
    Seq<char>,
    Seq<char>,
>;

/// The top-level string entries of the TOML document `content`, by key;
/// `None` when `content` is no TOML document.
pub uninterp spec fn document_strings(content: Seq<char>) -> Option<Map<Seq<char>, Seq<char>>>;

/// `toml::from_str::<toml::Table>`: the table that `content` writes, or
/// `None` when `content` is not valid TOML. The contract names what the
/// table holds.
#[verifier::external_body]
fn parse_table(content: &str) -> (table: Option<toml::map::Map<String, toml::Value>>)
    ensures
        match table {
            Some(t) => document_strings(content@) == Some(table_strings(t)),
            None => document_strings(content@) is None,
        },
{
    toml::from_str::<toml::Table>(content).ok()
}

/// `toml::map::Map::get`, then `toml::Value::as_str`: the string that
/// `table` holds under `key`; `None` when it holds nothing there, or a
/// value that is no string.
#[verifier::external_body]
fn table_string(table: &toml::map::Map<String, toml::Value>, key: &str) -> (value: Option<String>)
    ensures
        value.deep_view() == if table_strings(*table).dom().contains(key@) {
            Some(table_strings(*table)[key@])
        } else {
            None
        },
{
    table.get(key).and_then(|v| v.as_str()).map(String::from)
}

/// The string under `key` in a map of strings, if there is one.
pub open spec fn string_at(strings: Map<Seq<char>, Seq<char>>, key: Seq<char>) -> Option<
    Seq<char>,
> {
    if strings.dom().contains(key) {
        Some(strings[key])
    } else {
        None
    }
}

/// The Ruby version that the text of a `railsup.toml` asks for: the string
/// under the top-level key `ruby`. `None` when the text is not valid TOML,
/// has no such key, or holds something other than a string there.
pub fn project_ruby_version(content: &str) -> (version: Option<String>)
    ensures
        version.deep_view() == match document_strings(content@) {
            Some(strings) => string_at(strings, "ruby"@),
            None => None,
        },
{
    match parse_table(content) {
        None => None,
        Some(table) => table_string(&table, "ruby"),
    }
}

} // verus!

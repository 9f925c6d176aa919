//! TOML documents, as the `toml` crate holds them, and what this library
//! reads from them and writes into them.
//!
//! A table or a value of `toml` is opaque here. What it holds is given by
//! two names, `table_nodes` and `value_node`, and everything in this file
//! that touches `toml` says what it does in terms of them. None of that is
//! proved: it is what `toml`'s source shows.

use vstd::prelude::*;

verus! {

/// What a TOML value holds, as far as a configuration is concerned: a
/// string, an array, a table, or something else (an integer, a float, a
/// boolean, a date).
pub ghost enum Node {
    Text(Seq<char>),
    List(Seq<Node>),
    Table(Map<Seq<char>, Node>),
    Other,
}

/// `toml::Value`, carried through without a look inside.
#[verifier::external_type_specification]
#[verifier::external_body]
pub struct ExValue(toml::Value);

/// `toml::map::Map`, of which `toml::Table` is the one with string keys and
/// `toml::Value` values; carried through without a look inside.
#[verifier::external_type_specification]
#[verifier::external_body]
#[verifier::reject_recursive_types(K)]
#[verifier::reject_recursive_types(V)]
pub struct ExMap<K, V>(toml::map::Map<K, V>);

/// What a value holds. The accessors and the variants of `toml::Value`
/// below say what this is for strings, arrays and tables.
pub uninterp spec fn value_node(value: toml::Value) -> Node;

/// What a table holds: for each of its keys, what the value under it holds.
pub uninterp spec fn table_nodes(table: toml::map::Map<String, toml::Value>) -> Map<Seq<char>, Node>;

/// What the root table holds that `toml::from_str` reads from a text, if
/// the text is a TOML document.
pub uninterp spec fn parsed(source: Seq<char>) -> Option<Map<Seq<char>, Node>>;

/// The text that `toml::to_string` writes for a table that holds this, if
/// it writes one.
pub uninterp spec fn rendered(nodes: Map<Seq<char>, Node>) -> Option<Seq<char>>;

/// What the values of an array hold, in order.
pub open spec fn nodes_of(values: Seq<toml::Value>) -> Seq<Node> {
    Seq::new(values.len(), |i: int| value_node(values[i]))
}

/// Whether a node is made of strings, arrays and tables alone.
pub open spec fn textual(node: Node) -> bool
    decreases node,
{
    match node {
        Node::Text(_) => true,
        Node::List(items) => forall|i: int| 0 <= i < items.len() ==> textual(#[trigger] items[i]),
        Node::Table(members) => forall|key: Seq<char>|
            members.dom().contains(key) ==> textual(#[trigger] members[key]),
        Node::Other => false,
    }
}

/// Parses a TOML document into its root table. This is `toml::from_str` at
/// the type `toml::Table`: it fails on text that is no TOML document, and
/// what it returns depends on the text alone.
#[verifier::external_body]
pub(crate) fn parse_table(source: &str) -> (r: Option<toml::map::Map<String, toml::Value>>)
    ensures
        match r {
            Some(table) => parsed(source@) == Some(table_nodes(table)),
            None => parsed(source@) is None,
        },
{
    toml::from_str(source).ok()
}

/// Writes a table as a TOML document. This is `toml::to_string`. For a
/// table of strings, arrays and tables, the text depends on nothing but
/// what the table holds.
#[verifier::external_body]
pub(crate) fn render_table(table: &toml::map::Map<String, toml::Value>) -> (r: Option<String>)
    ensures
        textual(Node::Table(table_nodes(*table))) ==> match r {
            Some(text) => rendered(table_nodes(*table)) == Some(text@),
            None => rendered(table_nodes(*table)) is None,
        },
{
    toml::to_string(table).ok()
}

/// The value under a key of a table. This is `Map::get`.
#[verifier::external_body]
pub(crate) fn table_get<'a>(table: &'a toml::map::Map<String, toml::Value>, key: &str) -> (r: Option<&'a toml::Value>)
    ensures
        match r {
            Some(value) => table_nodes(*table).dom().contains(key@) && table_nodes(*table)[key@]
                == value_node(*value),
            None => !table_nodes(*table).dom().contains(key@),
        },
{
    table.get(key)
}

/// The string of a value that is a string. This is `Value::as_str`.
#[verifier::external_body]
pub(crate) fn value_text<'a>(value: &'a toml::Value) -> (r: Option<&'a str>)
    ensures
        match r {
            Some(text) => value_node(*value) == Node::Text(text@),
            None => !(value_node(*value) is Text),
        },
{
    value.as_str()
}

/// The values of a value that is an array. This is `Value::as_array`.
#[verifier::external_body]
pub(crate) fn value_items<'a>(value: &'a toml::Value) -> (r: Option<&'a Vec<toml::Value>>)
    ensures
        match r {
            Some(items) => value_node(*value) == Node::List(nodes_of(items@)),
            None => !(value_node(*value) is List),
        },
{
    value.as_array()
}

/// The table of a value that is a table. This is `Value::as_table`.
#[verifier::external_body]
pub(crate) fn value_table<'a>(value: &'a toml::Value) -> (r: Option<&'a toml::map::Map<String, toml::Value>>)
    ensures
        match r {
            Some(table) => value_node(*value) == Node::Table(table_nodes(*table)),
            None => !(value_node(*value) is Table),
        },
{
    value.as_table()
}

/// A table without keys. This is `Map::new`.
#[verifier::external_body]
pub(crate) fn new_table() -> (r: toml::map::Map<String, toml::Value>)
    ensures
        table_nodes(r) =~= Map::empty(),
{
    toml::map::Map::new()
}

/// Puts a value under a key of a table, in place of the value that was
/// there, if one was. This is `Map::insert`.
#[verifier::external_body]
pub(crate) fn table_insert(table: &mut toml::map::Map<String, toml::Value>, key: &str, value: toml::Value)
    ensures
        table_nodes(*final(table)) == table_nodes(*old(table)).insert(key@, value_node(value)),
{
    table.insert(key.to_owned(), value);
}

/// A string as a value. This is the variant `Value::String`.
#[verifier::external_body]
pub(crate) fn text_value(text: String) -> (r: toml::Value)
    ensures
        value_node(r) == Node::Text(text@),
{
    toml::Value::String(text)
}

/// An array as a value. This is the variant `Value::Array`.
#[verifier::external_body]
pub(crate) fn list_value(items: Vec<toml::Value>) -> (r: toml::Value)
    ensures
        value_node(r) == Node::List(nodes_of(items@)),
{
    toml::Value::Array(items)
}

/// A table as a value. This is the variant `Value::Table`.
#[verifier::external_body]
pub(crate) fn table_value(table: toml::map::Map<String, toml::Value>) -> (r: toml::Value)
    ensures
        value_node(r) == Node::Table(table_nodes(table)),
{
    toml::Value::Table(table)
}

} // verus!

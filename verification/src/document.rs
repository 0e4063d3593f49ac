//! The configuration file as a document of tables, lists and texts.
//!
//! The text of the file is read and written by the `toml` crate. What the
//! crate hands over is a tree of tables; this module says which tree stands
//! for which configuration, builds the tree of a configuration and reads a
//! configuration off a tree, and proves that reading gives back what was
//! built.

use vstd::prelude::*;
use vstd::string::*;

verus! {

/// Declares `toml::Value`, a value of a document, as an opaque type.
#[verifier::external_type_specification]
#[verifier::external_body]
pub struct ExTomlValue(toml::Value);

/// Declares `toml::map::Map`, the table of a document, as an opaque type.
#[verifier::external_type_specification]
#[verifier::external_body]
#[verifier::reject_recursive_types(K)]
#[verifier::reject_recursive_types(V)]
pub struct ExTomlMap<K, V>(toml::map::Map<K, V>);

/// Declares `toml::de::Error`, the failure to read a document, as an opaque
/// type.
#[verifier::external_type_specification]
#[verifier::external_body]
pub struct ExTomlReadError(toml::de::Error);

/// Declares `toml::ser::Error`, the failure to write a document, as an
/// opaque type.
#[verifier::external_type_specification]
#[verifier::external_body]
pub struct ExTomlWriteError(toml::ser::Error);

/// A value of a document: a text, a list, a table, or a value of a kind that
/// no configuration holds (a number, a date and so on).
pub enum DocValue {
    Text(Seq<char>),
    List(Seq<DocValue>),
    Table(Map<Seq<char>, DocValue>),
    Other(toml::Value),
}

/// What a value of the `toml` crate holds.
pub uninterp spec fn value_model(v: toml::Value) -> DocValue;

/// What a table of the `toml` crate holds: its keys and the value of each.
pub uninterp spec fn table_model(t: toml::map::Map<String, toml::Value>) -> Map<
    Seq<char>,
    DocValue,
>;

/// The document that a text is read as, as `toml::from_str` reads it; none
/// for a text that is no document.
pub uninterp spec fn parsed_document(text: Seq<char>) -> Option<Map<Seq<char>, DocValue>>;

/// The text that a document is written as, as `toml::to_string_pretty`
/// writes it; none for a document that it does not write.
pub uninterp spec fn document_text(doc: Map<Seq<char>, DocValue>) -> Option<Seq<char>>;

/// Reads a text as a document.
///
/// Trusted: calls `toml::from_str` for a table. The result depends on the
/// text alone, so the contract names it: the call succeeds for the texts
/// that have a document, and the table holds that document.
#[verifier::external_body]
pub(crate) fn parse_table(text: &str) -> (r: Result<
    toml::map::Map<String, toml::Value>,
    toml::de::Error,
>)
    ensures
        r is Ok <==> parsed_document(text@) is Some,
        r matches Ok(t) ==> Some(table_model(t)) == parsed_document(text@),
{
    toml::from_str::<toml::Table>(text)
}

/// Writes a document as text.
///
/// Trusted: calls `toml::to_string_pretty` on a table. Whether the call
/// succeeds, and the text it gives, depend on what the table holds alone,
/// so the contract names that outcome: the call succeeds for the documents
/// that have a text, and hands that text back. Which documents have one is
/// not claimed.
#[verifier::external_body]
pub(crate) fn render_table(t: &toml::map::Map<String, toml::Value>) -> (r: Result<
    String,
    toml::ser::Error,
>)
    ensures
        r is Ok <==> document_text(table_model(*t)) is Some,
        r matches Ok(text) ==> document_text(table_model(*t)) == Some(text@),
{
    toml::to_string_pretty(t)
}

/// The message of a failure to read a document.
///
/// Trusted: calls the `Display` of `toml::de::Error`; nothing is claimed of
/// the text.
#[verifier::external_body]
pub(crate) fn read_error_text(e: &toml::de::Error) -> String {
    e.to_string()
}

/// The message of a failure to write a document.
///
/// Trusted: calls the `Display` of `toml::ser::Error`; nothing is claimed of
/// the text.
#[verifier::external_body]
pub(crate) fn write_error_text(e: &toml::ser::Error) -> String {
    e.to_string()
}

/// A table without entries.
///
/// Trusted: calls `Map::new` of the `toml` crate, which makes an empty map.
#[verifier::external_body]
pub(crate) fn new_table() -> (table: toml::map::Map<String, toml::Value>)
    ensures
        table_model(table) =~= Map::empty(),
{
    toml::map::Map::new()
}

/// Sets the value of a key in a table.
///
/// Trusted: calls `Map::insert` of the `toml` crate, which hands the call on
/// to the map it wraps: afterwards the key has the given value and every
/// other key is as before.
#[verifier::external_body]
pub(crate) fn table_insert(
    t: &mut toml::map::Map<String, toml::Value>,
    key: String,
    value: toml::Value,
)
    ensures
        table_model(*final(t)) == table_model(*old(t)).insert(key@, value_model(value)),
{
    t.insert(key, value);
}

/// The value of a key in a table.
///
/// Trusted: calls `Map::get` of the `toml` crate, which hands the call on to
/// the map it wraps: the value of the key where the table has the key, none
/// where it has not.
#[verifier::external_body]
pub(crate) fn table_get<'a>(t: &'a toml::map::Map<String, toml::Value>, key: &str) -> (r: Option<
    &'a toml::Value,
>)
    ensures
        match r {
            Some(v) => table_model(*t).contains_key(key@) && value_model(*v) == table_model(
                *t,
            )[key@],
            None => !table_model(*t).contains_key(key@),
        },
{
    t.get(key)
}

/// The text of a value, where the value is a text.
///
/// Trusted: calls `Value::as_str` of the `toml` crate, which gives the
/// string of the variant `String` and none for every other variant.
#[verifier::external_body]
pub(crate) fn value_as_str<'a>(v: &'a toml::Value) -> (r: Option<&'a str>)
    ensures
        match r {
            Some(s) => value_model(*v) == DocValue::Text(s@),
            None => !(value_model(*v) is Text),
        },
{
    v.as_str()
}

/// The table of a value, where the value is a table.
///
/// Trusted: calls `Value::as_table` of the `toml` crate, which gives the
/// table of the variant `Table` and none for every other variant.
#[verifier::external_body]
pub(crate) fn value_as_table<'a>(v: &'a toml::Value) -> (r: Option<
    &'a toml::map::Map<String, toml::Value>,
>)
    ensures
        match r {
            Some(t) => value_model(*v) == DocValue::Table(table_model(*t)),
            None => !(value_model(*v) is Table),
        },
{
    v.as_table()
}

/// The items of a list.
pub open spec fn value_models(items: Seq<toml::Value>) -> Seq<DocValue> {
    Seq::new(items.len(), |i: int| value_model(items[i]))
}

/// The items of a value, where the value is a list.
///
/// Trusted: calls `Value::as_array` of the `toml` crate, which gives the
/// vector of the variant `Array` and none for every other variant.
#[verifier::external_body]
pub(crate) fn value_as_array<'a>(v: &'a toml::Value) -> (r: Option<&'a Vec<toml::Value>>)
    ensures
        match r {
            Some(items) => value_model(*v) == DocValue::List(value_models(items@)),
            None => !(value_model(*v) is List),
        },
{
    v.as_array()
}

/// The value that is a text.
///
/// Trusted: builds the variant `String` of `toml::Value`.
#[verifier::external_body]
pub(crate) fn text_value(s: String) -> (v: toml::Value)
    ensures
        value_model(v) == DocValue::Text(s@),
{
    toml::Value::String(s)
}

/// The value that is a list.
///
/// Trusted: builds the variant `Array` of `toml::Value`.
#[verifier::external_body]
pub(crate) fn list_value(items: Vec<toml::Value>) -> (v: toml::Value)
    ensures
        value_model(v) == DocValue::List(value_models(items@)),
{
    toml::Value::Array(items)
}

/// The value that is a table.
///
/// Trusted: builds the variant `Table` of `toml::Value`.
#[verifier::external_body]
pub(crate) fn table_value(t: toml::map::Map<String, toml::Value>) -> (v: toml::Value)
    ensures
        value_model(v) == DocValue::Table(table_model(t)),
{
    toml::Value::Table(t)
}

} // verus!

//! Documents in JSON, written by the `serde_json` crate.

use vstd::prelude::*;
use vstd::string::*;
use vstd::utf8::encode_utf8;

use crate::errors::{GeneralError, GeneralErrorView};
use crate::text::{decimal, texts};
use crate::utils::joined;

verus! {

/// Declares `serde_json::Error`, the failure to write a document, as an
/// opaque type.
#[verifier::external_type_specification]
#[verifier::external_body]
pub struct ExJsonError(serde_json::Error);

/// Whether the first numbers of the pairs ascend, so that none stands
/// twice.
pub open spec fn ascending_names(entries: Seq<(u64, u64)>) -> bool {
    forall|i: int, j: int|
        0 <= i < j < entries.len() ==> (#[trigger] entries[i]).0 < (#[trigger] entries[j]).0
}

/// One member of the object of pairs, as it stands on its line: the first
/// number, in quotes, is its name, the second its value.
pub open spec fn count_member(entry: (u64, u64)) -> Seq<char> {
    "    \""@ + decimal(entry.0 as nat) + "\": "@ + decimal(entry.1 as nat)
}

/// The members of the object of pairs, in the order of the pairs.
pub open spec fn count_members(entries: Seq<(u64, u64)>) -> Seq<Seq<char>> {
    Seq::new(entries.len(), |i: int| count_member(entries[i]))
}

/// The JSON object that has one member for each pair, each on a line of its
/// own with an indent of four spaces; an object without members is written
/// as a pair of braces.
pub open spec fn counts_text(entries: Seq<(u64, u64)>) -> Seq<char> {
    if entries.len() == 0 {
        "{}"@
    } else {
        "{\n"@ + joined(count_members(entries), ",\n"@) + "\n}"@
    }
}

/// The bytes that `serde_json` writes for the map of the pairs, with an
/// indent of four spaces; none for pairs that it does not write.
pub uninterp spec fn counts_json(entries: Seq<(u64, u64)>) -> Option<Seq<u8>>;

/// The text of the JSON array of the given texts, as `serde_json` writes it
/// with its usual indent; none for texts that it does not write.
pub uninterp spec fn names_json(names: Seq<Seq<char>>) -> Option<Seq<char>>;

/// Writes pairs of numbers as a JSON object.
///
/// Trusted: hands the pairs as a `BTreeMap` to the serializer of
/// `serde_json` with its `PrettyFormatter` and an indent of four spaces. The
/// first numbers ascend, so the map holds the pairs one for one and in
/// their order. The serializer writes into a vector in memory, so whether
/// it succeeds depends on the pairs alone: the contract names that outcome
/// and does not claim that there are pairs for which it succeeds. What it
/// writes when it succeeds is stated: the formatter opens the object, puts
/// each member on a line of its own with the indent, the key as a number
/// in quotes, a colon and a blank before the value, a comma between two
/// members, and closes the object on a new line, or at once where it has
/// no member.
#[verifier::external_body]
pub(crate) fn render_counts(entries: &Vec<(u64, u64)>) -> (r: Result<Vec<u8>, serde_json::Error>)
    requires
        ascending_names(entries@),
    ensures
        r is Ok <==> counts_json(entries@) is Some,
        r matches Ok(bytes) ==> counts_json(entries@) == Some(bytes@),
        r matches Ok(bytes) ==> bytes@ == encode_utf8(counts_text(entries@)),
{
    let map: std::collections::BTreeMap<u64, u64> = entries.iter().copied().collect();
    let mut buf = Vec::new();
    let formatter = serde_json::ser::PrettyFormatter::with_indent(b"    ");
    let mut ser = serde_json::Serializer::with_formatter(&mut buf, formatter);
    serde::Serialize::serialize(&map, &mut ser)?;
    Ok(buf)
}

/// Writes texts as a JSON array.
///
/// Trusted: calls `serde_json::to_string_pretty` on the vector. Whether
/// the call succeeds, and the text it gives, depend on the texts alone, so
/// the contract names that outcome: the call succeeds for the texts that
/// have an array, and hands it back. Which texts have one is not claimed.
#[verifier::external_body]
pub(crate) fn render_names(names: &Vec<String>) -> (r: Result<String, serde_json::Error>)
    ensures
        r is Ok <==> names_json(texts(names@)) is Some,
        r matches Ok(text) ==> names_json(texts(names@)) == Some(text@),
{
    serde_json::to_string_pretty(names)
}

/// The message of a failure to write a document.
///
/// Trusted: calls the `Display` of `serde_json::Error`; nothing is claimed
/// of the text.
#[verifier::external_body]
pub(crate) fn json_error_text(e: &serde_json::Error) -> String {
    e.to_string()
}

/// The error for a document that could not be written: its message is the
/// text of the failure, and so is its cause.
pub fn json_failure(text: String) -> (e: GeneralError)
    ensures
        e@ == (GeneralErrorView { message: text@, source: Some(text@) }),
{
    GeneralError::new_with_source(text.clone(), text)
}

/// The JSON object of pairs of numbers whose first numbers ascend; pairs
/// that are not written are an error whose message and cause are the text
/// of the failure.
pub fn counts_document(entries: &Vec<(u64, u64)>) -> (r: Result<Vec<u8>, GeneralError>)
    requires
        ascending_names(entries@),
    ensures
        r is Ok <==> counts_json(entries@) is Some,
        r matches Ok(bytes) ==> bytes@ == encode_utf8(counts_text(entries@)),
        r matches Err(e) ==> e@.source == Some(e@.message),
{
    match render_counts(entries) {
        Ok(bytes) => Ok(bytes),
        Err(e) => Err(json_failure(json_error_text(&e))),
    }
}

/// The JSON array of texts; texts that are not written are an error whose
/// message and cause are the text of the failure.
pub fn names_document(names: &Vec<String>) -> (r: Result<String, GeneralError>)
    ensures
        r is Ok <==> names_json(texts(names@)) is Some,
        r matches Ok(text) ==> names_json(texts(names@)) == Some(text@),
        r matches Err(e) ==> e@.source == Some(e@.message),
{
    match render_names(names) {
        Ok(text) => Ok(text),
        Err(e) => Err(json_failure(json_error_text(&e))),
    }
}

/// Declares `serde_json::Value`, a value of a document that was read, as
/// an opaque type.
#[verifier::external_type_specification]
#[verifier::external_body]
pub struct ExJsonValue(serde_json::Value);

/// The value that a text is read as, as `serde_json::from_str` reads it;
/// none for a text that is no JSON.
pub uninterp spec fn json_value(text: Seq<char>) -> Option<serde_json::Value>;

/// Whether a value is an object, as `Value::is_object` tells it.
pub uninterp spec fn json_is_object(v: serde_json::Value) -> bool;

/// The member of a value under a name, as `Value::get` finds it; none for
/// a value that has no such member.
pub uninterp spec fn json_member(v: serde_json::Value, name: Seq<char>) -> Option<
    serde_json::Value,
>;

/// Reads a text as JSON.
///
/// Trusted: calls `serde_json::from_str` for a `Value`. The result depends
/// on the text alone, so the contract names it: the call succeeds for the
/// texts that have a value, and hands that value back.
#[verifier::external_body]
pub(crate) fn read_value(text: &str) -> (r: Result<serde_json::Value, serde_json::Error>)
    ensures
        r is Ok <==> json_value(text@) is Some,
        r matches Ok(v) ==> json_value(text@) == Some(v),
{
    serde_json::from_str::<serde_json::Value>(text)
}

/// Whether a value is an object.
///
/// Trusted: calls `Value::is_object` of `serde_json`; the contract gives the
/// answer its name.
#[verifier::external_body]
pub(crate) fn is_object(v: &serde_json::Value) -> (r: bool)
    ensures
        r == json_is_object(*v),
{
    v.is_object()
}

/// The member of a value under a name.
///
/// Trusted: calls `Value::get` of `serde_json` with the name as index; the
/// contract gives the member its name.
#[verifier::external_body]
pub(crate) fn member<'a>(v: &'a serde_json::Value, name: &str) -> (r: Option<
    &'a serde_json::Value,
>)
    ensures
        match r {
            Some(m) => json_member(*v, name@) == Some(*m),
            None => json_member(*v, name@) is None,
        },
{
    v.get(name)
}

/// The member of a value under a name, where that member is an object.
pub open spec fn json_object_member(v: serde_json::Value, name: Seq<char>) -> Option<
    serde_json::Value,
> {
    match json_member(v, name) {
        Some(m) => if json_is_object(m) {
            Some(m)
        } else {
            None
        },
        None => None,
    }
}

/// The member of a value under a name, where that member is an object.
pub fn object_member<'a>(v: &'a serde_json::Value, name: &str) -> (r: Option<
    &'a serde_json::Value,
>)
    ensures
        match r {
            Some(m) => json_object_member(*v, name@) == Some(*m),
            None => json_object_member(*v, name@) is None,
        },
{
    match member(v, name) {
        Some(m) => if is_object(m) {
            Some(m)
        } else {
            None
        },
        None => None,
    }
}

/// Reads a text as JSON; a text that is no JSON is an error whose message
/// and cause are the text of the failure.
pub fn value_document(text: &str) -> (r: Result<serde_json::Value, GeneralError>)
    ensures
        r is Ok <==> json_value(text@) is Some,
        r matches Ok(v) ==> json_value(text@) == Some(v),
        r matches Err(e) ==> e@.source == Some(e@.message),
{
    match read_value(text) {
        Ok(v) => Ok(v),
        Err(e) => Err(json_failure(json_error_text(&e))),
    }
}

} // verus!

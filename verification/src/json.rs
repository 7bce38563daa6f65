//! The boundary to `serde_json`: the document tree that it parses and prints,
//! seen through a mathematical model, and one small function for each
//! operation of it that the configuration store needs.
//!
//! Nothing in this file is proved. Each function states what the operation of
//! `serde_json` that it wraps does to the model.

use vstd::prelude::*;

verus! {

/// `serde_json::Value`, a JSON document as a tree.
#[verifier::external_type_specification]
#[verifier::external_body]
pub struct ExValue(serde_json::Value);

/// `serde_json::Map`, the members of a JSON object.
#[verifier::external_type_specification]
#[verifier::external_body]
#[verifier::reject_recursive_types(K)]
#[verifier::reject_recursive_types(V)]
pub struct ExMembers<K, V>(serde_json::Map<K, V>);

/// `serde_json::Error`, the reason why a text could not be parsed or a
/// document could not be printed.
#[verifier::external_type_specification]
#[verifier::external_body]
pub struct ExJsonError(serde_json::Error);

/// The members of a JSON object as `serde_json` holds them.
pub type Members = serde_json::Map<String, serde_json::Value>;

/// What a JSON document holds.
pub enum Json {
    /// `null`.
    Null,
    /// `true` or `false`.
    Bool(bool),
    /// A whole number from 0 to 2^64 - 1.
    Unsigned(u64),
    /// Any other number: a negative or a fractional one.
    OtherNumber,
    /// A string.
    Text(Seq<char>),
    /// An array.
    List(Seq<Json>),
    /// An object: its members by name.
    Record(Map<Seq<char>, Json>),
}

/// The members of an object that has none.
pub open spec fn no_members() -> Map<Seq<char>, Json> {
    Map::empty()
}

/// What a `serde_json::Value` holds.
pub uninterp spec fn json_of(value: serde_json::Value) -> Json;

/// What a `serde_json::Map` holds: its members by name.
pub uninterp spec fn members_of(members: Members) -> Map<Seq<char>, Json>;

/// What `serde_json::from_str` makes of a text: the document that the text
/// spells, or nothing where the text is not JSON.
pub uninterp spec fn parsed_json(text: Seq<char>) -> Option<Json>;

/// What `serde_json::to_string_pretty` makes of a document: the text that
/// it prints, or nothing where it fails.
pub uninterp spec fn printed_json(value: serde_json::Value) -> Option<Seq<char>>;

/// Parses a text as one JSON document.
///
/// Wraps `serde_json::from_str` at the type `Value`. The outcome depends on
/// the text alone; an error stands for a text that is not JSON.
#[verifier::external_body]
pub(crate) fn parse_value(text: &str) -> (result: Result<serde_json::Value, serde_json::Error>)
    ensures
        match result {
            Ok(value) => parsed_json(text@) == Some(json_of(value)),
            Err(_) => parsed_json(text@) is None,
        },
{
    serde_json::from_str::<serde_json::Value>(text)
}

/// Prints a document as indented text.
///
/// Wraps `serde_json::to_string_pretty`. Whether printing succeeds and what
/// it prints depend on the document alone.
#[verifier::external_body]
pub(crate) fn print_value(value: &serde_json::Value) -> (result: Result<String, serde_json::Error>)
    ensures
        match result {
            Ok(text) => printed_json(*value) == Some(text@),
            Err(_) => printed_json(*value) is None,
        },
{
    serde_json::to_string_pretty(value)
}

/// The message of an error of `serde_json`.
///
/// Wraps the `Display` of `serde_json::Error`. Nothing is claimed of the
/// message.
#[verifier::external_body]
pub(crate) fn error_message(error: &serde_json::Error) -> String {
    error.to_string()
}

/// Looks a member of an object up by name.
///
/// Wraps `Value::get` with a string index: it finds the member if the value
/// is an object that has one of that name, and nothing otherwise.
#[verifier::external_body]
pub(crate) fn member<'a>(value: &'a serde_json::Value, name: &str) -> (result: Option<
    &'a serde_json::Value,
>)
    ensures
        match result {
            Some(found) => json_of(*value) matches Json::Record(members) && members.dom().contains(
                name@,
            ) && members[name@] == json_of(*found),
            None => !(json_of(*value) matches Json::Record(members) && members.dom().contains(
                name@,
            )),
        },
{
    value.get(name)
}

/// Reads a value as a boolean.
///
/// Wraps `Value::as_bool`: a boolean value gives its content, any other
/// value nothing.
#[verifier::external_body]
pub(crate) fn as_bool(value: &serde_json::Value) -> (result: Option<bool>)
    ensures
        match result {
            Some(b) => json_of(*value) == Json::Bool(b),
            None => !(json_of(*value) is Bool),
        },
{
    value.as_bool()
}

/// Reads a value as a whole number that is not negative.
///
/// Wraps `Value::as_u64`: a number that was parsed or built as an unsigned
/// integer gives its content, any other value nothing.
#[verifier::external_body]
pub(crate) fn as_u64(value: &serde_json::Value) -> (result: Option<u64>)
    ensures
        match result {
            Some(n) => json_of(*value) == Json::Unsigned(n),
            None => !(json_of(*value) is Unsigned),
        },
{
    value.as_u64()
}

/// Reads a value as a string.
///
/// Wraps `Value::as_str`: a string value gives its content, any other value
/// nothing.
#[verifier::external_body]
pub(crate) fn as_text<'a>(value: &'a serde_json::Value) -> (result: Option<&'a str>)
    ensures
        match result {
            Some(text) => json_of(*value) == Json::Text(text@),
            None => !(json_of(*value) is Text),
        },
{
    value.as_str()
}

/// Tells whether a value is `null`.
///
/// Wraps `Value::is_null`.
#[verifier::external_body]
pub(crate) fn is_null(value: &serde_json::Value) -> (result: bool)
    ensures
        result == (json_of(*value) is Null),
{
    value.is_null()
}

/// Tells whether a value is an object.
///
/// Wraps `Value::is_object`.
#[verifier::external_body]
pub(crate) fn is_object(value: &serde_json::Value) -> (result: bool)
    ensures
        result == (json_of(*value) is Record),
{
    value.is_object()
}

/// The value `null`.
///
/// Builds the variant `Value::Null`.
#[verifier::external_body]
pub(crate) fn null_value() -> (value: serde_json::Value)
    ensures
        json_of(value) == Json::Null,
{
    serde_json::Value::Null
}

/// The value of a boolean.
///
/// Builds the variant `Value::Bool`.
#[verifier::external_body]
pub(crate) fn bool_value(b: bool) -> (value: serde_json::Value)
    ensures
        json_of(value) == Json::Bool(b),
{
    serde_json::Value::Bool(b)
}

/// The value of a whole number that is not negative.
///
/// Wraps `Value::from` at `u64`, which builds an unsigned integer number.
#[verifier::external_body]
pub(crate) fn number_value(n: u64) -> (value: serde_json::Value)
    ensures
        json_of(value) == Json::Unsigned(n),
{
    serde_json::Value::from(n)
}

/// The value of a string.
///
/// Wraps `Value::from` at `&str`, which builds a string value with the same
/// characters.
#[verifier::external_body]
pub(crate) fn text_value(text: &str) -> (value: serde_json::Value)
    ensures
        json_of(value) == Json::Text(text@),
{
    serde_json::Value::from(text)
}

/// An object without members yet.
///
/// Wraps `Map::new`.
#[verifier::external_body]
pub(crate) fn new_members() -> (members: Members)
    ensures
        members_of(members) == no_members(),
{
    serde_json::Map::new()
}

/// Sets the member of the given name, in place of one of that name if there
/// is one.
///
/// Wraps `Map::insert`.
#[verifier::external_body]
pub(crate) fn set_member(members: &mut Members, name: &str, value: serde_json::Value)
    ensures
        members_of(*final(members)) == members_of(*old(members)).insert(name@, json_of(value)),
{
    members.insert(name.to_owned(), value);
}

/// The object with the given members.
///
/// Builds the variant `Value::Object`.
#[verifier::external_body]
pub(crate) fn record_value(members: Members) -> (value: serde_json::Value)
    ensures
        json_of(value) == Json::Record(members_of(members)),
{
    serde_json::Value::Object(members)
}

} // verus!

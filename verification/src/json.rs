//! JSON values as an envelope reads them.
//!
//! The claims of a token are JSON values held by `serde_json`. An envelope only ever looks for
//! two shapes among them: a string, and an object whose members are all strings (an attribute
//! map). [`Json`] is the mathematical model of a value at that resolution, and the functions
//! below state, over that model, what the `serde_json` conversions do.
use serde_json::Error as JsonError;
use serde_json::Value;
use std::collections::HashMap;
use vstd::prelude::*;

verus! {

/// What a JSON value holds, as far as an envelope is concerned.
pub enum Json {
    /// A JSON string.
    Text(Seq<char>),
    /// A JSON object every member of which is a string.
    Attributes(Map<Seq<char>, Seq<char>>),
    /// Any other JSON value: null, a boolean, a number, an array, or an object with a member
    /// that is not a string.
    Other,
}

/// `serde_json::Value`: an owned JSON value. Opaque to the verifier; read through [`json_of`].
#[verifier::external_type_specification]
#[verifier::external_body]
pub struct ExValue(Value);

/// `serde_json::Error`: why a conversion to or from a JSON value failed. Carried, never read.
#[verifier::external_type_specification]
#[verifier::external_body]
pub struct ExJsonError(JsonError);

/// The model of the JSON value that `v` holds.
pub uninterp spec fn json_of(v: Value) -> Json;

/// `serde_json::Value::as_str`: the string inside a `Value::String`, and `None` for every
/// other variant.
pub assume_specification<'a>[ Value::as_str ](v: &'a Value) -> (r: Option<&'a str>)
    ensures
        r is Some <==> json_of(*v) is Text,
        r matches Some(text) ==> json_of(*v) == Json::Text(text@),
;

/// `serde_json::to_value` on a string. Trusted: the value is the JSON string with the same
/// characters. The conversion fails only where a type's own serialization fails or a map has
/// keys that are not strings, so on a string it does not fail.
#[verifier::external_body]
pub(crate) fn text_to_value(text: &str) -> (r: Result<Value, JsonError>)
    ensures
        r is Ok,
        r matches Ok(v) ==> json_of(v) == Json::Text(text@),
{
    serde_json::to_value(text)
}

/// `serde_json::to_value` on an attribute map. Trusted: the value is the JSON object with one
/// string member per entry of the map. The conversion fails only where a type's own
/// serialization fails or a map has keys that are not strings, so on a map from strings to
/// strings it does not fail.
#[verifier::external_body]
pub(crate) fn attributes_to_value(attributes: &HashMap<String, String>) -> (r: Result<
    Value,
    JsonError,
>)
    ensures
        r is Ok,
        r matches Ok(v) ==> json_of(v) == Json::Attributes(attributes.deep_view()),
{
    serde_json::to_value(attributes)
}

/// `serde_json::from_value` into an attribute map. Trusted: the conversion succeeds exactly on
/// JSON objects whose members are all strings, and the map then has one entry per member.
#[verifier::external_body]
pub(crate) fn attributes_from_value(v: &Value) -> (r: Result<
    HashMap<String, String>,
    JsonError,
>)
    ensures
        r is Ok <==> json_of(*v) is Attributes,
        r matches Ok(attributes) ==> json_of(*v) == Json::Attributes(attributes.deep_view()),
{
    serde_json::from_value(v.clone())
}

} // verus!

//! JSON values as `serde_json` holds them: what the library asks of them,
//! and the names under which its contracts speak of the answers.

use vstd::prelude::*;

verus! {

/// `serde_json::Value`, a JSON value. Nothing is known of what is inside.
#[verifier::external_type_specification]
#[verifier::external_body]
pub struct ExJsonValue(serde_json::Value);

/// `serde_json::Map`, the members of a JSON object. Nothing is known of
/// what is inside.
#[verifier::external_type_specification]
#[verifier::external_body]
#[verifier::reject_recursive_types(K)]
#[verifier::reject_recursive_types(V)]
pub struct ExJsonMap<K, V>(serde_json::Map<K, V>);

/// The members of the object that a JSON value is; none for a value that
/// is no object.
pub uninterp spec fn json_members(value: serde_json::Value) -> Option<
    serde_json::Map<String, serde_json::Value>,
>;

/// What `to_string` of a `serde_json::Value` writes: the value as compact
/// JSON.
pub uninterp spec fn json_text(value: serde_json::Value) -> Seq<char>;

/// What `Debug` writes for a `serde_json::Map`.
pub uninterp spec fn json_debug(map: serde_json::Map<String, serde_json::Value>) -> Seq<char>;

/// Tells a `serde_json::Value` that is an object from any other: the map of
/// an object is handed out, which [`json_members`] names; any other value
/// is handed back as it is.
#[verifier::external_body]
pub(crate) fn json_into_object(value: serde_json::Value) -> (parts: Result<
    serde_json::Map<String, serde_json::Value>,
    serde_json::Value,
>)
    ensures
        parts == match json_members(value) {
            Some(map) => Ok::<
                serde_json::Map<String, serde_json::Value>,
                serde_json::Value,
            >(map),
            None => Err::<serde_json::Map<String, serde_json::Value>, serde_json::Value>(value),
        },
{
    match value {
        serde_json::Value::Object(map) => Ok(map),
        other => Err(other),
    }
}

/// Writes a `serde_json::Value` with its `to_string`, as compact JSON. The
/// text is a function of the value alone, which [`json_text`] names.
#[verifier::external_body]
pub(crate) fn json_to_string(value: &serde_json::Value) -> (text: String)
    ensures
        text@ == json_text(*value),
{
    value.to_string()
}

/// Writes a `serde_json::Map` as its `Debug` does. The text is a function
/// of the map alone, which [`json_debug`] names.
#[verifier::external_body]
pub(crate) fn json_map_debug(map: &serde_json::Map<String, serde_json::Value>) -> (text: String)
    ensures
        text@ == json_debug(*map),
{
    format!("{:?}", map)
}

/// What `serde_json::from_slice` makes of `body`: the JSON value that the
/// bytes are, and none where they are no JSON.
pub uninterp spec fn json_parsed(body: Seq<u8>) -> Option<serde_json::Value>;

/// What `get` of a `serde_json::Value` finds under the name `key`: the
/// member of that name, and none where the value is no object or has no
/// such member.
pub uninterp spec fn json_member(value: serde_json::Value, key: Seq<char>) -> Option<
    serde_json::Value,
>;

/// What `as_str` of a `serde_json::Value` gives: the text of a value that
/// is a string, and none for any other value.
pub uninterp spec fn json_string(value: serde_json::Value) -> Option<Seq<char>>;

/// Parses `body` with `serde_json::from_slice`. The value is a function of
/// the bytes alone, which [`json_parsed`] names; there is none where the
/// parser refuses them.
#[verifier::external_body]
pub(crate) fn parse_json(body: &[u8]) -> (value: Option<serde_json::Value>)
    ensures
        value == json_parsed(body@),
{
    serde_json::from_slice(body).ok()
}

/// Looks a member up with `get` of `serde_json::Value`. What is found is a
/// function of the value and the name, which [`json_member`] names.
#[verifier::external_body]
pub(crate) fn json_get<'a>(value: &'a serde_json::Value, key: &str) -> (member: Option<
    &'a serde_json::Value,
>)
    ensures
        match member {
            Some(member) => json_member(*value, key@) == Some(*member),
            None => json_member(*value, key@) is None,
        },
{
    value.get(key)
}

/// Reads a string with `as_str` of `serde_json::Value` and copies it. The
/// text is a function of the value alone, which [`json_string`] names.
#[verifier::external_body]
pub(crate) fn json_as_string(value: &serde_json::Value) -> (text: Option<String>)
    ensures
        match text {
            Some(text) => json_string(*value) == Some(text@),
            None => json_string(*value) is None,
        },
{
    value.as_str().map(|text| text.to_owned())
}

} // verus!

//! What the gateway has from `serde_json`: JSON strings on the way out, and
//! the string members of a JSON object on the way in.

use vstd::prelude::*;

verus! {

/// `serde_json::Error`, which Verus carries without looking inside.
#[verifier::external_type_specification]
#[verifier::external_body]
pub struct ExJsonError(serde_json::Error);

/// `serde_json::Value`, which Verus carries without looking inside.
#[verifier::external_type_specification]
#[verifier::external_body]
pub struct ExJsonValue(serde_json::Value);

/// `serde_json::Map`, which Verus carries without looking inside.
#[verifier::external_type_specification]
#[verifier::external_body]
#[verifier::reject_recursive_types(K)]
#[verifier::reject_recursive_types(V)]
pub struct ExJsonMap<K, V>(serde_json::Map<K, V>);

/// The JSON text that `serde_json::to_string` writes for the string `text`.
pub uninterp spec fn json_string(text: Seq<char>) -> Seq<char>;

/// The members of a JSON object whose values are strings, by key. A key
/// that was read twice holds what was read last.
pub uninterp spec fn string_members(
    object: serde_json::Map<String, serde_json::Value>,
) -> Map<Seq<char>, Seq<char>>;

/// What `serde_json::from_slice` makes of the whole of `body` when it is
/// asked for a JSON object: the object's string members, or else the text
/// that `{:?}` prints for the error with which it refuses `body`.
pub uninterp spec fn parsed_members(body: Seq<u8>) -> Result<
    Map<Seq<char>, Seq<char>>,
    Seq<char>,
>;

/// Writes `text` as a JSON string, through `serde_json::to_string`.
///
/// Trusted: a text always comes back, since the writer is a vector in
/// memory and a string has nothing that cannot be written; and which text
/// depends on the characters of `text` alone.
#[verifier::external_body]
pub(crate) fn to_json_string(text: &str) -> (written: Result<String, serde_json::Error>)
    ensures
        written is Ok,
        written matches Ok(json) ==> json@ == json_string(text@),
{
    serde_json::to_string(text)
}

/// Reads the whole of `body` as one JSON object, through
/// `serde_json::from_slice`, and prints the error of a refusal with `{:?}`.
///
/// Trusted: whether an object comes back, with which string members, and
/// else what the error says, depends on the bytes of `body` alone.
#[verifier::external_body]
pub(crate) fn parse_object(body: &[u8]) -> (parsed: Result<
    serde_json::Map<String, serde_json::Value>,
    String,
>)
    ensures
        parsed matches Ok(object) ==> (parsed_members(body@) matches Ok(members) && members
            == string_members(object)),
        parsed matches Err(account) ==> (parsed_members(body@) matches Err(text) && text
            == account@),
{
    match serde_json::from_slice(body) {
        Ok(object) => Ok(object),
        Err(err) => Err(format!("{:?}", err)),
    }
}

/// The string that `object` holds under `key`, through `Map::get` and
/// `Value::as_str`.
///
/// Trusted: a string comes back where the object has a member `key` whose
/// value is a string, and it is that string.
#[verifier::external_body]
pub(crate) fn string_member(
    object: &serde_json::Map<String, serde_json::Value>,
    key: &str,
) -> (member: Option<String>)
    ensures
        member is Some <==> string_members(*object).contains_key(key@),
        member matches Some(text) ==> string_members(*object)[key@] == text@,
{
    match object.get(key) {
        Some(value) => match value.as_str() {
            Some(text) => Some(text.to_string()),
            None => None,
        },
        None => None,
    }
}

} // verus!

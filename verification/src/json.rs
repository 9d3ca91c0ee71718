//! JSON objects, held in the `serde_json` crate's map.

use serde_json::Value;
use vstd::prelude::*;

verus! {

/// A JSON value of the `serde_json` crate.
#[verifier::external_type_specification]
#[verifier::external_body]
pub struct ExValue(serde_json::Value);

/// The map in which the `serde_json` crate holds the members of an object.
#[verifier::external_type_specification]
#[verifier::external_body]
#[verifier::reject_recursive_types(K)]
#[verifier::reject_recursive_types(V)]
pub struct ExMap<K, V>(serde_json::Map<K, V>);

/// The value of a member of a JSON object.
pub enum Member {
    /// A string.
    Text(Seq<char>),
    /// An array of strings.
    Texts(Seq<Seq<char>>),
    /// An object.
    Object(Map<Seq<char>, Member>),
    /// Anything else.
    Other(Value),
}

/// The members of the object that `map` holds.
pub uninterp spec fn members(map: serde_json::Map<String, Value>) -> Map<Seq<char>, Member>;

/// The JSON text, in bytes, of the object with these members, or the text of
/// the failure where it has none.
pub uninterp spec fn object_bytes(object: Map<Seq<char>, Member>) -> Result<Seq<u8>, Seq<char>>;

/// What a sequence of strings holds.
pub open spec fn texts(strings: Seq<String>) -> Seq<Seq<char>> {
    strings.map_values(|s: String| s@)
}

/// What the serialization of a document gave.
pub open spec fn document_view(document: Result<Vec<u8>, String>) -> Result<Seq<u8>, Seq<char>> {
    match document {
        Ok(bytes) => Ok(bytes@),
        Err(text) => Err(text@),
    }
}

/// Calls `serde_json::Map::new`. Believed: the map has no members.
#[verifier::external_body]
pub(crate) fn new_object() -> (object: serde_json::Map<String, Value>)
    ensures
        members(object).dom() == Set::<Seq<char>>::empty(),
{
    serde_json::Map::new()
}

/// Calls `serde_json::Map::insert` with `text` as a string value. Believed:
/// the member `key` becomes that string, and the others stay as they are.
#[verifier::external_body]
pub(crate) fn insert_text(object: &mut serde_json::Map<String, Value>, key: &str, text: &str)
    ensures
        members(*final(object)) == members(*old(object)).insert(key@, Member::Text(text@)),
{
    object.insert(key.to_owned(), Value::from(text));
}

/// Calls `serde_json::Map::insert` with `strings` as an array value. Believed:
/// the member `key` becomes the array of those strings, in their order, and the
/// others stay as they are.
#[verifier::external_body]
pub(crate) fn insert_texts(
    object: &mut serde_json::Map<String, Value>,
    key: &str,
    strings: &[String],
)
    ensures
        members(*final(object)) == members(*old(object)).insert(
            key@,
            Member::Texts(texts(strings@)),
        ),
{
    object.insert(key.to_owned(), Value::from(strings.to_vec()));
}

/// Calls `serde_json::Map::insert` with `inner` as an object value. Believed:
/// the member `key` becomes the object that `inner` held, and the others stay
/// as they are.
#[verifier::external_body]
pub(crate) fn insert_object(
    object: &mut serde_json::Map<String, Value>,
    key: &str,
    inner: serde_json::Map<String, Value>,
)
    ensures
        members(*final(object)) == members(*old(object)).insert(
            key@,
            Member::Object(members(inner)),
        ),
{
    object.insert(key.to_owned(), Value::from(inner));
}

/// Calls `serde_json::to_vec`. Believed: the bytes, or the text of the failure,
/// are a function of the object's members alone: without its feature
/// `preserve_order` the crate keeps and writes the members in the order of their
/// keys. What the bytes are is not stated.
#[verifier::external_body]
pub(crate) fn to_vec(object: &serde_json::Map<String, Value>) -> (result: Result<Vec<u8>, String>)
    ensures
        document_view(result) == object_bytes(members(*object)),
{
    match serde_json::to_vec(object) {
        Ok(bytes) => Ok(bytes),
        Err(error) => Err(error.to_string()),
    }
}

} // verus!

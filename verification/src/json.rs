//! JSON objects of integers and texts, written out by `serde_json`.
//!
//! The object is a `serde_json::Map` that keeps the order of insertion. Verus does not see
//! into it: what it holds and what is written for it are named here, and the contracts of the
//! calls into `serde_json` are stated over these names and believed, not proved.

use vstd::prelude::*;

verus! {

/// `serde_json::Map`, carried as an opaque value.
#[verifier::external_type_specification]
#[verifier::external_body]
#[verifier::reject_recursive_types(K)]
#[verifier::reject_recursive_types(V)]
pub struct ExJsonMap<K, V>(serde_json::Map<K, V>);

/// `serde_json::Value`, carried as an opaque value.
#[verifier::external_type_specification]
#[verifier::external_body]
pub struct ExJsonValue(serde_json::Value);

/// `serde_json::Error`, carried as an opaque value.
#[verifier::external_type_specification]
#[verifier::external_body]
pub struct ExJsonError(serde_json::Error);

/// A value of a JSON object's member, as far as this crate writes any.
pub enum JsonScalar {
    Int(int),
    Text(Seq<char>),
}

/// The members of a JSON object in the order in which they are written: name and value.
pub type Members = Seq<(Seq<char>, JsonScalar)>;

/// What a `serde_json::Map` holds, in its order of iteration: each member's name, and its
/// value where that is a signed 64-bit integer or a string.
pub uninterp spec fn object_members(object: serde_json::Map<String, serde_json::Value>) -> Seq<(Seq<char>, JsonScalar)>;

/// What `serde_json::to_string_pretty` gives for an object with these members: the text, or
/// none where it fails.
pub uninterp spec fn pretty_text(members: Seq<(Seq<char>, JsonScalar)>) -> Option<Seq<char>>;

/// Whether a member named `key` is among `members`.
pub open spec fn has_member(members: Members, key: Seq<char>) -> bool {
    exists|i: int| 0 <= i < members.len() && (#[trigger] members[i]).0 == key
}

/// Position of a member named `key`, where there is one.
pub open spec fn member_index(members: Members, key: Seq<char>) -> int {
    choose|i: int| 0 <= i < members.len() && (#[trigger] members[i]).0 == key
}

/// `members` after a member is set: a present name keeps its place and takes the new value,
/// a new name goes to the end.
pub open spec fn with_member(members: Members, key: Seq<char>, value: JsonScalar) -> Members {
    if has_member(members, key) {
        members.update(member_index(members, key), (key, value))
    } else {
        members.push((key, value))
    }
}

/// Value of the member named `key`, if there is one.
pub open spec fn member_value(members: Members, key: Seq<char>) -> Option<JsonScalar> {
    if has_member(members, key) {
        Some(members[member_index(members, key)].1)
    } else {
        None
    }
}

/// Why a JSON text could not be produced.
#[derive(Clone, Copy, Debug, PartialEq, Eq, Structural)]
pub enum EncodeError {
    /// Bytes could not be read or written.
    Io,
    /// A text was no JSON.
    Syntax,
    /// The data did not fit what was asked for.
    Data,
    /// A text ended too early.
    Eof,
}

/// Calls `serde_json::Map::new`, which makes a map without members.
#[verifier::external_body]
pub(crate) fn new_object() -> (object: serde_json::Map<String, serde_json::Value>)
    ensures
        object_members(object) == Seq::<(Seq<char>, JsonScalar)>::empty(),
{
    serde_json::Map::new()
}

/// Calls `serde_json::Map::insert` with a number made by `serde_json::Value::from`. With
/// insertion order kept, the map sets the value of a present key where it stands and puts a
/// new key last.
#[verifier::external_body]
pub(crate) fn put_integer(object: &mut serde_json::Map<String, serde_json::Value>, key: &str, value: i64)
    ensures
        object_members(*final(object)) == with_member(
            object_members(*old(object)),
            key@,
            JsonScalar::Int(value as int),
        ),
{
    object.insert(key.to_owned(), serde_json::Value::from(value));
}

/// Calls `serde_json::Map::insert` with a string made by `serde_json::Value::from`. With
/// insertion order kept, the map sets the value of a present key where it stands and puts a
/// new key last.
#[verifier::external_body]
pub(crate) fn put_text(object: &mut serde_json::Map<String, serde_json::Value>, key: &str, value: &str)
    ensures
        object_members(*final(object)) == with_member(
            object_members(*old(object)),
            key@,
            JsonScalar::Text(value@),
        ),
{
    object.insert(key.to_owned(), serde_json::Value::from(value));
}

/// Calls `serde_json::to_string_pretty` on the map. Whether it gives a text, and which, depends
/// on the members and their order alone; that it gives one is not claimed.
#[verifier::external_body]
pub(crate) fn render_pretty(object: &serde_json::Map<String, serde_json::Value>) -> (text: Result<String, serde_json::Error>)
    ensures
        match text {
            Ok(t) => pretty_text(object_members(*object)) == Some(t@),
            Err(_) => pretty_text(object_members(*object)) is None,
        },
{
    serde_json::to_string_pretty(object)
}

/// Calls `serde_json::Error::classify` and names the category it gives.
#[verifier::external_body]
pub(crate) fn error_category(error: &serde_json::Error) -> (category: EncodeError) {
    match error.classify() {
        serde_json::error::Category::Io => EncodeError::Io,
        serde_json::error::Category::Syntax => EncodeError::Syntax,
        serde_json::error::Category::Data => EncodeError::Data,
        serde_json::error::Category::Eof => EncodeError::Eof,
    }
}

/// Names the outcome of a write: the text as it came, or the category of the error.
pub fn encoded(outcome: Result<String, serde_json::Error>) -> (text: Result<String, EncodeError>)
    ensures
        match outcome {
            Ok(t) => text == Ok::<String, EncodeError>(t),
            Err(_) => text is Err,
        },
{
    match outcome {
        Ok(t) => Ok(t),
        Err(e) => Err(error_category(&e)),
    }
}

} // verus!

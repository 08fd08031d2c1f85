//! JSON documents, as `serde_json` parses and prints them.
//!
//! The functions of this module that are marked `external_body` each make
//! one call into `serde_json`. Their contracts are not proved: they say, over
//! the mathematical content of a value, what the `serde_json` source shows of
//! the function called. Everything else in the crate is proved from them.
//!
//! `serde_json` is built with its `preserve_order` feature: the members of an
//! object keep the order in which they were inserted, and are printed in it.

use vstd::prelude::*;
use vstd::utf8::encode_utf8;

verus! {

/// A JSON number, in the three forms `serde_json` keeps apart.
pub enum JsonNumber {
    /// A non-negative integer.
    PosInt(u64),
    /// A negative integer.
    NegInt(i64),
    /// A number with a fraction or exponent, by its IEEE-754 bit pattern.
    Float(u64),
}

/// The mathematical content of a JSON value. The members of an object are
/// kept in the order in which they were inserted; no key occurs twice in an
/// object that `serde_json` built.
pub enum JsonTree {
    Null,
    Bool(bool),
    Number(JsonNumber),
    String(Seq<char>),
    Array(Seq<JsonTree>),
    Object(Seq<(Seq<char>, JsonTree)>),
}

/// Declares `serde_json::Value`, so that a value can be carried through
/// verified code. Nothing is known of its inside but what `value_tree` names.
#[verifier::external_type_specification]
#[verifier::external_body]
pub struct ExValue(serde_json::Value);

/// Declares `serde_json::Error`, which the parser and the printer return.
/// Nothing is read from it.
#[verifier::external_type_specification]
#[verifier::external_body]
pub struct ExJsonError(serde_json::Error);

/// What a `serde_json::Value` holds.
pub uninterp spec fn value_tree(v: serde_json::Value) -> JsonTree;

/// The value that `serde_json` reads from a JSON text, or `None` where it
/// rejects the text.
pub uninterp spec fn json_document(text: Seq<u8>) -> Option<JsonTree>;

/// The compact JSON text that `serde_json` prints for a value.
pub uninterp spec fn json_text(tree: JsonTree) -> Seq<u8>;

/// The first member of `members` under `key`, if there is one.
pub open spec fn find_member(members: Seq<(Seq<char>, JsonTree)>, key: Seq<char>) -> Option<
    JsonTree,
>
    decreases members.len(),
{
    if members.len() == 0 {
        None
    } else if members[0].0 == key {
        Some(members[0].1)
    } else {
        find_member(members.drop_first(), key)
    }
}

/// The member of an object under `key`; `None` for a missing key and for any
/// value that is not an object.
pub open spec fn tree_member(tree: JsonTree, key: Seq<char>) -> Option<JsonTree> {
    match tree {
        JsonTree::Object(members) => find_member(members, key),
        _ => None,
    }
}

/// The element of an array at `index`; `None` out of bounds and for any value
/// that is not an array.
pub open spec fn tree_element(tree: JsonTree, index: int) -> Option<JsonTree> {
    match tree {
        JsonTree::Array(elements) => if 0 <= index < elements.len() {
            Some(elements[index])
        } else {
            None
        },
        _ => None,
    }
}

/// Calls `serde_json::from_slice` for a `Value`. Whether the text is
/// accepted, and the content of the value read from it, depend on the text
/// alone: `json_document` names both. A text without any byte is rejected.
#[verifier::external_body]
pub(crate) fn parse_document(text: &[u8]) -> (r: Result<serde_json::Value, serde_json::Error>)
    ensures
        match r {
            Ok(v) => json_document(text@) == Some(value_tree(v)),
            Err(_) => json_document(text@) is None,
        },
        text@.len() == 0 ==> r is Err,
{
    serde_json::from_slice::<serde_json::Value>(text)
}

/// Calls `serde_json::to_vec` on a `Value`. The text depends on the content
/// of the value alone: `json_text` names it. The call does not fail: the
/// serializer fails where a `Serialize` impl does or a map key is no string,
/// and a `Value` has string keys and an impl that raises no error of its own;
/// the writer is a vector.
#[verifier::external_body]
pub(crate) fn print_document(v: &serde_json::Value) -> (r: Result<Vec<u8>, serde_json::Error>)
    ensures
        r is Ok,
        r matches Ok(text) ==> text@ == json_text(value_tree(*v)),
{
    serde_json::to_vec(v)
}

/// Calls `serde_json::to_string` on a `Value`, which is `serde_json::to_vec`
/// with the bytes handed out as a `String`: the UTF-8 bytes of the result are
/// the text that `json_text` names.
#[verifier::external_body]
pub(crate) fn print_document_string(v: &serde_json::Value) -> (r: Result<
    String,
    serde_json::Error,
>)
    ensures
        r is Ok,
        r matches Ok(text) ==> encode_utf8(text@) == json_text(value_tree(*v)),
{
    serde_json::to_string(v)
}

/// Calls `Value::as_str`: the string of a JSON string, `None` for any other
/// value.
#[verifier::external_body]
pub(crate) fn as_str<'a>(v: &'a serde_json::Value) -> (r: Option<&'a str>)
    ensures
        match value_tree(*v) {
            JsonTree::String(s) => r matches Some(x) && x@ == s,
            _ => r is None,
        },
{
    v.as_str()
}

/// Calls `Value::as_u64`: the value of a non-negative integer, `None` for any
/// other number and any other value.
#[verifier::external_body]
pub(crate) fn as_u64(v: &serde_json::Value) -> (r: Option<u64>)
    ensures
        match value_tree(*v) {
            JsonTree::Number(JsonNumber::PosInt(n)) => r == Some(n),
            _ => r is None,
        },
{
    v.as_u64()
}

/// Calls `Value::get` with a string key: the member of an object under that
/// key, `None` where the object has no such member or the value is no object.
#[verifier::external_body]
pub(crate) fn member<'a>(v: &'a serde_json::Value, key: &str) -> (r: Option<&'a serde_json::Value>)
    ensures
        match tree_member(value_tree(*v), key@) {
            Some(t) => r matches Some(x) && value_tree(*x) == t,
            None => r is None,
        },
{
    v.get(key)
}

/// Calls `Value::get` with a position: the element of an array at that
/// position, `None` where the array is shorter or the value is no array.
#[verifier::external_body]
pub(crate) fn element<'a>(v: &'a serde_json::Value, index: usize) -> (r: Option<
    &'a serde_json::Value,
>)
    ensures
        match tree_element(value_tree(*v), index as int) {
            Some(t) => r matches Some(x) && value_tree(*x) == t,
            None => r is None,
        },
{
    v.get(index)
}

/// Calls `Value::as_object` and `Map::len`: the number of members of an
/// object, `None` for any other value.
#[verifier::external_body]
pub(crate) fn member_count(v: &serde_json::Value) -> (r: Option<usize>)
    ensures
        match value_tree(*v) {
            JsonTree::Object(members) => r matches Some(n) && n == members.len(),
            _ => r is None,
        },
{
    match v.as_object() {
        Some(members) => Some(members.len()),
        None => None,
    }
}

/// Calls `Value::as_array` and `Vec::len`: the number of elements of an array,
/// `None` for any other value.
#[verifier::external_body]
pub(crate) fn element_count(v: &serde_json::Value) -> (r: Option<usize>)
    ensures
        match value_tree(*v) {
            JsonTree::Array(elements) => r matches Some(n) && n == elements.len(),
            _ => r is None,
        },
{
    match v.as_array() {
        Some(elements) => Some(elements.len()),
        None => None,
    }
}

/// Builds `Value::String` around `s`.
#[verifier::external_body]
pub(crate) fn string_value(s: String) -> (v: serde_json::Value)
    ensures
        value_tree(v) == JsonTree::String(s@),
{
    serde_json::Value::String(s)
}

/// Calls `Value::from` for a `u64`: the number `n`, kept as a non-negative
/// integer.
#[verifier::external_body]
pub(crate) fn unsigned_value(n: u64) -> (v: serde_json::Value)
    ensures
        value_tree(v) == JsonTree::Number(JsonNumber::PosInt(n)),
{
    serde_json::Value::from(n)
}

/// Builds `Value::Object` around `Map::new`: an object without members.
#[verifier::external_body]
pub(crate) fn empty_object() -> (v: serde_json::Value)
    ensures
        value_tree(v) == JsonTree::Object(Seq::empty()),
{
    serde_json::Value::Object(serde_json::Map::new())
}

/// Calls `Map::insert` on the map of an object, for a key that the object
/// does not hold yet: the new member goes behind the others, which stay as
/// they are.
#[verifier::external_body]
pub(crate) fn insert_member(object: &mut serde_json::Value, key: &str, value: serde_json::Value)
    requires
        value_tree(*old(object)) is Object,
        tree_member(value_tree(*old(object)), key@) is None,
    ensures
        value_tree(*final(object)) == JsonTree::Object(
            value_tree(*old(object))->Object_0.push((key@, value_tree(value))),
        ),
{
    if let serde_json::Value::Object(members) = object {
        members.insert(key.to_owned(), value);
    }
}

} // verus!

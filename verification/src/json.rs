//! JSON values as `serde_json` parses and holds them, and the mathematical tree
//! that the contracts of this crate read them as.

use vstd::prelude::*;

verus! {

/// A parsed JSON document. Verus sees nothing inside it: what it holds is
/// [`value_tree`].
#[verifier::external_type_specification]
#[verifier::external_body]
pub struct ExValue(serde_json::Value);

/// Why a text is no JSON document.
#[verifier::external_type_specification]
#[verifier::external_body]
pub struct ExError(serde_json::Error);

/// A JSON document as a tree.
pub enum JsonTree {
    /// `null`.
    Null,
    /// `true` or `false`.
    Bool(bool),
    /// A number written without fraction or exponent that lies between the
    /// least `i64` and the greatest `u64`.
    Integer(int),
    /// Any other number.
    Real,
    /// A string.
    Text(Seq<char>),
    /// An array, with its elements in order.
    Array(Seq<JsonTree>),
    /// An object, with the member of each key.
    Object(Map<Seq<char>, JsonTree>),
}

/// The tree that a parsed document holds.
pub uninterp spec fn value_tree(v: serde_json::Value) -> JsonTree;

/// What parsing makes of `text`: the tree that it is, where it is one JSON
/// document, and else the words of the error that says why it is none.
pub uninterp spec fn parsed_json(text: Seq<char>) -> Result<JsonTree, Seq<char>>;

/// The words of an error of the parser.
pub uninterp spec fn error_text(e: serde_json::Error) -> Seq<char>;

/// The text of the object whose members are `entries`, each a key and a string.
pub uninterp spec fn object_text(entries: Seq<(Seq<char>, Seq<char>)>) -> Seq<char>;

/// The trees of a run of documents.
pub open spec fn trees(items: Seq<serde_json::Value>) -> Seq<JsonTree> {
    items.map_values(|v: serde_json::Value| value_tree(v))
}

/// The member of `tree` under `key`, where `tree` is an object that has one.
pub open spec fn member(tree: JsonTree, key: Seq<char>) -> Option<JsonTree> {
    match tree {
        JsonTree::Object(m) => if m.contains_key(key) {
            Some(m[key])
        } else {
            None
        },
        _ => None,
    }
}

/// The keys of `tree`, where it is an object; no keys otherwise.
pub open spec fn keys_of(tree: JsonTree) -> Set<Seq<char>> {
    match tree {
        JsonTree::Object(m) => m.dom(),
        _ => Set::empty(),
    }
}

/// `serde_json::from_str` at the type `serde_json::Value`: parses `text` as one
/// JSON document. What comes back is [`parsed_json`] of the text: a value that
/// holds the tree, or the error with the words.
#[verifier::external_body]
pub(crate) fn parse(text: &str) -> (r: Result<serde_json::Value, serde_json::Error>)
    ensures
        match (r, parsed_json(text@)) {
            (Ok(v), Ok(tree)) => tree == value_tree(v),
            (Err(e), Err(words)) => words == error_text(e),
            _ => false,
        },
{
    serde_json::from_str::<serde_json::Value>(text)
}

/// `Display` of `serde_json::Error`: the words of the error.
#[verifier::external_body]
pub(crate) fn error_words(e: &serde_json::Error) -> (r: String)
    ensures
        r@ == error_text(*e),
{
    e.to_string()
}

/// `Value::get` with a string: the member under `key` of an object that has
/// one, nothing for any other value.
#[verifier::external_body]
pub(crate) fn get<'a>(v: &'a serde_json::Value, key: &str) -> (r: Option<&'a serde_json::Value>)
    ensures
        r is Some <==> member(value_tree(*v), key@) is Some,
        r matches Some(found) ==> member(value_tree(*v), key@) == Some(value_tree(*found)),
{
    v.get(key)
}

/// `Value::as_str`: the characters of a string, nothing for any other value.
#[verifier::external_body]
pub(crate) fn as_str(v: &serde_json::Value) -> (r: Option<&str>)
    ensures
        r is Some <==> value_tree(*v) is Text,
        r matches Some(text) ==> value_tree(*v) == JsonTree::Text(text@),
{
    v.as_str()
}

/// `Value::as_i64`: an integer that fits `i64`, nothing for any other value.
#[verifier::external_body]
pub(crate) fn as_i64(v: &serde_json::Value) -> (r: Option<i64>)
    ensures
        r is Some <==> (value_tree(*v) matches JsonTree::Integer(n) && i64::MIN <= n <= i64::MAX),
        r matches Some(n) ==> value_tree(*v) == JsonTree::Integer(n as int),
{
    v.as_i64()
}

/// `Value::as_u64`: an integer that fits `u64`, nothing for any other value.
#[verifier::external_body]
pub(crate) fn as_u64(v: &serde_json::Value) -> (r: Option<u64>)
    ensures
        r is Some <==> (value_tree(*v) matches JsonTree::Integer(n) && 0 <= n <= u64::MAX),
        r matches Some(n) ==> value_tree(*v) == JsonTree::Integer(n as int),
{
    v.as_u64()
}

/// `Value::as_bool`: `true` or `false`, nothing for any other value.
#[verifier::external_body]
pub(crate) fn as_bool(v: &serde_json::Value) -> (r: Option<bool>)
    ensures
        r is Some <==> value_tree(*v) is Bool,
        r matches Some(b) ==> value_tree(*v) == JsonTree::Bool(b),
{
    v.as_bool()
}

/// `Value::is_null`: whether the value is `null`.
#[verifier::external_body]
pub(crate) fn is_null(v: &serde_json::Value) -> (r: bool)
    ensures
        r == (value_tree(*v) is Null),
{
    v.is_null()
}

/// `Value::as_array`: the elements of an array, nothing for any other value.
#[verifier::external_body]
pub(crate) fn as_array(v: &serde_json::Value) -> (r: Option<&Vec<serde_json::Value>>)
    ensures
        r is Some <==> value_tree(*v) is Array,
        r matches Some(items) ==> value_tree(*v) == JsonTree::Array(trees(items@)),
{
    v.as_array()
}

/// `Map::keys` on what `Value::as_object` gives: each key of an object once,
/// no key for any other value.
#[verifier::external_body]
pub(crate) fn keys(v: &serde_json::Value) -> (r: Vec<String>)
    ensures
        r.deep_view().no_duplicates(),
        r.deep_view().to_set() == keys_of(value_tree(*v)),
{
    match v.as_object() {
        Some(m) => m.keys().cloned().collect(),
        None => Vec::new(),
    }
}

/// `Clone` of `serde_json::Value`: an equal value.
pub assume_specification[ <serde_json::Value as Clone>::clone ](v: &serde_json::Value) -> (r:
    serde_json::Value)
    ensures
        r == *v,
;

/// `Display` of the `serde_json::Value` that is an object with a string under
/// each key of `entries`: the object written as text, which is
/// [`object_text`] of the entries.
#[verifier::external_body]
pub(crate) fn write_object(entries: &Vec<(String, String)>) -> (r: String)
    ensures
        r@ == object_text(entries@.map_values(|e: (String, String)| (e.0@, e.1@))),
{
    let mut object = serde_json::Map::new();
    for (key, text) in entries.iter() {
        object.insert(key.clone(), serde_json::Value::String(text.clone()));
    }
    serde_json::Value::Object(object).to_string()
}

} // verus!

//! JSON values: what a `serde_json::Value` holds, and the few operations on it
//! that the stages need.

use vstd::prelude::*;
use serde_json::Value;

verus! {

/// The JSON value of the `serde_json` crate. What it holds is its [`Tree`].
#[verifier::external_type_specification]
#[verifier::external_body]
pub struct ExValue(serde_json::Value);

/// The contents of a JSON value.
#[verifier::ext_equal]
pub enum Tree {
    Null,
    Bool(bool),
    /// A number that is kept as an integer.
    Int(int),
    /// Any other number, by the bits of its double.
    Float(nat),
    Text(Seq<char>),
    List(Seq<Tree>),
    Object(Map<Seq<char>, Tree>),
}

/// What a JSON value holds.
pub uninterp spec fn json_tree(v: serde_json::Value) -> Tree;

/// What `serde_json::from_str` makes of a text: the value, or the error message.
pub uninterp spec fn json_parsed(text: Seq<char>) -> Result<Tree, Seq<char>>;

/// What `serde_json::to_string` writes for a value: the compact form.
pub uninterp spec fn json_compact(tree: Tree) -> Seq<char>;

/// What `serde_json::to_string_pretty` writes for a value.
pub uninterp spec fn json_pretty(tree: Tree) -> Seq<char>;

/// The contents of the values of a sequence.
pub open spec fn trees(items: Seq<serde_json::Value>) -> Seq<Tree> {
    Seq::new(items.len(), |i: int| json_tree(items[i]))
}

/// The member of an object under a key.
pub open spec fn tree_member(t: Tree, key: Seq<char>) -> Option<Tree> {
    match t {
        Tree::Object(m) => if m.dom().contains(key) {
            Some(m[key])
        } else {
            None
        },
        _ => None,
    }
}

/// The element of a list at an index.
pub open spec fn tree_element(t: Tree, i: int) -> Option<Tree> {
    match t {
        Tree::List(items) => if 0 <= i < items.len() {
            Some(items[i])
        } else {
            None
        },
        _ => None,
    }
}

/// The text of a string value.
pub open spec fn tree_text(t: Tree) -> Option<Seq<char>> {
    match t {
        Tree::Text(s) => Some(s),
        _ => None,
    }
}

/// The number of an integer value that fits 64 bits without a sign.
pub open spec fn tree_unsigned(t: Tree) -> Option<nat> {
    match t {
        Tree::Int(n) => if 0 <= n <= u64::MAX {
            Some(n as nat)
        } else {
            None
        },
        _ => None,
    }
}

/// The member under `outer` of an object, and in it the member under `inner`.
pub open spec fn tree_path2(t: Tree, outer: Seq<char>, inner: Seq<char>) -> Option<Tree> {
    match tree_member(t, outer) {
        Some(u) => tree_member(u, inner),
        None => None,
    }
}

/// `Value::clone`: the copy holds the same.
pub assume_specification[ <serde_json::Value as Clone>::clone ](
    v: &serde_json::Value,
) -> (r: serde_json::Value)
    ensures
        json_tree(r) == json_tree(*v),
;

/// `Value::get` with a string key: the member of an object under the key;
/// nothing on a missing key or on a value that is no object.
#[verifier::external_body]
pub(crate) fn member<'a>(v: &'a Value, key: &str) -> (r: Option<&'a Value>)
    ensures
        r is Some <==> tree_member(json_tree(*v), key@) is Some,
        r matches Some(u) ==> tree_member(json_tree(*v), key@) == Some(json_tree(*u)),
{
    v.get(key)
}

/// `Value::as_array`: the elements of a list; nothing on any other value.
#[verifier::external_body]
pub(crate) fn as_list<'a>(v: &'a Value) -> (r: Option<&'a Vec<Value>>)
    ensures
        r is Some <==> json_tree(*v) is List,
        r matches Some(items) ==> json_tree(*v) == Tree::List(trees(items@)),
{
    v.as_array()
}

/// `Value::as_str`: the text of a string; nothing on any other value.
#[verifier::external_body]
pub(crate) fn as_text<'a>(v: &'a Value) -> (r: Option<&'a str>)
    ensures
        r is Some <==> json_tree(*v) is Text,
        r matches Some(s) ==> json_tree(*v) == Tree::Text(s@),
{
    v.as_str()
}

/// `Value::as_u64`: the number of a non-negative integer; nothing on any other
/// value, nor on a number with a fraction or an exponent.
#[verifier::external_body]
pub(crate) fn as_unsigned(v: &Value) -> (r: Option<u64>)
    ensures
        r is Some <==> tree_unsigned(json_tree(*v)) is Some,
        r matches Some(n) ==> tree_unsigned(json_tree(*v)) == Some(n as nat),
{
    v.as_u64()
}

/// `Value::Null`.
#[verifier::external_body]
pub(crate) fn null_value() -> (r: Value)
    ensures
        json_tree(r) == Tree::Null,
{
    Value::Null
}

/// `Value::from(bool)`.
#[verifier::external_body]
pub(crate) fn bool_value(b: bool) -> (r: Value)
    ensures
        json_tree(r) == Tree::Bool(b),
{
    Value::from(b)
}

/// `Value::from(&str)`.
#[verifier::external_body]
pub(crate) fn text_value(s: &str) -> (r: Value)
    ensures
        json_tree(r) == Tree::Text(s@),
{
    Value::from(s)
}

/// `Value::from(u64)`.
#[verifier::external_body]
pub(crate) fn unsigned_value(n: u64) -> (r: Value)
    ensures
        json_tree(r) == Tree::Int(n as int),
{
    Value::from(n)
}

/// `Value::from(i64)`.
#[verifier::external_body]
pub(crate) fn signed_value(n: i64) -> (r: Value)
    ensures
        json_tree(r) == Tree::Int(n as int),
{
    Value::from(n)
}

/// `Value::from(Vec<Value>)`.
#[verifier::external_body]
pub(crate) fn list_value(items: Vec<Value>) -> (r: Value)
    ensures
        json_tree(r) == Tree::List(trees(items@)),
{
    Value::from(items)
}

/// `serde_json::Map::new`, as a value: the object without a member.
#[verifier::external_body]
pub(crate) fn empty_object() -> (r: Value)
    ensures
        json_tree(r) == Tree::Object(Map::empty()),
{
    Value::Object(serde_json::Map::new())
}

/// `serde_json::Map::insert` on an object: the member under `key` becomes
/// `value`, the others stay.
#[verifier::external_body]
pub(crate) fn insert_member(object: &mut Value, key: &str, value: Value)
    requires
        json_tree(*old(object)) is Object,
    ensures
        json_tree(*final(object)) == Tree::Object(
            json_tree(*old(object))->Object_0.insert(key@, json_tree(value)),
        ),
{
    if let Value::Object(members) = object {
        members.insert(key.to_string(), value);
    }
}

/// `serde_json::from_str` into a value. The result depends on the text alone.
#[verifier::external_body]
pub(crate) fn parse(text: &str) -> (r: Result<Value, String>)
    ensures
        match r {
            Ok(v) => json_parsed(text@) == Ok::<Tree, Seq<char>>(json_tree(v)),
            Err(e) => json_parsed(text@) == Err::<Tree, Seq<char>>(e@),
        },
{
    serde_json::from_str::<Value>(text).map_err(|e| e.to_string())
}

/// The compact text of a value: the `Display` form of `Value`, which is the
/// compact form of `serde_json::to_string`.
#[verifier::external_body]
pub(crate) fn compact_text(v: &Value) -> (r: String)
    ensures
        r@ == json_compact(json_tree(*v)),
{
    v.to_string()
}

/// The indented text of a value: the alternate `Display` form of `Value`, which
/// is the form of `serde_json::to_string_pretty`.
#[verifier::external_body]
pub(crate) fn pretty_text(v: &Value) -> (r: String)
    ensures
        r@ == json_pretty(json_tree(*v)),
{
    format!("{:#}", v)
}

/// The member under `outer`, and in it the member under `inner`.
pub(crate) fn member2<'a>(v: &'a Value, outer: &str, inner: &str) -> (r: Option<&'a Value>)
    ensures
        r is Some <==> tree_path2(json_tree(*v), outer@, inner@) is Some,
        r matches Some(u) ==> tree_path2(json_tree(*v), outer@, inner@) == Some(json_tree(*u)),
{
    match member(v, outer) {
        Some(u) => member(u, inner),
        None => None,
    }
}

} // verus!

//! JSON documents as plain values, and the reading of JSON text.

use vstd::prelude::*;
use crate::text::{owned, same_text};

verus! {

/// A JSON document held as plain values.
///
/// A number keeps the non-negative integer it stands for, where it stands for
/// one that fits in 64 bits; of any other number only that it is a number.
/// An object keeps its fields in order.
#[derive(Debug, PartialEq, Eq)]
pub enum JsonValue {
    Null,
    Bool(bool),
    Number(Option<u64>),
    Text(String),
    Array(Vec<JsonValue>),
    Object(Vec<(String, JsonValue)>),
}

/// The mathematical tree that a [`JsonValue`] stands for.
pub enum JsonTree {
    Null,
    Bool(bool),
    Number(Option<u64>),
    Text(Seq<char>),
    Array(Seq<JsonTree>),
    Object(Seq<(Seq<char>, JsonTree)>),
}

/// The trees of a list of values.
pub open spec fn trees(items: Seq<JsonValue>) -> Seq<JsonTree>
    decreases items,
{
    Seq::new(
        items.len(),
        |i: int|
            if 0 <= i < items.len() {
                items[i].view()
            } else {
                JsonTree::Null
            },
    )
}

/// The named trees of a list of named values.
pub open spec fn members(fields: Seq<(String, JsonValue)>) -> Seq<(Seq<char>, JsonTree)>
    decreases fields,
{
    Seq::new(
        fields.len(),
        |i: int|
            if 0 <= i < fields.len() {
                (fields[i].0@, fields[i].1.view())
            } else {
                (Seq::empty(), JsonTree::Null)
            },
    )
}

impl View for JsonValue {
    type V = JsonTree;

    open spec fn view(&self) -> JsonTree
        decreases self,
    {
        match self {
            JsonValue::Null => JsonTree::Null,
            JsonValue::Bool(b) => JsonTree::Bool(*b),
            JsonValue::Number(n) => JsonTree::Number(*n),
            JsonValue::Text(s) => JsonTree::Text(s@),
            JsonValue::Array(items) => JsonTree::Array(trees(items@)),
            JsonValue::Object(fields) => JsonTree::Object(members(fields@)),
        }
    }
}

/// The value of the first field named `key` at or after index `i`.
pub open spec fn lookup_from(fields: Seq<(Seq<char>, JsonTree)>, key: Seq<char>, i: int) -> Option<
    JsonTree,
>
    decreases fields.len() - i,
{
    if i < 0 || i >= fields.len() {
        None
    } else if fields[i].0 == key {
        Some(fields[i].1)
    } else {
        lookup_from(fields, key, i + 1)
    }
}

/// The value of the first field named `key`.
pub open spec fn lookup(fields: Seq<(Seq<char>, JsonTree)>, key: Seq<char>) -> Option<JsonTree> {
    lookup_from(fields, key, 0)
}

impl JsonTree {
    /// The value under `key`, where this is an object that has such a field.
    pub open spec fn get(self, key: Seq<char>) -> Option<JsonTree> {
        match self {
            JsonTree::Object(fields) => lookup(fields, key),
            _ => None,
        }
    }

    /// The element at index `i`, where this is an array that long.
    pub open spec fn at(self, i: int) -> Option<JsonTree> {
        match self {
            JsonTree::Array(items) => if 0 <= i < items.len() {
                Some(items[i])
            } else {
                None
            },
            _ => None,
        }
    }

    /// The text, where this is a string.
    pub open spec fn as_text(self) -> Option<Seq<char>> {
        match self {
            JsonTree::Text(s) => Some(s),
            _ => None,
        }
    }
}

/// The view of an optional borrowed value.
pub open spec fn tree_of(v: Option<&JsonValue>) -> Option<JsonTree> {
    match v {
        Some(v) => Some(v@),
        None => None,
    }
}

/// The value of the first field named `key` among `fields`.
pub fn find_field<'a>(fields: &'a Vec<(String, JsonValue)>, key: &str) -> (r: Option<
    &'a JsonValue,
>)
    ensures
        tree_of(r) == lookup(members(fields@), key@),
{
    let mut i: usize = 0;
    while i < fields.len()
        invariant
            i <= fields.len(),
            lookup(members(fields@), key@) == lookup_from(members(fields@), key@, i as int),
        decreases fields.len() - i,
    {
        if same_text(fields[i].0.as_str(), key) {
            return Some(&fields[i].1);
        }
        i += 1;
    }
    None
}

impl JsonValue {
    /// A JSON string.
    pub fn text(s: &str) -> (r: JsonValue)
        ensures
            r@ == JsonTree::Text(s@),
    {
        JsonValue::Text(owned(s))
    }

    /// A JSON array of one element.
    pub fn array_of(item: JsonValue) -> (r: JsonValue)
        ensures
            r@ == JsonTree::Array(seq![item@]),
    {
        let mut items: Vec<JsonValue> = Vec::new();
        items.push(item);
        assert(trees(items@) =~= seq![item@]);
        JsonValue::Array(items)
    }

    /// A JSON object of one field.
    pub fn object_of(key: &str, value: JsonValue) -> (r: JsonValue)
        ensures
            r@ == JsonTree::Object(seq![(key@, value@)]),
    {
        let mut fields: Vec<(String, JsonValue)> = Vec::new();
        fields.push((owned(key), value));
        assert(members(fields@) =~= seq![(key@, value@)]);
        JsonValue::Object(fields)
    }

    /// The value under `key`, where this is an object that has such a field.
    pub fn get(&self, key: &str) -> (r: Option<&JsonValue>)
        ensures
            tree_of(r) == self@.get(key@),
    {
        match self {
            JsonValue::Object(fields) => find_field(fields, key),
            _ => None,
        }
    }

    /// The element at index `i`, where this is an array that long.
    pub fn at(&self, i: usize) -> (r: Option<&JsonValue>)
        ensures
            tree_of(r) == self@.at(i as int),
    {
        match self {
            JsonValue::Array(items) => if i < items.len() {
                assert(trees(items@)[i as int] == items@[i as int]@);
                Some(&items[i])
            } else {
                assert(trees(items@).len() == items@.len());
                None
            },
            _ => None,
        }
    }

    /// The text, where this is a string.
    pub fn as_text(&self) -> (r: Option<&str>)
        ensures
            match r {
                Some(s) => self@.as_text() == Some(s@),
                None => self@.as_text() is None,
            },
    {
        match self {
            JsonValue::Text(s) => Some(s.as_str()),
            _ => None,
        }
    }
}

/// `serde_json::Value`, a JSON document as the outside reader hands it out.
/// Nothing inside it is seen here.
#[verifier::external_type_specification]
#[verifier::external_body]
pub struct ExValue(serde_json::Value);

/// `serde_json::Error`, the reason for which the outside reader rejects a
/// text. Nothing inside it is seen here.
#[verifier::external_type_specification]
#[verifier::external_body]
pub struct ExError(serde_json::Error);

/// The tree that a `serde_json::Value` holds.
pub uninterp spec fn value_tree(v: serde_json::Value) -> JsonTree;

/// What `serde_json::from_str` reads from a text: the tree of the value that
/// it returns, or `None` where it rejects the text.
pub uninterp spec fn json_reading(text: Seq<char>) -> Option<JsonTree>;

/// Calls `serde_json::from_str` for a `serde_json::Value`. The contract names
/// what comes back: the outcome depends on the text alone.
#[verifier::external_body]
fn read_value(text: &str) -> (r: Result<serde_json::Value, serde_json::Error>)
    ensures
        match r {
            Ok(v) => json_reading(text@) == Some(value_tree(v)),
            Err(_) => json_reading(text@) is None,
        },
{
    serde_json::from_str::<serde_json::Value>(text)
}

/// Moves a `serde_json::Value` into a [`JsonValue`], variant by variant. A
/// number is asked for its `as_u64`; an object's fields come in the order in
/// which its map hands them out.
#[verifier::external_body]
fn value_into_tree(v: serde_json::Value) -> (r: JsonValue)
    ensures
        r@ == value_tree(v),
{
    match v {
        serde_json::Value::Null => JsonValue::Null,
        serde_json::Value::Bool(b) => JsonValue::Bool(b),
        serde_json::Value::Number(n) => JsonValue::Number(n.as_u64()),
        serde_json::Value::String(s) => JsonValue::Text(s),
        serde_json::Value::Array(a) => JsonValue::Array(a.into_iter().map(value_into_tree).collect()),
        serde_json::Value::Object(m) => JsonValue::Object(
            m.into_iter().map(|(k, x)| (k, value_into_tree(x))).collect(),
        ),
    }
}

/// Reads a JSON text.
pub fn read_json(text: &str) -> (r: Option<JsonValue>)
    ensures
        match r {
            Some(v) => json_reading(text@) == Some(v@),
            None => json_reading(text@) is None,
        },
{
    match read_value(text) {
        Ok(v) => Some(value_into_tree(v)),
        Err(_) => None,
    }
}

} // verus!

//! The boundary with `serde_json`: the document type, a mathematical model of
//! what a document holds, and the contracts assumed of the calls made into the
//! crate. Nothing in this file is proved; everything else is proved against it.

use vstd::prelude::*;

verus! {

/// `serde_json::Value`, carried through verified code as an opaque value.
#[verifier::external_type_specification]
#[verifier::external_body]
pub struct ExValue(serde_json::Value);

/// `serde_json::Error`, only ever passed along.
#[verifier::external_type_specification]
#[verifier::external_body]
pub struct ExJsonError(serde_json::Error);

/// A JSON number as `serde_json` stores it when built without arbitrary
/// precision, as it is here: a non-negative integer, a negative integer, or a
/// float (whose value no rule of this library reads).
pub enum JsonNumber {
    PosInt(u64),
    NegInt(i64),
    Float,
}

/// The model of a JSON document.
pub enum JsonTree {
    Null,
    Bool(bool),
    Number(JsonNumber),
    Text(Seq<char>),
    Array(Seq<JsonTree>),
    Object(Map<Seq<char>, JsonTree>),
}

impl JsonTree {
    /// The member `key` of an object; `Null` where `self` is no object or has
    /// no such member.
    pub open spec fn member(self, key: Seq<char>) -> JsonTree {
        match self {
            JsonTree::Object(members) => if members.contains_key(key) {
                members[key]
            } else {
                JsonTree::Null
            },
            _ => JsonTree::Null,
        }
    }

    /// The number as a `u64`, where it is a non-negative integer.
    pub open spec fn as_u64(self) -> Option<u64> {
        match self {
            JsonTree::Number(JsonNumber::PosInt(n)) => Some(n),
            _ => None,
        }
    }

    /// The number as an `i64`, where it is an integer in that range.
    pub open spec fn as_i64(self) -> Option<i64> {
        match self {
            JsonTree::Number(JsonNumber::PosInt(n)) => if n <= i64::MAX {
                Some(n as i64)
            } else {
                None
            },
            JsonTree::Number(JsonNumber::NegInt(n)) => Some(n),
            _ => None,
        }
    }

    /// The boolean, where `self` is one.
    pub open spec fn as_bool(self) -> Option<bool> {
        match self {
            JsonTree::Bool(b) => Some(b),
            _ => None,
        }
    }

    /// The elements, where `self` is an array.
    pub open spec fn as_array(self) -> Option<Seq<JsonTree>> {
        match self {
            JsonTree::Array(elements) => Some(elements),
            _ => None,
        }
    }
}

/// What a document holds.
pub uninterp spec fn json_tree(value: serde_json::Value) -> JsonTree;

/// What a text parses to; `None` where the text is not one JSON document.
pub uninterp spec fn json_text_tree(text: Seq<char>) -> Option<JsonTree>;

/// The trees of a run of documents, in order.
pub open spec fn json_trees(values: Seq<serde_json::Value>) -> Seq<JsonTree> {
    Seq::new(values.len(), |i: int| json_tree(values[i]))
}

/// `serde_json::from_str` at `Value`. Assumed: the outcome depends on the text
/// alone, and a document that comes back holds what the text parses to.
#[verifier::external_body]
pub(crate) fn parse(text: &str) -> (r: Result<serde_json::Value, serde_json::Error>)
    ensures
        match r {
            Ok(value) => json_text_tree(text@) == Some(json_tree(value)),
            Err(_) => json_text_tree(text@) is None,
        },
{
    serde_json::from_str::<serde_json::Value>(text)
}

/// Indexing a `Value` by a string key (`value[key]`). Assumed: it yields the
/// member of that name, and a null document where `value` is no object or has
/// no such member; it does not panic on a shared reference.
#[verifier::external_body]
pub(crate) fn member<'a>(value: &'a serde_json::Value, key: &str) -> (r: &'a serde_json::Value)
    ensures
        json_tree(*r) == json_tree(*value).member(key@),
{
    &value[key]
}

/// `Value::as_u64`. Assumed: `Some` exactly for a non-negative integer.
pub assume_specification[ serde_json::Value::as_u64 ](value: &serde_json::Value) -> (r: Option<u64>)
    ensures
        r == json_tree(*value).as_u64(),
;

/// `Value::as_i64`. Assumed: `Some` exactly for an integer that fits an `i64`.
pub assume_specification[ serde_json::Value::as_i64 ](value: &serde_json::Value) -> (r: Option<i64>)
    ensures
        r == json_tree(*value).as_i64(),
;

/// `Value::as_bool`. Assumed: `Some` exactly for a boolean.
pub assume_specification[ serde_json::Value::as_bool ](value: &serde_json::Value) -> (r: Option<
    bool,
>)
    ensures
        r == json_tree(*value).as_bool(),
;

/// `Value::is_null`. Assumed: true exactly for the null document.
pub assume_specification[ serde_json::Value::is_null ](value: &serde_json::Value) -> (r: bool)
    ensures
        r == (json_tree(*value) is Null),
;

/// `Value::as_array`. Assumed: `Some` exactly for an array, and then the
/// elements handed out are the array's own, in order.
pub assume_specification<'a>[ serde_json::Value::as_array ](
    value: &'a serde_json::Value,
) -> (r: Option<&'a Vec<serde_json::Value>>)
    ensures
        match r {
            Some(elements) => json_tree(*value).as_array() == Some(json_trees(elements@)),
            None => json_tree(*value).as_array() is None,
        },
;

} // verus!

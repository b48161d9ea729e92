//! JSON documents as `serde_json` parses them, and what the crate reads from them.
//!
//! A [`serde_json::Value`] is opaque to the verifier. Its content is named by
//! [`json_of`], a mathematical tree of type [`JsonValue`]; the few accessors
//! the crate needs are stated over that tree.

use serde_json::Value;
use vstd::prelude::*;

verus! {

#[verifier::external_type_specification]
#[verifier::external_body]
pub struct ExValue(Value);

/// The content of a JSON value.
///
/// Numbers that `serde_json` stores as integers (everything written without
/// fraction or exponent that fits `u64` or `i64`) are `Integer`. Every other
/// number is `Decimal` and carries the 64 bits of the binary floating-point
/// number that `serde_json` stores for it; the crate passes such a number on
/// and never computes with it.
pub enum JsonValue {
    Null,
    Bool(bool),
    Integer(int),
    Decimal(u64),
    Text(Seq<char>),
    Array(Seq<JsonValue>),
    Object(Map<Seq<char>, JsonValue>),
}

impl JsonValue {
    /// The member stored under `key`, if this is an object that has one.
    pub open spec fn member(self, key: Seq<char>) -> Option<JsonValue> {
        match self {
            JsonValue::Object(members) => if members.contains_key(key) {
                Some(members[key])
            } else {
                None
            },
            _ => None,
        }
    }

    /// The characters of a JSON string; `None` for every other kind of value.
    pub open spec fn text(self) -> Option<Seq<char>> {
        match self {
            JsonValue::Text(chars) => Some(chars),
            _ => None,
        }
    }

    /// The number as an `i64`, if it is an integer in that range.
    pub open spec fn integer(self) -> Option<i64> {
        match self {
            JsonValue::Integer(n) => if i64::MIN <= n <= i64::MAX {
                Some(n as i64)
            } else {
                None
            },
            _ => None,
        }
    }

    /// The text of a member that must be a JSON string.
    pub open spec fn text_member(self, key: Seq<char>) -> Option<Seq<char>> {
        match self.member(key) {
            Some(value) => value.text(),
            None => None,
        }
    }

    /// The value of a member that must be an integer fitting `i64`.
    pub open spec fn integer_member(self, key: Seq<char>) -> Option<i64> {
        match self.member(key) {
            Some(value) => value.integer(),
            None => None,
        }
    }
}

/// The content of a parsed value. Of a member that the text gives twice, the
/// value holds the last.
pub uninterp spec fn json_of(value: Value) -> JsonValue;

/// The document that `serde_json::from_str` reads from `text`, or `None`
/// where it reports an error. The text is read as a whole: a number that
/// cannot be represented, or nesting deeper than the parser goes, makes it an
/// error wherever in the text it stands.
pub uninterp spec fn json_document(text: Seq<char>) -> Option<JsonValue>;

/// Calls `serde_json::from_str::<Value>`. Trusted: the outcome is a function
/// of the text alone, named [`json_document`]; the error's detail is dropped.
#[verifier::external_body]
pub(crate) fn parse_json(text: &str) -> (parsed: Option<Value>)
    ensures
        json_document(text@) == (match parsed {
            Some(value) => Some(json_of(value)),
            None => None,
        }),
{
    serde_json::from_str::<Value>(text).ok()
}

/// Calls `Value::get` with a string index. Trusted: it yields the member
/// stored under `key` when the value is an object holding that key, and
/// nothing otherwise.
#[verifier::external_body]
pub(crate) fn json_member<'a>(value: &'a Value, key: &str) -> (found: Option<&'a Value>)
    ensures
        json_of(*value).member(key@) == (match found {
            Some(member) => Some(json_of(*member)),
            None => None,
        }),
{
    value.get(key)
}

/// Calls `Value::as_str`. Trusted: it yields the characters of a JSON string
/// and nothing for any other kind of value.
#[verifier::external_body]
pub(crate) fn json_text<'a>(value: &'a Value) -> (found: Option<&'a str>)
    ensures
        json_of(*value).text() == (match found {
            Some(chars) => Some(chars@),
            None => None,
        }),
{
    value.as_str()
}

/// Calls `Value::as_i64`. Trusted: it yields the number when it is stored as
/// an integer that fits `i64`, and nothing otherwise.
#[verifier::external_body]
pub(crate) fn json_integer(value: &Value) -> (found: Option<i64>)
    ensures
        found == json_of(*value).integer(),
{
    value.as_i64()
}

/// Calls `Value::clone`. Trusted: the copy holds the same document.
#[verifier::external_body]
pub(crate) fn json_clone(value: &Value) -> (copy: Value)
    ensures
        json_of(copy) == json_of(*value),
{
    value.clone()
}

/// The text of the member `key`, owned; `None` unless `value` is an object
/// whose member `key` is a JSON string.
pub fn text_member(value: &Value, key: &str) -> (found: Option<String>)
    ensures
        json_of(*value).text_member(key@) == (match found {
            Some(text) => Some(text@),
            None => None,
        }),
{
    match json_member(value, key) {
        None => None,
        Some(member) => match json_text(member) {
            None => None,
            Some(chars) => Some(chars.to_owned()),
        },
    }
}

/// The member `key` as an `i64`; `None` unless `value` is an object whose
/// member `key` is an integer in the range of `i64`.
pub fn integer_member(value: &Value, key: &str) -> (found: Option<i64>)
    ensures
        found == json_of(*value).integer_member(key@),
{
    match json_member(value, key) {
        None => None,
        Some(member) => json_integer(member),
    }
}

/// Whether `value` is the empty JSON string.
pub fn is_empty_text(value: &Value) -> (empty: bool)
    ensures
        empty == (json_of(*value) == JsonValue::Text(Seq::empty())),
{
    match json_text(value) {
        None => false,
        Some(chars) => {
            let empty = chars.is_empty();
            proof {
                if empty {
                    assert(chars@ =~= Seq::<char>::empty());
                }
            }
            empty
        },
    }
}

} // verus!

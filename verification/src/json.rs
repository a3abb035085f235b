//! What the library reads of a JSON document, and the calls into `serde_json`
//! that read it. The contracts of these calls are taken on trust.

use serde_json::Value;
use vstd::prelude::*;

verus! {

/// `serde_json::Value`, taken as it is: contracts speak of it through
/// `document_of`.
#[verifier::external_type_specification]
#[verifier::external_body]
pub struct ExValue(serde_json::Value);

/// A JSON document as contracts see it.
///
/// A number is held as the bits of the double that stands for it, where it
/// has one. The members of an object are keyed by name.
pub enum Json {
    Null,
    Bool(bool),
    Number(Option<u64>),
    Text(Seq<char>),
    List(Seq<Json>),
    Object(Map<Seq<char>, Json>),
}

/// The document that a `serde_json::Value` holds.
pub uninterp spec fn document_of(value: Value) -> Json;

/// The document that `serde_json::from_str` reads from a text, `None` where
/// it rejects the text.
pub uninterp spec fn parsed_document(text: Seq<char>) -> Option<Json>;

impl Json {
    /// The member `key` of an object. Anything but an object has no members.
    pub open spec fn member(self, key: Seq<char>) -> Option<Json> {
        match self {
            Json::Object(members) => if members.contains_key(key) {
                Some(members[key])
            } else {
                None
            },
            _ => None,
        }
    }

    /// The characters of a string.
    pub open spec fn as_text(self) -> Option<Seq<char>> {
        match self {
            Json::Text(t) => Some(t),
            _ => None,
        }
    }

    /// The bits of the double that stands for a number.
    pub open spec fn as_number_bits(self) -> Option<u64> {
        match self {
            Json::Number(bits) => bits,
            _ => None,
        }
    }

    /// The value of a boolean.
    pub open spec fn as_flag(self) -> Option<bool> {
        match self {
            Json::Bool(b) => Some(b),
            _ => None,
        }
    }
}

/// `serde_json::from_str::<Value>`: the value read from `text`, or `None`
/// where the text is no JSON document. Trusted: the value holds the document
/// that `parsed_document` names for this text.
#[verifier::external_body]
pub(crate) fn parse(text: &str) -> (r: Option<Value>)
    ensures
        match r {
            Some(v) => parsed_document(text@) == Some(document_of(v)),
            None => parsed_document(text@) is None,
        },
{
    serde_json::from_str::<Value>(text).ok()
}

/// `Value::get` with a string index. Trusted: it returns the member `key`
/// where the value is an object that has one, and `None` otherwise.
#[verifier::external_body]
pub(crate) fn get<'a>(value: &'a Value, key: &str) -> (r: Option<&'a Value>)
    ensures
        match r {
            Some(v) => document_of(*value).member(key@) == Some(document_of(*v)),
            None => document_of(*value).member(key@) is None,
        },
{
    value.get(key)
}

/// `Value::as_str`. Trusted: it returns the characters of a string and
/// `None` for anything else.
#[verifier::external_body]
pub(crate) fn as_str<'a>(value: &'a Value) -> (r: Option<&'a str>)
    ensures
        match r {
            Some(s) => document_of(*value).as_text() == Some(s@),
            None => document_of(*value).as_text() is None,
        },
{
    value.as_str()
}

/// `Value::as_bool`. Trusted: it returns the value of a boolean and `None`
/// for anything else.
#[verifier::external_body]
pub(crate) fn as_bool(value: &Value) -> (r: Option<bool>)
    ensures
        r == document_of(*value).as_flag(),
{
    value.as_bool()
}

/// `Value::as_f64`, the double handed on as its bits. Trusted: it returns
/// the double that stands for a number and `None` for anything else.
#[verifier::external_body]
pub(crate) fn as_number_bits(value: &Value) -> (r: Option<u64>)
    ensures
        r == document_of(*value).as_number_bits(),
{
    value.as_f64().map(|number| number.to_bits())
}

} // verus!

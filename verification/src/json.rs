//! A plain model of JSON documents, as far as the token and claims logic reads them.
//!
//! Parsing itself is done by `serde_json`; the result is handed over as a
//! [`JsonValue`], on which the field lookups are verified.

use vstd::prelude::*;

use crate::text::str_eq;

verus! {

/// A JSON value.
///
/// A number is held as the value that `serde_json`'s `Number::as_u64` gives
/// for it: `Some(n)` for a non-negative integer that fits a `u64`, else `None`.
/// An object holds its members in the order `serde_json` yields them.
#[derive(Debug)]
pub enum JsonValue {
    Null,
    Bool(bool),
    Number(Option<u64>),
    Str(String),
    Array(Vec<JsonValue>),
    Object(Vec<(String, JsonValue)>),
}

/// The value of the first member named `key` among `members`.
pub open spec fn member(members: Seq<(String, JsonValue)>, key: Seq<char>) -> Option<JsonValue>
    decreases members.len(),
{
    if members.len() == 0 {
        None
    } else if members[0].0@ == key {
        Some(members[0].1)
    } else {
        member(members.drop_first(), key)
    }
}

/// The string view of an optional `String`.
pub open spec fn opt_string_view(o: Option<String>) -> Option<Seq<char>> {
    match o {
        Some(s) => Some(s@),
        None => None,
    }
}

/// The value behind an optional reference.
pub open spec fn opt_deref<T>(o: Option<&T>) -> Option<T> {
    match o {
        Some(v) => Some(*v),
        None => None,
    }
}

impl JsonValue {
    /// What `serde_json::Value::get` gives for a string key: the member of an object.
    pub open spec fn field(self, key: Seq<char>) -> Option<JsonValue> {
        match self {
            JsonValue::Object(members) => member(members@, key),
            _ => None,
        }
    }

    /// What `as_str` gives.
    pub open spec fn text(self) -> Option<Seq<char>> {
        match self {
            JsonValue::Str(s) => Some(s@),
            _ => None,
        }
    }

    /// What `as_u64` gives.
    pub open spec fn unsigned(self) -> Option<u64> {
        match self {
            JsonValue::Number(n) => n,
            _ => None,
        }
    }

    /// The first element of an array (`as_array` followed by `first`).
    pub open spec fn first_element(self) -> Option<JsonValue> {
        match self {
            JsonValue::Array(items) => if items@.len() > 0 {
                Some(items@[0])
            } else {
                None
            },
            _ => None,
        }
    }

    /// `get(key).and_then(as_str)`.
    pub open spec fn text_field(self, key: Seq<char>) -> Option<Seq<char>> {
        match self.field(key) {
            Some(v) => v.text(),
            None => None,
        }
    }

    /// `get(key).and_then(as_u64)`.
    pub open spec fn unsigned_field(self, key: Seq<char>) -> Option<u64> {
        match self.field(key) {
            Some(v) => v.unsigned(),
            None => None,
        }
    }

    /// Parse a JSON document.
    pub fn parse(bytes: &[u8]) -> (r: Option<JsonValue>)
        ensures
            r == json_document(bytes@),
    {
        parse_json_bytes(bytes)
    }

    /// The member named `key`, when `self` is an object that has one.
    pub fn get(&self, key: &str) -> (r: Option<&JsonValue>)
        ensures
            opt_deref(r) == self.field(key@),
    {
        match self {
            JsonValue::Object(members) => {
                let mut i: usize = 0;
                assert(members@.skip(0) =~= members@);
                while i < members.len()
                    invariant
                        i <= members@.len(),
                        self.field(key@) == member(members@, key@),
                        member(members@, key@) == member(members@.skip(i as int), key@),
                    decreases members.len() - i,
                {
                    assert(members@.skip(i as int)[0] == members@[i as int]);
                    assert(members@.skip(i as int).drop_first() =~= members@.skip(i + 1));
                    if str_eq(members[i].0.as_str(), key) {
                        assert(members@.skip(i as int).len() > 0);
                        assert(member(members@.skip(i as int), key@) == Some(members@[i as int].1));
                        return Some(&members[i].1);
                    }
                    i = i + 1;
                }
                assert(members@.skip(i as int).len() == 0);
                None
            },
            _ => None,
        }
    }

    /// The text of a string value.
    pub fn as_str(&self) -> (r: Option<&str>)
        ensures
            match r {
                Some(s) => self.text() == Some(s@),
                None => self.text() is None,
            },
    {
        match self {
            JsonValue::Str(s) => Some(s.as_str()),
            _ => None,
        }
    }

    /// The value of a number that is a non-negative integer fitting a `u64`.
    pub fn as_u64(&self) -> (r: Option<u64>)
        ensures
            r == self.unsigned(),
    {
        match self {
            JsonValue::Number(n) => *n,
            _ => None,
        }
    }

    /// The first element of an array value.
    pub fn first(&self) -> (r: Option<&JsonValue>)
        ensures
            opt_deref(r) == self.first_element(),
    {
        match self {
            JsonValue::Array(items) => if items.len() > 0 {
                Some(&items[0])
            } else {
                None
            },
            _ => None,
        }
    }

    /// `get(key).and_then(as_str)`, as an owned string.
    pub fn text_member(&self, key: &str) -> (r: Option<String>)
        ensures
            opt_string_view(r) == self.text_field(key@),
    {
        match self.get(key) {
            Some(v) => match v.as_str() {
                Some(s) => Some(s.to_owned()),
                None => None,
            },
            None => None,
        }
    }

    /// `get(key).and_then(as_u64)`.
    pub fn unsigned_member(&self, key: &str) -> (r: Option<u64>)
        ensures
            r == self.unsigned_field(key@),
    {
        match self.get(key) {
            Some(v) => v.as_u64(),
            None => None,
        }
    }
}

/// Declares `serde_json::Value`, which the parser produces before it is converted.
#[verifier::external_type_specification]
#[verifier::external_body]
pub struct ExSerdeJsonValue(serde_json::Value);

/// What `serde_json::from_slice::<serde_json::Value>` gives for a byte string,
/// converted to a [`JsonValue`] (`None` when the bytes are not a JSON document).
pub uninterp spec fn json_document(bytes: Seq<u8>) -> Option<JsonValue>;

/// Converts a parsed `serde_json::Value` into a [`JsonValue`], one variant for one,
/// numbers by `Number::as_u64`. Nothing is stated of the result: it is only used
/// inside [`parse_json_bytes`], whose contract names the whole parse.
#[verifier::external_body]
fn json_from_serde(v: serde_json::Value) -> JsonValue {
    match v {
        serde_json::Value::Null => JsonValue::Null,
        serde_json::Value::Bool(b) => JsonValue::Bool(b),
        serde_json::Value::Number(n) => JsonValue::Number(n.as_u64()),
        serde_json::Value::String(s) => JsonValue::Str(s),
        serde_json::Value::Array(a) => JsonValue::Array(a.into_iter().map(json_from_serde).collect()),
        serde_json::Value::Object(m) => JsonValue::Object(
            m.into_iter().map(|(k, v)| (k, json_from_serde(v))).collect(),
        ),
    }
}

/// Calls `serde_json::from_slice` to parse a JSON document. The contract claims
/// only that the result is a function of the bytes (the parse is deterministic),
/// named [`json_document`].
#[verifier::external_body]
fn parse_json_bytes(bytes: &[u8]) -> (r: Option<JsonValue>)
    ensures
        r == json_document(bytes@),
{
    serde_json::from_slice::<serde_json::Value>(bytes).ok().map(json_from_serde)
}

} // verus!

//! A JSON document as the audits read it: the library's own tree, filled from
//! the text of a response body by `serde_json`.

use crate::text::str_eq;
use vstd::prelude::*;

verus! {

/// A JSON number, kept as the integers it can be read as.
///
/// A number with a fraction or an exponent can be read as neither, and
/// both fields are `None`.
#[derive(Clone, Copy, Debug)]
pub struct JsonNumber {
    /// The number as a `u64`, where it is a non-negative integer in range.
    pub unsigned: Option<u64>,
    /// The number as an `i64`, where it is an integer in range.
    pub signed: Option<i64>,
}

/// A JSON value.
///
/// An object keeps its members as a list of key and value; a lookup takes
/// the first member with the key.
#[derive(Debug)]
pub enum Json {
    Null,
    Bool(bool),
    Number(JsonNumber),
    Str(String),
    Array(Vec<Json>),
    Object(Vec<(String, Json)>),
}

/// The value of the first member named `key`, if there is one.
pub open spec fn member_value(members: Seq<(String, Json)>, key: Seq<char>) -> Option<Json>
    decreases members.len(),
{
    if members.len() == 0 {
        None
    } else if members[0].0@ == key {
        Some(members[0].1)
    } else {
        member_value(members.drop_first(), key)
    }
}

impl Json {
    /// The member `key` of an object; `None` for a missing key and for
    /// anything that is not an object.
    pub open spec fn field(self, key: Seq<char>) -> Option<Json> {
        match self {
            Json::Object(members) => member_value(members@, key),
            _ => None,
        }
    }

    /// The characters of a string value.
    pub open spec fn text(self) -> Option<Seq<char>> {
        match self {
            Json::Str(s) => Some(s@),
            _ => None,
        }
    }

    /// The truth value of a boolean.
    pub open spec fn truth(self) -> Option<bool> {
        match self {
            Json::Bool(b) => Some(b),
            _ => None,
        }
    }

    /// The value of a non-negative integer.
    pub open spec fn natural(self) -> Option<u64> {
        match self {
            Json::Number(n) => n.unsigned,
            _ => None,
        }
    }

    /// The items of an array.
    pub open spec fn items(self) -> Option<Seq<Json>> {
        match self {
            Json::Array(a) => Some(a@),
            _ => None,
        }
    }

    /// The characters of the string member `key`, if the value is an object
    /// that has such a member and the member is a string.
    pub open spec fn field_text(self, key: Seq<char>) -> Option<Seq<char>> {
        match self.field(key) {
            Some(v) => v.text(),
            None => None,
        }
    }

    /// The truth value of the boolean member `key`.
    pub open spec fn field_truth(self, key: Seq<char>) -> Option<bool> {
        match self.field(key) {
            Some(v) => v.truth(),
            None => None,
        }
    }

    /// The value of the non-negative integer member `key`.
    pub open spec fn field_natural(self, key: Seq<char>) -> Option<u64> {
        match self.field(key) {
            Some(v) => v.natural(),
            None => None,
        }
    }

    /// The items of the array member `key`.
    pub open spec fn field_items(self, key: Seq<char>) -> Option<Seq<Json>> {
        match self.field(key) {
            Some(v) => v.items(),
            None => None,
        }
    }

    /// Looks a member up by key.
    pub fn get(&self, key: &str) -> (r: Option<&Json>)
        ensures
            r is Some <==> self.field(key@) is Some,
            r matches Some(j) ==> self.field(key@) == Some(*j),
    {
        match self {
            Json::Object(members) => {
                let mut i: usize = 0;
                proof {
                    assert(members@.skip(0) =~= members@);
                }
                while i < members.len()
                    invariant
                        i <= members@.len(),
                        self.field(key@) == member_value(members@, key@),
                        member_value(members@, key@) == member_value(
                            members@.skip(i as int),
                            key@,
                        ),
                    decreases members@.len() - i,
                {
                    proof {
                        let rest = members@.skip(i as int);
                        assert(rest[0] == members@[i as int]);
                        assert(rest.drop_first() =~= members@.skip(i + 1));
                    }
                    if str_eq(members[i].0.as_str(), key) {
                        return Some(&members[i].1);
                    }
                    i += 1;
                }
                None
            },
            _ => None,
        }
    }

    /// The string, if the value is one.
    pub fn as_str(&self) -> (r: Option<&str>)
        ensures
            r is Some <==> self.text() is Some,
            r matches Some(s) ==> self.text() == Some(s@),
    {
        match self {
            Json::Str(s) => Some(s.as_str()),
            _ => None,
        }
    }

    /// The boolean, if the value is one.
    pub fn as_bool(&self) -> (r: Option<bool>)
        ensures
            r == self.truth(),
    {
        match self {
            Json::Bool(b) => Some(*b),
            _ => None,
        }
    }

    /// The number as a `u64`, if the value is a non-negative integer.
    pub fn as_u64(&self) -> (r: Option<u64>)
        ensures
            r == self.natural(),
    {
        match self {
            Json::Number(n) => n.unsigned,
            _ => None,
        }
    }

    /// The items, if the value is an array.
    pub fn as_array(&self) -> (r: Option<&Vec<Json>>)
        ensures
            r is Some <==> self.items() is Some,
            r matches Some(a) ==> self.items() == Some(a@),
    {
        match self {
            Json::Array(a) => Some(a),
            _ => None,
        }
    }

    /// The string member `key`.
    pub fn get_str(&self, key: &str) -> (r: Option<&str>)
        ensures
            r is Some <==> self.field_text(key@) is Some,
            r matches Some(s) ==> self.field_text(key@) == Some(s@),
    {
        match self.get(key) {
            Some(v) => v.as_str(),
            None => None,
        }
    }

    /// The boolean member `key`.
    pub fn get_bool(&self, key: &str) -> (r: Option<bool>)
        ensures
            r == self.field_truth(key@),
    {
        match self.get(key) {
            Some(v) => v.as_bool(),
            None => None,
        }
    }

    /// The non-negative integer member `key`.
    pub fn get_u64(&self, key: &str) -> (r: Option<u64>)
        ensures
            r == self.field_natural(key@),
    {
        match self.get(key) {
            Some(v) => v.as_u64(),
            None => None,
        }
    }

    /// The array member `key`.
    pub fn get_array(&self, key: &str) -> (r: Option<&Vec<Json>>)
        ensures
            r is Some <==> self.field_items(key@) is Some,
            r matches Some(a) ==> self.field_items(key@) == Some(a@),
    {
        match self.get(key) {
            Some(v) => v.as_array(),
            None => None,
        }
    }

    /// Whether the member `key` is the string `expected`.
    pub fn has_text(&self, key: &str, expected: &str) -> (r: bool)
        ensures
            r == (self.field_text(key@) == Some(expected@)),
    {
        match self.get_str(key) {
            Some(s) => str_eq(s, expected),
            None => false,
        }
    }
}

/// An optional string member as a record reads it: a missing member and
/// `null` are both absent, a string is present, anything else is an error
/// (the outer `None`).
pub open spec fn optional_text(doc: Json, key: Seq<char>) -> Option<Option<Seq<char>>> {
    match doc.field(key) {
        None => Some(None),
        Some(Json::Null) => Some(None),
        Some(Json::Str(s)) => Some(Some(s@)),
        Some(_) => None,
    }
}

/// A copy of the string member `key`.
pub fn field_string(doc: &Json, key: &str) -> (r: Option<String>)
    ensures
        r is Some <==> doc.field_text(key@) is Some,
        r matches Some(s) ==> doc.field_text(key@) == Some(s@),
{
    match doc.get_str(key) {
        Some(s) => Some(s.to_owned()),
        None => None,
    }
}

/// A copy of the optional string member `key`.
pub fn field_optional_string(doc: &Json, key: &str) -> (r: Option<Option<String>>)
    ensures
        r is Some <==> optional_text(*doc, key@) is Some,
        r matches Some(Some(s)) ==> optional_text(*doc, key@) == Some(Some(s@)),
        r matches Some(None) ==> optional_text(*doc, key@) == Some(None::<Seq<char>>),
{
    match doc.get(key) {
        None => Some(None),
        Some(Json::Null) => Some(None),
        Some(Json::Str(s)) => Some(Some(s.as_str().to_owned())),
        Some(_) => None,
    }
}

#[verifier::external_type_specification]
#[verifier::external_body]
pub struct ExSerdeValue(serde_json::Value);

#[verifier::external_type_specification]
#[verifier::external_body]
pub struct ExSerdeError(serde_json::Error);

/// The document that `serde_json` reads from a text, `None` where it
/// rejects the text.
pub uninterp spec fn json_of_text(text: Seq<char>) -> Option<Json>;

/// Moves a `serde_json::Value` into the library's tree, variant by variant.
/// A number is kept as what `Number::as_u64` and `Number::as_i64` return;
/// the members of an object come in the order in which the map hands them
/// out. Nothing is claimed of the result here: `read_document` names it.
#[verifier::external_body]
fn lift(v: serde_json::Value) -> Json {
    match v {
        serde_json::Value::Null => Json::Null,
        serde_json::Value::Bool(b) => Json::Bool(b),
        serde_json::Value::Number(n) => Json::Number(
            JsonNumber { unsigned: n.as_u64(), signed: n.as_i64() },
        ),
        serde_json::Value::String(s) => Json::Str(s),
        serde_json::Value::Array(a) => Json::Array(a.into_iter().map(lift).collect()),
        serde_json::Value::Object(o) => Json::Object(
            o.into_iter().map(|(k, v)| (k, lift(v))).collect(),
        ),
    }
}

/// Calls `serde_json::from_str` for a `serde_json::Value`. The parser reads
/// nothing but its argument, so equal texts give equal documents: the
/// contract names the document and says no more of it.
#[verifier::external_body]
fn read_document(text: &str) -> (r: Result<Json, serde_json::Error>)
    ensures
        r is Ok <==> json_of_text(text@) is Some,
        r matches Ok(j) ==> json_of_text(text@) == Some(j),
{
    serde_json::from_str::<serde_json::Value>(text).map(lift)
}

/// Reads a JSON document from a text.
pub fn parse(text: &str) -> (r: Option<Json>)
    ensures
        r == json_of_text(text@),
{
    match read_document(text) {
        Ok(j) => Some(j),
        Err(_) => None,
    }
}

} // verus!

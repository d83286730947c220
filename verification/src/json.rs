//! JSON documents as plain values.
//!
//! `serde_json` reads and writes the text; the crate's decoders work on the
//! tree below. A number keeps the text it was written with, so no digit of a
//! decimal is lost on the way.

use vstd::prelude::*;
use crate::text::same_text;

verus! {

/// A JSON value. An object read from text has each key once, in the order
/// `serde_json` hands its members out; an object built by hand keeps the
/// order it was built in, and a lookup takes the first member of a key.
#[derive(Debug, PartialEq, Eq)]
pub enum Json {
    Null,
    Bool(bool),
    /// A number, as its literal text.
    Number(String),
    Text(String),
    Array(Vec<Json>),
    Object(Vec<(String, Json)>),
}

/// `serde_json::Value`, carried between `serde_json`'s reader and writer and
/// the two conversions below; nothing is said of what it holds.
#[verifier::external_type_specification]
#[verifier::external_body]
pub struct ExValue(serde_json::Value);

/// The value that `serde_json` reads from a text, or `None` where the text
/// is no JSON document.
pub uninterp spec fn document(text: Seq<char>) -> Option<Json>;

/// The compact text that `serde_json` writes for a value.
pub uninterp spec fn document_text(j: Json) -> Seq<char>;

/// The first member at or after position `from` whose key is `key`.
pub open spec fn member_from(members: Seq<(String, Json)>, key: Seq<char>, from: int) -> Option<Json>
    decreases members.len() - from,
{
    if from < 0 || from >= members.len() {
        None
    } else if members[from].0@ == key {
        Some(members[from].1)
    } else {
        member_from(members, key, from + 1)
    }
}

impl Json {
    /// The value of the member `key` of an object; `None` for a value that
    /// is no object or has no such member.
    pub open spec fn member(self, key: Seq<char>) -> Option<Json> {
        match self {
            Json::Object(members) => member_from(members@, key, 0),
            _ => None,
        }
    }

    /// Looks up the member `key` of an object.
    pub fn get(&self, key: &str) -> (r: Option<&Json>)
        ensures
            r matches Some(v) ==> self.member(key@) == Some(*v),
            r is None ==> self.member(key@) is None,
    {
        match self {
            Json::Object(members) => {
                let mut i: usize = 0;
                while i < members.len()
                    invariant
                        i <= members.len(),
                        self.member(key@) == member_from(members@, key@, 0),
                        member_from(members@, key@, 0) == member_from(members@, key@, i as int),
                    decreases members.len() - i,
                {
                    let entry = &members[i];
                    if same_text(entry.0.as_str(), key) {
                        return Some(&entry.1);
                    }
                    i += 1;
                }
                None
            },
            _ => None,
        }
    }

    /// Reads a JSON document from text.
    pub fn parse(text: &str) -> (r: Option<Json>)
        ensures
            r == document(text@),
    {
        read_document(text)
    }

    /// Writes the value as compact JSON text.
    pub fn to_text(&self) -> (s: String)
        ensures
            s@ == document_text(*self),
    {
        write_document(self)
    }
}

/// Moves a `serde_json::Value` into a `Json`, variant by variant; a number
/// is carried as the text of `serde_json::Number`.
#[verifier::external_body]
fn from_value(v: serde_json::Value) -> (j: Json) {
    match v {
        serde_json::Value::Null => Json::Null,
        serde_json::Value::Bool(b) => Json::Bool(b),
        serde_json::Value::Number(n) => Json::Number(n.to_string()),
        serde_json::Value::String(s) => Json::Text(s),
        serde_json::Value::Array(a) => Json::Array(a.into_iter().map(from_value).collect()),
        serde_json::Value::Object(m) => Json::Object(m.into_iter().map(|(k, v)| (k, from_value(v))).collect()),
    }
}

/// Moves a `Json` into a `serde_json::Value`, variant by variant; a number's
/// text becomes a `serde_json::Number` as it stands.
#[verifier::external_body]
fn to_value(j: &Json) -> (v: serde_json::Value) {
    match j {
        Json::Null => serde_json::Value::Null,
        Json::Bool(b) => serde_json::Value::Bool(*b),
        Json::Number(n) => serde_json::Value::Number(serde_json::Number::from_string_unchecked(n.clone())),
        Json::Text(s) => serde_json::Value::String(s.clone()),
        Json::Array(a) => serde_json::Value::Array(a.iter().map(to_value).collect()),
        Json::Object(m) => serde_json::Value::Object(m.iter().map(|(k, v)| (k.clone(), to_value(v))).collect()),
    }
}

/// `serde_json::from_str` at `serde_json::Value`: the document that the text
/// holds, or `None` where the parser rejects it.
#[verifier::external_body]
fn read_document(text: &str) -> (r: Option<Json>)
    ensures
        r == document(text@),
{
    match serde_json::from_str::<serde_json::Value>(text) {
        Ok(v) => Some(from_value(v)),
        Err(_) => None,
    }
}

/// `serde_json::Value`'s `to_string`: the compact text of the value.
#[verifier::external_body]
fn write_document(j: &Json) -> (s: String)
    ensures
        s@ == document_text(*j),
{
    to_value(j).to_string()
}

} // verus!

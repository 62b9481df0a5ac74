//! JSON as the backends speak it: the document type, the lookups a reply is
//! read with, and the two places where `serde_json` does the work (parsing a
//! body, writing a string as a JSON string).

use vstd::prelude::*;

verus! {

/// `serde_json::Number`, carried through a document without being read.
#[verifier::external_type_specification]
#[verifier::external_body]
pub struct ExJsonNumber(serde_json::Number);

/// A JSON document.
///
/// An object keeps its members in a list of key and value; a lookup takes
/// the first member with the key. In contracts a document stands for itself,
/// and a string in it for its characters.
#[derive(Debug, PartialEq, Eq)]
pub enum Json {
    Null,
    Bool(bool),
    Number(serde_json::Number),
    Text(String),
    Array(Vec<Json>),
    Object(Vec<(String, Json)>),
}

impl View for Json {
    type V = Json;

    /// A document is its own mathematical value.
    open spec fn view(&self) -> Json {
        *self
    }
}

/// `serde_json::Value`, the document as the parser hands it over.
#[verifier::external_type_specification]
#[verifier::external_body]
pub struct ExJsonDocument(serde_json::Value);

/// What `serde_json::from_slice` makes of a body read as one JSON value:
/// the document, or the text of the error it reports.
pub uninterp spec fn json_parsed(bytes: Seq<u8>) -> Result<Json, Seq<char>>;

/// The document that a `serde_json::Value` holds.
pub uninterp spec fn value_held(value: serde_json::Value) -> Json;

/// What `serde_json::to_string` makes of a string: the JSON string literal
/// for it, quotes and escapes included.
pub uninterp spec fn json_quoted(text: Seq<char>) -> Seq<char>;

/// The mathematical value of a parse result.
pub open spec fn parsed_view(parsed: Result<Json, String>) -> Result<Json, Seq<char>> {
    match parsed {
        Ok(doc) => Ok(doc@),
        Err(message) => Err(message@),
    }
}

/// Calls `serde_json::from_slice` for a `serde_json::Value`. The parser
/// accepts exactly one JSON value, with white space around it, and fails on
/// anything else, nesting deeper than its limit included; it reads the same
/// bytes the same way every time. On failure the result holds the error as
/// its `Display` writes it.
#[verifier::external_body]
fn read_value(bytes: &[u8]) -> (read: Result<serde_json::Value, String>)
    ensures
        match read {
            Ok(value) => json_parsed(bytes@) == Ok::<Json, Seq<char>>(value_held(value)),
            Err(message) => json_parsed(bytes@) == Err::<Json, Seq<char>>(message@),
        },
{
    serde_json::from_slice::<serde_json::Value>(bytes).map_err(|error| error.to_string())
}

/// Moves a `serde_json::Value` into a [`Json`], variant by variant and
/// level by level. The members of an object come in the order in which
/// `serde_json` walks its map, each key once.
#[verifier::external_body]
fn from_value(value: serde_json::Value) -> (doc: Json)
    ensures
        doc@ == value_held(value),
{
    match value {
        serde_json::Value::Null => Json::Null,
        serde_json::Value::Bool(b) => Json::Bool(b),
        serde_json::Value::Number(n) => Json::Number(n),
        serde_json::Value::String(s) => Json::Text(s),
        serde_json::Value::Array(items) => Json::Array(items.into_iter().map(from_value).collect()),
        serde_json::Value::Object(members) => Json::Object(
            members.into_iter().map(|(key, item)| (key, from_value(item))).collect(),
        ),
    }
}

/// Calls `serde_json::to_string` on a string, which writes it as a JSON
/// string literal. Writing a string into memory cannot fail.
#[verifier::external_body]
pub(crate) fn quote(text: &str) -> (quoted: String)
    ensures
        quoted@ == json_quoted(text@),
{
    serde_json::to_string(text).unwrap_or_default()
}

/// The mathematical value of a lookup's result.
pub open spec fn found_view(found: Option<&Json>) -> Option<Json> {
    match found {
        Some(doc) => Some(doc@),
        None => None,
    }
}

impl Json {
    /// The member of an object under `key`, among the members from `start`
    /// on: the first one with that key.
    pub open spec fn find(members: Seq<(String, Json)>, key: Seq<char>, start: int) -> Option<Json>
        decreases members.len() - start,
    {
        if start < 0 || start >= members.len() {
            None
        } else if members[start].0@ == key {
            Some(members[start].1)
        } else {
            Self::find(members, key, start + 1)
        }
    }

    /// The member under `key`, where this is an object that has one.
    pub open spec fn member(self, key: Seq<char>) -> Option<Json> {
        match self {
            Json::Object(members) => Self::find(members@, key, 0),
            _ => None,
        }
    }

    /// The element at `index`, where this is an array that long.
    pub open spec fn element(self, index: int) -> Option<Json> {
        match self {
            Json::Array(items) => if 0 <= index < items@.len() {
                Some(items@[index])
            } else {
                None
            },
            _ => None,
        }
    }

    /// The text, where this is a string.
    pub open spec fn text(self) -> Option<Seq<char>> {
        match self {
            Json::Text(text) => Some(text@),
            _ => None,
        }
    }

    /// Reads a body as one JSON document; on failure, the parser's own
    /// description of what is wrong with it.
    pub fn parse(bytes: &[u8]) -> (parsed: Result<Json, String>)
        ensures
            parsed_view(parsed) == json_parsed(bytes@),
    {
        match read_value(bytes) {
            Ok(value) => Ok(from_value(value)),
            Err(message) => Err(message),
        }
    }

    /// The member under `key`: `None` unless this is an object with such a
    /// member.
    pub fn get(&self, key: &str) -> (found: Option<&Json>)
        ensures
            found_view(found) == self@.member(key@),
    {
        match self {
            Json::Object(members) => {
                let wanted = key.to_owned();
                let mut i: usize = 0;
                while i < members.len()
                    invariant
                        i <= members.len(),
                        wanted@ == key@,
                        self@.member(key@) == Json::find(members@, key@, i as int),
                    decreases members.len() - i,
                {
                    if members[i].0 == wanted {
                        return Some(&members[i].1);
                    }
                    i += 1;
                }
                None
            },
            _ => None,
        }
    }

    /// The element at `index`: `None` unless this is an array that long.
    pub fn at(&self, index: usize) -> (found: Option<&Json>)
        ensures
            found_view(found) == self@.element(index as int),
    {
        match self {
            Json::Array(items) => if index < items.len() {
                Some(&items[index])
            } else {
                None
            },
            _ => None,
        }
    }

    /// The text: `None` unless this is a string.
    pub fn as_str(&self) -> (text: Option<&str>)
        ensures
            match text {
                Some(t) => self@.text() == Some(t@),
                None => self@.text() is None,
            },
    {
        match self {
            Json::Text(text) => Some(text.as_str()),
            _ => None,
        }
    }
}

} // verus!

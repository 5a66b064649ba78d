//! A JSON document, as far as the configuration reads one, and the parser
//! that produces it.

use vstd::prelude::*;
use vstd::string::StringExecFns;

verus! {

/// A JSON document.
///
/// Of a number it keeps what the configuration asks of it: its value where it
/// is an integer from 0 to 2^64 - 1, and nothing else. The members of an
/// object are kept in a list; a key that occurs twice is read at its first
/// occurrence.
#[derive(Debug, PartialEq, Eq)]
pub enum Json {
    Null,
    Bool(bool),
    Number(Option<u64>),
    Text(String),
    Array(Vec<Json>),
    Object(Vec<(String, Json)>),
}

/// The document that the JSON text `text` writes; none where the text is no
/// JSON. It stands for what the parser returns, which the text alone decides.
pub uninterp spec fn document_of(text: Seq<char>) -> Option<Json>;

/// `serde_json::Value`, the parser's own document: nothing is known of what
/// one holds.
#[verifier::external_type_specification]
#[verifier::external_body]
pub struct ExValue(serde_json::Value);

/// `serde_json::Error`, the parser's complaint: nothing is known of what one
/// holds.
#[verifier::external_type_specification]
#[verifier::external_body]
pub struct ExError(serde_json::Error);

/// Rewrites a `serde_json::Value` as a [`Json`], variant by variant, and the
/// values within it likewise. Of a number it keeps what
/// `serde_json::Number::as_u64` returns; the members of an object come in the
/// order in which `serde_json::Map` hands them out. Nothing is claimed of the
/// result.
#[verifier::external_body]
fn lift(value: serde_json::Value) -> Json {
    match value {
        serde_json::Value::Null => Json::Null,
        serde_json::Value::Bool(b) => Json::Bool(b),
        serde_json::Value::Number(n) => Json::Number(n.as_u64()),
        serde_json::Value::String(s) => Json::Text(s),
        serde_json::Value::Array(items) => Json::Array(items.into_iter().map(lift).collect()),
        serde_json::Value::Object(members) => Json::Object(
            members.into_iter().map(|(key, value)| (key, lift(value))).collect(),
        ),
    }
}

/// Parses `text` with `serde_json::from_str`, as a `serde_json::Value`, and
/// rewrites what was parsed with [`lift`]. The contract claims that the text
/// alone decides whether the parser accepts it, and which document comes of
/// it; it does not say which.
#[verifier::external_body]
fn parse_text(text: &str) -> (parsed: Result<Json, serde_json::Error>)
    ensures
        match parsed {
            Ok(document) => document_of(text@) == Some(document),
            Err(_) => document_of(text@) is None,
        },
{
    serde_json::from_str::<serde_json::Value>(text).map(lift)
}

/// The value that the first of `members` with the key `key` holds.
pub open spec fn first_with_key(members: Seq<(String, Json)>, key: Seq<char>) -> Option<Json>
    decreases members.len(),
{
    if members.len() == 0 {
        None
    } else if members[0].0@ == key {
        Some(members[0].1)
    } else {
        first_with_key(members.drop_first(), key)
    }
}

impl Json {
    /// The member `key` of an object; none where there is no such member, or
    /// no object.
    pub open spec fn member(self, key: Seq<char>) -> Option<Json> {
        match self {
            Json::Object(members) => first_with_key(members@, key),
            _ => None,
        }
    }

    /// The value of a number that is an integer from 0 to 2^64 - 1.
    pub open spec fn unsigned(self) -> Option<u64> {
        match self {
            Json::Number(n) => n,
            _ => None,
        }
    }

    /// The characters of a string.
    pub open spec fn text(self) -> Option<Seq<char>> {
        match self {
            Json::Text(s) => Some(s@),
            _ => None,
        }
    }

    /// The items of an array.
    pub open spec fn items(self) -> Option<Seq<Json>> {
        match self {
            Json::Array(items) => Some(items@),
            _ => None,
        }
    }

    /// Parses a JSON text.
    pub fn parse(text: &str) -> (document: Option<Json>)
        ensures
            document == document_of(text@),
    {
        match parse_text(text) {
            Ok(document) => Some(document),
            Err(_) => None,
        }
    }

    /// Finds the member `key` of an object.
    pub fn get(&self, key: &str) -> (found: Option<&Json>)
        ensures
            match found {
                Some(value) => self.member(key@) == Some(*value),
                None => self.member(key@) is None,
            },
    {
        match self {
            Json::Object(members) => {
                let wanted = String::from_str(key);
                let mut i: usize = 0;
                proof {
                    assert(members@.skip(0) =~= members@);
                }
                while i < members.len()
                    invariant
                        i <= members.len(),
                        wanted@ == key@,
                        self.member(key@) == first_with_key(members@, key@),
                        first_with_key(members@, key@) == first_with_key(members@.skip(i as int), key@),
                    decreases members.len() - i,
                {
                    proof {
                        assert(members@.skip(i as int)[0] == members@[i as int]);
                        assert(members@.skip(i as int).drop_first() =~= members@.skip(i + 1));
                    }
                    if members[i].0 == wanted {
                        return Some(&members[i].1);
                    }
                    i = i + 1;
                }
                None
            },
            _ => None,
        }
    }

    /// Reads a number that is an integer from 0 to 2^64 - 1.
    pub fn as_u64(&self) -> (n: Option<u64>)
        ensures
            n == self.unsigned(),
    {
        match self {
            Json::Number(n) => *n,
            _ => None,
        }
    }

    /// Reads a string.
    pub fn as_str(&self) -> (s: Option<&str>)
        ensures
            match s {
                Some(s) => self.text() == Some(s@),
                None => self.text() is None,
            },
    {
        match self {
            Json::Text(s) => Some(s.as_str()),
            _ => None,
        }
    }

    /// Reads an array.
    pub fn as_array(&self) -> (items: Option<&Vec<Json>>)
        ensures
            match items {
                Some(items) => self.items() == Some(items@),
                None => self.items() is None,
            },
    {
        match self {
            Json::Array(items) => Some(items),
            _ => None,
        }
    }
}

} // verus!

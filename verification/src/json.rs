//! JSON documents: what they hold, and how long their text is.
use vstd::prelude::*;
use vstd::string::*;
use vstd::utf8::*;

use crate::rpc::counted;
use crate::text::{char_width, same_text};

verus! {

/// A `serde_json::Value`.
#[verifier::external_type_specification]
#[verifier::external_body]
pub struct ExJsonValue(serde_json::Value);

/// What a JSON document holds.
pub enum JsonTree {
    Null,
    Bool(bool),
    /// A number that is an integer of 64 bits.
    Integer(i64),
    /// Any other number.
    Number,
    Text(Seq<char>),
    List(Seq<JsonTree>),
    Object(Map<Seq<char>, JsonTree>),
}

/// What a `serde_json::Value` holds.
pub uninterp spec fn json_tree(value: serde_json::Value) -> JsonTree;

/// The document that `serde_json::from_slice` reads from these bytes, if they are
/// one.
pub uninterp spec fn json_parsed(bytes: Seq<u8>) -> Option<JsonTree>;

impl JsonTree {
    /// The member `key` of an object.
    pub open spec fn member(self, key: Seq<char>) -> Option<JsonTree> {
        match self {
            JsonTree::Object(members) => if members.contains_key(key) {
                Some(members[key])
            } else {
                None
            },
            _ => None,
        }
    }

    pub open spec fn text(self) -> Option<Seq<char>> {
        match self {
            JsonTree::Text(text) => Some(text),
            _ => None,
        }
    }

    pub open spec fn list(self) -> Option<Seq<JsonTree>> {
        match self {
            JsonTree::List(items) => Some(items),
            _ => None,
        }
    }

    pub open spec fn boolean(self) -> Option<bool> {
        match self {
            JsonTree::Bool(value) => Some(value),
            _ => None,
        }
    }

    pub open spec fn integer(self) -> Option<i64> {
        match self {
            JsonTree::Integer(value) => Some(value),
            _ => None,
        }
    }

    /// The text under `key`, if there is one.
    pub open spec fn text_at(self, key: Seq<char>) -> Option<Seq<char>> {
        match self.member(key) {
            Some(value) => value.text(),
            None => None,
        }
    }

    /// The truth value under `key`, or `default`.
    pub open spec fn bool_at(self, key: Seq<char>, default: bool) -> bool {
        match self.member(key) {
            Some(value) => match value.boolean() {
                Some(value) => value,
                None => default,
            },
            None => default,
        }
    }
}

/// Calls `serde_json::from_slice` for a `Value`. What it reads is named
/// `json_parsed`; bytes that are no document give `None`.
#[verifier::external_body]
pub(crate) fn parse_json(bytes: &[u8]) -> (r: Option<serde_json::Value>)
    ensures
        match r {
            Some(value) => json_parsed(bytes@) == Some(json_tree(value)),
            None => json_parsed(bytes@) is None,
        },
{
    serde_json::from_slice::<serde_json::Value>(bytes).ok()
}

/// Calls `Value::get` with a text: the member of that name, where the value is an
/// object that has it.
#[verifier::external_body]
pub(crate) fn json_member<'a>(value: &'a serde_json::Value, key: &str) -> (r: Option<
    &'a serde_json::Value,
>)
    ensures
        match r {
            Some(member) => json_tree(*value).member(key@) == Some(json_tree(*member)),
            None => json_tree(*value).member(key@) is None,
        },
{
    value.get(key)
}

/// Calls `Value::as_str`: the characters, where the value is a text.
#[verifier::external_body]
pub(crate) fn json_text(value: &serde_json::Value) -> (r: Option<&str>)
    ensures
        match r {
            Some(text) => json_tree(*value).text() == Some(text@),
            None => json_tree(*value).text() is None,
        },
{
    value.as_str()
}

/// Calls `Value::as_array`: the items in order, where the value is a list.
#[verifier::external_body]
pub(crate) fn json_list(value: &serde_json::Value) -> (r: Option<&Vec<serde_json::Value>>)
    ensures
        match r {
            Some(items) => json_tree(*value).list() == Some(
                items@.map_values(|item: serde_json::Value| json_tree(item)),
            ),
            None => json_tree(*value).list() is None,
        },
{
    value.as_array()
}

/// Calls `Value::as_bool`: the truth value, where the value is one.
#[verifier::external_body]
pub(crate) fn json_bool(value: &serde_json::Value) -> (r: Option<bool>)
    ensures
        r == json_tree(*value).boolean(),
{
    value.as_bool()
}

/// Calls `Value::as_i64`: the number, where the value is an integer of 64 bits.
#[verifier::external_body]
pub(crate) fn json_integer(value: &serde_json::Value) -> (r: Option<i64>)
    ensures
        r == json_tree(*value).integer(),
{
    value.as_i64()
}

/// The text under `key`, if there is one.
pub(crate) fn json_text_at<'a>(value: &'a serde_json::Value, key: &str) -> (r: Option<&'a str>)
    ensures
        match r {
            Some(text) => json_tree(*value).text_at(key@) == Some(text@),
            None => json_tree(*value).text_at(key@) is None,
        },
{
    match json_member(value, key) {
        Some(member) => json_text(member),
        None => None,
    }
}

/// The truth value under `key`, or `default`.
pub(crate) fn json_bool_at(value: &serde_json::Value, key: &str, default: bool) -> (r: bool)
    ensures
        r == json_tree(*value).bool_at(key@, default),
{
    match json_member(value, key) {
        Some(member) => match json_bool(member) {
            Some(value) => value,
            None => default,
        },
        None => default,
    }
}

/// Whether the text under `key` is `expected`.
pub(crate) fn json_text_is(value: &serde_json::Value, key: &str, expected: &str) -> (r: bool)
    ensures
        r == (json_tree(*value).text_at(key@) == Some(expected@)),
{
    match json_text_at(value, key) {
        Some(text) => same_text(text, expected),
        None => false,
    }
}

/// Bytes that one character takes inside a JSON text.
pub open spec fn json_char_len(c: char) -> nat {
    if c == '"' || c == '\\' || c == '\n' || c == '\r' || c == '\t' || c == '\u{8}' || c == '\u{c}' {
        2
    } else if (c as u32) < 0x20 {
        6
    } else {
        char_width(c)
    }
}

/// Bytes that the characters of a text take inside a JSON text.
pub open spec fn json_chars_len(s: Seq<char>) -> nat
    decreases s.len(),
{
    if s.len() == 0 {
        0
    } else {
        json_chars_len(s.drop_last()) + json_char_len(s.last())
    }
}

/// Bytes of a text as JSON, with its quotes.
pub open spec fn json_text_len(s: Seq<char>) -> nat {
    2 + json_chars_len(s)
}

proof fn lemma_json_take(s: Seq<char>, i: int)
    requires
        0 <= i < s.len(),
    ensures
        json_chars_len(s.take(i + 1)) == json_chars_len(s.take(i)) + json_char_len(s[i]),
{
    assert(s.take(i + 1).drop_last() =~= s.take(i));
}

fn json_char_bytes(c: char) -> (n: usize)
    ensures
        n == json_char_len(c),
{
    if c == '"' || c == '\\' || c == '\n' || c == '\r' || c == '\t' || c == '\u{8}' || c == '\u{c}' {
        2
    } else {
        let code: u32 = c as u32;
        if code < 0x20 {
            6
        } else if code <= 0x7f {
            1
        } else if code <= 0x7ff {
            2
        } else if code <= 0xffff {
            3
        } else {
            4
        }
    }
}

/// Bytes of a text as JSON, with its quotes, at most `usize::MAX`.
pub fn json_text_bytes(s: &str) -> (n: usize)
    ensures
        n == counted(json_text_len(s@)),
{
    let mut n: usize = 2;
    assert(s@.take(0) =~= Seq::<char>::empty());
    for c in it: s.chars()
        invariant
            it.seq() == s@,
            n == counted(2 + json_chars_len(s@.take(it.index() as int))),
    {
        proof {
            lemma_json_take(s@, it.index() as int);
        }
        n = n.saturating_add(json_char_bytes(c));
    }
    assert(s@.take(s@.len() as int) =~= s@);
    n
}

} // verus!

//! JSON values as the protocol reads them, and the calls into `serde_json`
//! that turn text into a value and a string into its JSON literal.

use vstd::prelude::*;
use vstd::string::{StringExecFns, StringSliceAdditionalSpecFns};
use vstd::utf8::valid_utf8;

verus! {

/// A JSON number: an integer that fits 64 bits, or the decimal text of any other number.
#[derive(Debug, PartialEq, Eq)]
pub enum JsonNumber {
    PosInt(u64),
    NegInt(i64),
    Float(String),
}

/// A JSON value. An object keeps its members as a list of key and value.
#[derive(Debug, PartialEq, Eq)]
pub enum Json {
    Null,
    Bool(bool),
    Number(JsonNumber),
    Text(String),
    Array(Vec<Json>),
    Object(Vec<(String, Json)>),
}

/// A JSON number as a mathematical value.
pub enum NumberValue {
    Integer(int),
    Other(Seq<char>),
}

/// A JSON value as a mathematical value.
pub enum JsonValue {
    Null,
    Bool(bool),
    Number(NumberValue),
    Text(Seq<char>),
    Array(Seq<JsonValue>),
    Object(Seq<(Seq<char>, JsonValue)>),
}

impl View for JsonNumber {
    type V = NumberValue;

    open spec fn view(&self) -> NumberValue {
        match *self {
            JsonNumber::PosInt(u) => NumberValue::Integer(u as int),
            JsonNumber::NegInt(i) => NumberValue::Integer(i as int),
            JsonNumber::Float(text) => NumberValue::Other(text@),
        }
    }
}

/// What a JSON value holds: its own kind, with every string as its
/// characters and every item and member as what it holds in turn.
pub open spec fn value_of(j: Json) -> JsonValue
    decreases j,
{
    match j {
        Json::Null => JsonValue::Null,
        Json::Bool(b) => JsonValue::Bool(b),
        Json::Number(n) => JsonValue::Number(n@),
        Json::Text(s) => JsonValue::Text(s@),
        Json::Array(items) => JsonValue::Array(
            Seq::new(
                items.len() as nat,
                |i: int|
                    if 0 <= i < items.len() {
                        value_of(items[i])
                    } else {
                        JsonValue::Null
                    },
            ),
        ),
        Json::Object(members) => JsonValue::Object(
            Seq::new(
                members.len() as nat,
                |i: int|
                    if 0 <= i < members.len() {
                        (members[i].0@, value_of(members[i].1))
                    } else {
                        (Seq::<char>::empty(), JsonValue::Null)
                    },
            ),
        ),
    }
}

impl View for Json {
    type V = JsonValue;

    open spec fn view(&self) -> JsonValue {
        value_of(*self)
    }
}

/// The items of an array, each as a mathematical value.
pub open spec fn item_views(items: Seq<Json>) -> Seq<JsonValue> {
    Seq::new(items.len(), |i: int| items[i]@)
}

/// The members of an object, each as a mathematical value.
pub open spec fn member_views(members: Seq<(String, Json)>) -> Seq<(Seq<char>, JsonValue)> {
    Seq::new(members.len(), |i: int| (members[i].0@, members[i].1@))
}

/// An array is, as a mathematical value, the array of its items.
pub proof fn array_view(items: Vec<Json>)
    ensures
        Json::Array(items)@ == JsonValue::Array(item_views(items@)),
{
    assert(Json::Array(items)@->Array_0 =~= item_views(items@));
}

/// An object is, as a mathematical value, the object of its members.
pub proof fn object_view(members: Vec<(String, Json)>)
    ensures
        Json::Object(members)@ == JsonValue::Object(member_views(members@)),
{
    assert(Json::Object(members)@->Object_0 =~= member_views(members@));
}

/// The value of the first member called `key`, if there is one.
pub open spec fn member(members: Seq<(Seq<char>, JsonValue)>, key: Seq<char>) -> Option<JsonValue>
    decreases members.len(),
{
    if members.len() == 0 {
        None
    } else if members[0].0 == key {
        Some(members[0].1)
    } else {
        member(members.drop_first(), key)
    }
}

impl JsonValue {
    /// The text of a JSON string.
    pub open spec fn text(self) -> Option<Seq<char>> {
        match self {
            JsonValue::Text(s) => Some(s),
            _ => None,
        }
    }

    /// The value of a number that is an integer of 64 bits.
    pub open spec fn integer(self) -> Option<int> {
        match self {
            JsonValue::Number(NumberValue::Integer(v)) => Some(v),
            _ => None,
        }
    }

    /// The first member of an object called `key`.
    pub open spec fn field(self, key: Seq<char>) -> Option<JsonValue> {
        match self {
            JsonValue::Object(members) => member(members, key),
            _ => None,
        }
    }

    /// The text of a string member of an object, if it has one.
    pub open spec fn text_field(self, key: Seq<char>) -> Option<Seq<char>> {
        match self.field(key) {
            Some(value) => value.text(),
            None => None,
        }
    }
}

/// A string member of an object: `Some` where the first member called `key`
/// is a string.
pub open spec fn text_member(members: Seq<(Seq<char>, JsonValue)>, key: Seq<char>) -> Option<
    Seq<char>,
> {
    match member(members, key) {
        Some(j) => j.text(),
        None => None,
    }
}

/// A string member that may be left out: `Some(None)` where there is no
/// member called `key` or it is null, `Some(Some(..))` where it is a string,
/// `None` where it is anything else.
pub open spec fn optional_text_member(
    members: Seq<(Seq<char>, JsonValue)>,
    key: Seq<char>,
) -> Option<Option<Seq<char>>> {
    match member(members, key) {
        None => Some(None),
        Some(JsonValue::Null) => Some(None),
        Some(JsonValue::Text(s)) => Some(Some(s)),
        Some(_) => None,
    }
}

/// An integer member between 0 and `max`: `Some` where the first member
/// called `key` is such a number.
pub open spec fn bounded_member(
    members: Seq<(Seq<char>, JsonValue)>,
    key: Seq<char>,
    max: int,
) -> Option<int> {
    match member(members, key) {
        Some(j) => match j.integer() {
            Some(v) => if 0 <= v <= max {
                Some(v)
            } else {
                None
            },
            None => None,
        },
        None => None,
    }
}

/// What `serde_json` reads from `text`: the value, or `None` where the text
/// is no JSON document.
pub uninterp spec fn json_document(text: Seq<char>) -> Option<JsonValue>;

/// What a `serde_json::Value` holds.
pub uninterp spec fn value_tree(value: serde_json::Value) -> JsonValue;

/// `serde_json::Error`, handed on and never looked into.
#[verifier::external_type_specification]
#[verifier::external_body]
pub struct ExJsonError(serde_json::Error);

/// `serde_json::Value`, known only by what `value_tree` says it holds.
#[verifier::external_type_specification]
#[verifier::external_body]
pub struct ExJsonValue(serde_json::Value);

/// `serde_json::from_str` for a `serde_json::Value`. What the value holds is
/// the document that `json_document` names; an error means that there is
/// none.
#[verifier::external_body]
fn read_value(text: &str) -> (r: Result<serde_json::Value, serde_json::Error>)
    ensures
        r matches Ok(value) ==> json_document(text@) == Some(value_tree(value)),
        r is Err ==> json_document(text@) is None,
{
    serde_json::from_str::<serde_json::Value>(text)
}

/// Copies a `serde_json::Value` into a `Json`, node by node and variant by
/// variant: a number by `as_u64`, else by `as_i64`, else as the text that
/// the crate prints for it; an object as its members in the order in which
/// the crate's map hands them out. The copy holds what the value holds.
#[verifier::external_body]
fn lower_value(value: serde_json::Value) -> (j: Json)
    ensures
        j@ == value_tree(value),
{
    match value {
        serde_json::Value::Null => Json::Null,
        serde_json::Value::Bool(b) => Json::Bool(b),
        serde_json::Value::Number(n) => Json::Number(match (n.as_u64(), n.as_i64()) {
            (Some(u), _) => JsonNumber::PosInt(u),
            (_, Some(i)) => JsonNumber::NegInt(i),
            _ => JsonNumber::Float(n.to_string()),
        }),
        serde_json::Value::String(s) => Json::Text(s),
        serde_json::Value::Array(a) => Json::Array(a.into_iter().map(lower_value).collect()),
        serde_json::Value::Object(m) => Json::Object(m.into_iter().map(|(k, v)| (k, lower_value(v))).collect()),
    }
}

/// The text of a UTF-8 byte string, as `std::str::from_utf8` gives it:
/// `Some` exactly where the bytes are valid UTF-8, and then the string whose
/// bytes they are.
#[verifier::external_body]
pub(crate) fn text_of_bytes(bytes: &[u8]) -> (r: Option<&str>)
    ensures
        r is Some <==> valid_utf8(bytes@),
        r matches Some(s) ==> s.spec_bytes() == bytes@,
{
    match std::str::from_utf8(bytes) {
        Ok(s) => Some(s),
        Err(_) => None,
    }
}

/// Reads `text` as a JSON document.
pub fn parse(text: &str) -> (r: Option<Json>)
    ensures
        r matches Some(j) ==> json_document(text@) == Some(j@),
        r is None ==> json_document(text@) is None,
{
    match read_value(text) {
        Ok(value) => Some(lower_value(value)),
        Err(_) => None,
    }
}

/// The lower-case hexadecimal digit of `n`, for `n` below 16.
pub open spec fn hex_digit(n: int) -> char {
    seq!['0', '1', '2', '3', '4', '5', '6', '7', '8', '9', 'a', 'b', 'c', 'd', 'e', 'f'][n]
}

/// How one character stands inside a JSON string literal: the quote, the
/// backslash and the control characters are escaped, every other character
/// stands for itself.
pub open spec fn escape(c: char) -> Seq<char> {
    if c == '"' {
        seq!['\\', '"']
    } else if c == '\\' {
        seq!['\\', '\\']
    } else if c == '\u{8}' {
        seq!['\\', 'b']
    } else if c == '\u{c}' {
        seq!['\\', 'f']
    } else if c == '\n' {
        seq!['\\', 'n']
    } else if c == '\r' {
        seq!['\\', 'r']
    } else if c == '\t' {
        seq!['\\', 't']
    } else if (c as u32) < 0x20 {
        seq!['\\', 'u', '0', '0', hex_digit((c as u32) as int / 16), hex_digit((c as u32) as int % 16)]
    } else {
        seq![c]
    }
}

/// The JSON string literal for `s`: its characters escaped, between two quotes.
pub open spec fn string_literal(s: Seq<char>) -> Seq<char> {
    seq!['"'] + s.map_values(|c: char| escape(c)).flatten() + seq!['"']
}

/// `serde_json::to_string` on a `str`. It writes a quote, each byte through
/// the crate's table of escapes, and a quote; of the two causes of failure
/// that it documents, a `Serialize` impl that fails and a map whose keys are
/// no strings, neither exists for a `str`.
#[verifier::external_body]
fn quote_text(text: &str) -> (r: Result<String, serde_json::Error>)
    ensures
        r is Ok,
        r matches Ok(q) ==> q@ == string_literal(text@),
{
    serde_json::to_string(text)
}

/// Why a value could not be written as JSON.
#[derive(Debug, Clone, Copy, PartialEq, Eq)]
pub enum EncodeError {
    Rejected,
}

impl Json {
    /// The first member called `key`, where the value is an object that has one.
    pub fn get<'a>(&'a self, key: &str) -> (r: Option<&'a Json>)
        ensures
            r matches Some(j) ==> self@.field(key@) == Some(j@),
            r is None ==> self@.field(key@) is None,
    {
        match self {
            Json::Object(members) => {
                proof {
                    object_view(*members);
                }
                find_member(members, key)
            },
            _ => None,
        }
    }

    /// A copy of the text, where the value is a string.
    pub fn to_text(&self) -> (r: Option<String>)
        ensures
            r matches Some(s) ==> self@.text() == Some(s@),
            r is None ==> self@.text() is None,
    {
        match self {
            Json::Text(s) => Some(s.clone()),
            _ => None,
        }
    }

    /// A copy of the text of a string member, where the value is an object
    /// that has one.
    pub fn text_of(&self, key: &str) -> (r: Option<String>)
        ensures
            r matches Some(s) ==> self@.text_field(key@) == Some(s@),
            r is None ==> self@.text_field(key@) is None,
    {
        match self.get(key) {
            Some(value) => value.to_text(),
            None => None,
        }
    }

    /// The JSON string literal for `text`.
    pub fn quote(text: &str) -> (r: Result<String, EncodeError>)
        ensures
            r is Ok,
            r matches Ok(q) ==> q@ == string_literal(text@),
    {
        match quote_text(text) {
            Ok(q) => Ok(q),
            Err(_) => Err(EncodeError::Rejected),
        }
    }
}

/// Finds the first member called `key`.
pub fn find_member<'a>(members: &'a Vec<(String, Json)>, key: &str) -> (r: Option<&'a Json>)
    ensures
        r matches Some(j) ==> member(member_views(members@), key@) == Some(j@),
        r is None ==> member(member_views(members@), key@) is None,
{
    let wanted = String::from_str(key);
    let ghost all = member_views(members@);
    let mut i: usize = 0;
    assert(all.skip(0) =~= all);
    while i < members.len()
        invariant
            i <= members.len(),
            wanted@ == key@,
            all == member_views(members@),
            member(all, key@) == member(all.skip(i as int), key@),
        decreases members.len() - i,
    {
        assert(all.skip(i as int)[0] == all[i as int]);
        if members[i].0 == wanted {
            return Some(&members[i].1);
        }
        assert(all.skip(i as int).drop_first() =~= all.skip(i as int + 1));
        i = i + 1;
    }
    assert(all.skip(i as int).len() == 0);
    None
}

/// Reads a string member.
pub fn read_text(members: &Vec<(String, Json)>, key: &str) -> (r: Option<String>)
    ensures
        r matches Some(s) ==> text_member(member_views(members@), key@) == Some(s@),
        r is None ==> text_member(member_views(members@), key@) is None,
{
    match find_member(members, key) {
        Some(value) => value.to_text(),
        None => None,
    }
}

/// Reads a string member that may be left out. The outer `None` is the error.
pub fn read_optional_text(members: &Vec<(String, Json)>, key: &str) -> (r: Option<Option<String>>)
    ensures
        r matches Some(Some(s)) ==> optional_text_member(member_views(members@), key@) == Some(
            Some(s@),
        ),
        r matches Some(None) ==> optional_text_member(member_views(members@), key@) == Some(
            None::<Seq<char>>,
        ),
        r is None ==> optional_text_member(member_views(members@), key@) is None,
{
    match find_member(members, key) {
        None => Some(None),
        Some(Json::Null) => Some(None),
        Some(Json::Text(s)) => Some(Some(s.clone())),
        Some(_) => None,
    }
}

/// Reads an integer member between 0 and `max`.
pub fn read_bounded(members: &Vec<(String, Json)>, key: &str, max: u64) -> (r: Option<u64>)
    ensures
        r matches Some(v) ==> bounded_member(member_views(members@), key@, max as int) == Some(
            v as int,
        ),
        r is None ==> bounded_member(member_views(members@), key@, max as int) is None,
{
    match find_member(members, key) {
        Some(Json::Number(JsonNumber::PosInt(u))) => if *u <= max {
            Some(*u)
        } else {
            None
        },
        Some(Json::Number(JsonNumber::NegInt(i))) => if *i >= 0 && (*i as u64) <= max {
            Some(*i as u64)
        } else {
            None
        },
        _ => None,
    }
}

} // verus!

//! A JSON value as the plugin's logic reads and writes it.
//!
//! Messages from the Stream Deck host and from the Discord client arrive as
//! JSON text, which `serde_json` reads ([`json_text_value`]); the messages the
//! library builds are written by `serde_json` too ([`json_text`]).

use vstd::prelude::*;
use crate::decimal::{decimal, signed_decimal, u64_to_decimal, i64_to_decimal};
use crate::text::chars_of;
use serde_json::Value;

verus! {

/// A JSON value.
///
/// Numbers keep the distinction that `serde_json` makes: a non-negative
/// integer, a negative integer, or a number with a fraction or exponent.
/// The logic never reads the value of the last kind; it carries the text
/// `serde_json` prints for it, so that it is written back as it was read.
pub enum Json {
    Null,
    Bool(bool),
    /// A non-negative integer.
    UInt(u64),
    /// A negative integer.
    NegInt(i64),
    /// A number that is not an integer, as `serde_json` prints it.
    Float(String),
    Str(String),
    Array(Vec<Json>),
    /// The members of an object, in order; a key occurs at most once.
    Object(Vec<(String, Json)>),
}

/// The members of an object; empty for other values.
pub open spec fn object_entries(j: Json) -> Seq<(String, Json)> {
    match j {
        Json::Object(es) => es@,
        _ => Seq::empty(),
    }
}

/// The value of the first member named `key`.
pub open spec fn member(entries: Seq<(String, Json)>, key: Seq<char>) -> Option<Json>
    decreases entries.len(),
{
    if entries.len() == 0 {
        None
    } else if entries[0].0@ == key {
        Some(entries[0].1)
    } else {
        member(entries.drop_first(), key)
    }
}

/// The member `key` of an object (`Value::get`); `None` for other values.
pub open spec fn get_spec(v: Json, key: Seq<char>) -> Option<Json> {
    match v {
        Json::Object(entries) => member(entries@, key),
        _ => None,
    }
}

/// The text of a string value (`Value::as_str`).
pub open spec fn as_str_spec(v: Option<Json>) -> Option<Seq<char>> {
    match v {
        Some(Json::Str(s)) => Some(s@),
        _ => None,
    }
}

/// The value of an integer that fits in `i64` (`Value::as_i64`).
pub open spec fn as_i64_spec(v: Option<Json>) -> Option<int> {
    match v {
        Some(Json::UInt(n)) => if n <= i64::MAX {
            Some(n as int)
        } else {
            None
        },
        Some(Json::NegInt(n)) => Some(n as int),
        _ => None,
    }
}

/// The member `key` of the member `outer` (`v.get(outer).and_then(|d| d.get(key))`).
pub open spec fn get2_spec(v: Json, outer: Seq<char>, key: Seq<char>) -> Option<Json> {
    match get_spec(v, outer) {
        Some(inner) => get_spec(inner, key),
        None => None,
    }
}

/// The text that the plugin makes of an identifier: a string as it is,
/// an integer in decimal, anything else empty.
pub open spec fn value_text(v: Json) -> Seq<char> {
    match v {
        Json::Str(s) => s@,
        Json::UInt(n) => decimal(n as nat),
        Json::NegInt(n) => signed_decimal(n as int),
        _ => Seq::empty(),
    }
}

/// Whether two string slices hold the same characters.
pub fn str_eq(a: &str, b: &str) -> (r: bool)
    ensures
        r == (a@ == b@),
{
    let av = chars_of(a);
    let bv = chars_of(b);
    if av.len() != bv.len() {
        return false;
    }
    let mut i: usize = 0;
    while i < av.len()
        invariant
            i <= av@.len() == bv@.len(),
            av@ == a@,
            bv@ == b@,
            forall|k: int| 0 <= k < i ==> av@[k] == bv@[k],
        decreases av@.len() - i,
    {
        if av[i] != bv[i] {
            assert(av@[i as int] != bv@[i as int]);
            return false;
        }
        i = i + 1;
    }
    assert(av@ =~= bv@);
    true
}

impl Json {
    /// The member `key` of this object, if it is one and has that member.
    pub fn get(&self, key: &str) -> (r: Option<&Json>)
        ensures
            match r {
                Some(j) => get_spec(*self, key@) == Some(*j),
                None => get_spec(*self, key@) is None,
            },
    {
        match self {
            Json::Object(entries) => {
                let mut i: usize = 0;
                assert(entries@.subrange(0, entries@.len() as int) =~= entries@);
                while i < entries.len()
                    invariant
                        i <= entries@.len(),
                        get_spec(*self, key@) == member(entries@, key@),
                        member(entries@, key@) == member(entries@.subrange(i as int, entries@.len() as int), key@),
                    decreases entries@.len() - i,
                {
                    let ghost rest = entries@.subrange(i as int, entries@.len() as int);
                    assert(rest.drop_first() =~= entries@.subrange(i + 1, entries@.len() as int));
                    assert(rest[0] == entries@[i as int]);
                    if str_eq(entries[i].0.as_str(), key) {
                        return Some(&entries[i].1);
                    }
                    i = i + 1;
                }
                None
            },
            _ => None,
        }
    }

    /// The text of this value if it is a string.
    pub fn as_str(&self) -> (r: Option<&str>)
        ensures
            match r {
                Some(s) => as_str_spec(Some(*self)) == Some(s@),
                None => as_str_spec(Some(*self)) is None,
            },
    {
        match self {
            Json::Str(s) => Some(s.as_str()),
            _ => None,
        }
    }

    /// The value of this integer if it fits in `i64`.
    pub fn as_i64(&self) -> (r: Option<i64>)
        ensures
            match r {
                Some(n) => as_i64_spec(Some(*self)) == Some(n as int),
                None => as_i64_spec(Some(*self)) is None,
            },
    {
        match self {
            Json::UInt(n) => if *n <= 9223372036854775807u64 {
                Some(*n as i64)
            } else {
                None
            },
            Json::NegInt(n) => Some(*n),
            _ => None,
        }
    }

    /// The member `outer`, then its member `key`.
    pub fn get2(&self, outer: &str, key: &str) -> (r: Option<&Json>)
        ensures
            match r {
                Some(j) => get2_spec(*self, outer@, key@) == Some(*j),
                None => get2_spec(*self, outer@, key@) is None,
            },
    {
        match self.get(outer) {
            Some(inner) => inner.get(key),
            None => None,
        }
    }

    /// The text of the string member `key`.
    pub fn str_member(&self, key: &str) -> (r: Option<String>)
        ensures
            match r {
                Some(s) => as_str_spec(get_spec(*self, key@)) == Some(s@),
                None => as_str_spec(get_spec(*self, key@)) is None,
            },
    {
        match self.get(key) {
            Some(Json::Str(s)) => Some(s.clone()),
            _ => None,
        }
    }

    /// A string value.
    pub fn string(s: &str) -> (j: Json)
        ensures
            j matches Json::Str(t) && t@ == s@,
    {
        Json::Str(String::from_str(s))
    }
}

/// `serde_json::Value`, the value that `serde_json` reads and writes.
#[verifier::external_type_specification]
#[verifier::external_body]
pub struct ExJsonValue(serde_json::Value);

/// What `serde_json::from_slice::<serde_json::Value>` makes of `bytes`: the
/// value read, as a [`Json`], or the text of its error.
pub uninterp spec fn json_text_value(bytes: Seq<u8>) -> Result<Json, Seq<char>>;

/// What `serde_json::to_vec` writes for `value` taken as a
/// `serde_json::Value`: its compact JSON text, in UTF-8.
pub uninterp spec fn json_text(value: Json) -> Seq<u8>;

/// A `serde_json::Value` as a [`Json`], variant for variant; an integer is
/// told apart from a number with a fraction by `Number::as_u64` /
/// `Number::as_i64`. It claims nothing: [`parse_json`] names the result.
#[verifier::external_body]
fn json_of_value(value: &Value) -> Json {
    match value {
        Value::Null => Json::Null,
        Value::Bool(b) => Json::Bool(*b),
        Value::Number(n) => match (n.as_u64(), n.as_i64()) {
            (Some(u), _) => Json::UInt(u),
            (None, Some(i)) => Json::NegInt(i),
            (None, None) => Json::Float(n.to_string()),
        },
        Value::String(s) => Json::Str(s.clone()),
        Value::Array(items) => Json::Array(items.iter().map(json_of_value).collect()),
        Value::Object(map) => Json::Object(map.iter().map(|(k, v)| (k.clone(), json_of_value(v))).collect()),
    }
}

/// A [`Json`] as a `serde_json::Value`, variant for variant; a number with a
/// fraction is read back from its text. It claims nothing: [`write_json`]
/// names the text written.
#[verifier::external_body]
fn value_of_json(json: &Json) -> Value {
    match json {
        Json::Null => Value::Null,
        Json::Bool(b) => Value::Bool(*b),
        Json::UInt(u) => Value::Number((*u).into()),
        Json::NegInt(i) => Value::Number((*i).into()),
        Json::Float(text) => serde_json::from_str::<Value>(text).unwrap_or(Value::Null),
        Json::Str(s) => Value::String(s.clone()),
        Json::Array(items) => Value::Array(items.iter().map(value_of_json).collect()),
        Json::Object(entries) => Value::Object(entries.iter().map(|(k, v)| (k.clone(), value_of_json(v))).collect()),
    }
}

/// `serde_json::from_slice::<serde_json::Value>`: reads `bytes` as JSON text.
/// The value read (as a [`Json`]), or the error's text, is named
/// [`json_text_value`]; what it is on given bytes is not stated.
#[verifier::external_body]
pub(crate) fn parse_json(bytes: &[u8]) -> (r: Result<Json, String>)
    ensures
        match r {
            Ok(j) => json_text_value(bytes@) == Ok::<Json, Seq<char>>(j),
            Err(e) => json_text_value(bytes@) == Err::<Json, Seq<char>>(e@),
        },
{
    match serde_json::from_slice::<Value>(bytes) {
        Ok(value) => Ok(json_of_value(&value)),
        Err(error) => Err(error.to_string()),
    }
}

/// `serde_json::to_vec` on `value` taken as a `serde_json::Value`: its
/// compact JSON text, named [`json_text`]. It cannot fail on a
/// `serde_json::Value` (its keys are strings and its `Serialize` never
/// refuses; writing to a `Vec` cannot fail); the empty text stands for a
/// failure that does not occur.
#[verifier::external_body]
pub(crate) fn write_json(value: &Json) -> (bytes: Vec<u8>)
    ensures
        bytes@ == json_text(*value),
{
    match serde_json::to_vec(&value_of_json(value)) {
        Ok(bytes) => bytes,
        Err(_) => Vec::new(),
    }
}

impl Json {
    /// The JSON text of this value, as it is sent.
    pub fn to_text(&self) -> (bytes: Vec<u8>)
        ensures
            bytes@ == json_text(*self),
    {
        write_json(self)
    }
}

/// `j` is an object with `n` members.
pub open spec fn is_obj(j: Json, n: nat) -> bool {
    j is Object && object_entries(j).len() == n
}

/// The name of member `i` of `j`.
pub open spec fn jkey(j: Json, i: int) -> Seq<char> {
    object_entries(j)[i].0@
}

/// The value of member `i` of `j`.
pub open spec fn jval(j: Json, i: int) -> Json {
    object_entries(j)[i].1
}

/// `j` is the string `s`.
pub open spec fn is_text(j: Json, s: Seq<char>) -> bool {
    as_str_spec(Some(j)) == Some(s)
}

/// Member `i` of `j` is named `k` and holds the string `s`.
pub open spec fn text_at(j: Json, i: int, k: Seq<char>, s: Seq<char>) -> bool {
    jkey(j, i) == k && is_text(jval(j, i), s)
}

/// The elements of an array; empty for other values.
pub open spec fn array_items(j: Json) -> Seq<Json> {
    match j {
        Json::Array(items) => items@,
        _ => Seq::empty(),
    }
}

/// A member named `key` holding `value`.
pub fn entry(key: &str, value: Json) -> (e: (String, Json))
    ensures
        e.0@ == key@,
        e.1 == value,
{
    (String::from_str(key), value)
}

/// A member named `key` holding the string `value`.
pub fn text_entry(key: &str, value: &str) -> (e: (String, Json))
    ensures
        e.0@ == key@,
        is_text(e.1, value@),
{
    (String::from_str(key), Json::Str(String::from_str(value)))
}

/// Turns an identifier into text: a string as it is, an integer in decimal,
/// anything else into the empty string.
pub fn value_to_string(value: &Json) -> (s: String)
    ensures
        s@ == value_text(*value),
{
    match value {
        Json::Str(t) => t.clone(),
        Json::UInt(n) => u64_to_decimal(*n),
        Json::NegInt(n) => i64_to_decimal(*n),
        _ => String::new(),
    }
}

} // verus!

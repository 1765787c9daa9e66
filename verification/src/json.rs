//! JSON documents as plain values. `serde_json` reads and writes the text;
//! everything that looks inside a document is done here.

use serde_json::{Number, Value};
use vstd::prelude::*;
use crate::text::same_text;

verus! {

/// A JSON number: a non-negative integer, a negative integer, or any other
/// number, kept as its numeral.
#[derive(Debug, Clone)]
pub enum JsonNumber {
    PosInt(u64),
    NegInt(i64),
    Float(String),
}

/// A JSON document. The entries of an object are in the order in which the
/// reader handed them out.
#[derive(Debug)]
pub enum Json {
    Null,
    Bool(bool),
    Number(JsonNumber),
    Text(String),
    Array(Vec<Json>),
    Object(Vec<(String, Json)>),
}

/// `serde_json::Value`, known here as a type and nothing more: the
/// functions below move it into a `Json` and back.
#[verifier::external_type_specification]
#[verifier::external_body]
pub struct ExValue(serde_json::Value);

/// `serde_json::Number`, known here as a type and nothing more.
#[verifier::external_type_specification]
#[verifier::external_body]
pub struct ExNumber(serde_json::Number);

/// What `serde_json::from_str` makes of a text: the document, or the
/// reader's message where the text is no JSON.
pub uninterp spec fn parsed(text: Seq<char>) -> Result<Json, Seq<char>>;

/// What `serde_json::to_string_pretty` writes for a document.
pub uninterp spec fn rendered(doc: Json) -> Result<Seq<char>, Seq<char>>;

/// Moves a `serde_json::Number` into a `JsonNumber`. Nothing is claimed of
/// it here: `read_document` names the result of the whole reading.
#[verifier::external_body]
fn number_of(n: &Number) -> JsonNumber {
    match (n.as_u64(), n.as_i64()) {
        (Some(u), _) => JsonNumber::PosInt(u),
        (_, Some(i)) => JsonNumber::NegInt(i),
        _ => JsonNumber::Float(n.to_string()),
    }
}

/// Moves a `serde_json::Value` into a `Json`, node for node. Nothing is
/// claimed of it here: `read_document` names the result of the whole reading.
#[verifier::external_body]
fn json_of_value(v: &Value) -> Json {
    match v {
        Value::Null => Json::Null,
        Value::Bool(b) => Json::Bool(*b),
        Value::Number(n) => Json::Number(number_of(n)),
        Value::String(s) => Json::Text(s.clone()),
        Value::Array(a) => Json::Array(a.iter().map(json_of_value).collect()),
        Value::Object(m) => Json::Object(
            m.iter().map(|(k, x)| (k.clone(), json_of_value(x))).collect(),
        ),
    }
}

/// Moves a `JsonNumber` into a `serde_json::Value`. Nothing is claimed of it
/// here: `write_document` names the result of the whole writing.
#[verifier::external_body]
fn value_of_number(n: &JsonNumber) -> Value {
    match n {
        JsonNumber::PosInt(u) => Value::from(*u),
        JsonNumber::NegInt(i) => Value::from(*i),
        JsonNumber::Float(t) => t.parse::<Number>().map_or(Value::Null, Value::Number),
    }
}

/// Moves a `Json` into a `serde_json::Value`, node for node. Nothing is
/// claimed of it here: `write_document` names the result of the whole writing.
#[verifier::external_body]
fn value_of_json(j: &Json) -> Value {
    match j {
        Json::Null => Value::Null,
        Json::Bool(b) => Value::Bool(*b),
        Json::Number(n) => value_of_number(n),
        Json::Text(s) => Value::String(s.clone()),
        Json::Array(a) => Value::Array(a.iter().map(value_of_json).collect()),
        Json::Object(m) => Value::Object(
            m.iter().map(|(k, x)| (k.clone(), value_of_json(x))).collect(),
        ),
    }
}

/// Reads a JSON text with `serde_json::from_str`. The result is a function
/// of the text alone: the document, or the reader's message.
#[verifier::external_body]
pub(crate) fn read_document(text: &str) -> (r: Result<Json, String>)
    ensures
        match r {
            Ok(doc) => parsed(text@) == Ok::<Json, Seq<char>>(doc),
            Err(e) => parsed(text@) == Err::<Json, Seq<char>>(e@),
        },
{
    match serde_json::from_str::<Value>(text) {
        Ok(v) => Ok(json_of_value(&v)),
        Err(e) => Err(e.to_string()),
    }
}

/// Writes a document with `serde_json::to_string_pretty`. The result is a
/// function of the document alone: the text, or the writer's message.
#[verifier::external_body]
pub(crate) fn write_document(doc: &Json) -> (r: Result<String, String>)
    ensures
        match r {
            Ok(t) => rendered(*doc) == Ok::<Seq<char>, Seq<char>>(t@),
            Err(e) => rendered(*doc) == Err::<Seq<char>, Seq<char>>(e@),
        },
{
    match serde_json::to_string_pretty(&value_of_json(doc)) {
        Ok(t) => Ok(t),
        Err(e) => Err(e.to_string()),
    }
}

/// What `serde_json::to_string` writes for a document: one line.
pub uninterp spec fn rendered_line(doc: Json) -> Result<Seq<char>, Seq<char>>;

/// Writes a document on one line with `serde_json::to_string`. The result
/// is a function of the document alone: the text, or the writer's message.
#[verifier::external_body]
pub(crate) fn write_line(doc: &Json) -> (r: Result<String, String>)
    ensures
        match r {
            Ok(t) => rendered_line(*doc) == Ok::<Seq<char>, Seq<char>>(t@),
            Err(e) => rendered_line(*doc) == Err::<Seq<char>, Seq<char>>(e@),
        },
{
    match serde_json::to_string(&value_of_json(doc)) {
        Ok(t) => Ok(t),
        Err(e) => Err(e.to_string()),
    }
}

/// The index of the first entry of `entries` whose key is `key`.
pub open spec fn entry_index(entries: Seq<(String, Json)>, key: Seq<char>) -> Option<int>
    decreases entries.len(),
{
    if entries.len() == 0 {
        None
    } else if entries[0].0@ == key {
        Some(0)
    } else {
        match entry_index(entries.skip(1), key) {
            Some(i) => Some(i + 1),
            None => None,
        }
    }
}

/// Takes the value of the first entry whose key is `key` out of `entries`.
fn take_entry(entries: Vec<(String, Json)>, key: &str) -> (r: Option<Json>)
    ensures
        r == match entry_index(entries@, key@) {
            Some(k) => Some(entries@[k].1),
            None => None,
        },
{
    let ghost all = entries@;
    let mut rest = entries;
    let mut i: usize = 0;
    assert(all.skip(0) == all);
    while i < rest.len()
        invariant
            i <= rest.len(),
            rest@ == all,
            entries@ == all,
            entry_index(all, key@) == match entry_index(all.skip(i as int), key@) {
                Some(k) => Some(k + i),
                None => None,
            },
        decreases rest.len() - i,
    {
        assert(all.skip(i as int).skip(1) == all.skip(i + 1));
        assert(all.skip(i as int)[0] == all[i as int]);
        if same_text(rest[i].0.as_str(), key) {
            assert(entry_index(all.skip(i as int), key@) == Some(0int));
            let (_, value) = rest.remove(i);
            return Some(value);
        }
        i = i + 1;
    }
    assert(all.skip(i as int).len() == 0);
    None
}

impl Json {
    /// The value under `key`, where this is an object that has the key.
    pub open spec fn field(self, key: Seq<char>) -> Option<Json> {
        match self {
            Json::Object(entries) => match entry_index(entries@, key) {
                Some(i) => Some(entries@[i].1),
                None => None,
            },
            _ => None,
        }
    }

    /// The text, where this is a string.
    pub open spec fn text(self) -> Option<Seq<char>> {
        match self {
            Json::Text(s) => Some(s@),
            _ => None,
        }
    }

    /// The items, where this is an array.
    pub open spec fn items(self) -> Option<Seq<Json>> {
        match self {
            Json::Array(a) => Some(a@),
            _ => None,
        }
    }

    /// The number, where this is a non-negative integer that fits 64 bits.
    pub open spec fn unsigned(self) -> Option<u64> {
        match self {
            Json::Number(JsonNumber::PosInt(u)) => Some(u),
            _ => None,
        }
    }

    /// The number, where this is an integer that fits 64 bits with a sign.
    pub open spec fn signed(self) -> Option<i64> {
        match self {
            Json::Number(JsonNumber::PosInt(u)) => if u <= i64::MAX {
                Some(u as i64)
            } else {
                None
            },
            Json::Number(JsonNumber::NegInt(i)) => Some(i),
            _ => None,
        }
    }

    /// The truth value, where this is a boolean.
    pub open spec fn truth(self) -> Option<bool> {
        match self {
            Json::Bool(b) => Some(b),
            _ => None,
        }
    }

    /// The value under `key`, where this is an object that has the key.
    pub fn get(&self, key: &str) -> (r: Option<&Json>)
        ensures
            match r {
                Some(v) => self.field(key@) == Some(*v),
                None => self.field(key@) is None,
            },
    {
        match self {
            Json::Object(entries) => {
                let mut i: usize = 0;
                assert(entries@.skip(0) == entries@);
                while i < entries.len()
                    invariant
                        i <= entries.len(),
                        *self == Json::Object(*entries),
                        entry_index(entries@, key@) == match entry_index(
                            entries@.skip(i as int),
                            key@,
                        ) {
                            Some(k) => Some(k + i),
                            None => None,
                        },
                    decreases entries.len() - i,
                {
                    assert(entries@.skip(i as int).skip(1) == entries@.skip(i + 1));
                    assert(entries@.skip(i as int)[0] == entries@[i as int]);
                    if same_text(entries[i].0.as_str(), key) {
                        assert(entry_index(entries@.skip(i as int), key@) == Some(0int));
                        return Some(&entries[i].1);
                    }
                    i = i + 1;
                }
                assert(entries@.skip(i as int).len() == 0);
                None
            },
            _ => None,
        }
    }

    /// Gives up the document for the value under `key`.
    pub fn into_field(self, key: &str) -> (r: Option<Json>)
        ensures
            r == self.field(key@),
    {
        match self {
            Json::Object(entries) => take_entry(entries, key),
            _ => None,
        }
    }

    /// The text, where this is a string.
    pub fn as_str(&self) -> (r: Option<&str>)
        ensures
            match r {
                Some(s) => self.text() == Some(s@),
                None => self.text() is None,
            },
    {
        match self {
            Json::Text(s) => Some(s.as_str()),
            _ => None,
        }
    }

    /// The items, where this is an array.
    pub fn as_array(&self) -> (r: Option<&Vec<Json>>)
        ensures
            match r {
                Some(a) => self.items() == Some(a@),
                None => self.items() is None,
            },
    {
        match self {
            Json::Array(a) => Some(a),
            _ => None,
        }
    }

    /// The entries, where this is an object.
    pub fn as_object(&self) -> (r: Option<&Vec<(String, Json)>>)
        ensures
            match r {
                Some(m) => *self == Json::Object(*m),
                None => !(self is Object),
            },
    {
        match self {
            Json::Object(m) => Some(m),
            _ => None,
        }
    }

    /// The number, where this is a non-negative integer that fits 64 bits.
    pub fn as_u64(&self) -> (r: Option<u64>)
        ensures
            r == self.unsigned(),
    {
        match self {
            Json::Number(JsonNumber::PosInt(u)) => Some(*u),
            _ => None,
        }
    }

    /// The number, where this is an integer that fits 64 bits with a sign.
    pub fn as_i64(&self) -> (r: Option<i64>)
        ensures
            r == self.signed(),
    {
        match self {
            Json::Number(JsonNumber::PosInt(u)) => if *u <= 0x7fff_ffff_ffff_ffffu64 {
                Some(*u as i64)
            } else {
                None
            },
            Json::Number(JsonNumber::NegInt(i)) => Some(*i),
            _ => None,
        }
    }

    /// The truth value, where this is a boolean.
    pub fn as_bool(&self) -> (r: Option<bool>)
        ensures
            r == self.truth(),
    {
        match self {
            Json::Bool(b) => Some(*b),
            _ => None,
        }
    }
}

} // verus!

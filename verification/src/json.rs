//! A JSON document model and the accessors the client logic reads it by.
//!
//! The shape mirrors a parsed JSON value: numbers keep what an integer
//! accessor can read (a non-negative integer, a negative integer, or a value
//! with a fraction or exponent, whose digits no accessor reads), and objects
//! keep their members in document order.

use vstd::prelude::*;
use crate::text::str_eq;

verus! {

/// A JSON number, as the integer accessors see it.
#[derive(Debug)]
pub enum JsonNumber {
    /// A non-negative integer.
    PosInt(u64),
    /// A negative integer.
    NegInt(i64),
    /// A number with a fraction or an exponent.
    Float,
}

/// A JSON value.
#[derive(Debug)]
pub enum JsonValue {
    Null,
    Bool(bool),
    Number(JsonNumber),
    Str(String),
    Array(Vec<JsonValue>),
    Object(Vec<(String, JsonValue)>),
}

/// The value of the first member named `key`.
pub open spec fn entry_lookup(entries: Seq<(String, JsonValue)>, key: Seq<char>) -> Option<
    JsonValue,
>
    decreases entries.len(),
{
    if entries.len() == 0 {
        None
    } else if entries[0].0@ == key {
        Some(entries[0].1)
    } else {
        entry_lookup(entries.drop_first(), key)
    }
}

/// `Value::get` with a string key: a member of an object, `None` otherwise.
pub open spec fn json_get(v: JsonValue, key: Seq<char>) -> Option<JsonValue> {
    match v {
        JsonValue::Object(entries) => entry_lookup(entries@, key),
        _ => None,
    }
}

/// `Value::as_str`.
pub open spec fn json_as_str(v: JsonValue) -> Option<Seq<char>> {
    match v {
        JsonValue::Str(s) => Some(s@),
        _ => None,
    }
}

/// `Value::as_u64`.
pub open spec fn json_as_u64(v: JsonValue) -> Option<u64> {
    match v {
        JsonValue::Number(JsonNumber::PosInt(n)) => Some(n),
        _ => None,
    }
}

/// `Value::as_i64`: a non-negative integer only when it fits in an `i64`.
pub open spec fn json_as_i64(v: JsonValue) -> Option<i64> {
    match v {
        JsonValue::Number(JsonNumber::PosInt(n)) => if n <= i64::MAX {
            Some(n as i64)
        } else {
            None
        },
        JsonValue::Number(JsonNumber::NegInt(n)) => Some(n),
        _ => None,
    }
}

/// `Value::as_bool`.
pub open spec fn json_as_bool(v: JsonValue) -> Option<bool> {
    match v {
        JsonValue::Bool(b) => Some(b),
        _ => None,
    }
}

/// `Value::as_array`.
pub open spec fn json_as_array(v: JsonValue) -> Option<Seq<JsonValue>> {
    match v {
        JsonValue::Array(items) => Some(items@),
        _ => None,
    }
}

/// `Value::as_object`.
pub open spec fn json_as_object(v: JsonValue) -> Option<Seq<(String, JsonValue)>> {
    match v {
        JsonValue::Object(entries) => Some(entries@),
        _ => None,
    }
}

/// The string member `key` of `v`, if `v` is an object that has one.
pub open spec fn json_str_at(v: JsonValue, key: Seq<char>) -> Option<Seq<char>> {
    match json_get(v, key) {
        Some(x) => json_as_str(x),
        None => None,
    }
}

/// The string member `key` of `v`, or the empty string.
pub open spec fn json_string_or_empty(v: JsonValue, key: Seq<char>) -> Seq<char> {
    match json_str_at(v, key) {
        Some(s) => s,
        None => Seq::empty(),
    }
}

/// The value reached from `v` by following the object members `path`.
pub open spec fn json_path(v: JsonValue, path: Seq<Seq<char>>) -> Option<JsonValue>
    decreases path.len(),
{
    if path.len() == 0 {
        Some(v)
    } else {
        match json_get(v, path[0]) {
            Some(next) => json_path(next, path.drop_first()),
            None => None,
        }
    }
}

/// The first member named `key` of `entries`, searching from index `i` on.
fn lookup_from<'a>(entries: &'a Vec<(String, JsonValue)>, key: &str) -> (r: Option<&'a JsonValue>)
    ensures
        match r {
            Some(x) => entry_lookup(entries@, key@) == Some(*x),
            None => entry_lookup(entries@, key@) is None,
        },
{
    let mut i: usize = 0;
    assert(entries@.subrange(0, entries@.len() as int) =~= entries@);
    while i < entries.len()
        invariant
            i <= entries@.len(),
            entry_lookup(entries@, key@) == entry_lookup(entries@.subrange(i as int, entries@.len() as int), key@),
        decreases entries@.len() - i,
    {
        let ghost rest = entries@.subrange(i as int, entries@.len() as int);
        assert(rest.drop_first() =~= entries@.subrange(i + 1, entries@.len() as int));
        if str_eq(entries[i].0.as_str(), key) {
            return Some(&entries[i].1);
        }
        i = i + 1;
    }
    None
}

impl JsonValue {
    /// The member `key` of an object; `None` for anything else.
    pub fn get(&self, key: &str) -> (r: Option<&JsonValue>)
        ensures
            match r {
                Some(x) => json_get(*self, key@) == Some(*x),
                None => json_get(*self, key@) is None,
            },
    {
        match self {
            JsonValue::Object(entries) => lookup_from(entries, key),
            _ => None,
        }
    }

    /// The text of a string value.
    pub fn as_str(&self) -> (r: Option<&str>)
        ensures
            match r {
                Some(s) => json_as_str(*self) == Some(s@),
                None => json_as_str(*self) is None,
            },
    {
        match self {
            JsonValue::Str(s) => Some(s.as_str()),
            _ => None,
        }
    }

    /// A non-negative integer value.
    pub fn as_u64(&self) -> (r: Option<u64>)
        ensures
            r == json_as_u64(*self),
    {
        match self {
            JsonValue::Number(JsonNumber::PosInt(n)) => Some(*n),
            _ => None,
        }
    }

    /// An integer value that fits in an `i64`.
    pub fn as_i64(&self) -> (r: Option<i64>)
        ensures
            r == json_as_i64(*self),
    {
        match self {
            JsonValue::Number(JsonNumber::PosInt(n)) => {
                if *n <= 9223372036854775807u64 {
                    Some(*n as i64)
                } else {
                    None
                }
            },
            JsonValue::Number(JsonNumber::NegInt(n)) => Some(*n),
            _ => None,
        }
    }

    /// A boolean value.
    pub fn as_bool(&self) -> (r: Option<bool>)
        ensures
            r == json_as_bool(*self),
    {
        match self {
            JsonValue::Bool(b) => Some(*b),
            _ => None,
        }
    }

    /// The items of an array.
    pub fn as_array(&self) -> (r: Option<&Vec<JsonValue>>)
        ensures
            match r {
                Some(items) => json_as_array(*self) == Some(items@),
                None => json_as_array(*self) is None,
            },
    {
        match self {
            JsonValue::Array(items) => Some(items),
            _ => None,
        }
    }

    /// The members of an object, in document order.
    pub fn as_object(&self) -> (r: Option<&Vec<(String, JsonValue)>>)
        ensures
            match r {
                Some(entries) => json_as_object(*self) == Some(entries@),
                None => json_as_object(*self) is None,
            },
    {
        match self {
            JsonValue::Object(entries) => Some(entries),
            _ => None,
        }
    }

    /// Whether this is an object.
    pub fn is_object(&self) -> (r: bool)
        ensures
            r == (*self is Object),
    {
        match self {
            JsonValue::Object(_) => true,
            _ => false,
        }
    }

    /// The string member `key`, if this is an object that has one.
    pub fn str_at(&self, key: &str) -> (r: Option<&str>)
        ensures
            match r {
                Some(s) => json_str_at(*self, key@) == Some(s@),
                None => json_str_at(*self, key@) is None,
            },
    {
        match self.get(key) {
            Some(v) => v.as_str(),
            None => None,
        }
    }
}

/// The string member `key` of `value`, or the empty string.
pub fn value_string(value: &JsonValue, key: &str) -> (out: String)
    ensures
        out@ == json_string_or_empty(*value, key@),
{
    match value.str_at(key) {
        Some(s) => s.to_owned(),
        None => String::new(),
    }
}

/// Follows two object members, as the pointer `/first/second` does.
pub fn get_path2<'a>(value: &'a JsonValue, first: &str, second: &str) -> (r: Option<&'a JsonValue>)
    ensures
        match r {
            Some(x) => json_path(*value, seq![first@, second@]) == Some(*x),
            None => json_path(*value, seq![first@, second@]) is None,
        },
{
    let ghost path = seq![first@, second@];
    assert(path.drop_first().drop_first() =~= Seq::<Seq<char>>::empty());
    assert(path.drop_first() =~= seq![second@]);
    proof {
        reveal_with_fuel(json_path, 3);
    }
    match value.get(first) {
        Some(v) => v.get(second),
        None => None,
    }
}

/// Follows three object members, as the pointer `/first/second/third` does.
pub fn get_path3<'a>(value: &'a JsonValue, first: &str, second: &str, third: &str) -> (r: Option<
    &'a JsonValue,
>)
    ensures
        match r {
            Some(x) => json_path(*value, seq![first@, second@, third@]) == Some(*x),
            None => json_path(*value, seq![first@, second@, third@]) is None,
        },
{
    let ghost path = seq![first@, second@, third@];
    assert(path.drop_first() =~= seq![second@, third@]);
    proof {
        reveal_with_fuel(json_path, 2);
    }
    match value.get(first) {
        Some(v) => get_path2(v, second, third),
        None => None,
    }
}

// ---------------------------------------------------------------------------
// Parsing
// ---------------------------------------------------------------------------

/// A JSON value as `serde_json` parses it.
#[verifier::external_type_specification]
#[verifier::external_body]
pub struct ExSerdeJsonValue(serde_json::Value);

/// What `serde_json::from_slice` makes of `bytes`, in this library's
/// model: the document, or the parse error's text.
pub uninterp spec fn json_document(bytes: Seq<u8>) -> Result<JsonValue, Seq<char>>;

/// Carries a `serde_json::Value` over into this library's model, variant
/// for variant: a number as a non-negative integer when `as_u64` reads it,
/// else a negative one when `as_i64` does, else one with a fraction;
/// members and items in the order the parsed value holds them.
#[verifier::external_body]
fn json_from_serde(v: &serde_json::Value) -> (r: JsonValue) {
    match v {
        serde_json::Value::Null => JsonValue::Null,
        serde_json::Value::Bool(b) => JsonValue::Bool(*b),
        serde_json::Value::Number(n) => JsonValue::Number(match (n.as_u64(), n.as_i64()) {
            (Some(u), _) => JsonNumber::PosInt(u),
            (None, Some(i)) => JsonNumber::NegInt(i),
            _ => JsonNumber::Float,
        }),
        serde_json::Value::String(t) => JsonValue::Str(t.clone()),
        serde_json::Value::Array(a) => JsonValue::Array(a.iter().map(json_from_serde).collect()),
        serde_json::Value::Object(m) => JsonValue::Object(m.iter().map(|(k, x)| (k.clone(), json_from_serde(x))).collect()),
    }
}

/// `serde_json::from_slice::<serde_json::Value>` on `bytes`, carried over
/// by `json_from_serde`, with the error's text on failure; the contract
/// names the result.
#[verifier::external_body]
pub(crate) fn parse_json_document(bytes: &[u8]) -> (r: Result<JsonValue, String>)
    ensures
        match r {
            Ok(doc) => json_document(bytes@) == Ok::<JsonValue, Seq<char>>(doc),
            Err(e) => json_document(bytes@) == Err::<JsonValue, Seq<char>>(e@),
        },
{
    match serde_json::from_slice::<serde_json::Value>(bytes) {
        Ok(v) => Ok(json_from_serde(&v)),
        Err(e) => Err(e.to_string()),
    }
}

} // verus!

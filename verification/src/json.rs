//! A JSON value as the tool formatting reads it: objects keep their entries
//! in the order they are walked, and a number carries its printed text and
//! its integer readings.
use vstd::prelude::*;

verus! {

/// A JSON number: its text as printed, and its value when it is an
/// unsigned or a signed 64-bit integer.
#[derive(Debug)]
pub struct JsonNumber {
    pub text: String,
    pub as_u64: Option<u64>,
    pub as_i64: Option<i64>,
}

#[derive(Debug)]
pub enum JsonValue {
    Null,
    Bool(bool),
    Number(JsonNumber),
    String(String),
    Array(Vec<JsonValue>),
    Object(Vec<(String, JsonValue)>),
}

/// The position of the first entry named `key`.
pub open spec fn key_index(entries: Seq<(String, JsonValue)>, key: Seq<char>) -> Option<int>
    decreases entries.len(),
{
    if entries.len() == 0 {
        None
    } else {
        match key_index(entries.drop_last(), key) {
            Some(i) => Some(i),
            None => if entries.last().0@ == key {
                Some(entries.len() - 1)
            } else {
                None
            },
        }
    }
}

/// `Value::get(key)`: the member `key` of an object.
pub open spec fn get_spec(v: JsonValue, key: Seq<char>) -> Option<JsonValue> {
    match v {
        JsonValue::Object(entries) => match key_index(entries@, key) {
            Some(i) => Some(entries@[i].1),
            None => None,
        },
        _ => None,
    }
}

/// `Value::as_str`, `as_bool`, `as_i64`, `as_u64` on an optional value.
pub open spec fn str_of(v: Option<JsonValue>) -> Option<Seq<char>> {
    match v {
        Some(JsonValue::String(s)) => Some(s@),
        _ => None,
    }
}

pub open spec fn bool_of(v: Option<JsonValue>) -> Option<bool> {
    match v {
        Some(JsonValue::Bool(b)) => Some(b),
        _ => None,
    }
}

pub open spec fn i64_of(v: Option<JsonValue>) -> Option<i64> {
    match v {
        Some(JsonValue::Number(n)) => n.as_i64,
        _ => None,
    }
}

pub open spec fn u64_of(v: Option<JsonValue>) -> Option<u64> {
    match v {
        Some(JsonValue::Number(n)) => n.as_u64,
        _ => None,
    }
}

/// `Value::get(key)` on a value that may be absent.
pub open spec fn member(v: Option<JsonValue>, key: Seq<char>) -> Option<JsonValue> {
    match v {
        Some(x) => get_spec(x, key),
        None => None,
    }
}

impl JsonValue {
    /// The member `key` of an object (the first entry of that name).
    pub fn get(&self, key: &str) -> (r: Option<&JsonValue>)
        ensures
            match r {
                Some(x) => get_spec(*self, key@) == Some(*x),
                None => get_spec(*self, key@) is None,
            },
    {
        match self {
            JsonValue::Object(entries) => {
                let mut i: usize = 0;
                while i < entries.len()
                    invariant
                        i <= entries.len(),
                        *self == JsonValue::Object(*entries),
                        key_index(entries@.take(i as int), key@) is None,
                    decreases entries.len() - i,
                {
                    assert(entries@.take(i + 1).drop_last() =~= entries@.take(i as int));
                    if str_eq(entries[i].0.as_str(), key) {
                        proof {
                            lemma_key_index_prefix(entries@, i as int, key@);
                            assert(get_spec(*self, key@) == Some(entries@[i as int].1));
                        }
                        return Some(&entries[i].1);
                    }
                    i += 1;
                }
                assert(entries@.take(entries.len() as int) =~= entries@);
                None
            },
            _ => None,
        }
    }

    pub fn as_str(&self) -> (r: Option<&str>)
        ensures
            match r {
                Some(s) => str_of(Some(*self)) == Some(s@),
                None => str_of(Some(*self)) is None,
            },
    {
        match self {
            JsonValue::String(s) => Some(s.as_str()),
            _ => None,
        }
    }

    pub fn as_bool(&self) -> (r: Option<bool>)
        ensures
            r == bool_of(Some(*self)),
    {
        match self {
            JsonValue::Bool(b) => Some(*b),
            _ => None,
        }
    }

    pub fn as_i64(&self) -> (r: Option<i64>)
        ensures
            r == i64_of(Some(*self)),
    {
        match self {
            JsonValue::Number(n) => n.as_i64,
            _ => None,
        }
    }

    pub fn as_u64(&self) -> (r: Option<u64>)
        ensures
            r == u64_of(Some(*self)),
    {
        match self {
            JsonValue::Number(n) => n.as_u64,
            _ => None,
        }
    }
}

/// When the first `i` entries do not hold `key` and entry `i` does, `i` is
/// the first position of `key`.
proof fn lemma_key_index_prefix(entries: Seq<(String, JsonValue)>, i: int, key: Seq<char>)
    requires
        0 <= i < entries.len(),
        key_index(entries.take(i), key) is None,
        entries[i].0@ == key,
    ensures
        key_index(entries, key) == Some(i),
    decreases entries.len(),
{
    if i < entries.len() - 1 {
        assert(entries.drop_last().take(i) =~= entries.take(i));
        lemma_key_index_prefix(entries.drop_last(), i, key);
    } else {
        assert(entries.drop_last() =~= entries.take(i));
    }
}

/// The member `key` of a value that may be absent.
pub fn member_of<'a>(v: Option<&'a JsonValue>, key: &str) -> (r: Option<&'a JsonValue>)
    ensures
        match r {
            Some(x) => member(
                match v {
                    Some(y) => Some(*y),
                    None => None,
                },
                key@,
            ) == Some(*x),
            None => member(
                match v {
                    Some(y) => Some(*y),
                    None => None,
                },
                key@,
            ) is None,
        },
{
    match v {
        Some(x) => x.get(key),
        None => None,
    }
}

/// Two texts are equal.
pub fn str_eq(a: &str, b: &str) -> (r: bool)
    ensures
        r == (a@ == b@),
{
    let ca = crate::text::chars_of(a);
    crate::text::chars_eq_str(ca.as_slice(), b)
}

} // verus!

//! A JSON value model that the protocol layer reads and builds.

use vstd::prelude::*;

verus! {

/// A JSON value. An integer is held as an `i64` or, when it is not negative,
/// as a `u64`; any other number is kept in its textual form, so that no value
/// is lost.
#[derive(Debug)]
pub enum JsonValue {
    Null,
    Bool(bool),
    Number(i64),
    Unsigned(u64),
    OtherNumber(String),
    Str(String),
    Array(Vec<JsonValue>),
    Object(Vec<(String, JsonValue)>),
}

/// The value of the first member named `key`, if any.
pub open spec fn member(entries: Seq<(String, JsonValue)>, key: Seq<char>) -> Option<JsonValue>
    decreases entries.len(),
{
    if entries.len() == 0 {
        None
    } else if entries[0].0@ == key {
        Some(entries[0].1)
    } else {
        member(entries.drop_first(), key)
    }
}

/// Whether two strings hold the same characters.
pub fn str_equal(a: &str, b: &str) -> (r: bool)
    ensures
        r == (a@ == b@),
{
    let n = a.unicode_len();
    if n != b.unicode_len() {
        return false;
    }
    let mut i: usize = 0;
    while i < n
        invariant
            n == a@.len(),
            n == b@.len(),
            i <= n,
            forall|j: int| 0 <= j < i ==> a@[j] == b@[j],
        decreases n - i,
    {
        if a.get_char(i) != b.get_char(i) {
            return false;
        }
        i = i + 1;
    }
    assert(a@ =~= b@);
    true
}

impl JsonValue {
    /// The member `key` of an object; `None` for any other value.
    pub open spec fn field(&self, key: Seq<char>) -> Option<JsonValue> {
        match self {
            JsonValue::Object(entries) => member(entries@, key),
            _ => None,
        }
    }

    /// The text of a string value.
    pub open spec fn text(&self) -> Option<Seq<char>> {
        match self {
            JsonValue::Str(s) => Some(s@),
            _ => None,
        }
    }

    /// The member `key` of an object, as `serde_json`'s `Value::get` reads it.
    pub fn get(&self, key: &str) -> (r: Option<&JsonValue>)
        ensures
            r.is_some() == self.field(key@).is_some(),
            r matches Some(v) ==> self.field(key@) == Some(*v),
    {
        match self {
            JsonValue::Object(entries) => {
                let mut i: usize = 0;
                assert(entries@.subrange(0, entries@.len() as int) =~= entries@);
                while i < entries.len()
                    invariant
                        i <= entries@.len(),
                        self.field(key@) == member(entries@, key@),
                        member(entries@, key@) == member(entries@.subrange(i as int, entries@.len() as int), key@),
                    decreases entries@.len() - i,
                {
                    proof {
                        let rest = entries@.subrange(i as int, entries@.len() as int);
                        assert(rest.drop_first() =~= entries@.subrange(i + 1, entries@.len() as int));
                        assert(rest[0] == entries@[i as int]);
                    }
                    if str_equal(entries[i].0.as_str(), key) {
                        assert(member(entries@.subrange(i as int, entries@.len() as int), key@)
                            == Some(entries@[i as int].1));
                        return Some(&entries[i].1);
                    }
                    i = i + 1;
                }
                proof {
                    assert(entries@.subrange(i as int, entries@.len() as int).len() == 0);
                }
                None
            },
            _ => None,
        }
    }

    /// The text of a string value.
    pub fn as_str(&self) -> (r: Option<&String>)
        ensures
            r.is_some() == (self is Str),
            r matches Some(s) ==> self.text() == Some(s@),
    {
        match self {
            JsonValue::Str(s) => Some(s),
            _ => None,
        }
    }

    /// The flag of a boolean value.
    pub fn as_bool(&self) -> (r: Option<bool>)
        ensures
            r == (match self {
                JsonValue::Bool(b) => Some(*b),
                _ => None::<bool>,
            }),
    {
        match self {
            JsonValue::Bool(b) => Some(*b),
            _ => None,
        }
    }
}

/// A string value holding `s`.
pub fn text_value(s: &str) -> (r: JsonValue)
    ensures
        r.text() == Some(s@),
{
    JsonValue::Str(String::from_str(s))
}

/// Appends the member `key: value` to an object under construction.
pub fn put(entries: &mut Vec<(String, JsonValue)>, key: &str, value: JsonValue)
    ensures
        final(entries)@.len() == old(entries)@.len() + 1,
        final(entries)@.subrange(0, old(entries)@.len() as int) == old(entries)@,
        final(entries)@.last().0@ == key@,
        final(entries)@.last().1 == value,
{
    let ghost before = entries@;
    entries.push((String::from_str(key), value));
    assert(entries@.subrange(0, before.len() as int) =~= before);
}

/// An optional string as a JSON value: the text, or null.
pub fn optional_text(s: Option<String>) -> (r: JsonValue)
    ensures
        r == opt_text_json(s),
{
    match s {
        Some(t) => JsonValue::Str(t),
        None => JsonValue::Null,
    }
}

/// The members of an object, in order; none for any other value.
pub open spec fn members(v: JsonValue) -> Seq<(String, JsonValue)> {
    match v {
        JsonValue::Object(entries) => entries@,
        _ => Seq::empty(),
    }
}

/// The member names of an object, in order.
pub open spec fn keys(v: JsonValue) -> Seq<Seq<char>> {
    members(v).map_values(|e: (String, JsonValue)| e.0@)
}

/// The value of the `i`-th member of an object.
pub open spec fn at(v: JsonValue, i: int) -> JsonValue {
    members(v)[i].1
}

/// The elements of an array; none for any other value.
pub open spec fn elements(v: JsonValue) -> Seq<JsonValue> {
    match v {
        JsonValue::Array(items) => items@,
        _ => Seq::empty(),
    }
}

/// `v` is a string holding `t`.
pub open spec fn is_text(v: JsonValue, t: Seq<char>) -> bool {
    v.text() == Some(t)
}

/// An optional string as JSON: the text, or null.
pub open spec fn opt_text_json(s: Option<String>) -> JsonValue {
    match s {
        Some(t) => JsonValue::Str(t),
        None => JsonValue::Null,
    }
}

/// An optional flag as JSON: the flag, or null.
pub open spec fn opt_flag_json(b: Option<bool>) -> JsonValue {
    match b {
        Some(f) => JsonValue::Bool(f),
        None => JsonValue::Null,
    }
}

} // verus!

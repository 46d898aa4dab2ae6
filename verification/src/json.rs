//! A JSON document as plain values, the form in which IPC payloads, event
//! data and capability parameters reach the library's logic.
use vstd::prelude::*;

use crate::text;

verus! {

/// A JSON value. Numbers keep their textual form; objects keep their fields
/// in order.
#[derive(Debug)]
pub enum JsonValue {
    Null,
    Bool(bool),
    Number(String),
    Str(String),
    Array(Vec<JsonValue>),
    Object(Vec<(String, JsonValue)>),
}

/// The value stored under `key` among `fields` (the first field with that
/// name).
pub open spec fn lookup(fields: Seq<(String, JsonValue)>, key: Seq<char>) -> Option<JsonValue>
    decreases fields.len(),
{
    if fields.len() == 0 {
        None
    } else if fields[0].0@ == key {
        Some(fields[0].1)
    } else {
        lookup(fields.drop_first(), key)
    }
}

/// `lookup` finds the first field named `key`.
pub proof fn lemma_lookup_at(fields: Seq<(String, JsonValue)>, key: Seq<char>, i: int)
    requires
        0 <= i < fields.len(),
        fields[i].0@ == key,
        forall|j: int| 0 <= j < i ==> fields[j].0@ != key,
    ensures
        lookup(fields, key) == Some(fields[i].1),
    decreases i,
{
    if i > 0 {
        let t = fields.drop_first();
        assert forall|j: int| 0 <= j < i - 1 implies t[j].0@ != key by {
            assert(t[j] == fields[j + 1]);
        }
        assert(t[i - 1] == fields[i]);
        lemma_lookup_at(t, key, i - 1);
    }
}

impl JsonValue {
    /// The value under `key` when `self` is an object that has that key.
    pub open spec fn field(self, key: Seq<char>) -> Option<JsonValue> {
        match self {
            JsonValue::Object(fields) => lookup(fields@, key),
            _ => None,
        }
    }

    /// The text of `self` when it is a JSON string.
    pub open spec fn text(self) -> Option<Seq<char>> {
        match self {
            JsonValue::Str(s) => Some(s@),
            _ => None,
        }
    }

    /// The text of the string stored under `key`, when there is one.
    pub open spec fn str_field(self, key: Seq<char>) -> Option<Seq<char>> {
        match self.field(key) {
            Some(v) => v.text(),
            None => None,
        }
    }

    /// `Value::get`: the value under `key` when `self` is an object.
    pub fn get(&self, key: &str) -> (r: Option<&JsonValue>)
        ensures
            match r {
                Some(v) => self.field(key@) == Some(*v),
                None => self.field(key@) is None,
            },
    {
        match self {
            JsonValue::Object(fields) => {
                let mut i: usize = 0;
                assert(fields@.subrange(0, fields.len() as int) =~= fields@);
                while i < fields.len()
                    invariant
                        i <= fields.len(),
                        self.field(key@) == lookup(fields@, key@),
                        lookup(fields@, key@) == lookup(fields@.subrange(i as int, fields.len() as int), key@),
                    decreases fields.len() - i,
                {
                    let ghost rest = fields@.subrange(i as int, fields.len() as int);
                    assert(rest.drop_first() =~= fields@.subrange(i + 1, fields.len() as int));
                    assert(rest[0] == fields@[i as int]);
                    if text::str_eq(fields[i].0.as_str(), key) {
                        return Some(&fields[i].1);
                    }
                    i = i + 1;
                }
                None
            },
            _ => None,
        }
    }

    /// `Value::as_str`: the text when `self` is a string.
    pub fn as_str(&self) -> (r: Option<&str>)
        ensures
            match r {
                Some(s) => self.text() == Some(s@),
                None => self.text() is None,
            },
    {
        match self {
            JsonValue::Str(s) => Some(s.as_str()),
            _ => None,
        }
    }

    /// `Value::is_null`.
    pub fn is_null(&self) -> (r: bool)
        ensures
            r == (self is Null),
    {
        match self {
            JsonValue::Null => true,
            _ => false,
        }
    }

    /// The string stored under `key` (`value.get(key).and_then(Value::as_str)`).
    pub fn get_str(&self, key: &str) -> (r: Option<&str>)
        ensures
            match r {
                Some(s) => self.str_field(key@) == Some(s@),
                None => self.str_field(key@) is None,
            },
    {
        match self.get(key) {
            Some(v) => v.as_str(),
            None => None,
        }
    }

    /// The value under `key`, taken out of `self`.
    pub fn into_field(self, key: &str) -> (r: Option<JsonValue>)
        ensures
            r == self.field(key@),
    {
        match self {
            JsonValue::Object(fields) => {
                let ghost orig = fields@;
                let mut fields = fields;
                let mut i: usize = 0;
                assert(orig.subrange(0, orig.len() as int) =~= orig);
                while i < fields.len()
                    invariant
                        fields@ == orig,
                        i <= fields.len(),
                        self.field(key@) == lookup(orig, key@),
                        lookup(orig, key@) == lookup(orig.subrange(i as int, orig.len() as int), key@),
                    decreases fields.len() - i,
                {
                    let ghost rest = orig.subrange(i as int, orig.len() as int);
                    assert(rest.drop_first() =~= orig.subrange(i + 1, orig.len() as int));
                    assert(rest[0] == orig[i as int]);
                    if text::str_eq(fields[i].0.as_str(), key) {
                        let (_, v) = fields.remove(i);
                        return Some(v);
                    }
                    i = i + 1;
                }
                None
            },
            _ => None,
        }
    }

    /// A JSON string holding `s`.
    pub fn string(s: &str) -> (r: JsonValue)
        ensures
            r.text() == Some(s@),
    {
        JsonValue::Str(text::owned(s))
    }
}

} // verus!

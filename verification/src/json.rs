//! A JSON document as plain values, for reading an answer of the advice
//! service.

use vstd::prelude::*;
use vstd::string::*;

verus! {

/// A JSON value. A number is kept as the text it was written with.
#[derive(Debug, PartialEq, Eq)]
pub enum JsonValue {
    Null,
    Bool(bool),
    Number(String),
    Text(String),
    Array(Vec<JsonValue>),
    Object(Vec<(String, JsonValue)>),
}

/// The value of the first entry of `entries` whose key is `key`, or `Null`
/// where no entry has that key.
pub open spec fn entry_value(entries: Seq<(String, JsonValue)>, key: Seq<char>) -> JsonValue
    decreases entries.len(),
{
    if entries.len() == 0 {
        JsonValue::Null
    } else if entries[0].0@ == key {
        entries[0].1
    } else {
        entry_value(entries.drop_first(), key)
    }
}

/// Whether an entry of `entries` has the key `key`.
pub open spec fn has_entry(entries: Seq<(String, JsonValue)>, key: Seq<char>) -> bool
    decreases entries.len(),
{
    if entries.len() == 0 {
        false
    } else if entries[0].0@ == key {
        true
    } else {
        has_entry(entries.drop_first(), key)
    }
}

impl JsonValue {
    /// Whether `self` is an object with a member under `key`.
    pub open spec fn has_member(self, key: Seq<char>) -> bool {
        match self {
            JsonValue::Object(entries) => has_entry(entries@, key),
            _ => false,
        }
    }

    /// Whether `self` is an array with an element at `index`.
    pub open spec fn has_element(self, index: int) -> bool {
        match self {
            JsonValue::Array(items) => 0 <= index < items@.len(),
            _ => false,
        }
    }

    /// What indexing by a key gives: the member of an object under `key`;
    /// `Null` where there is none or `self` is no object.
    pub open spec fn member(self, key: Seq<char>) -> JsonValue {
        match self {
            JsonValue::Object(entries) => entry_value(entries@, key),
            _ => JsonValue::Null,
        }
    }

    /// What indexing by a position gives: the element of an array at
    /// `index`; `Null` where there is none or `self` is no array.
    pub open spec fn element(self, index: int) -> JsonValue {
        match self {
            JsonValue::Array(items) => if 0 <= index < items@.len() {
                items@[index]
            } else {
                JsonValue::Null
            },
            _ => JsonValue::Null,
        }
    }

    /// The characters of a JSON string; `None` for any other value.
    pub open spec fn text(self) -> Option<Seq<char>> {
        match self {
            JsonValue::Text(s) => Some(s@),
            _ => None,
        }
    }

    /// Looks up the member under `key`: the value of the first entry with
    /// that key, be it `Null`, and `None` where `self` has no such entry or
    /// is no object.
    pub fn get(&self, key: &str) -> (found: Option<&JsonValue>)
        ensures
            found is Some <==> self.has_member(key@),
            found matches Some(v) ==> *v == self.member(key@),
            found is None ==> self.member(key@) == JsonValue::Null,
    {
        match self {
            JsonValue::Object(entries) => {
                let wanted = String::from_str(key);
                let mut at: usize = 0;
                proof {
                    assert(entries@.skip(0) == entries@);
                }
                while at < entries.len()
                    invariant
                        at <= entries.len(),
                        wanted@ == key@,
                        self.member(key@) == entry_value(entries@, key@),
                        self.has_member(key@) == has_entry(entries@, key@),
                        has_entry(entries@, key@) == has_entry(entries@.skip(at as int), key@),
                        entry_value(entries@, key@) == entry_value(
                            entries@.skip(at as int),
                            key@,
                        ),
                    decreases entries.len() - at,
                {
                    proof {
                        assert(entries@.skip(at as int)[0] == entries@[at as int]);
                        assert(entries@.skip(at as int).drop_first() == entries@.skip(at + 1));
                    }
                    if entries[at].0 == wanted {
                        return Some(&entries[at].1);
                    }
                    at = at + 1;
                }
                None
            },
            _ => None,
        }
    }

    /// Looks up the element at `index`: the value there, be it `Null`, and
    /// `None` where the array is shorter or `self` is no array.
    pub fn at(&self, index: usize) -> (found: Option<&JsonValue>)
        ensures
            found is Some <==> self.has_element(index as int),
            found matches Some(v) ==> *v == self.element(index as int),
            found is None ==> self.element(index as int) == JsonValue::Null,
    {
        match self {
            JsonValue::Array(items) => {
                if index < items.len() {
                    Some(&items[index])
                } else {
                    None
                }
            },
            _ => None,
        }
    }

    /// The text of a JSON string.
    pub fn as_str(&self) -> (found: Option<&str>)
        ensures
            found is Some <==> self.text() is Some,
            found matches Some(s) ==> Some(s@) == self.text(),
    {
        match self {
            JsonValue::Text(s) => Some(s.as_str()),
            _ => None,
        }
    }
}

} // verus!

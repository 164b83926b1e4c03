//! A JSON document as the adapters read it, with the accessors they use.
//!
//! Numbers keep only what the adapters ask of them: their value when it is a
//! non-negative integer that fits in `u64`.  Objects keep their members in
//! order; a document read from text holds each key at most once.
use vstd::prelude::*;

verus! {

/// A JSON value.
#[derive(Debug, PartialEq, Eq)]
pub enum JsonValue {
    Null,
    Bool(bool),
    /// A number: `Some(n)` when it is a non-negative integer `n` that fits in
    /// `u64`, else `None`.
    Number(Option<u64>),
    Str(String),
    Array(Vec<JsonValue>),
    Object(Vec<(String, JsonValue)>),
}

/// The value of the first member named `key`.
pub open spec fn member(entries: Seq<(String, JsonValue)>, key: Seq<char>) -> Option<JsonValue>
    decreases entries.len(),
{
    if entries.len() == 0 {
        None
    } else if entries[0].0@ == key {
        Some(entries[0].1)
    } else {
        member(entries.drop_first(), key)
    }
}

impl JsonValue {
    /// `value.get(key)`: the member `key` of an object.
    pub open spec fn spec_get(self, key: Seq<char>) -> Option<JsonValue> {
        match self {
            JsonValue::Object(entries) => member(entries@, key),
            _ => None,
        }
    }

    /// `value[key]`: the member `key` of an object, `null` when there is none.
    pub open spec fn spec_field(self, key: Seq<char>) -> JsonValue {
        match self.spec_get(key) {
            Some(v) => v,
            None => JsonValue::Null,
        }
    }

    /// `value.as_str()`.
    pub open spec fn spec_as_str(self) -> Option<String> {
        match self {
            JsonValue::Str(s) => Some(s),
            _ => None,
        }
    }

    /// `value.as_u64()`.
    pub open spec fn spec_as_u64(self) -> Option<u64> {
        match self {
            JsonValue::Number(n) => n,
            _ => None,
        }
    }

    /// `value.as_array()`.
    pub open spec fn spec_as_array(self) -> Option<Seq<JsonValue>> {
        match self {
            JsonValue::Array(items) => Some(items@),
            _ => None,
        }
    }

    /// `value[key].as_str()`.
    pub open spec fn str_at(self, key: Seq<char>) -> Option<String> {
        self.spec_field(key).spec_as_str()
    }

    /// `value[key].as_u64()`.
    pub open spec fn u64_at(self, key: Seq<char>) -> Option<u64> {
        self.spec_field(key).spec_as_u64()
    }

    /// `value[key].as_array()`.
    pub open spec fn array_at(self, key: Seq<char>) -> Option<Seq<JsonValue>> {
        self.spec_field(key).spec_as_array()
    }

    /// Whether the value is `null`.
    pub fn is_null(&self) -> (r: bool)
        ensures
            r == (*self is Null),
    {
        match self {
            JsonValue::Null => true,
            _ => false,
        }
    }

    /// The member `key` of an object.
    pub fn get(&self, key: &str) -> (r: Option<&JsonValue>)
        ensures
            match r {
                Some(v) => self.spec_get(key@) == Some(*v),
                None => self.spec_get(key@) is None,
            },
    {
        match self {
            JsonValue::Object(entries) => {
                let wanted = key.to_owned();
                let n = entries.len();
                let mut i: usize = 0;
                assert(entries@.skip(0) =~= entries@);
                while i < n
                    invariant
                        i <= n,
                        n == entries@.len(),
                        wanted@ == key@,
                        self.spec_get(key@) == member(entries@, key@),
                        member(entries@, key@) == member(entries@.skip(i as int), key@),
                    decreases n - i,
                {
                    let ghost rest = entries@.skip(i as int);
                    assert(rest.drop_first() =~= entries@.skip(i + 1));
                    assert(rest[0] == entries@[i as int]);
                    if entries[i].0 == wanted {
                        return Some(&entries[i].1);
                    }
                    i = i + 1;
                }
                None
            },
            _ => None,
        }
    }

    /// `value[key].as_str()`.
    pub fn str_field(&self, key: &str) -> (r: Option<&String>)
        ensures
            match r {
                Some(s) => self.str_at(key@) == Some(*s),
                None => self.str_at(key@) is None,
            },
    {
        match self.get(key) {
            Some(JsonValue::Str(s)) => Some(s),
            _ => None,
        }
    }

    /// `value[key].as_u64()`.
    pub fn u64_field(&self, key: &str) -> (r: Option<u64>)
        ensures
            r == self.u64_at(key@),
    {
        match self.get(key) {
            Some(JsonValue::Number(n)) => *n,
            _ => None,
        }
    }

    /// `value[key].as_array()`.
    pub fn array_field(&self, key: &str) -> (r: Option<&Vec<JsonValue>>)
        ensures
            match r {
                Some(items) => self.array_at(key@) == Some(items@),
                None => self.array_at(key@) is None,
            },
    {
        match self.get(key) {
            Some(JsonValue::Array(items)) => Some(items),
            _ => None,
        }
    }
}

} // verus!

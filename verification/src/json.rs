//! A plain model of the JSON values the remote sources answer with.
//!
//! The HTTP layer outside this crate parses a response body and hands the
//! page in as a [`JsonValue`]; every decoding decision on it — which field
//! is read, which shape is malformed, where the next-page marker sits — is
//! made here, in verified code. Object fields keep their arrival order and
//! a key is looked up by its first occurrence.

use vstd::prelude::*;

verus! {

/// The subset of JSON the sources use. A number outside the `u64` range,
/// and any other shape the pipelines never read, arrives as `Other`.
#[derive(Debug)]
pub enum JsonValue {
    Null,
    Bool(bool),
    UInt(u64),
    Str(String),
    Array(Vec<JsonValue>),
    Object(Vec<(String, JsonValue)>),
    Other,
}

/// The value under the first field named `key`, if any.
pub open spec fn json_lookup(fields: Seq<(String, JsonValue)>, key: Seq<char>) -> Option<JsonValue>
    decreases fields.len(),
{
    if fields.len() == 0 {
        None
    } else if fields[0].0@ == key {
        Some(fields[0].1)
    } else {
        json_lookup(fields.drop_first(), key)
    }
}

/// Field access on a value: the lookup when it is an object, nothing otherwise.
pub open spec fn json_get(v: JsonValue, key: Seq<char>) -> Option<JsonValue> {
    match v {
        JsonValue::Object(fields) => json_lookup(fields@, key),
        _ => None,
    }
}

proof fn lemma_lookup_at(fields: Seq<(String, JsonValue)>, key: Seq<char>, i: int)
    requires
        0 <= i < fields.len(),
        forall|j: int| 0 <= j < i ==> fields[j].0@ != key,
        fields[i].0@ == key,
    ensures
        json_lookup(fields, key) == Some(fields[i].1),
    decreases i,
{
    if i > 0 {
        lemma_lookup_at(fields.drop_first(), key, i - 1);
    }
}

proof fn lemma_lookup_absent(fields: Seq<(String, JsonValue)>, key: Seq<char>)
    requires
        forall|j: int| 0 <= j < fields.len() ==> fields[j].0@ != key,
    ensures
        json_lookup(fields, key) is None,
    decreases fields.len(),
{
    if fields.len() > 0 {
        lemma_lookup_absent(fields.drop_first(), key);
    }
}

/// The value under the first field named `key` of an object's field list.
pub fn lookup_field<'a>(fields: &'a Vec<(String, JsonValue)>, key: &str) -> (r: Option<
    &'a JsonValue,
>)
    ensures
        match r {
            Some(v) => json_lookup(fields@, key@) == Some(*v),
            None => json_lookup(fields@, key@) is None,
        },
{
    let owned_key: String = key.to_owned();
    let mut i: usize = 0;
    while i < fields.len()
        invariant
            i <= fields@.len(),
            owned_key@ == key@,
            forall|j: int| 0 <= j < i ==> fields@[j].0@ != key@,
        decreases fields@.len() - i,
    {
        if fields[i].0 == owned_key {
            proof {
                lemma_lookup_at(fields@, key@, i as int);
            }
            return Some(&fields[i].1);
        }
        i = i + 1;
    }
    proof {
        lemma_lookup_absent(fields@, key@);
    }
    None
}

impl JsonValue {
    /// The field list, when the value is an object.
    pub fn as_object<'a>(&'a self) -> (r: Option<&'a Vec<(String, JsonValue)>>)
        ensures
            match r {
                Some(fields) => *self == JsonValue::Object(*fields),
                None => !(*self is Object),
            },
    {
        match self {
            JsonValue::Object(fields) => Some(fields),
            _ => None,
        }
    }

    /// The element list, when the value is an array.
    pub fn as_array<'a>(&'a self) -> (r: Option<&'a Vec<JsonValue>>)
        ensures
            match r {
                Some(items) => *self == JsonValue::Array(*items),
                None => !(*self is Array),
            },
    {
        match self {
            JsonValue::Array(items) => Some(items),
            _ => None,
        }
    }

    /// The number, when the value is an unsigned integer.
    pub fn as_u64(&self) -> (r: Option<u64>)
        ensures
            match r {
                Some(n) => *self == JsonValue::UInt(n),
                None => !(*self is UInt),
            },
    {
        match self {
            JsonValue::UInt(n) => Some(*n),
            _ => None,
        }
    }

    /// The text, when the value is a string.
    pub fn as_str<'a>(&'a self) -> (r: Option<&'a String>)
        ensures
            match r {
                Some(s) => *self == JsonValue::Str(*s),
                None => !(*self is Str),
            },
    {
        match self {
            JsonValue::Str(s) => Some(s),
            _ => None,
        }
    }

    /// Whether the value is a boolean holding `b`.
    pub fn is_bool(&self, b: bool) -> (r: bool)
        ensures
            r == (*self == JsonValue::Bool(b)),
    {
        match self {
            JsonValue::Bool(x) => *x == b,
            _ => false,
        }
    }

    /// The value under the first field named `key`, when this is an object
    /// that has one.
    pub fn get<'a>(&'a self, key: &str) -> (r: Option<&'a JsonValue>)
        ensures
            match r {
                Some(v) => json_get(*self, key@) == Some(*v),
                None => json_get(*self, key@) is None,
            },
    {
        match self {
            JsonValue::Object(fields) => lookup_field(fields, key),
            _ => None,
        }
    }
}

} // verus!

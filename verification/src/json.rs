//! A plain model of a structured (JSON) document.
//!
//! The wire format the protocol speaks is JSON. The library holds a decoded
//! document as a [`JsonValue`] tree of plain values, so that every rule about
//! what a payload means can be stated and proved over that tree. Parsing raw
//! text into the tree is the one step delegated to an outside crate, behind
//! [`parse_json`].

use vstd::prelude::*;

verus! {

/// A structured document value: the decoded form of one JSON value.
///
/// Numbers are held as signed 64-bit integers, the only numeric form the
/// protocol's payloads use; a number outside that range (or with a fractional
/// part) is recorded as [`JsonValue::NonInt`] so that it is never mistaken
/// for real data. Object members are held in the order the parser hands
/// them out.
pub enum JsonValue {
    Null,
    Bool(bool),
    Int(i64),
    NonInt,
    Str(String),
    Arr(Vec<JsonValue>),
    Obj(Vec<(String, JsonValue)>),
}

/// The member of `fields` named `key`, searching front to back.
pub open spec fn spec_member(fields: Seq<(String, JsonValue)>, key: Seq<char>) -> Option<JsonValue>
    decreases fields.len(),
{
    if fields.len() == 0 {
        None
    } else if fields[0].0@ == key {
        Some(fields[0].1)
    } else {
        spec_member(fields.drop_first(), key)
    }
}

/// The field named `key` of `v`, if `v` is an object that has one.
pub open spec fn spec_field(v: JsonValue, key: Seq<char>) -> Option<JsonValue> {
    match v {
        JsonValue::Obj(fields) => spec_member(fields@, key),
        _ => None,
    }
}

impl JsonValue {
    /// The field named `key`, if this value is an object that has one;
    /// the first member wins when a name repeats.
    #[verifier::loop_isolation(false)]
    pub fn get<'a>(&'a self, key: &str) -> (r: Option<&'a JsonValue>)
        ensures
            match r {
                Some(f) => spec_field(*self, key@) == Some(*f),
                None => spec_field(*self, key@) is None,
            },
    {
        match self {
            JsonValue::Obj(fields) => {
                let n = fields.len();
                let mut i: usize = 0;
                proof {
                    assert(fields@.skip(0) =~= fields@);
                }
                while i < n
                    invariant
                        n == fields@.len(),
                        i <= n,
                        spec_member(fields@, key@) == spec_member(fields@.skip(i as int), key@),
                        forall|j: int| 0 <= j < i ==> fields@[j].0@ != key@,
                    decreases n - i,
                {
                    proof {
                        assert(fields@.skip(i as int)[0] == fields@[i as int]);
                        assert(fields@.skip(i as int).drop_first() =~= fields@.skip(i + 1));
                    }
                    if crate::text::str_eq(fields[i].0.as_str(), key) {
                        proof {
                            assert(spec_member(fields@.skip(i as int), key@)
                                == Some(fields@[i as int].1));
                        }
                        return Some(&fields[i].1);
                    }
                    i = i + 1;
                }
                proof {
                    assert(fields@.skip(n as int).len() == 0);
                }
                None
            },
            _ => None,
        }
    }

    /// The held characters, if this value is a string.
    pub fn as_str(&self) -> (r: Option<&String>)
        ensures
            match r {
                Some(s) => *self == JsonValue::Str(*s),
                None => !(*self is Str),
            },
    {
        match self {
            JsonValue::Str(s) => Some(s),
            _ => None,
        }
    }

    /// The held integer, if this value is a number within signed 64-bit range.
    pub fn as_i64(&self) -> (r: Option<i64>)
        ensures
            match r {
                Some(i) => *self == JsonValue::Int(i),
                None => !(*self is Int),
            },
    {
        match self {
            JsonValue::Int(i) => Some(*i),
            _ => None,
        }
    }

    /// The held boolean, if this value is one.
    pub fn as_bool(&self) -> (r: Option<bool>)
        ensures
            match r {
                Some(b) => *self == JsonValue::Bool(b),
                None => !(*self is Bool),
            },
    {
        match self {
            JsonValue::Bool(b) => Some(*b),
            _ => None,
        }
    }

    /// The held elements, if this value is an array.
    pub fn as_arr(&self) -> (r: Option<&Vec<JsonValue>>)
        ensures
            match r {
                Some(a) => *self == JsonValue::Arr(*a),
                None => !(*self is Arr),
            },
    {
        match self {
            JsonValue::Arr(a) => Some(a),
            _ => None,
        }
    }

    /// The held members, if this value is an object.
    pub fn as_obj(&self) -> (r: Option<&Vec<(String, JsonValue)>>)
        ensures
            match r {
                Some(o) => *self == JsonValue::Obj(*o),
                None => !(*self is Obj),
            },
    {
        match self {
            JsonValue::Obj(o) => Some(o),
            _ => None,
        }
    }

    /// Whether this value is `null`.
    pub fn is_null(&self) -> (r: bool)
        ensures
            r == (*self is Null),
    {
        match self {
            JsonValue::Null => true,
            _ => false,
        }
    }
}

/// The outside parser's own value tree, declared so that it can pass
/// through [`json_of_value`]; the library never looks inside it.
#[verifier::external_type_specification]
#[verifier::external_body]
pub struct ExJsonValue(serde_json::Value);

/// What the outside parser returns for a given text: a tree of plain values,
/// or `None` when the text is not well-formed JSON.
pub uninterp spec fn spec_json_parse(text: Seq<char>) -> Option<JsonValue>;

/// Relies on `serde_json::from_str::<serde_json::Value>`: parses JSON text
/// into a value tree, `Err` on malformed text. The result depends on the
/// text alone (`serde_json` holds object members sorted by key).
#[verifier::external_body]
pub(crate) fn parse_json(text: &str) -> (r: Option<JsonValue>)
    ensures
        r == spec_json_parse(text@),
{
    match serde_json::from_str::<serde_json::Value>(text) {
        Ok(v) => Some(json_of_value(v)),
        Err(_) => None,
    }
}

/// Relies on `serde_json::Value`'s shape: rebuilds the outside crate's value
/// tree as the library's own, one constructor for each of its variants.
#[verifier::external_body]
fn json_of_value(v: serde_json::Value) -> JsonValue {
    match v {
        serde_json::Value::Null => JsonValue::Null,
        serde_json::Value::Bool(b) => JsonValue::Bool(b),
        serde_json::Value::Number(n) => n.as_i64().map_or(JsonValue::NonInt, JsonValue::Int),
        serde_json::Value::String(s) => JsonValue::Str(s),
        serde_json::Value::Array(a) => JsonValue::Arr(a.into_iter().map(json_of_value).collect()),
        serde_json::Value::Object(m) => JsonValue::Obj(
            m.into_iter().map(|(k, w)| (k, json_of_value(w))).collect(),
        ),
    }
}

} // verus!

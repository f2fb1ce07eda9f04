//! JSON values held as plain data, and the trusted boundary to the JSON
//! parser. The gateway's frames are parsed by `serde_json` into a generic
//! value; everything the protocol reads out of that value is verified code
//! over [`JsonVal`].

use crate::text::str_eq;
use vstd::prelude::*;

verus! {

/// A parsed JSON value as plain data. Numbers are kept as their unsigned
/// integer value where they have one; the protocol reads no other numbers,
/// so the rest collapse to [`JsonVal::NumOther`].
#[derive(Debug, PartialEq)]
pub enum JsonVal {
    Null,
    Bool(bool),
    UInt(u64),
    NumOther,
    Str(String),
    Arr(Vec<JsonVal>),
    Obj(Vec<(String, JsonVal)>),
}

/// What `serde_json` parses the given bytes to: the value for a strict JSON
/// document (an object's duplicate keys keeping the last occurrence), and
/// nothing for ill-formed input. The result is a function of the bytes
/// alone.
pub uninterp spec fn json_of(s: Seq<u8>) -> Option<JsonVal>;

#[verifier::external_type_specification]
#[verifier::external_body]
pub struct ExValue(serde_json::Value);

/// Relies on `serde_json::Value`: each variant is carried over one for one;
/// a number becomes its `u64` value where it has one.
#[verifier::external_body]
fn val_from_json(v: serde_json::Value) -> JsonVal {
    match v {
        serde_json::Value::Null => JsonVal::Null,
        serde_json::Value::Bool(b) => JsonVal::Bool(b),
        serde_json::Value::Number(n) => match n.as_u64() {
            Some(u) => JsonVal::UInt(u),
            None => JsonVal::NumOther,
        },
        serde_json::Value::String(s) => JsonVal::Str(s),
        serde_json::Value::Array(a) => JsonVal::Arr(a.into_iter().map(val_from_json).collect()),
        serde_json::Value::Object(m) => JsonVal::Obj(
            m.into_iter().map(|(k, x)| (k, val_from_json(x))).collect(),
        ),
    }
}

/// Relies on `serde_json::from_slice`: strict JSON parsing of a byte slice.
/// Its result depends on the bytes alone, named here by [`json_of`].
#[verifier::external_body]
pub fn parse_json(b: &[u8]) -> (r: Option<JsonVal>)
    ensures
        r == json_of(b@),
{
    match serde_json::from_slice::<serde_json::Value>(b) {
        Ok(v) => Some(val_from_json(v)),
        Err(_) => None,
    }
}

impl JsonVal {
    /// The characters of a JSON string value.
    pub open spec fn str_of(self) -> Option<Seq<char>> {
        match self {
            JsonVal::Str(s) => Some(s@),
            _ => None,
        }
    }

    /// The value of a JSON number that fits a `u32`; strings are not
    /// accepted here.
    pub open spec fn u32_of(self) -> Option<u32> {
        match self {
            JsonVal::UInt(u) => if u <= 0xffff_ffff {
                Some(u as u32)
            } else {
                None
            },
            _ => None,
        }
    }

    /// The value of a JSON boolean.
    pub open spec fn bool_of(self) -> Option<bool> {
        match self {
            JsonVal::Bool(b) => Some(b),
            _ => None,
        }
    }

    /// Copy a JSON string value out.
    pub fn as_string(&self) -> (r: Option<String>)
        ensures
            match r {
                Some(s) => self.str_of() == Some(s@),
                None => self.str_of() is None,
            },
    {
        match self {
            JsonVal::Str(s) => Some(s.as_str().to_owned()),
            _ => None,
        }
    }

    /// Read a JSON number as a `u32`.
    pub fn as_u32(&self) -> (r: Option<u32>)
        ensures
            r == self.u32_of(),
    {
        match self {
            JsonVal::UInt(u) => if *u <= 0xffff_ffff {
                Some(*u as u32)
            } else {
                None
            },
            _ => None,
        }
    }

    /// Read a JSON boolean.
    pub fn as_bool(&self) -> (r: Option<bool>)
        ensures
            r == self.bool_of(),
    {
        match self {
            JsonVal::Bool(b) => Some(*b),
            _ => None,
        }
    }
}

/// The value under `key` among object fields: the first binding with that
/// name.
pub open spec fn obj_get_spec(fields: Seq<(String, JsonVal)>, key: Seq<char>) -> Option<JsonVal>
    decreases fields.len(),
{
    if fields.len() == 0 {
        None
    } else if fields[0].0@ == key {
        Some(fields[0].1)
    } else {
        obj_get_spec(fields.drop_first(), key)
    }
}

/// Look a field up by name.
pub fn obj_get<'a>(fields: &'a Vec<(String, JsonVal)>, key: &str) -> (r: Option<&'a JsonVal>)
    ensures
        match r {
            Some(v) => obj_get_spec(fields@, key@) == Some(*v),
            None => obj_get_spec(fields@, key@) is None,
        },
{
    let mut i: usize = 0;
    proof {
        assert(fields@.skip(0) =~= fields@);
    }
    while i < fields.len()
        invariant
            i <= fields@.len(),
            obj_get_spec(fields@, key@) == obj_get_spec(fields@.skip(i as int), key@),
        decreases fields@.len() - i,
    {
        proof {
            assert(fields@.skip(i as int)[0] == fields@[i as int]);
            assert(fields@.skip(i as int).drop_first() =~= fields@.skip(i as int + 1));
        }
        if str_eq(fields[i].0.as_str(), key) {
            return Some(&fields[i].1);
        }
        i = i + 1;
    }
    proof {
        assert(fields@.skip(i as int).len() == 0);
    }
    None
}

} // verus!

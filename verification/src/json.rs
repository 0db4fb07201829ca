//! The crate's own model of a JSON document, and lookup in a JSON object.
//!
//! The backend answers with JSON; the surrounding binary turns that answer
//! into this type, so every decision about its shape is made by verified
//! code. A number is kept as the backend delivered it: a machine integer,
//! or a floating-point value carried opaquely as its IEEE 754 bit pattern
//! (this crate never computes with it).

use vstd::prelude::*;

verus! {

/// A JSON number: a non-negative integer, a negative integer, or a
/// floating-point value held as the bits of an `f64`.
#[derive(Clone, Copy, PartialEq, Eq, Structural, Debug)]
pub enum JsonNum {
    Int(i64),
    UInt(u64),
    Float(u64),
}

/// One `key: value` entry of a JSON object.
#[derive(Debug)]
pub struct JsonField {
    pub key: String,
    pub value: JsonValue,
}

/// A JSON document. An object keeps its entries in the order the text
/// gave them; lookup takes the first entry with the wanted key.
#[derive(Debug)]
pub enum JsonValue {
    Null,
    Bool(bool),
    Num(JsonNum),
    Str(String),
    Arr(Vec<JsonValue>),
    Obj(Vec<JsonField>),
}

/// The first value under `key` among `fields`, if any.
pub open spec fn lookup(fields: Seq<JsonField>, key: Seq<char>) -> Option<JsonValue>
    decreases fields.len(),
{
    if fields.len() == 0 {
        None
    } else if fields[0].key@ == key {
        Some(fields[0].value)
    } else {
        lookup(fields.skip(1), key)
    }
}

/// The value under `key` when `v` is an object that has it.
pub open spec fn obj_get(v: JsonValue, key: Seq<char>) -> Option<JsonValue> {
    match v {
        JsonValue::Obj(fields) => lookup(fields@, key),
        _ => None,
    }
}

/// Finds the first entry named `key` among `fields`.
pub fn get_field<'a>(fields: &'a Vec<JsonField>, key: &str) -> (r: Option<&'a JsonValue>)
    ensures
        match r {
            Some(v) => lookup(fields@, key@) == Some(*v),
            None => lookup(fields@, key@) is None,
        },
{
    let k = String::from_str(key);
    let n = fields.len();
    proof {
        assert(fields@.skip(0) =~= fields@);
    }
    for i in 0..n
        invariant
            n == fields.len(),
            k@ == key@,
            lookup(fields@.skip(i as int), key@) == lookup(fields@, key@),
    {
        if fields[i].key == k {
            return Some(&fields[i].value);
        }
        proof {
            assert(fields@.skip(i as int).skip(1) =~= fields@.skip(i + 1));
        }
    }
    None
}

/// Looks `key` up in `v`, which must be an object for the lookup to find
/// anything.
pub fn get<'a>(v: &'a JsonValue, key: &str) -> (r: Option<&'a JsonValue>)
    ensures
        match r {
            Some(w) => obj_get(*v, key@) == Some(*w),
            None => obj_get(*v, key@) is None,
        },
{
    match v {
        JsonValue::Obj(fields) => get_field(fields, key),
        _ => None,
    }
}

} // verus!

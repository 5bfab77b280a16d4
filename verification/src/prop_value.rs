//! The scalar value of one custom event property: a closed tagged union of
//! a string, a boolean, and the fixed-width integer kinds. Each variant is
//! serialized as its bare JSON scalar, never with a tag.

use vstd::prelude::*;

use crate::json::{dec_int, json_string, push_dec_i128, push_dec_u128, push_json_string};
use vstd::string::StringExecFns;

verus! {

/// A custom property value. Custom properties accept only scalars: strings,
/// booleans and numbers; objects, arrays and nulls are not accepted.
#[derive(Debug)]
pub enum PropValue {
    Text(String),
    Bool(bool),
    U8(u8),
    U16(u16),
    U32(u32),
    U64(u64),
    U128(u128),
    Usize(usize),
    I8(i8),
    I16(i16),
    I32(i32),
    I64(i64),
    I128(i128),
    Isize(isize),
}

/// The mathematical model of a scalar property value. The integer kinds all
/// collapse into one mathematical integer, since the wire form keeps no trace
/// of the source width.
pub enum JsonScalar {
    Text(Seq<char>),
    Flag(bool),
    Num(int),
}

impl View for PropValue {
    type V = JsonScalar;

    open spec fn view(&self) -> JsonScalar {
        match self {
            PropValue::Text(s) => JsonScalar::Text(s@),
            PropValue::Bool(b) => JsonScalar::Flag(*b),
            PropValue::U8(u) => JsonScalar::Num(*u as int),
            PropValue::U16(u) => JsonScalar::Num(*u as int),
            PropValue::U32(u) => JsonScalar::Num(*u as int),
            PropValue::U64(u) => JsonScalar::Num(*u as int),
            PropValue::U128(u) => JsonScalar::Num(*u as int),
            PropValue::Usize(u) => JsonScalar::Num(*u as int),
            PropValue::I8(i) => JsonScalar::Num(*i as int),
            PropValue::I16(i) => JsonScalar::Num(*i as int),
            PropValue::I32(i) => JsonScalar::Num(*i as int),
            PropValue::I64(i) => JsonScalar::Num(*i as int),
            PropValue::I128(i) => JsonScalar::Num(*i as int),
            PropValue::Isize(i) => JsonScalar::Num(*i as int),
        }
    }
}

impl Clone for PropValue {
    /// The clone holds the same scalar.
    fn clone(&self) -> (r: Self)
        ensures
            r@ == self@,
    {
        match self {
            PropValue::Text(s) => PropValue::Text(s.clone()),
            PropValue::Bool(b) => PropValue::Bool(*b),
            PropValue::U8(u) => PropValue::U8(*u),
            PropValue::U16(u) => PropValue::U16(*u),
            PropValue::U32(u) => PropValue::U32(*u),
            PropValue::U64(u) => PropValue::U64(*u),
            PropValue::U128(u) => PropValue::U128(*u),
            PropValue::Usize(u) => PropValue::Usize(*u),
            PropValue::I8(i) => PropValue::I8(*i),
            PropValue::I16(i) => PropValue::I16(*i),
            PropValue::I32(i) => PropValue::I32(*i),
            PropValue::I64(i) => PropValue::I64(*i),
            PropValue::I128(i) => PropValue::I128(*i),
            PropValue::Isize(i) => PropValue::Isize(*i),
        }
    }
}

/// The JSON form of a scalar: the bare scalar itself. A string keeps its
/// quoted escaped form, a boolean becomes `true` or `false`, and a number its
/// decimal notation; no variant tag or wrapper appears.
pub open spec fn scalar_json(v: JsonScalar) -> Seq<char> {
    match v {
        JsonScalar::Text(s) => json_string(s),
        JsonScalar::Flag(b) => if b {
            "true"@
        } else {
            "false"@
        },
        JsonScalar::Num(i) => dec_int(i),
    }
}

/// Appends the bare JSON form of a property value.
pub fn push_prop_value(out: &mut String, v: &PropValue)
    ensures
        final(out)@ == old(out)@ + scalar_json(v@),
{
    match v {
        PropValue::Text(s) => push_json_string(out, s.as_str()),
        PropValue::Bool(b) => if *b {
            out.append("true")
        } else {
            out.append("false")
        },
        PropValue::U8(u) => push_dec_u128(out, *u as u128),
        PropValue::U16(u) => push_dec_u128(out, *u as u128),
        PropValue::U32(u) => push_dec_u128(out, *u as u128),
        PropValue::U64(u) => push_dec_u128(out, *u as u128),
        PropValue::U128(u) => push_dec_u128(out, *u),
        PropValue::Usize(u) => push_dec_u128(out, *u as u128),
        PropValue::I8(i) => push_dec_i128(out, *i as i128),
        PropValue::I16(i) => push_dec_i128(out, *i as i128),
        PropValue::I32(i) => push_dec_i128(out, *i as i128),
        PropValue::I64(i) => push_dec_i128(out, *i as i128),
        PropValue::I128(i) => push_dec_i128(out, *i),
        PropValue::Isize(i) => push_dec_i128(out, *i as i128),
    }
}

/// Law: a scalar serializes to its bare JSON form — a string to its quoted
/// escaped text, a boolean to `true` or `false`, a number to its decimal
/// notation — with no variant tag or wrapper around it.
pub proof fn lemma_scalar_serializes_bare(v: JsonScalar)
    ensures
        (v matches JsonScalar::Text(s) ==> scalar_json(v) == json_string(s)),
        (v matches JsonScalar::Flag(b) ==> scalar_json(v) == if b {
            "true"@
        } else {
            "false"@
        }),
        (v matches JsonScalar::Num(i) ==> scalar_json(v) == dec_int(i)),
{
}

impl From<String> for PropValue {
    fn from(s: String) -> Self {
        PropValue::Text(s)
    }
}

impl vstd::std_specs::convert::FromSpecImpl<String> for PropValue {
    open spec fn obeys_from_spec() -> bool {
        true
    }

    open spec fn from_spec(s: String) -> Self {
        PropValue::Text(s)
    }
}

impl From<bool> for PropValue {
    fn from(b: bool) -> Self {
        PropValue::Bool(b)
    }
}

impl vstd::std_specs::convert::FromSpecImpl<bool> for PropValue {
    open spec fn obeys_from_spec() -> bool {
        true
    }

    open spec fn from_spec(b: bool) -> Self {
        PropValue::Bool(b)
    }
}

impl From<u8> for PropValue {
    fn from(u: u8) -> Self {
        PropValue::U8(u)
    }
}

impl vstd::std_specs::convert::FromSpecImpl<u8> for PropValue {
    open spec fn obeys_from_spec() -> bool {
        true
    }

    open spec fn from_spec(u: u8) -> Self {
        PropValue::U8(u)
    }
}

impl From<u16> for PropValue {
    fn from(u: u16) -> Self {
        PropValue::U16(u)
    }
}

impl vstd::std_specs::convert::FromSpecImpl<u16> for PropValue {
    open spec fn obeys_from_spec() -> bool {
        true
    }

    open spec fn from_spec(u: u16) -> Self {
        PropValue::U16(u)
    }
}

impl From<u32> for PropValue {
    fn from(u: u32) -> Self {
        PropValue::U32(u)
    }
}

impl vstd::std_specs::convert::FromSpecImpl<u32> for PropValue {
    open spec fn obeys_from_spec() -> bool {
        true
    }

    open spec fn from_spec(u: u32) -> Self {
        PropValue::U32(u)
    }
}

impl From<u64> for PropValue {
    fn from(u: u64) -> Self {
        PropValue::U64(u)
    }
}

impl vstd::std_specs::convert::FromSpecImpl<u64> for PropValue {
    open spec fn obeys_from_spec() -> bool {
        true
    }

    open spec fn from_spec(u: u64) -> Self {
        PropValue::U64(u)
    }
}

impl From<u128> for PropValue {
    fn from(u: u128) -> Self {
        PropValue::U128(u)
    }
}

impl vstd::std_specs::convert::FromSpecImpl<u128> for PropValue {
    open spec fn obeys_from_spec() -> bool {
        true
    }

    open spec fn from_spec(u: u128) -> Self {
        PropValue::U128(u)
    }
}

impl From<usize> for PropValue {
    fn from(u: usize) -> Self {
        PropValue::Usize(u)
    }
}

impl vstd::std_specs::convert::FromSpecImpl<usize> for PropValue {
    open spec fn obeys_from_spec() -> bool {
        true
    }

    open spec fn from_spec(u: usize) -> Self {
        PropValue::Usize(u)
    }
}

impl From<i8> for PropValue {
    fn from(i: i8) -> Self {
        PropValue::I8(i)
    }
}

impl vstd::std_specs::convert::FromSpecImpl<i8> for PropValue {
    open spec fn obeys_from_spec() -> bool {
        true
    }

    open spec fn from_spec(i: i8) -> Self {
        PropValue::I8(i)
    }
}

impl From<i16> for PropValue {
    fn from(i: i16) -> Self {
        PropValue::I16(i)
    }
}

impl vstd::std_specs::convert::FromSpecImpl<i16> for PropValue {
    open spec fn obeys_from_spec() -> bool {
        true
    }

    open spec fn from_spec(i: i16) -> Self {
        PropValue::I16(i)
    }
}

impl From<i32> for PropValue {
    fn from(i: i32) -> Self {
        PropValue::I32(i)
    }
}

impl vstd::std_specs::convert::FromSpecImpl<i32> for PropValue {
    open spec fn obeys_from_spec() -> bool {
        true
    }

    open spec fn from_spec(i: i32) -> Self {
        PropValue::I32(i)
    }
}

impl From<i64> for PropValue {
    fn from(i: i64) -> Self {
        PropValue::I64(i)
    }
}

impl vstd::std_specs::convert::FromSpecImpl<i64> for PropValue {
    open spec fn obeys_from_spec() -> bool {
        true
    }

    open spec fn from_spec(i: i64) -> Self {
        PropValue::I64(i)
    }
}

impl From<i128> for PropValue {
    fn from(i: i128) -> Self {
        PropValue::I128(i)
    }
}

impl vstd::std_specs::convert::FromSpecImpl<i128> for PropValue {
    open spec fn obeys_from_spec() -> bool {
        true
    }

    open spec fn from_spec(i: i128) -> Self {
        PropValue::I128(i)
    }
}

impl From<isize> for PropValue {
    fn from(i: isize) -> Self {
        PropValue::Isize(i)
    }
}

impl vstd::std_specs::convert::FromSpecImpl<isize> for PropValue {
    open spec fn obeys_from_spec() -> bool {
        true
    }

    open spec fn from_spec(i: isize) -> Self {
        PropValue::Isize(i)
    }
}

} // verus!

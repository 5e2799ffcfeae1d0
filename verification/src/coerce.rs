//! Field-level coercers: each turns one raw feed value into one semantic
//! type, enforcing the value's domain. The feed inherits ad-hoc encodings
//! from a dynamically typed source: integers stand in for booleans and
//! strings stand in for floating-point numbers.

use vstd::prelude::*;

use crate::error::{ErrorKind, ErrorKindV};
use crate::json::{JVal, JsonValue};

verus! {

/// What the integer-domain boolean coercion yields: 0 is false, 1 is
/// true, any other integer is a domain violation naming that integer,
/// and a value that is not an integer is a domain violation too.
pub open spec fn spec_int_as_bool(v: JVal) -> Result<bool, ErrorKindV> {
    match v {
        JVal::Int(n) => if n == 0 {
            Ok(false)
        } else if n == 1 {
            Ok(true)
        } else {
            Err(ErrorKindV::NotZeroOrOne { value: n })
        },
        _ => Err(ErrorKindV::NotAnInt),
    }
}

/// Coerce an integer-domain boolean flag.
pub fn int_as_bool(v: &JsonValue) -> (r: Result<bool, ErrorKind>)
    ensures
        match r {
            Ok(b) => spec_int_as_bool(v@) == Ok::<_, ErrorKindV>(b),
            Err(k) => spec_int_as_bool(v@) == Err::<bool, _>(k.deep_view()),
        },
{
    match v {
        JsonValue::Int(n) => {
            if *n == 0 {
                Ok(false)
            } else if *n == 1 {
                Ok(true)
            } else {
                Err(ErrorKind::NotZeroOrOne { value: *n })
            }
        },
        _ => Err(ErrorKind::NotAnInt),
    }
}

/// A raw feed number: a plain integer, or a non-integer number kept as
/// the text of its literal.
#[derive(Debug, PartialEq)]
pub enum JsonNumber {
    Int(i64),
    Float(String),
}

impl View for JsonNumber {
    type V = JVal;

    open spec fn view(&self) -> JVal {
        match self {
            JsonNumber::Int(n) => JVal::Int(*n as int),
            JsonNumber::Float(s) => JVal::Float(s@),
        }
    }
}

impl DeepView for JsonNumber {
    type V = JVal;

    open spec fn deep_view(&self) -> JVal {
        self.view()
    }
}

impl Clone for JsonNumber {
    /// A clone carries the same number.
    fn clone(&self) -> (r: Self)
        ensures
            r@ == self@,
    {
        match self {
            JsonNumber::Int(n) => JsonNumber::Int(*n),
            JsonNumber::Float(s) => JsonNumber::Float(s.clone()),
        }
    }
}

/// What the number coercion yields: the value itself when it is a
/// number, and a domain violation otherwise.
pub open spec fn spec_number(v: JVal) -> Result<JVal, ErrorKindV> {
    match v {
        JVal::Int(_) => Ok(v),
        JVal::Float(_) => Ok(v),
        _ => Err(ErrorKindV::NotANumber),
    }
}

/// Coerce a raw value that must be a number.
pub fn number(v: &JsonValue) -> (r: Result<JsonNumber, ErrorKind>)
    ensures
        match r {
            Ok(n) => spec_number(v@) == Ok::<_, ErrorKindV>(n@),
            Err(k) => spec_number(v@) == Err::<JVal, _>(k.deep_view()),
        },
{
    match v {
        JsonValue::Int(n) => Ok(JsonNumber::Int(*n)),
        JsonValue::Float(s) => Ok(JsonNumber::Float(s.clone())),
        _ => Err(ErrorKind::NotANumber),
    }
}

} // verus!

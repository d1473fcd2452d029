//! The generic structured value carried in request, response and event
//! payloads: a tagged union over null, booleans, integers, text, arrays and
//! objects. The gateway never looks inside a payload; it moves the value
//! through unchanged, and the contracts state that by plain equality.

use vstd::prelude::*;

verus! {

/// A loosely-structured payload value. A number outside the signed 64-bit
/// integers (a fraction, or a very large integer) is carried as its decimal
/// text in the `Decimal` variant, so the boundary can write it back out as
/// the same number.
#[derive(Debug, PartialEq, Eq)]
pub enum Value {
    Null,
    Bool(bool),
    Int(i64),
    Decimal(String),
    Text(String),
    Array(Vec<Value>),
    Object(Vec<(String, Value)>),
}

} // verus!

//! JSON values as the node hands them out.
//!
//! The gateway never looks inside block or transaction details: a value is
//! carried from the node's answer to the HTTP reply as it came.
use vstd::prelude::*;

verus! {

/// serde_json's JSON value, carried through the library unopened.
#[verifier::external_type_specification]
#[verifier::external_body]
pub struct ExValue(serde_json::Value);

/// Relies on serde_json's `Value::as_i64`: whether a value is an integer
/// that fits in `i64` is serde_json's own reading of the number.
pub assume_specification[ serde_json::Value::as_i64 ](v: &serde_json::Value) -> (r: Option<i64>);

} // verus!

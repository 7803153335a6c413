//! JSON values, as `serde_json` holds them.

use serde_json::Value;
use vstd::prelude::*;

verus! {

/// `serde_json::Value`: a JSON value, which this library carries and never looks into.
#[verifier::external_type_specification]
#[verifier::external_body]
pub struct ExValue(Value);

/// `serde_json::Value::clone`: a copy holds the same JSON value.
pub assume_specification[ <Value as Clone>::clone ](value: &Value) -> (copy: Value)
    ensures
        copy == *value,
;

/// What `serde_json::from_str` makes of `text`: the JSON value that it holds, or the
/// message that says why it holds none.
pub uninterp spec fn parsed_json(text: Seq<char>) -> Result<Value, Seq<char>>;

/// Reads `text` as one JSON value, by `serde_json::from_str`.
///
/// Trusted: the value, or the error's message, depends on `text` alone.
#[verifier::external_body]
pub(crate) fn parse_json(text: &str) -> (parsed: Result<Value, String>)
    ensures
        parsed is Ok == parsed_json(text@) is Ok,
        parsed is Ok ==> parsed->Ok_0 == parsed_json(text@)->Ok_0,
        parsed is Err ==> parsed->Err_0@ == parsed_json(text@)->Err_0,
{
    serde_json::from_str(text).map_err(|error| error.to_string())
}

} // verus!

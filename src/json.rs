//! The JSON operations the transform relies on, all provided by serde_json.

use vstd::prelude::*;

verus! {

#[verifier::external_type_specification]
#[verifier::external_body]
pub struct ExJsonValue(serde_json::Value);

#[verifier::external_type_specification]
#[verifier::external_body]
pub struct ExJsonError(serde_json::Error);

/// What serde_json makes of a text: `Some` of the parsed value, or `None` where the text is not JSON.
pub uninterp spec fn parsed_json(text: Seq<char>) -> Option<serde_json::Value>;

/// What serde_json makes of a sequence of values: `Some` of the array value, or `None` on failure.
pub uninterp spec fn array_value(items: Seq<serde_json::Value>) -> Option<serde_json::Value>;

/// The compact JSON text that serde_json writes for a value.
pub uninterp spec fn json_text(v: serde_json::Value) -> Seq<char>;

/// Relies on serde_json::from_str: parsing depends on the text alone, and fails exactly where
/// the text is not JSON.
#[verifier::external_body]
pub(crate) fn parse_json(text: &str) -> (r: Result<serde_json::Value, serde_json::Error>)
    ensures
        r is Ok <==> parsed_json(text@) is Some,
        r is Ok ==> parsed_json(text@) == Some(r->Ok_0),
{
    serde_json::from_str(text)
}

/// Relies on serde_json::to_value: the value made of a sequence depends on its items alone.
#[verifier::external_body]
pub(crate) fn to_array_value(items: &Vec<serde_json::Value>) -> (r: Result<
    serde_json::Value,
    serde_json::Error,
>)
    ensures
        r is Ok <==> array_value(items@) is Some,
        r is Ok ==> array_value(items@) == Some(r->Ok_0),
{
    serde_json::to_value(items)
}

/// Relies on serde_json's `Display` for `Value`: the compact text depends on the value alone.
#[verifier::external_body]
pub(crate) fn to_json_text(v: &serde_json::Value) -> (r: String)
    ensures
        r@ == json_text(*v),
{
    v.to_string()
}

} // verus!

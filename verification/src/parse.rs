//! The trusted boundary between transport text and the verified decoders:
//! one parser call turns a JSON document into the crate's `Json` tree.

use crate::json::{Json, JsonV};
use vstd::prelude::*;

verus! {

/// What parsing a JSON text yields: the name given to the result of
/// `serde_json::from_str::<serde_json::Value>` (restated as this crate's
/// tree), which depends on the text alone.  `None` stands both for a parse
/// error and for a document whose numbers do not fit a signed 64-bit
/// integer, which the wire format never produces.
pub uninterp spec fn json_of(text: Seq<char>) -> Option<JsonV>;

#[verifier::external_type_specification]
#[verifier::external_body]
pub struct ExValue(serde_json::Value);

/// Relies on serde_json::Value: each variant of the parsed document moves
/// into the matching variant of this crate's `Json` tree; a number with a
/// fractional part or beyond the signed 64-bit range has no counterpart, so
/// the whole conversion yields `None`.
#[verifier::external_body]
fn tree_of_value(v: &serde_json::Value) -> (r: Option<Json>) {
    match v {
        serde_json::Value::Null => Some(Json::Null),
        serde_json::Value::Bool(b) => Some(Json::Bool(*b)),
        serde_json::Value::Number(n) => n.as_i64().map(Json::Int),
        serde_json::Value::String(s) => Some(Json::Str(s.clone())),
        serde_json::Value::Array(xs) => xs.iter().map(tree_of_value).collect::<Option<
            Vec<Json>,
        >>().map(Json::Arr),
        serde_json::Value::Object(m) => m.iter().map(
            |(k, x)| Some((k.clone(), tree_of_value(x)?)),
        ).collect::<Option<Vec<(String, Json)>>>().map(Json::Obj),
    }
}

/// Relies on serde_json::from_str::<serde_json::Value>: parses one JSON
/// document, deterministically in the text alone; `Err` becomes `None`.
#[verifier::external_body]
pub(crate) fn parse_text(s: &str) -> (r: Option<Json>)
    ensures
        r.deep_view() == json_of(s@),
{
    match serde_json::from_str::<serde_json::Value>(s) {
        Ok(v) => tree_of_value(&v),
        Err(_) => None,
    }
}

} // verus!

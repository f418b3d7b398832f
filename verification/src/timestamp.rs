//! Epoch-second timestamps.
//!
//! The upstream platform transmits every instant as an integer number of
//! seconds since the Unix epoch, so that integer is the whole value: keeping
//! it makes the decode/encode round trip exact by construction.

use crate::json::{fields_view, get_i64, get_opt_i64, opt_int, req_int, Json, JsonCodec, JsonV};
use vstd::prelude::*;

verus! {

/// A UTC instant with second precision, as seconds since the Unix epoch.
#[derive(Debug, Clone, Copy, PartialEq, Eq)]
pub struct Timestamp {
    pub secs: i64,
}

impl DeepView for Timestamp {
    type V = int;

    open spec fn deep_view(&self) -> int {
        self.secs as int
    }
}

impl Timestamp {
    /// The required decode variant: the value must be an integer.
    pub fn from_epoch_seconds(secs: i64) -> (r: Timestamp)
        ensures
            r.deep_view() == secs as int,
    {
        Timestamp { secs }
    }

    /// Encoding a decoded instant reproduces the original integer exactly.
    pub fn epoch_seconds(&self) -> (r: i64)
        ensures
            r as int == self.deep_view(),
    {
        self.secs
    }
}

impl JsonCodec for Timestamp {
    open spec fn spec_decode(j: JsonV) -> Option<int> {
        match j {
            JsonV::Int(n) => Some(n),
            _ => None,
        }
    }

    open spec fn spec_encode(v: int) -> JsonV {
        JsonV::Int(v)
    }

    fn decode_json(j: &Json) -> (r: Option<Self>)
        ensures
            match r {
                Some(v) => Self::spec_decode(j.deep_view()) == Some(v.deep_view()),
                None => Self::spec_decode(j.deep_view()) is None,
            },
    {
        match j {
            Json::Int(n) => Some(Timestamp { secs: *n }),
            _ => None,
        }
    }

    fn encode_json(&self) -> (r: Json)
        ensures
            r.deep_view() == Self::spec_encode(self.deep_view()),
    {
        Json::Int(self.secs)
    }
}

/// Decoding then encoding an instant is the identity, and encoding then
/// decoding reproduces the instant: second-level precision is preserved
/// exactly in both directions.
pub proof fn lemma_timestamp_roundtrip(v: int)
    ensures
        Timestamp::spec_decode(Timestamp::spec_encode(v)) == Some(v),
{
}

/// Decodes a required timestamp field: missing or non-integer fails.
pub fn get_ts(fields: &Vec<(String, Json)>, name: &str) -> (r: Option<Timestamp>)
    ensures
        match r {
            Some(t) => req_int(fields_view(*fields), name@) == Some(t.deep_view()),
            None => req_int(fields_view(*fields), name@) is None,
        },
{
    match get_i64(fields, name) {
        Some(n) => Some(Timestamp { secs: n }),
        None => None,
    }
}

/// Decodes an optional timestamp field: absent or null is "no value", while
/// a present but non-integer value still fails the decode.
pub fn get_opt_ts(fields: &Vec<(String, Json)>, name: &str) -> (r: Option<Option<Timestamp>>)
    ensures
        match r {
            Some(t) => opt_int(fields_view(*fields), name@) == Some(t.deep_view()),
            None => opt_int(fields_view(*fields), name@) is None,
        },
{
    match get_opt_i64(fields, name) {
        Some(Some(n)) => Some(Some(Timestamp { secs: n })),
        Some(None) => Some(None),
        None => None,
    }
}

} // verus!

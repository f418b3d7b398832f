//! Schema-tolerant decoding of conversation webhook events.
//!
//! The crate turns JSON documents describing a customer-support
//! "conversation" aggregate, wrapped in a generic notification envelope,
//! into strongly-typed value objects.  Decoding is defensive where the
//! upstream schema drifts (wrapped collections fall back to an empty list)
//! and strict everywhere else (closed enum vocabularies, required fields,
//! all-or-nothing optional substructures).

pub mod company;
pub mod conversation;
pub mod ingest;
pub mod json;
pub mod notification;
pub mod parse;
pub mod timestamp;

//! Declaration of `serde_json::Value` for use in library types.
//!
//! Connector metadata and profile configuration blobs are JSON values the
//! switch carries through without reading; the declaration lets the type
//! stand in fields and signatures while staying opaque to verification.

use vstd::prelude::*;

verus! {

/// Relies on `serde_json::Value` being an ordinary owned value; the
/// library only moves such values, never looks inside them.
#[verifier::external_type_specification]
#[verifier::external_body]
pub struct ExValue(serde_json::Value);

} // verus!

//! The per-call decision of whether the connector is actually invoked.

use vstd::prelude::*;
use crate::enums::AttemptStatus;

verus! {

/// Decides, for one envelope, whether the wire call happens. Computed once
/// per call and consumed immediately.
pub enum CallConnectorAction<W> {
    /// Perform the wire call.
    Trigger,
    /// Do not contact the connector; hand the envelope back untouched.
    Avoid,
    /// Do not contact the connector; a prior step already fixed the
    /// outcome, expressed as a status and an optional error.
    StatusUpdate {
        status: AttemptStatus,
        error_code: Option<String>,
        error_message: Option<String>,
    },
    /// Do not contact the connector; parse this already-obtained wire
    /// response instead.
    HandleResponse(W),
}

} // verus!

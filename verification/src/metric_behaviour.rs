//! Marker types naming the behaviour of each refund metric, used to pick
//! a metric implementation at compile time.

use vstd::prelude::*;

verus! {

/// Marker: the share of refunds that succeeded.
pub struct RefundSuccessRate;

/// Marker: the number of refunds.
pub struct RefundCount;

/// Marker: the number of successful refunds.
pub struct RefundSuccessCount;

/// Marker: the amount of money refunded.
pub struct RefundProcessedAmount;

} // verus!

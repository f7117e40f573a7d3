//! Refund analytics vocabulary: the metrics, dimensions and filters a
//! refund query is phrased in, and the bucket identifier its results are
//! grouped under.

use vstd::prelude::*;
use crate::datetime::TimeRange;
use crate::datetime::DateTime;
use crate::enums::Currency;
use crate::ids::ProfileId;

verus! {

/// How a refund was initiated.
#[derive(Clone, Copy, Debug, Hash, PartialEq, Eq, Structural)]
pub enum RefundType {
    InstantRefund,
    RegularRefund,
    RetryRefund,
}

/// The snake_case rendering of a refund type.
pub open spec fn spec_refund_type_str(v: RefundType) -> Seq<char> {
    match v {
        RefundType::InstantRefund => "instant_refund"@,
        RefundType::RegularRefund => "regular_refund"@,
        RefundType::RetryRefund => "retry_refund"@,
    }
}

impl RefundType {
    /// The snake_case name of the refund type.
    pub fn as_snake_str(&self) -> (r: &'static str)
        ensures
            r@ == spec_refund_type_str(*self),
    {
        match self {
            RefundType::InstantRefund => "instant_refund",
            RefundType::RegularRefund => "regular_refund",
            RefundType::RetryRefund => "retry_refund",
        }
    }
}

/// The filters a refund analytics query may constrain; an empty list
/// leaves its dimension unconstrained.
pub struct RefundFilters {
    pub currency: Vec<Currency>,
    pub refund_status: Vec<crate::enums::RefundStatus>,
    pub connector: Vec<String>,
    pub refund_type: Vec<RefundType>,
    pub profile_id: Vec<ProfileId>,
    pub refund_reason: Vec<String>,
    pub refund_error_message: Vec<String>,
}

/// The dimensions refund metrics can be grouped by.
#[derive(Clone, Copy, Debug, PartialEq, PartialOrd, Eq, Ord, Hash, Structural)]
pub enum RefundDimensions {
    Currency,
    RefundStatus,
    Connector,
    RefundType,
    ProfileId,
    RefundReason,
    RefundErrorMessage,
}

/// The snake_case rendering of a dimension.
pub open spec fn spec_refund_dimensions_str(v: RefundDimensions) -> Seq<char> {
    match v {
        RefundDimensions::Currency => "currency"@,
        RefundDimensions::RefundStatus => "refund_status"@,
        RefundDimensions::Connector => "connector"@,
        RefundDimensions::RefundType => "refund_type"@,
        RefundDimensions::ProfileId => "profile_id"@,
        RefundDimensions::RefundReason => "refund_reason"@,
        RefundDimensions::RefundErrorMessage => "refund_error_message"@,
    }
}

impl RefundDimensions {
    /// The snake_case name of the dimension.
    pub fn as_snake_str(&self) -> (r: &'static str)
        ensures
            r@ == spec_refund_dimensions_str(*self),
    {
        match self {
            RefundDimensions::Currency => "currency",
            RefundDimensions::RefundStatus => "refund_status",
            RefundDimensions::Connector => "connector",
            RefundDimensions::RefundType => "refund_type",
            RefundDimensions::ProfileId => "profile_id",
            RefundDimensions::RefundReason => "refund_reason",
            RefundDimensions::RefundErrorMessage => "refund_error_message",
        }
    }
}

/// The refund metrics the analytics surface can compute.
#[derive(Clone, Copy, Debug, Hash, PartialEq, Eq, Structural)]
pub enum RefundMetrics {
    RefundSuccessRate,
    RefundCount,
    RefundSuccessCount,
    RefundProcessedAmount,
    SessionizedRefundSuccessRate,
    SessionizedRefundCount,
    SessionizedRefundSuccessCount,
    SessionizedRefundProcessedAmount,
    SessionizedRefundReason,
    SessionizedRefundErrorMessage,
}

/// The snake_case rendering of a metric.
pub open spec fn spec_refund_metrics_str(v: RefundMetrics) -> Seq<char> {
    match v {
        RefundMetrics::RefundSuccessRate => "refund_success_rate"@,
        RefundMetrics::RefundCount => "refund_count"@,
        RefundMetrics::RefundSuccessCount => "refund_success_count"@,
        RefundMetrics::RefundProcessedAmount => "refund_processed_amount"@,
        RefundMetrics::SessionizedRefundSuccessRate => "sessionized_refund_success_rate"@,
        RefundMetrics::SessionizedRefundCount => "sessionized_refund_count"@,
        RefundMetrics::SessionizedRefundSuccessCount => "sessionized_refund_success_count"@,
        RefundMetrics::SessionizedRefundProcessedAmount => "sessionized_refund_processed_amount"@,
        RefundMetrics::SessionizedRefundReason => "sessionized_refund_reason"@,
        RefundMetrics::SessionizedRefundErrorMessage => "sessionized_refund_error_message"@,
    }
}

impl RefundMetrics {
    /// The snake_case name of the metric.
    pub fn as_snake_str(&self) -> (r: &'static str)
        ensures
            r@ == spec_refund_metrics_str(*self),
    {
        match self {
            RefundMetrics::RefundSuccessRate => "refund_success_rate",
            RefundMetrics::RefundCount => "refund_count",
            RefundMetrics::RefundSuccessCount => "refund_success_count",
            RefundMetrics::RefundProcessedAmount => "refund_processed_amount",
            RefundMetrics::SessionizedRefundSuccessRate => "sessionized_refund_success_rate",
            RefundMetrics::SessionizedRefundCount => "sessionized_refund_count",
            RefundMetrics::SessionizedRefundSuccessCount => "sessionized_refund_success_count",
            RefundMetrics::SessionizedRefundProcessedAmount => "sessionized_refund_processed_amount",
            RefundMetrics::SessionizedRefundReason => "sessionized_refund_reason",
            RefundMetrics::SessionizedRefundErrorMessage => "sessionized_refund_error_message",
        }
    }
}

/// A metric whose value is stated in money, so currency conversion
/// applies to it.
pub trait ForexMetric {
    /// Whether the metric is stated in money.
    fn is_forex_metric(&self) -> bool;
}

impl ForexMetric for RefundMetrics {
    fn is_forex_metric(&self) -> (r: bool)
        ensures
            r == (*self == RefundMetrics::RefundProcessedAmount || *self
                == RefundMetrics::SessionizedRefundProcessedAmount),
    {
        matches!(
            self,
            RefundMetrics::RefundProcessedAmount | RefundMetrics::SessionizedRefundProcessedAmount
        )
    }
}

/// The refund distributions the analytics surface can compute.
#[derive(Clone, Copy, Debug, Hash, PartialEq, Eq, Structural)]
pub enum RefundDistributions {
    SessionizedRefundReason,
    SessionizedRefundErrorMessage,
}

/// The wire rendering of a distribution, which drops the sessionized
/// prefix.
pub open spec fn spec_refund_distributions_str(v: RefundDistributions) -> Seq<char> {
    match v {
        RefundDistributions::SessionizedRefundReason => "refund_reason"@,
        RefundDistributions::SessionizedRefundErrorMessage => "refund_error_message"@,
    }
}

impl RefundDistributions {
    /// The wire name of the distribution.
    pub fn as_snake_str(&self) -> (r: &'static str)
        ensures
            r@ == spec_refund_distributions_str(*self),
    {
        match self {
            RefundDistributions::SessionizedRefundReason => "refund_reason",
            RefundDistributions::SessionizedRefundErrorMessage => "refund_error_message",
        }
    }
}

/// A display name and description pair, as the analytics listing surface
/// reports metrics and dimensions.
pub struct NameDescription {
    pub name: String,
    pub desc: String,
}

impl NameDescription {
    /// The listing entry of a metric: its snake_case name and an empty
    /// description.
    pub fn of_metric(value: RefundMetrics) -> (r: Self)
        ensures
            r.name@ == spec_refund_metrics_str(value),
            r.desc@.len() == 0,
    {
        NameDescription { name: value.as_snake_str().to_string(), desc: String::new() }
    }

    /// The listing entry of a dimension: its snake_case name and an empty
    /// description.
    pub fn of_dimension(value: RefundDimensions) -> (r: Self)
        ensures
            r.name@ == spec_refund_dimensions_str(value),
            r.desc@.len() == 0,
    {
        NameDescription { name: value.as_snake_str().to_string(), desc: String::new() }
    }
}

/// Whether two optional strings hold the same text.
pub open spec fn spec_opt_string_eq(a: Option<String>, b: Option<String>) -> bool {
    match (a, b) {
        (Option::None, Option::None) => true,
        (Option::Some(x), Option::Some(y)) => x@ == y@,
        _ => false,
    }
}

/// Compare two optional strings by their text.
fn opt_string_eq(a: &Option<String>, b: &Option<String>) -> (r: bool)
    ensures
        r == spec_opt_string_eq(*a, *b),
{
    match (a, b) {
        (Option::None, Option::None) => true,
        (Option::Some(x), Option::Some(y)) => *x == *y,
        _ => false,
    }
}

/// Identifies one bucket of refund metrics: the dimension values the
/// bucket groups, plus the time window it covers.
///
/// Two identifiers are the same bucket when every dimension value and the
/// time window agree; the start time standing beside the window is
/// derived from it and plays no part in identity.
#[derive(Debug, Eq, Hash)]
pub struct RefundMetricsBucketIdentifier {
    pub currency: Option<Currency>,
    pub refund_status: Option<String>,
    pub connector: Option<String>,
    pub refund_type: Option<String>,
    pub profile_id: Option<String>,
    pub refund_reason: Option<String>,
    pub refund_error_message: Option<String>,
    /// The window the bucket covers.
    pub time_bucket: TimeRange,
    /// The window's start, kept beside it for the reporting surface.
    pub start_time: DateTime,
}

impl RefundMetricsBucketIdentifier {
    /// Build a bucket identifier; the start time is taken from the
    /// normalized time window.
    pub fn new(
        currency: Option<Currency>,
        refund_status: Option<String>,
        connector: Option<String>,
        refund_type: Option<String>,
        profile_id: Option<String>,
        refund_reason: Option<String>,
        refund_error_message: Option<String>,
        normalized_time_range: TimeRange,
    ) -> (r: Self)
        ensures
            r.currency == currency,
            r.refund_status == refund_status,
            r.connector == connector,
            r.refund_type == refund_type,
            r.profile_id == profile_id,
            r.refund_reason == refund_reason,
            r.refund_error_message == refund_error_message,
            r.time_bucket == normalized_time_range,
            r.start_time == normalized_time_range.start_time,
    {
        RefundMetricsBucketIdentifier {
            currency,
            refund_status,
            connector,
            refund_type,
            profile_id,
            refund_reason,
            refund_error_message,
            time_bucket: normalized_time_range,
            start_time: normalized_time_range.start_time,
        }
    }
}

impl PartialEq for RefundMetricsBucketIdentifier {
    fn eq(&self, other: &Self) -> (r: bool) {
        self.currency == other.currency && opt_string_eq(&self.refund_status, &other.refund_status)
            && opt_string_eq(&self.connector, &other.connector) && opt_string_eq(
            &self.refund_type,
            &other.refund_type,
        ) && opt_string_eq(&self.profile_id, &other.profile_id) && opt_string_eq(
            &self.refund_reason,
            &other.refund_reason,
        ) && opt_string_eq(&self.refund_error_message, &other.refund_error_message)
            && self.time_bucket == other.time_bucket
    }
}

impl vstd::std_specs::cmp::PartialEqSpecImpl for RefundMetricsBucketIdentifier {
    open spec fn obeys_eq_spec() -> bool {
        true
    }

    open spec fn eq_spec(&self, other: &Self) -> bool {
        &&& self.currency == other.currency
        &&& spec_opt_string_eq(self.refund_status, other.refund_status)
        &&& spec_opt_string_eq(self.connector, other.connector)
        &&& spec_opt_string_eq(self.refund_type, other.refund_type)
        &&& spec_opt_string_eq(self.profile_id, other.profile_id)
        &&& spec_opt_string_eq(self.refund_reason, other.refund_reason)
        &&& spec_opt_string_eq(self.refund_error_message, other.refund_error_message)
        &&& self.time_bucket == other.time_bucket
    }
}

} // verus!

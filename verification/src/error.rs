//! The error taxonomy of the switch.
//!
//! A connector call that fails cleanly is represented as data — an
//! [`ErrorResponse`] placed in the envelope's response slot — while only
//! request-construction faults and non-timeout transport faults abort the
//! operation as an [`ApiError`].

use vstd::prelude::*;
use crate::enums::AttemptStatus;

verus! {

/// Canonical error payload: used both for genuine connector errors and for
/// errors the switch synthesizes itself (timeouts), so it needs no
/// connector-specific knowledge to build.
#[derive(Debug)]
pub struct ErrorResponse {
    pub code: String,
    pub message: String,
    pub reason: Option<String>,
    pub status_code: u16,
    pub attempt_status: Option<AttemptStatus>,
    pub connector_transaction_id: Option<String>,
    pub network_advice_code: Option<String>,
    pub network_decline_code: Option<String>,
    pub network_error_message: Option<String>,
}

/// The placeholder error payload that fills a response slot before any
/// connector has been consulted.
pub open spec fn is_default_error_response(e: ErrorResponse) -> bool {
    &&& e.code@ == "No error code"@
    &&& e.message@ == "No error message"@
    &&& e.reason is None
    &&& e.status_code == 200u16
    &&& e.attempt_status is None
    &&& e.connector_transaction_id is None
    &&& e.network_advice_code is None
    &&& e.network_decline_code is None
    &&& e.network_error_message is None
}

impl Default for ErrorResponse {
    fn default() -> (r: Self)
        ensures
            is_default_error_response(r),
    {
        ErrorResponse {
            code: "No error code".to_string(),
            message: "No error message".to_string(),
            reason: None,
            status_code: 200,
            attempt_status: None,
            connector_transaction_id: None,
            network_advice_code: None,
            network_decline_code: None,
            network_error_message: None,
        }
    }
}

impl Clone for ErrorResponse {
    fn clone(&self) -> (r: Self)
        ensures
            r == *self,
    {
        ErrorResponse {
            code: self.code.clone(),
            message: self.message.clone(),
            reason: self.reason.clone(),
            status_code: self.status_code,
            attempt_status: self.attempt_status,
            connector_transaction_id: self.connector_transaction_id.clone(),
            network_advice_code: self.network_advice_code.clone(),
            network_decline_code: self.network_decline_code.clone(),
            network_error_message: self.network_error_message.clone(),
        }
    }
}

/// The error payload synthesized when a connector times out: a fixed code
/// and message under HTTP status 504.
pub open spec fn is_request_timeout_error_response(e: ErrorResponse) -> bool {
    &&& e.code@ == "TIMEOUT"@
    &&& e.message@ == "Connector did not respond in specified time"@
    &&& e.reason matches Some(reason) && reason@ == "Connector did not respond in specified time"@
    &&& e.status_code == 504u16
    &&& e.attempt_status is None
    &&& e.connector_transaction_id is None
    &&& e.network_advice_code is None
    &&& e.network_decline_code is None
    &&& e.network_error_message is None
}

/// Build the canonical timeout error payload.
pub fn request_timeout_error_response() -> (r: ErrorResponse)
    ensures
        is_request_timeout_error_response(r),
{
    ErrorResponse {
        code: "TIMEOUT".to_string(),
        message: "Connector did not respond in specified time".to_string(),
        reason: Some("Connector did not respond in specified time".to_string()),
        status_code: 504,
        attempt_status: None,
        connector_transaction_id: None,
        network_advice_code: None,
        network_decline_code: None,
        network_error_message: None,
    }
}

/// A fault detected while building or parsing a connector exchange;
/// always fatal to the single operation and never retried here.
#[derive(Clone, Debug)]
pub enum ConnectorError {
    /// The stored credential blob does not have the shape this connector
    /// needs.
    FailedToObtainAuthType,
    /// A field the wire request cannot do without is absent.
    MissingRequiredField { field_name: &'static str },
    /// The wire request could not be encoded.
    RequestEncodingFailed,
    /// The wire response could not be read as the expected shape.
    ResponseDeserializationFailed,
    /// The amount or currency cannot be expressed for this connector.
    AmountConversionFailed,
    /// The wire exchange failed at the transport level for a reason other
    /// than a timeout.
    ProcessingStepFailed { details: String },
}

/// A fault that aborts the whole operation and surfaces to the caller of
/// the switch.
#[derive(Clone, Debug)]
pub enum ApiError {
    /// An unclassified internal failure, carried upward with no detail.
    InternalServerError,
    /// The referenced payment does not exist.
    PaymentNotFound,
    /// A stored value does not have the shape the operation needs.
    InvalidDataValue { field_name: &'static str },
    /// The operation is not allowed in the payment's current state.
    PaymentUnexpectedState {
        current_flow: String,
        field_name: String,
        current_value: String,
        states: String,
    },
}

/// A fault of the shared key-value store behind the access-token cache.
#[derive(Clone, Copy, Debug, PartialEq, Eq, Structural)]
pub enum StorageError {
    /// The store could not be reached or refused the operation.
    KvFailure,
    /// The stored bytes could not be read back as a token.
    DeserializationFailed,
}

/// A transport-level fault of one wire call, before any response body
/// arrived.
#[derive(Clone, Debug)]
pub enum TransportError {
    /// The connector did not answer within the allowed time.
    Timeout,
    /// Any other transport fault, with its description.
    Failed { details: String },
}

impl TransportError {
    /// Whether this fault is a connector timeout, the one transport fault
    /// that degrades to a typed error instead of aborting.
    pub fn is_connector_timeout(&self) -> (r: bool)
        ensures
            r == (*self is Timeout),
    {
        match self {
            TransportError::Timeout => true,
            TransportError::Failed { .. } => false,
        }
    }
}

} // verus!

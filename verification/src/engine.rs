//! The execution engine: the single chokepoint through which every
//! connector call passes.
//!
//! It applies the call action, runs the adapter's build/parse pipeline
//! around the one transport exchange, and normalizes failures: a
//! connector timeout degrades to a typed error response inside the
//! envelope, while any other transport fault is propagated as a fatal
//! error. Whatever the path, the envelope comes back with its response
//! slot populated.

use vstd::prelude::*;
use crate::action::CallConnectorAction;
use crate::enums::AttemptStatus;
use crate::envelope::RouterData;
use crate::envelope::spec_with_response;
use crate::envelope::spec_with_status;
use crate::error::ConnectorError;
use crate::error::ErrorResponse;
use crate::error::TransportError;
use crate::error::is_request_timeout_error_response;
use crate::error::request_timeout_error_response;
use crate::integration::ConnectorIntegration;
use crate::integration::WireErrorBody;
use crate::integration::WireTransport;

verus! {

/// The error payload a `StatusUpdate` action plants in the envelope when
/// it carries an error code: the given code, the given message (or the
/// placeholder message), the given message as reason, and the decided
/// status echoed as the attempt status.
pub open spec fn is_status_update_error(
    e: ErrorResponse,
    status: AttemptStatus,
    code: String,
    message: Option<String>,
) -> bool {
    &&& e.code == code
    &&& (match message {
        Some(m) => e.message == m,
        None => e.message@ == "No error message"@,
    })
    &&& e.reason == message
    &&& e.status_code == 200u16
    &&& e.attempt_status == Some(status)
    &&& e.connector_transaction_id is None
    &&& e.network_advice_code is None
    &&& e.network_decline_code is None
    &&& e.network_error_message is None
}

/// What applying a `StatusUpdate { status, error_code, error_message }`
/// action leaves in the envelope: the decided status, and — only when an
/// error code was given — an error response built from code and message.
pub open spec fn spec_status_update_applied<F, Req, Res>(
    data: RouterData<F, Req, Res>,
    status: AttemptStatus,
    error_code: Option<String>,
    error_message: Option<String>,
    d: RouterData<F, Req, Res>,
) -> bool {
    match error_code {
        Some(code) => {
            &&& d.response matches Err(e) && is_status_update_error(e, status, code, error_message)
            &&& d == spec_with_response(spec_with_status(data, status), d.response)
        },
        None => d == spec_with_status(data, status),
    }
}

/// Apply a `StatusUpdate` action to the envelope without contacting the
/// connector.
pub fn apply_status_update<F, Req, Res>(
    data: RouterData<F, Req, Res>,
    status: AttemptStatus,
    error_code: Option<String>,
    error_message: Option<String>,
) -> (d: RouterData<F, Req, Res>)
    ensures
        spec_status_update_applied(data, status, error_code, error_message, d),
{
    match error_code {
        Some(code) => {
            let message: String = match &error_message {
                Some(m) => m.clone(),
                None => "No error message".to_string(),
            };
            let e = ErrorResponse {
                code,
                message,
                reason: error_message,
                status_code: 200,
                attempt_status: Some(status),
                connector_transaction_id: None,
                network_advice_code: None,
                network_decline_code: None,
                network_error_message: None,
            };
            RouterData { status, response: Err(e), ..data }
        },
        None => RouterData { status, ..data },
    }
}

/// Fold the transport's outcome back into the envelope.
///
/// Every outcome of the one wire exchange ends here: a success body goes
/// through the adapter's response parser; an error body is mapped into
/// the canonical error shape and planted in the response slot; a timeout
/// becomes the fixed timeout error payload — a successful computation of
/// a failure, so a slow connector degrades the payment instead of
/// crashing the orchestrator; any other transport fault is fatal.
pub fn handle_wire_outcome<F, Req, Res, B, W, EW, A: ConnectorIntegration<F, Req, Res, B, W, EW>>(
    adapter: &A,
    data: RouterData<F, Req, Res>,
    outcome: Result<Result<W, WireErrorBody<EW>>, TransportError>,
) -> (r: Result<RouterData<F, Req, Res>, ConnectorError>)
    ensures
        (outcome matches Ok(Ok(w)) ==> call_ensures(A::handle_response, (adapter, data, w), r)),
        (outcome matches Ok(Err(body)) ==> (r matches Ok(d) && d.response matches Err(e)
            && call_ensures(A::get_error_response, (adapter, body), e)
            && d == spec_with_response(data, d.response))),
        (outcome matches Err(TransportError::Timeout) ==> (r matches Ok(d)
            && d.response matches Err(e) && is_request_timeout_error_response(e)
            && d == spec_with_response(data, d.response))),
        (outcome matches Err(TransportError::Failed { details }) ==> (r matches Err(
            ConnectorError::ProcessingStepFailed { details: ds },
        ) && ds == details)),
{
    match outcome {
        Ok(Ok(w)) => adapter.handle_response(data, w),
        Ok(Err(body)) => {
            let e = adapter.get_error_response(body);
            Ok(RouterData { response: Err(e), ..data })
        },
        Err(TransportError::Timeout) => {
            let e = request_timeout_error_response();
            Ok(RouterData { response: Err(e), ..data })
        },
        Err(TransportError::Failed { details }) => Err(
            ConnectorError::ProcessingStepFailed { details },
        ),
    }
}

/// Every way a triggered call can end, as seen from outside the engine:
/// the build step refused the envelope with its own typed fault; the
/// exchange failed fatally at the transport; a timeout was degraded to
/// the fixed error payload in the response slot; the connector's error
/// body was mapped into the response slot; or the adapter parsed some
/// success body.
pub open spec fn spec_triggered_outcome<
    F,
    Req,
    Res,
    B,
    W,
    EW,
    A: ConnectorIntegration<F, Req, Res, B, W, EW>,
>(
    adapter: &A,
    data: RouterData<F, Req, Res>,
    r: Result<RouterData<F, Req, Res>, ConnectorError>,
) -> bool {
    ||| (r matches Err(e) && call_ensures(A::build_request, (adapter, &data), Err(e)))
    ||| (r matches Err(ConnectorError::ProcessingStepFailed { .. }))
    ||| (r matches Ok(d) && d.response matches Err(e) && is_request_timeout_error_response(e)
        && d == spec_with_response(data, d.response))
    ||| (r matches Ok(d) && d.response matches Err(e) && d == spec_with_response(data, d.response)
        && (exists|body: WireErrorBody<EW>| #[trigger] call_ensures(
        A::get_error_response,
        (adapter, body),
        e,
    )))
    ||| (exists|w: W| #[trigger] call_ensures(A::handle_response, (adapter, data, w), r))
}

/// Execute one connector call end to end: apply the action decision,
/// build the wire request, perform the exchange, and fold the outcome
/// back into the envelope.
///
/// A non-invoking action leaves the transport untouched. A
/// request-construction fault or a non-timeout transport fault is
/// returned as the fatal error; every other path hands the envelope back
/// with its response slot populated.
pub fn execute_connector_processing_step<
    F,
    Req,
    Res,
    B,
    W,
    EW,
    A: ConnectorIntegration<F, Req, Res, B, W, EW>,
    T: WireTransport<B, W, EW>,
>(
    adapter: &A,
    transport: &mut T,
    data: RouterData<F, Req, Res>,
    call_connector_action: CallConnectorAction<W>,
) -> (r: Result<RouterData<F, Req, Res>, ConnectorError>)
    ensures
        (call_connector_action is Avoid ==> (r matches Ok(d) && d == data && *final(transport) == *old(
            transport,
        ))),
        (call_connector_action matches CallConnectorAction::StatusUpdate {
            status,
            error_code,
            error_message,
        } ==> (r matches Ok(d) && spec_status_update_applied(
            data,
            status,
            error_code,
            error_message,
            d,
        ) && *final(transport) == *old(transport))),
        (call_connector_action matches CallConnectorAction::HandleResponse(w) ==> (call_ensures(
            A::handle_response,
            (adapter, data, w),
            r,
        ) && *final(transport) == *old(transport))),
        (call_connector_action is Trigger ==> spec_triggered_outcome(adapter, data, r)),
{
    match call_connector_action {
        CallConnectorAction::Trigger => {
            let built = adapter.build_request(&data);
            let request = match built {
                Ok(request) => request,
                Err(e) => {
                    return Err(e);
                },
            };
            let outcome = transport.call(&request);
            handle_wire_outcome(adapter, data, outcome)
        },
        CallConnectorAction::Avoid => Ok(data),
        CallConnectorAction::StatusUpdate { status, error_code, error_message } => Ok(
            apply_status_update(data, status, error_code, error_message),
        ),
        CallConnectorAction::HandleResponse(w) => adapter.handle_response(data, w),
    }
}

} // verus!

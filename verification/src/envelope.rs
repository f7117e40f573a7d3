//! The canonical data envelope: one typed container per connector call,
//! carrying flow identity, request, response slot, auth material and the
//! access token through the pipeline.

use vstd::prelude::*;
use core::marker::PhantomData;
use crate::auth::AccessTokenRequestData;
use crate::auth::ConnectorAuthType;
use crate::enums::AttemptStatus;
use crate::enums::Currency;
use crate::enums::Method;
use crate::enums::PaymentMethod;
use crate::enums::RefundStatus;
use crate::error::ConnectorError;
use crate::error::ErrorResponse;
use crate::ids::MerchantId;
use crate::token::AccessToken;

verus! {

/// Flow marker: authorize a payment.
pub struct Authorize;

/// Flow marker: execute a refund.
pub struct Execute;

/// Flow marker: synchronize a refund's state.
pub struct RSync;

/// Flow marker: obtain a connector access token.
pub struct AccessTokenAuth;

/// The canonical envelope for one connector call, typed by flow, request
/// payload and response payload. Created fresh per logical operation,
/// threaded through the pipeline, and consumed by the caller. The
/// response slot always holds either a parsed success or a typed error —
/// it starts out holding the placeholder error and is never emptied.
pub struct RouterData<F, Req, Res> {
    pub flow: PhantomData<F>,
    /// Name of the connector this envelope is aimed at.
    pub connector: String,
    pub merchant_id: MerchantId,
    /// Identifier of the payment or refund this call belongs to.
    pub payment_id: String,
    pub payment_method: PaymentMethod,
    /// Free-text description of the operation, where the merchant gave
    /// one.
    pub description: Option<String>,
    /// The merchant's stored credentials for this connector.
    pub connector_auth_type: ConnectorAuthType,
    /// The access token the call will be made under, once ensured.
    pub access_token: Option<AccessToken>,
    /// The reference the connector is asked to echo back.
    pub connector_request_reference_id: String,
    pub request: Req,
    pub response: Result<Res, ErrorResponse>,
    pub status: AttemptStatus,
}

/// The envelope with only its response slot replaced.
pub open spec fn spec_with_response<F, Req, Res>(
    d: RouterData<F, Req, Res>,
    response: Result<Res, ErrorResponse>,
) -> RouterData<F, Req, Res> {
    RouterData { response, ..d }
}

/// The envelope with only its attempt status replaced.
pub open spec fn spec_with_status<F, Req, Res>(
    d: RouterData<F, Req, Res>,
    status: AttemptStatus,
) -> RouterData<F, Req, Res> {
    RouterData { status, ..d }
}

/// The envelope with only its access token replaced.
pub open spec fn spec_with_access_token<F, Req, Res>(
    d: RouterData<F, Req, Res>,
    access_token: Option<AccessToken>,
) -> RouterData<F, Req, Res> {
    RouterData { access_token, ..d }
}

/// Rebuild an envelope under a different flow with a new request and
/// response slot, carrying every other field over unchanged. This is how
/// the token manager derives its synthetic token-refresh sub-envelope
/// from the live envelope.
pub fn router_data_type_conversion<F1, Req1, Res1, F2, Req2, Res2>(
    data: RouterData<F1, Req1, Res1>,
    request: Req2,
    response: Result<Res2, ErrorResponse>,
) -> (r: RouterData<F2, Req2, Res2>)
    ensures
        r.connector == data.connector,
        r.merchant_id == data.merchant_id,
        r.payment_id == data.payment_id,
        r.payment_method == data.payment_method,
        r.description == data.description,
        r.connector_auth_type == data.connector_auth_type,
        r.access_token == data.access_token,
        r.connector_request_reference_id == data.connector_request_reference_id,
        r.request == request,
        r.response == response,
        r.status == data.status,
{
    RouterData {
        flow: PhantomData,
        connector: data.connector,
        merchant_id: data.merchant_id,
        payment_id: data.payment_id,
        payment_method: data.payment_method,
        description: data.description,
        connector_auth_type: data.connector_auth_type,
        access_token: data.access_token,
        connector_request_reference_id: data.connector_request_reference_id,
        request,
        response,
        status: data.status,
    }
}

impl<F, Req, Res> RouterData<F, Req, Res> {
    /// The description of the operation, which some connectors require.
    pub fn get_description(&self) -> (r: Result<String, ConnectorError>)
        ensures
            self.description matches Some(d) ==> (r matches Ok(s) && s == d),
            self.description is None ==> (r matches Err(
                ConnectorError::MissingRequiredField { field_name },
            ) && field_name@ == "description"@),
    {
        match &self.description {
            Some(d) => Ok(d.clone()),
            None => Err(ConnectorError::MissingRequiredField { field_name: "description" }),
        }
    }
}

/// An envelope for the token-refresh flow.
pub type AccessTokenRouterData = RouterData<AccessTokenAuth, AccessTokenRequestData, AccessToken>;

/// The canonical request payload of a payment authorization.
pub struct PaymentsAuthorizeData {
    pub amount: i64,
    pub currency: Currency,
    /// Where the customer's browser is sent after the connector finishes.
    pub router_return_url: Option<String>,
    /// Where the connector posts status updates.
    pub webhook_url: Option<String>,
}

impl PaymentsAuthorizeData {
    /// The return URL, which redirect-based connectors require.
    pub fn get_router_return_url(&self) -> (r: Result<String, ConnectorError>)
        ensures
            self.router_return_url matches Some(u) ==> (r matches Ok(s) && s == u),
            self.router_return_url is None ==> (r matches Err(
                ConnectorError::MissingRequiredField { field_name },
            ) && field_name@ == "router_return_url"@),
    {
        match &self.router_return_url {
            Some(u) => Ok(u.clone()),
            None => Err(ConnectorError::MissingRequiredField { field_name: "router_return_url" }),
        }
    }

    /// The webhook URL, which callback-based connectors require.
    pub fn get_webhook_url(&self) -> (r: Result<String, ConnectorError>)
        ensures
            self.webhook_url matches Some(u) ==> (r matches Ok(s) && s == u),
            self.webhook_url is None ==> (r matches Err(
                ConnectorError::MissingRequiredField { field_name },
            ) && field_name@ == "webhook_url"@),
    {
        match &self.webhook_url {
            Some(u) => Ok(u.clone()),
            None => Err(ConnectorError::MissingRequiredField { field_name: "webhook_url" }),
        }
    }
}

/// The canonical request payload of a refund.
pub struct RefundsData {
    pub refund_id: String,
    /// The connector's identifier of the transaction being refunded.
    pub connector_transaction_id: String,
    pub currency: Currency,
    pub refund_amount: i64,
}

/// How a connector names the transaction in its response.
#[derive(Debug)]
pub enum ResponseId {
    /// The connector's own transaction identifier.
    ConnectorTransactionId(String),
    /// An encoded payload standing in for an identifier.
    EncodedData(String),
    /// The connector gave no identifier.
    NoResponseId,
}

/// A redirection the customer must follow to finish the payment.
#[derive(Debug)]
pub enum RedirectForm {
    Form {
        endpoint: String,
        method: Method,
        form_fields: Vec<(String, String)>,
    },
}

/// The reason payload attached when a transaction needs manual review.
#[derive(Debug)]
pub struct UnresolvedResponseReason {
    pub code: String,
    pub message: String,
}

/// The canonical response payload of a payment call.
#[derive(Debug)]
pub enum PaymentsResponseData {
    /// The connector accepted the call and reported a transaction.
    TransactionResponse {
        resource_id: ResponseId,
        redirection_data: Option<RedirectForm>,
        connector_metadata: Option<serde_json::Value>,
        network_txn_id: Option<String>,
        connector_response_reference_id: Option<String>,
        incremental_authorization_allowed: Option<bool>,
    },
    /// The connector reported a state that a human must resolve.
    TransactionUnresolvedResponse {
        resource_id: ResponseId,
        reason: Option<UnresolvedResponseReason>,
        connector_response_reference_id: Option<String>,
    },
}

/// The canonical response payload of a refund call.
#[derive(Debug)]
pub struct RefundsResponseData {
    pub connector_refund_id: String,
    pub refund_status: RefundStatus,
}

/// An envelope for a refund flow.
pub type RefundsRouterData<F> = RouterData<F, RefundsData, RefundsResponseData>;

/// A parsed refund wire response paired with its envelope.
pub type RefundsResponseRouterData<F, R> = ResponseRouterData<F, R, RefundsData, RefundsResponseData>;

/// A parsed wire response paired with the envelope it answers, handed to
/// a connector's response transformer.
pub struct ResponseRouterData<F, R, Req, Res> {
    /// The connector's parsed response body.
    pub response: R,
    /// The envelope the call was made for.
    pub data: RouterData<F, Req, Res>,
    /// The HTTP status the response arrived under.
    pub http_code: u16,
}

} // verus!

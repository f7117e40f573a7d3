//! The Opennode connector: one representative instance of the adapter
//! pattern every connector follows.
//!
//! Opennode is a crypto-payment gateway with its own wire status
//! vocabulary; this module maps the canonical envelope onto its wire
//! shapes and its statuses back onto the platform's canonical ones.

use vstd::prelude::*;
use crate::enums::AttemptStatus;
use crate::enums::Currency;
use crate::enums::Method;
use crate::enums::spec_currency_str;
use crate::envelope::Authorize;
use crate::envelope::Execute;
use crate::envelope::PaymentsAuthorizeData;
use crate::envelope::PaymentsResponseData;
use crate::envelope::RSync;
use crate::envelope::RedirectForm;
use crate::envelope::RefundsData;
use crate::envelope::RefundsResponseData;
use crate::envelope::RefundsResponseRouterData;
use crate::envelope::RefundsRouterData;
use crate::envelope::ResponseId;
use crate::envelope::ResponseRouterData;
use crate::envelope::RouterData;
use crate::envelope::UnresolvedResponseReason;
use crate::envelope::spec_with_response;
use crate::envelope::spec_with_status;
use crate::auth::ConnectorAuthType;
use crate::error::ConnectorError;
use crate::error::ErrorResponse;
use crate::integration::ConnectorIntegration;
use crate::integration::WireErrorBody;
use crate::integration::WireRequest;
use crate::masked::Masked;
use crate::masked::lemma_masked_eq;

verus! {

/// Whether amounts are exchanged in the base unit of the currency or in
/// its minor unit.
#[derive(Clone, Copy, Debug, PartialEq, Eq, Structural)]
pub enum CurrencyUnit {
    Base,
    Minor,
}

/// An envelope paired with the connector-unit amount of the operation.
pub struct OpennodeRouterData<T> {
    pub amount: i64,
    pub router_data: T,
}

impl<T> OpennodeRouterData<T> {
    /// Pair the envelope with the already-converted amount. Opennode
    /// takes amounts as they come, so the currency and unit play no part.
    pub fn try_from(value: (&CurrencyUnit, Currency, i64, T)) -> (r: Result<Self, ConnectorError>)
        ensures
            r matches Ok(d) && d.amount == value.2 && d.router_data == value.3,
    {
        let (_currency_unit, _currency, amount, router_data) = value;
        Ok(OpennodeRouterData { amount, router_data })
    }
}

/// The credential shape Opennode needs: a single API key sent as a
/// header.
pub struct OpennodeAuthType {
    pub api_key: Masked<String>,
}

impl OpennodeAuthType {
    /// Extract Opennode's credential from the stored blob; any shape but
    /// a bare header key is refused.
    pub fn try_from(auth_type: &ConnectorAuthType) -> (r: Result<Self, ConnectorError>)
        ensures
            auth_type matches ConnectorAuthType::HeaderKey { api_key } ==> (r matches Ok(a)
                && a.api_key == api_key),
            !(auth_type is HeaderKey) ==> r matches Err(ConnectorError::FailedToObtainAuthType),
    {
        match auth_type {
            ConnectorAuthType::HeaderKey { api_key } => {
                let k = api_key.clone();
                proof {
                    lemma_masked_eq(k, *api_key);
                }
                Ok(OpennodeAuthType { api_key: k })
            },
            _ => Err(ConnectorError::FailedToObtainAuthType),
        }
    }
}

/// Opennode's wire vocabulary for a payment's state.
#[derive(Clone, Copy, Debug, PartialEq, Eq, Structural)]
pub enum OpennodePaymentStatus {
    Unpaid,
    Paid,
    Expired,
    Processing,
    Underpaid,
    Refunded,
    /// Any wire value outside the known vocabulary.
    Unknown,
}

impl Default for OpennodePaymentStatus {
    /// The wire vocabulary's resting state.
    fn default() -> (r: Self)
        ensures
            r == OpennodePaymentStatus::Processing,
    {
        OpennodePaymentStatus::Processing
    }
}

/// The canonical attempt status each Opennode wire status maps to. The
/// mapping is total: every known state maps explicitly, and anything
/// outside the vocabulary lands on the conservative pending state, never
/// on success.
pub open spec fn spec_attempt_status_of(s: OpennodePaymentStatus) -> AttemptStatus {
    match s {
        OpennodePaymentStatus::Unpaid => AttemptStatus::AuthenticationPending,
        OpennodePaymentStatus::Paid => AttemptStatus::Charged,
        OpennodePaymentStatus::Expired => AttemptStatus::Failure,
        OpennodePaymentStatus::Underpaid => AttemptStatus::Unresolved,
        OpennodePaymentStatus::Processing => AttemptStatus::Pending,
        OpennodePaymentStatus::Refunded => AttemptStatus::Pending,
        OpennodePaymentStatus::Unknown => AttemptStatus::Pending,
    }
}

impl From<OpennodePaymentStatus> for AttemptStatus {
    fn from(item: OpennodePaymentStatus) -> (r: Self) {
        match item {
            OpennodePaymentStatus::Unpaid => AttemptStatus::AuthenticationPending,
            OpennodePaymentStatus::Paid => AttemptStatus::Charged,
            OpennodePaymentStatus::Expired => AttemptStatus::Failure,
            OpennodePaymentStatus::Underpaid => AttemptStatus::Unresolved,
            _ => AttemptStatus::Pending,
        }
    }
}

impl vstd::std_specs::convert::FromSpecImpl<OpennodePaymentStatus> for AttemptStatus {
    open spec fn obeys_from_spec() -> bool {
        true
    }

    open spec fn from_spec(v: OpennodePaymentStatus) -> Self {
        spec_attempt_status_of(v)
    }
}

/// Every payment wire status maps to exactly one canonical status, and
/// none maps to the success state except the one that unambiguously
/// names a completed, irreversible payment; an unknown wire value lands
/// on the conservative pending state.
pub proof fn lemma_payment_status_mapping(s: OpennodePaymentStatus)
    ensures
        spec_attempt_status_of(s) == AttemptStatus::Charged <==> s == OpennodePaymentStatus::Paid,
        spec_attempt_status_of(OpennodePaymentStatus::Unknown) == AttemptStatus::Pending,
{
}

/// The wire status named by a wire string: the known lower-case names,
/// and the catch-all unknown state for everything else.
pub open spec fn spec_payment_status_of_wire(s: Seq<char>) -> OpennodePaymentStatus {
    if s == "unpaid"@ {
        OpennodePaymentStatus::Unpaid
    } else if s == "paid"@ {
        OpennodePaymentStatus::Paid
    } else if s == "expired"@ {
        OpennodePaymentStatus::Expired
    } else if s == "processing"@ {
        OpennodePaymentStatus::Processing
    } else if s == "underpaid"@ {
        OpennodePaymentStatus::Underpaid
    } else if s == "refunded"@ {
        OpennodePaymentStatus::Refunded
    } else {
        OpennodePaymentStatus::Unknown
    }
}

impl OpennodePaymentStatus {
    /// Read a wire status string; a value outside the vocabulary is the
    /// unknown state, never an error.
    pub fn from_wire(s: &str) -> (r: Self)
        ensures
            r == spec_payment_status_of_wire(s@),
    {
        let v = s.to_string();
        if v == "unpaid".to_string() {
            OpennodePaymentStatus::Unpaid
        } else if v == "paid".to_string() {
            OpennodePaymentStatus::Paid
        } else if v == "expired".to_string() {
            OpennodePaymentStatus::Expired
        } else if v == "processing".to_string() {
            OpennodePaymentStatus::Processing
        } else if v == "underpaid".to_string() {
            OpennodePaymentStatus::Underpaid
        } else if v == "refunded".to_string() {
            OpennodePaymentStatus::Refunded
        } else {
            OpennodePaymentStatus::Unknown
        }
    }
}

/// The wire request of an Opennode charge.
pub struct OpennodePaymentsRequest {
    pub amount: i64,
    pub currency: String,
    pub description: String,
    pub auto_settle: bool,
    pub success_url: String,
    pub callback_url: String,
    pub order_id: String,
}

/// Assemble the Opennode charge request from the paired envelope,
/// refusing an envelope that lacks a field the wire format cannot do
/// without — in the order the fields are read: description, return URL,
/// webhook URL.
pub fn get_crypto_specific_payment_data(
    item: &OpennodeRouterData<&RouterData<Authorize, PaymentsAuthorizeData, PaymentsResponseData>>,
) -> (r: Result<OpennodePaymentsRequest, ConnectorError>)
    ensures
        item.router_data.description is None ==> (r matches Err(
            ConnectorError::MissingRequiredField { field_name },
        ) && field_name@ == "description"@),
        item.router_data.description is Some && item.router_data.request.router_return_url is None
            ==> (r matches Err(ConnectorError::MissingRequiredField { field_name })
            && field_name@ == "router_return_url"@),
        item.router_data.description is Some && item.router_data.request.router_return_url is Some
            && item.router_data.request.webhook_url is None ==> (r matches Err(
            ConnectorError::MissingRequiredField { field_name },
        ) && field_name@ == "webhook_url"@),
        item.router_data.description is Some && item.router_data.request.router_return_url is Some
            && item.router_data.request.webhook_url is Some ==> (r matches Ok(req)
            && req.amount == item.amount
            && req.currency@ == spec_currency_str(item.router_data.request.currency)
            && req.description == item.router_data.description->0
            && req.auto_settle
            && req.success_url == item.router_data.request.router_return_url->0
            && req.callback_url == item.router_data.request.webhook_url->0
            && req.order_id == item.router_data.connector_request_reference_id),
{
    let amount = item.amount;
    let currency = item.router_data.request.currency.as_str().to_string();
    let description = match item.router_data.get_description() {
        Ok(d) => d,
        Err(e) => {
            return Err(e);
        },
    };
    let auto_settle = true;
    let success_url = match item.router_data.request.get_router_return_url() {
        Ok(u) => u,
        Err(e) => {
            return Err(e);
        },
    };
    let callback_url = match item.router_data.request.get_webhook_url() {
        Ok(u) => u,
        Err(e) => {
            return Err(e);
        },
    };
    let order_id = item.router_data.connector_request_reference_id.clone();
    Ok(
        OpennodePaymentsRequest {
            amount,
            currency,
            description,
            auto_settle,
            success_url,
            callback_url,
            order_id,
        },
    )
}

impl OpennodePaymentsRequest {
    /// Build the charge request for the paired envelope.
    pub fn try_from(
        item: &OpennodeRouterData<
            &RouterData<Authorize, PaymentsAuthorizeData, PaymentsResponseData>,
        >,
    ) -> (r: Result<Self, ConnectorError>)
        ensures
            item.router_data.description is None ==> (r matches Err(
                ConnectorError::MissingRequiredField { field_name },
            ) && field_name@ == "description"@),
            item.router_data.description is Some && item.router_data.request.router_return_url
                is None ==> (r matches Err(ConnectorError::MissingRequiredField { field_name })
                && field_name@ == "router_return_url"@),
            item.router_data.description is Some && item.router_data.request.router_return_url
                is Some && item.router_data.request.webhook_url is None ==> (r matches Err(
                ConnectorError::MissingRequiredField { field_name },
            ) && field_name@ == "webhook_url"@),
            item.router_data.description is Some && item.router_data.request.router_return_url
                is Some && item.router_data.request.webhook_url is Some ==> (r matches Ok(req)
                && req.amount == item.amount
                && req.currency@ == spec_currency_str(item.router_data.request.currency)
                && req.description == item.router_data.description->0
                && req.auto_settle
                && req.success_url == item.router_data.request.router_return_url->0
                && req.callback_url == item.router_data.request.webhook_url->0
                && req.order_id == item.router_data.connector_request_reference_id),
    {
        get_crypto_specific_payment_data(item)
    }
}

/// The wire request of an Opennode refund.
pub struct OpennodeRefundRequest {
    pub amount: i64,
}

impl OpennodeRefundRequest {
    /// Build the refund request for the paired envelope.
    pub fn try_from<F>(item: &OpennodeRouterData<&RefundsRouterData<F>>) -> (r: Result<
        Self,
        ConnectorError,
    >)
        ensures
            r matches Ok(req) && req.amount == item.router_data.request.refund_amount,
    {
        Ok(OpennodeRefundRequest { amount: item.router_data.request.refund_amount })
    }
}

/// Opennode's wire vocabulary for a refund's state.
#[derive(Clone, Copy, Debug, PartialEq, Eq, Structural)]
pub enum RefundStatus {
    Refunded,
    Processing,
}

impl Default for RefundStatus {
    /// The wire vocabulary's resting state.
    fn default() -> (r: Self)
        ensures
            r == RefundStatus::Processing,
    {
        RefundStatus::Processing
    }
}

/// The canonical refund status each Opennode wire refund status maps to:
/// only the completed wire state maps to refund success.
pub open spec fn spec_refund_status_of(s: RefundStatus) -> crate::enums::RefundStatus {
    match s {
        RefundStatus::Refunded => crate::enums::RefundStatus::Success,
        RefundStatus::Processing => crate::enums::RefundStatus::Pending,
    }
}

impl From<RefundStatus> for crate::enums::RefundStatus {
    fn from(item: RefundStatus) -> (r: Self) {
        match item {
            RefundStatus::Refunded => crate::enums::RefundStatus::Success,
            RefundStatus::Processing => crate::enums::RefundStatus::Pending,
        }
    }
}

impl vstd::std_specs::convert::FromSpecImpl<RefundStatus> for crate::enums::RefundStatus {
    open spec fn obeys_from_spec() -> bool {
        true
    }

    open spec fn from_spec(v: RefundStatus) -> Self {
        spec_refund_status_of(v)
    }
}

/// Every refund wire status maps to exactly one canonical refund status,
/// and only the completed wire state maps to refund success.
pub proof fn lemma_refund_status_mapping(s: RefundStatus)
    ensures
        spec_refund_status_of(s) == crate::enums::RefundStatus::Success <==> s
            == RefundStatus::Refunded,
{
}

impl RefundStatus {
    /// Read a refund wire status string — the lower-case vocabulary the
    /// wire speaks. A value outside it is refused rather than defaulted,
    /// so an unrecognized value can never read as a completed refund.
    pub fn from_wire(s: &str) -> (r: Option<Self>)
        ensures
            s@ == "refunded"@ ==> r == Some(RefundStatus::Refunded),
            s@ == "processing"@ ==> r == Some(RefundStatus::Processing),
            s@ != "refunded"@ && s@ != "processing"@ ==> r is None,
    {
        proof {
            reveal_strlit("refunded");
            reveal_strlit("processing");
            assert("refunded"@ != "processing"@) by {
                assert("refunded"@.len() == 8);
                assert("processing"@.len() == 10);
            }
        }
        let v = s.to_string();
        if v == "refunded".to_string() {
            Some(RefundStatus::Refunded)
        } else if v == "processing".to_string() {
            Some(RefundStatus::Processing)
        } else {
            None
        }
    }
}

/// The transaction payload of an Opennode charge response.
pub struct OpennodePaymentsResponseData {
    pub id: String,
    pub hosted_checkout_url: String,
    pub status: OpennodePaymentStatus,
    pub order_id: Option<String>,
}

/// The body of an Opennode charge response.
pub struct OpennodePaymentsResponse {
    pub data: OpennodePaymentsResponseData,
}

impl<F, T> RouterData<F, T, PaymentsResponseData> {
    /// Fold an Opennode charge response back into the envelope: map the
    /// wire status onto the canonical one and fill the response slot —
    /// with the redirect the customer must follow, or, for an underpaid
    /// charge, with the fixed manual-review reason.
    pub fn try_from(item: ResponseRouterData<F, OpennodePaymentsResponse, T, PaymentsResponseData>)
        -> (r: Result<Self, ConnectorError>)
        ensures
            r matches Ok(d) && d.status == spec_attempt_status_of(item.response.data.status)
                && d == spec_with_response(
                spec_with_status(item.data, spec_attempt_status_of(item.response.data.status)),
                d.response,
            ),
            item.response.data.status != OpennodePaymentStatus::Underpaid ==> (r matches Ok(d)
                && d.response matches Ok(
                PaymentsResponseData::TransactionResponse {
                    resource_id,
                    redirection_data,
                    connector_metadata,
                    network_txn_id,
                    connector_response_reference_id,
                    incremental_authorization_allowed,
                },
            ) && redirection_data matches Some(
                RedirectForm::Form { endpoint, method, form_fields },
            ) && resource_id == ResponseId::ConnectorTransactionId(item.response.data.id)
                && endpoint == item.response.data.hosted_checkout_url
                && method == Method::Get
                && form_fields@.len() == 0
                && connector_metadata is None
                && network_txn_id is None
                && connector_response_reference_id == item.response.data.order_id
                && incremental_authorization_allowed is None),
            item.response.data.status == OpennodePaymentStatus::Underpaid ==> (r matches Ok(d)
                && d.response matches Ok(
                PaymentsResponseData::TransactionUnresolvedResponse {
                    resource_id,
                    reason,
                    connector_response_reference_id,
                },
            ) && reason matches Some(rr)
                && resource_id == ResponseId::ConnectorTransactionId(item.response.data.id)
                && rr.code@ == "UNDERPAID"@
                && rr.message@
                == "Please check the transaction in opennode dashboard and resolve manually"@
                && connector_response_reference_id == item.response.data.order_id),
    {
        let OpennodePaymentsResponseData { id, hosted_checkout_url, status, order_id } =
            item.response.data;
        let form_fields: Vec<(String, String)> = Vec::new();
        let redirection_data = RedirectForm::Form {
            endpoint: hosted_checkout_url,
            method: Method::Get,
            form_fields,
        };
        let connector_id = ResponseId::ConnectorTransactionId(id);
        let attempt_status = status;
        let response_data = if attempt_status != OpennodePaymentStatus::Underpaid {
            Ok(
                PaymentsResponseData::TransactionResponse {
                    resource_id: connector_id,
                    redirection_data: Some(redirection_data),
                    connector_metadata: None,
                    network_txn_id: None,
                    connector_response_reference_id: order_id,
                    incremental_authorization_allowed: None,
                },
            )
        } else {
            Ok(
                PaymentsResponseData::TransactionUnresolvedResponse {
                    resource_id: connector_id,
                    reason: Some(
                        UnresolvedResponseReason {
                            code: "UNDERPAID".to_string(),
                            message:
                                "Please check the transaction in opennode dashboard and resolve manually".to_string(),
                        },
                    ),
                    connector_response_reference_id: order_id,
                },
            )
        };
        Ok(
            RouterData {
                status: AttemptStatus::from(attempt_status),
                response: response_data,
                ..item.data
            },
        )
    }
}

/// The body of an Opennode refund response.
pub struct RefundResponse {
    pub id: String,
    pub status: RefundStatus,
}

impl RefundsRouterData<Execute> {
    /// Fold an Opennode refund response back into the envelope.
    pub fn try_from(item: RefundsResponseRouterData<Execute, RefundResponse>) -> (r: Result<
        Self,
        ConnectorError,
    >)
        ensures
            r matches Ok(d) && d.response matches Ok(rd) && rd.connector_refund_id
                == item.response.id && rd.refund_status == spec_refund_status_of(
                item.response.status,
            ) && d == spec_with_response(item.data, d.response),
    {
        Ok(
            RouterData {
                response: Ok(
                    RefundsResponseData {
                        connector_refund_id: item.response.id,
                        refund_status: crate::enums::RefundStatus::from(item.response.status),
                    },
                ),
                ..item.data
            },
        )
    }
}

impl RefundsRouterData<RSync> {
    /// Fold an Opennode refund-sync response back into the envelope.
    pub fn try_from(item: RefundsResponseRouterData<RSync, RefundResponse>) -> (r: Result<
        Self,
        ConnectorError,
    >)
        ensures
            r matches Ok(d) && d.response matches Ok(rd) && rd.connector_refund_id
                == item.response.id && rd.refund_status == spec_refund_status_of(
                item.response.status,
            ) && d == spec_with_response(item.data, d.response),
    {
        Ok(
            RouterData {
                response: Ok(
                    RefundsResponseData {
                        connector_refund_id: item.response.id,
                        refund_status: crate::enums::RefundStatus::from(item.response.status),
                    },
                ),
                ..item.data
            },
        )
    }
}

/// Opennode's wire error payload.
pub struct OpennodeErrorResponse {
    pub message: String,
}

/// Map an Opennode error body into the canonical error shape: the wire
/// message under the placeholder code, echoing the HTTP status it
/// arrived with.
pub fn opennode_error_response(error: WireErrorBody<OpennodeErrorResponse>) -> (r: ErrorResponse)
    ensures
        r.reason matches Some(m) && m == error.body.message,
        r.code@ == "No error code"@,
        r.message == error.body.message,
        r.status_code == error.status_code,
        r.attempt_status is None,
        r.connector_transaction_id is None,
        r.network_advice_code is None,
        r.network_decline_code is None,
        r.network_error_message is None,
{
    let message = error.body.message;
    let reason = Some(message.clone());
    ErrorResponse {
        code: "No error code".to_string(),
        message,
        reason,
        status_code: error.status_code,
        attempt_status: None,
        connector_transaction_id: None,
        network_advice_code: None,
        network_decline_code: None,
        network_error_message: None,
    }
}

/// The status-update payload an Opennode webhook delivers.
pub struct OpennodeWebhookDetails {
    pub id: String,
    pub callback_url: String,
    pub success_url: String,
    pub status: OpennodePaymentStatus,
    pub payment_method: String,
    pub missing_amt: String,
    pub order_id: String,
    pub description: String,
    pub price: String,
    pub fee: String,
    pub auto_settle: String,
    pub fiat_value: String,
    pub net_fiat_value: String,
    pub overpaid_by: String,
    pub hashed_order: String,
}

/// Build the wire request of an Opennode charge: the charge body under
/// the API-key header, posted to the charges endpoint. Refused when the
/// stored credential is not a header key or a required field is absent.
pub fn build_payments_request(
    data: &RouterData<Authorize, PaymentsAuthorizeData, PaymentsResponseData>,
) -> (r: Result<WireRequest<OpennodePaymentsRequest>, ConnectorError>)
    ensures
        !(data.connector_auth_type is HeaderKey) ==> r matches Err(
            ConnectorError::FailedToObtainAuthType,
        ),
        data.connector_auth_type is HeaderKey && data.description is None ==> (r matches Err(
            ConnectorError::MissingRequiredField { field_name },
        ) && field_name@ == "description"@),
        data.connector_auth_type is HeaderKey && data.description is Some
            && data.request.router_return_url is None ==> (r matches Err(
            ConnectorError::MissingRequiredField { field_name },
        ) && field_name@ == "router_return_url"@),
        data.connector_auth_type is HeaderKey && data.description is Some
            && data.request.router_return_url is Some && data.request.webhook_url is None ==> (
        r matches Err(ConnectorError::MissingRequiredField { field_name }) && field_name@
            == "webhook_url"@),
        data.connector_auth_type matches ConnectorAuthType::HeaderKey { api_key } ==> ((
        data.description is Some && data.request.router_return_url is Some
            && data.request.webhook_url is Some) ==> (r matches Ok(w)
            && w.url@ == "https://api.opennode.com/v1/charges"@
            && w.method == Method::Post
            && w.headers@.len() == 1
            && w.headers@[0].0@ == "Authorization"@
            && w.headers@[0].1 == api_key.spec_inner()
            && w.body.amount == data.request.amount
            && w.body.currency@ == spec_currency_str(data.request.currency)
            && w.body.description == data.description->0
            && w.body.auto_settle
            && w.body.success_url == data.request.router_return_url->0
            && w.body.callback_url == data.request.webhook_url->0
            && w.body.order_id == data.connector_request_reference_id)),
{
    let auth = match OpennodeAuthType::try_from(&data.connector_auth_type) {
        Ok(a) => a,
        Err(e) => {
            return Err(e);
        },
    };
    let paired = match OpennodeRouterData::try_from(
        (&CurrencyUnit::Base, data.request.currency, data.request.amount, data),
    ) {
        Ok(p) => p,
        Err(e) => {
            return Err(e);
        },
    };
    let body = match OpennodePaymentsRequest::try_from(&paired) {
        Ok(b) => b,
        Err(e) => {
            return Err(e);
        },
    };
    let mut headers: Vec<(String, String)> = Vec::new();
    headers.push(("Authorization".to_string(), auth.api_key.peek().clone()));
    Ok(
        WireRequest {
            url: "https://api.opennode.com/v1/charges".to_string(),
            method: Method::Post,
            headers,
            body,
        },
    )
}

/// Build the wire request of an Opennode refund: the refund amount under
/// the API-key header, posted to the refunds endpoint.
pub fn build_refund_request(data: &RefundsRouterData<Execute>) -> (r: Result<
    WireRequest<OpennodeRefundRequest>,
    ConnectorError,
>)
    ensures
        !(data.connector_auth_type is HeaderKey) ==> r matches Err(
            ConnectorError::FailedToObtainAuthType,
        ),
        data.connector_auth_type matches ConnectorAuthType::HeaderKey { api_key } ==> (r matches Ok(
            w,
        ) && w.url@ == "https://api.opennode.com/v1/refunds"@
            && w.method == Method::Post
            && w.headers@.len() == 1
            && w.headers@[0].0@ == "Authorization"@
            && w.headers@[0].1 == api_key.spec_inner()
            && w.body.amount == data.request.refund_amount),
{
    let auth = match OpennodeAuthType::try_from(&data.connector_auth_type) {
        Ok(a) => a,
        Err(e) => {
            return Err(e);
        },
    };
    let paired = match OpennodeRouterData::try_from(
        (&CurrencyUnit::Base, data.request.currency, data.request.refund_amount, data),
    ) {
        Ok(p) => p,
        Err(e) => {
            return Err(e);
        },
    };
    let body = match OpennodeRefundRequest::try_from(&paired) {
        Ok(b) => b,
        Err(e) => {
            return Err(e);
        },
    };
    let mut headers: Vec<(String, String)> = Vec::new();
    headers.push(("Authorization".to_string(), auth.api_key.peek().clone()));
    Ok(
        WireRequest {
            url: "https://api.opennode.com/v1/refunds".to_string(),
            method: Method::Post,
            headers,
            body,
        },
    )
}

/// The Opennode connector, as the adapter unit the engine dispatches to.
pub struct Opennode;

impl ConnectorIntegration<
    Authorize,
    PaymentsAuthorizeData,
    PaymentsResponseData,
    OpennodePaymentsRequest,
    OpennodePaymentsResponse,
    OpennodeErrorResponse,
> for Opennode {
    fn build_request(&self, data: &RouterData<Authorize, PaymentsAuthorizeData, PaymentsResponseData>)
        -> Result<WireRequest<OpennodePaymentsRequest>, ConnectorError> {
        build_payments_request(data)
    }

    fn handle_response(
        &self,
        data: RouterData<Authorize, PaymentsAuthorizeData, PaymentsResponseData>,
        response: OpennodePaymentsResponse,
    ) -> Result<RouterData<Authorize, PaymentsAuthorizeData, PaymentsResponseData>, ConnectorError> {
        RouterData::<Authorize, PaymentsAuthorizeData, PaymentsResponseData>::try_from(
            ResponseRouterData { response, data, http_code: 200 },
        )
    }

    fn get_error_response(&self, error: WireErrorBody<OpennodeErrorResponse>) -> ErrorResponse {
        opennode_error_response(error)
    }
}

impl ConnectorIntegration<
    Execute,
    RefundsData,
    RefundsResponseData,
    OpennodeRefundRequest,
    RefundResponse,
    OpennodeErrorResponse,
> for Opennode {
    fn build_request(&self, data: &RefundsRouterData<Execute>) -> Result<
        WireRequest<OpennodeRefundRequest>,
        ConnectorError,
    > {
        build_refund_request(data)
    }

    fn handle_response(
        &self,
        data: RefundsRouterData<Execute>,
        response: RefundResponse,
    ) -> Result<RefundsRouterData<Execute>, ConnectorError> {
        RefundsRouterData::<Execute>::try_from(ResponseRouterData { response, data, http_code: 200 })
    }

    fn get_error_response(&self, error: WireErrorBody<OpennodeErrorResponse>) -> ErrorResponse {
        opennode_error_response(error)
    }
}

} // verus!

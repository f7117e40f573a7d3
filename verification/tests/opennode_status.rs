//! Opennode's wire vocabulary and its mapping onto the canonical
//! statuses, including the response transformers.

use core::marker::PhantomData;
use connector_core::auth::ConnectorAuthType;
use connector_core::enums::{AttemptStatus, Currency, Method, PaymentMethod};
use connector_core::envelope::{
    Authorize, Execute, PaymentsAuthorizeData, PaymentsResponseData, RSync, RedirectForm,
    RefundsData, RefundsResponseData, ResponseId, ResponseRouterData, RouterData,
};
use connector_core::error::{ConnectorError, ErrorResponse};
use connector_core::ids::MerchantId;
use connector_core::masked::Masked;
use connector_core::opennode::{
    build_payments_request, build_refund_request, CurrencyUnit, OpennodeAuthType,
    OpennodePaymentStatus, OpennodePaymentsRequest, OpennodePaymentsResponse,
    OpennodePaymentsResponseData, OpennodeRefundRequest, OpennodeRouterData, RefundStatus,
};

fn authorize_envelope(
    description: Option<&str>,
    return_url: Option<&str>,
    webhook_url: Option<&str>,
) -> RouterData<Authorize, PaymentsAuthorizeData, PaymentsResponseData> {
    RouterData {
        flow: PhantomData,
        connector: "opennode".to_string(),
        merchant_id: MerchantId::new("merchant_1".to_string()),
        payment_id: "pay_1".to_string(),
        payment_method: PaymentMethod::Crypto,
        description: description.map(|s| s.to_string()),
        connector_auth_type: ConnectorAuthType::HeaderKey {
            api_key: Masked::new("open-key".to_string()),
        },
        access_token: None,
        connector_request_reference_id: "order_1".to_string(),
        request: PaymentsAuthorizeData {
            amount: 1200,
            currency: Currency::EUR,
            router_return_url: return_url.map(|s| s.to_string()),
            webhook_url: webhook_url.map(|s| s.to_string()),
        },
        response: Err(ErrorResponse::default()),
        status: AttemptStatus::Started,
    }
}

fn charge_response(
    status: OpennodePaymentStatus,
) -> ResponseRouterData<
    Authorize,
    OpennodePaymentsResponse,
    PaymentsAuthorizeData,
    PaymentsResponseData,
> {
    ResponseRouterData {
        response: OpennodePaymentsResponse {
            data: OpennodePaymentsResponseData {
                id: "chg_1".to_string(),
                hosted_checkout_url: "https://checkout.opennode.com/chg_1".to_string(),
                status,
                order_id: Some("order_1".to_string()),
            },
        },
        data: authorize_envelope(Some("desc"), Some("https://r"), Some("https://w")),
        http_code: 200,
    }
}

#[test]
fn wire_paid_maps_to_charged() {
    assert_eq!(OpennodePaymentStatus::from_wire("paid"), OpennodePaymentStatus::Paid);
    assert_eq!(AttemptStatus::from(OpennodePaymentStatus::Paid), AttemptStatus::Charged);
}

#[test]
fn wire_expired_maps_to_failure() {
    assert_eq!(OpennodePaymentStatus::from_wire("expired"), OpennodePaymentStatus::Expired);
    assert_eq!(AttemptStatus::from(OpennodePaymentStatus::Expired), AttemptStatus::Failure);
}

#[test]
fn wire_unpaid_maps_to_authentication_pending() {
    assert_eq!(
        AttemptStatus::from(OpennodePaymentStatus::Unpaid),
        AttemptStatus::AuthenticationPending
    );
}

#[test]
fn wire_underpaid_maps_to_unresolved() {
    assert_eq!(OpennodePaymentStatus::from_wire("underpaid"), OpennodePaymentStatus::Underpaid);
    assert_eq!(AttemptStatus::from(OpennodePaymentStatus::Underpaid), AttemptStatus::Unresolved);
}

#[test]
fn unknown_wire_value_maps_to_pending_never_success() {
    for wire in ["bogus", "PAID", "", "settled"] {
        let status = OpennodePaymentStatus::from_wire(wire);
        assert_eq!(status, OpennodePaymentStatus::Unknown);
        assert_eq!(AttemptStatus::from(status), AttemptStatus::Pending);
    }
    assert_eq!(AttemptStatus::from(OpennodePaymentStatus::Processing), AttemptStatus::Pending);
    assert_eq!(AttemptStatus::from(OpennodePaymentStatus::Refunded), AttemptStatus::Pending);
}

#[test]
fn charge_transformer_fills_redirect_response() {
    let out = RouterData::<Authorize, PaymentsAuthorizeData, PaymentsResponseData>::try_from(
        charge_response(OpennodePaymentStatus::Paid),
    )
    .expect("the transformer never fails");
    assert_eq!(out.status, AttemptStatus::Charged);
    match out.response.expect("a transaction response is expected") {
        PaymentsResponseData::TransactionResponse { resource_id, redirection_data, .. } => {
            assert!(matches!(resource_id, ResponseId::ConnectorTransactionId(id) if id == "chg_1"));
            match redirection_data.expect("a redirect is expected") {
                RedirectForm::Form { endpoint, method, form_fields } => {
                    assert_eq!(endpoint, "https://checkout.opennode.com/chg_1");
                    assert_eq!(method, Method::Get);
                    assert!(form_fields.is_empty());
                }
            }
        }
        other => panic!("unexpected payload {other:?}"),
    }
}

#[test]
fn underpaid_charge_becomes_unresolved_with_fixed_code() {
    let out = RouterData::<Authorize, PaymentsAuthorizeData, PaymentsResponseData>::try_from(
        charge_response(OpennodePaymentStatus::Underpaid),
    )
    .expect("the transformer never fails");
    assert_eq!(out.status, AttemptStatus::Unresolved);
    match out.response.expect("an unresolved response is expected") {
        PaymentsResponseData::TransactionUnresolvedResponse { resource_id, reason, .. } => {
            assert!(matches!(resource_id, ResponseId::ConnectorTransactionId(id) if id == "chg_1"));
            let reason = reason.expect("a reason payload is expected");
            assert_eq!(reason.code, "UNDERPAID");
            assert_eq!(
                reason.message,
                "Please check the transaction in opennode dashboard and resolve manually"
            );
        }
        other => panic!("unexpected payload {other:?}"),
    }
}

#[test]
fn refund_wire_refunded_maps_to_success() {
    assert_eq!(RefundStatus::from_wire("refunded"), Some(RefundStatus::Refunded));
    assert_eq!(
        connector_core::enums::RefundStatus::from(RefundStatus::Refunded),
        connector_core::enums::RefundStatus::Success
    );
}

#[test]
fn refund_wire_processing_maps_to_pending() {
    assert_eq!(RefundStatus::from_wire("processing"), Some(RefundStatus::Processing));
    assert_eq!(
        connector_core::enums::RefundStatus::from(RefundStatus::Processing),
        connector_core::enums::RefundStatus::Pending
    );
}

#[test]
fn unrecognized_refund_wire_value_is_never_success() {
    for wire in ["Refunded", "REFUNDED", "success", "", "settled"] {
        assert_eq!(RefundStatus::from_wire(wire), None);
    }
}

#[test]
fn refund_transformer_execute_and_rsync() {
    let envelope = RouterData::<Execute, RefundsData, RefundsResponseData> {
        flow: PhantomData,
        connector: "opennode".to_string(),
        merchant_id: MerchantId::new("merchant_1".to_string()),
        payment_id: "pay_1".to_string(),
        payment_method: PaymentMethod::Crypto,
        description: None,
        connector_auth_type: ConnectorAuthType::HeaderKey {
            api_key: Masked::new("open-key".to_string()),
        },
        access_token: None,
        connector_request_reference_id: "order_1".to_string(),
        request: RefundsData {
            refund_id: "ref_1".to_string(),
            connector_transaction_id: "chg_1".to_string(),
            currency: Currency::EUR,
            refund_amount: 500,
        },
        response: Err(ErrorResponse::default()),
        status: AttemptStatus::Charged,
    };
    let out = RouterData::<Execute, RefundsData, RefundsResponseData>::try_from(
        ResponseRouterData {
            response: connector_core::opennode::RefundResponse {
                id: "rfd_1".to_string(),
                status: RefundStatus::Refunded,
            },
            data: envelope,
            http_code: 200,
        },
    )
    .expect("the transformer never fails");
    let payload = out.response.expect("a refund payload is expected");
    assert_eq!(payload.connector_refund_id, "rfd_1");
    assert_eq!(payload.refund_status, connector_core::enums::RefundStatus::Success);

    let sync_envelope = RouterData::<RSync, RefundsData, RefundsResponseData> {
        flow: PhantomData,
        connector: "opennode".to_string(),
        merchant_id: MerchantId::new("merchant_1".to_string()),
        payment_id: "pay_1".to_string(),
        payment_method: PaymentMethod::Crypto,
        description: None,
        connector_auth_type: ConnectorAuthType::HeaderKey {
            api_key: Masked::new("open-key".to_string()),
        },
        access_token: None,
        connector_request_reference_id: "order_1".to_string(),
        request: RefundsData {
            refund_id: "ref_1".to_string(),
            connector_transaction_id: "chg_1".to_string(),
            currency: Currency::EUR,
            refund_amount: 500,
        },
        response: Err(ErrorResponse::default()),
        status: AttemptStatus::Charged,
    };
    let synced = RouterData::<RSync, RefundsData, RefundsResponseData>::try_from(
        ResponseRouterData {
            response: connector_core::opennode::RefundResponse {
                id: "rfd_1".to_string(),
                status: RefundStatus::Processing,
            },
            data: sync_envelope,
            http_code: 200,
        },
    )
    .expect("the transformer never fails");
    let synced_payload = synced.response.expect("a refund payload is expected");
    assert_eq!(synced_payload.refund_status, connector_core::enums::RefundStatus::Pending);
}

#[test]
fn auth_type_accepts_header_key_only() {
    let ok = OpennodeAuthType::try_from(&ConnectorAuthType::HeaderKey {
        api_key: Masked::new("k1".to_string()),
    })
    .expect("a header key is accepted");
    assert_eq!(ok.api_key.peek().as_str(), "k1");

    let err = OpennodeAuthType::try_from(&ConnectorAuthType::NoKey);
    assert!(matches!(err, Err(ConnectorError::FailedToObtainAuthType)));
    let err2 = OpennodeAuthType::try_from(&ConnectorAuthType::BodyKey {
        api_key: Masked::new("a".to_string()),
        key1: Masked::new("b".to_string()),
    });
    assert!(matches!(err2, Err(ConnectorError::FailedToObtainAuthType)));
}

#[test]
fn payments_request_carries_all_fields() {
    let envelope = authorize_envelope(Some("two books"), Some("https://r"), Some("https://w"));
    let paired = OpennodeRouterData::try_from((&CurrencyUnit::Base, Currency::EUR, 1200, &envelope))
        .expect("pairing never fails");
    let request =
        OpennodePaymentsRequest::try_from(&paired).expect("every required field is present");
    assert_eq!(request.amount, 1200);
    assert_eq!(request.currency, "EUR");
    assert_eq!(request.description, "two books");
    assert!(request.auto_settle);
    assert_eq!(request.success_url, "https://r");
    assert_eq!(request.callback_url, "https://w");
    assert_eq!(request.order_id, "order_1");
}

#[test]
fn payments_request_reports_first_missing_field() {
    let no_desc = authorize_envelope(None, Some("https://r"), Some("https://w"));
    let paired =
        OpennodeRouterData::try_from((&CurrencyUnit::Base, Currency::EUR, 1, &no_desc)).unwrap();
    assert!(matches!(
        OpennodePaymentsRequest::try_from(&paired),
        Err(ConnectorError::MissingRequiredField { field_name: "description" })
    ));

    let no_return = authorize_envelope(Some("d"), None, Some("https://w"));
    let paired =
        OpennodeRouterData::try_from((&CurrencyUnit::Base, Currency::EUR, 1, &no_return)).unwrap();
    assert!(matches!(
        OpennodePaymentsRequest::try_from(&paired),
        Err(ConnectorError::MissingRequiredField { field_name: "router_return_url" })
    ));

    let no_hook = authorize_envelope(Some("d"), Some("https://r"), None);
    let paired =
        OpennodeRouterData::try_from((&CurrencyUnit::Base, Currency::EUR, 1, &no_hook)).unwrap();
    assert!(matches!(
        OpennodePaymentsRequest::try_from(&paired),
        Err(ConnectorError::MissingRequiredField { field_name: "webhook_url" })
    ));
}

#[test]
fn built_wire_requests_carry_auth_header() {
    let envelope = authorize_envelope(Some("d"), Some("https://r"), Some("https://w"));
    let wire = build_payments_request(&envelope).expect("the build must succeed");
    assert_eq!(wire.url, "https://api.opennode.com/v1/charges");
    assert_eq!(wire.method, Method::Post);
    assert_eq!(wire.headers.len(), 1);
    assert_eq!(wire.headers[0].0, "Authorization");
    assert_eq!(wire.headers[0].1, "open-key");
    assert_eq!(wire.body.amount, 1200);

    let refund_envelope = RouterData::<Execute, RefundsData, RefundsResponseData> {
        flow: PhantomData,
        connector: "opennode".to_string(),
        merchant_id: MerchantId::new("merchant_1".to_string()),
        payment_id: "pay_1".to_string(),
        payment_method: PaymentMethod::Crypto,
        description: None,
        connector_auth_type: ConnectorAuthType::HeaderKey {
            api_key: Masked::new("open-key".to_string()),
        },
        access_token: None,
        connector_request_reference_id: "order_1".to_string(),
        request: RefundsData {
            refund_id: "ref_1".to_string(),
            connector_transaction_id: "chg_1".to_string(),
            currency: Currency::EUR,
            refund_amount: 700,
        },
        response: Err(ErrorResponse::default()),
        status: AttemptStatus::Charged,
    };
    let refund_wire = build_refund_request(&refund_envelope).expect("the build must succeed");
    assert_eq!(refund_wire.url, "https://api.opennode.com/v1/refunds");
    assert_eq!(refund_wire.body.amount, 700);
    let paired = OpennodeRouterData::try_from(
        (&CurrencyUnit::Base, Currency::EUR, 700, &refund_envelope),
    )
    .unwrap();
    let body = OpennodeRefundRequest::try_from(&paired).expect("the build must succeed");
    assert_eq!(body.amount, 700);
}

#[test]
fn default_wire_statuses_are_processing() {
    assert_eq!(OpennodePaymentStatus::default(), OpennodePaymentStatus::Processing);
    assert_eq!(RefundStatus::default(), RefundStatus::Processing);
}

//! The access-token manager end to end, against in-memory fakes of the
//! store and the connector.

use core::marker::PhantomData;
use connector_core::access_token::{
    access_token_cache_key, add_access_token, cache_fresh_token, update_router_data_with_access_token_result,
    ConnectorData, TokenSupport,
};
use connector_core::action::CallConnectorAction;
use connector_core::auth::{AccessTokenRequestData, ConnectorAuthType};
use connector_core::engine::execute_connector_processing_step;
use connector_core::enums::{AttemptStatus, Currency, Method, PaymentMethod};
use connector_core::envelope::{
    AccessTokenAuth, Authorize, PaymentsAuthorizeData, PaymentsResponseData, RouterData,
};
use connector_core::error::{ApiError, ErrorResponse, StorageError, TransportError};
use connector_core::ids::{MerchantConnectorAccountId, MerchantId};
use connector_core::integration::{ConnectorIntegration, WireErrorBody, WireRequest, WireTransport};
use connector_core::masked::Masked;
use connector_core::observability::TokenCacheObserver;
use connector_core::store::AccessTokenStore;
use connector_core::token::{AccessToken, AddAccessTokenResult};

struct FakeStore {
    token: Option<AccessToken>,
    fail_get: bool,
    fail_set: bool,
    set_calls: usize,
    last_key: Option<String>,
}

impl FakeStore {
    fn empty() -> Self {
        FakeStore { token: None, fail_get: false, fail_set: false, set_calls: 0, last_key: None }
    }
}

impl AccessTokenStore for FakeStore {
    fn get_access_token(
        &mut self,
        _merchant_id: &MerchantId,
        key: &str,
    ) -> Result<Option<AccessToken>, StorageError> {
        self.last_key = Some(key.to_string());
        if self.fail_get {
            Err(StorageError::KvFailure)
        } else {
            Ok(self.token.clone())
        }
    }

    fn set_access_token(
        &mut self,
        _merchant_id: &MerchantId,
        key: &str,
        token: AccessToken,
    ) -> Result<(), StorageError> {
        self.set_calls += 1;
        self.last_key = Some(key.to_string());
        if self.fail_set {
            Err(StorageError::KvFailure)
        } else {
            self.token = Some(token);
            Ok(())
        }
    }
}

struct PanickingStore;

impl AccessTokenStore for PanickingStore {
    fn get_access_token(
        &mut self,
        _merchant_id: &MerchantId,
        _key: &str,
    ) -> Result<Option<AccessToken>, StorageError> {
        panic!("the store must not be touched on this path");
    }

    fn set_access_token(
        &mut self,
        _merchant_id: &MerchantId,
        _key: &str,
        _token: AccessToken,
    ) -> Result<(), StorageError> {
        panic!("the store must not be touched on this path");
    }
}

/// A fake token-issuing connector: its wire success body is the token
/// itself.
struct TokenAdapter;

impl ConnectorIntegration<AccessTokenAuth, AccessTokenRequestData, AccessToken, (), AccessToken, String>
    for TokenAdapter
{
    fn build_request(
        &self,
        _data: &RouterData<AccessTokenAuth, AccessTokenRequestData, AccessToken>,
    ) -> Result<WireRequest<()>, connector_core::error::ConnectorError> {
        Ok(WireRequest {
            url: "https://connector.example/oauth/token".to_string(),
            method: Method::Post,
            headers: Vec::new(),
            body: (),
        })
    }

    fn handle_response(
        &self,
        data: RouterData<AccessTokenAuth, AccessTokenRequestData, AccessToken>,
        response: AccessToken,
    ) -> Result<
        RouterData<AccessTokenAuth, AccessTokenRequestData, AccessToken>,
        connector_core::error::ConnectorError,
    > {
        let mut data = data;
        data.response = Ok(response);
        Ok(data)
    }

    fn get_error_response(&self, error: WireErrorBody<String>) -> ErrorResponse {
        ErrorResponse {
            code: "TOKEN_ERROR".to_string(),
            message: error.body.clone(),
            reason: Some(error.body),
            status_code: error.status_code,
            attempt_status: None,
            connector_transaction_id: None,
            network_advice_code: None,
            network_decline_code: None,
            network_error_message: None,
        }
    }
}

struct TokenTransport {
    outcome: Option<Result<Result<AccessToken, WireErrorBody<String>>, TransportError>>,
}

impl WireTransport<(), AccessToken, String> for TokenTransport {
    fn call(
        &mut self,
        _request: &WireRequest<()>,
    ) -> Result<Result<AccessToken, WireErrorBody<String>>, TransportError> {
        self.outcome.take().expect("the transport must be called exactly once")
    }
}

/// Counts the fire-and-forget observations the token flow reports.
struct CountingObserver {
    hits: usize,
    misses: usize,
    creations: usize,
    last_connector: Option<String>,
}

impl CountingObserver {
    fn new() -> Self {
        CountingObserver { hits: 0, misses: 0, creations: 0, last_connector: None }
    }
}

impl TokenCacheObserver for CountingObserver {
    fn access_token_cache_hit(&mut self, connector_name: &str) {
        self.hits += 1;
        self.last_connector = Some(connector_name.to_string());
    }

    fn access_token_cache_miss(&mut self, connector_name: &str) {
        self.misses += 1;
        self.last_connector = Some(connector_name.to_string());
    }

    fn access_token_creation(&mut self, connector_name: &str) {
        self.creations += 1;
        self.last_connector = Some(connector_name.to_string());
    }
}

struct PanickingTransport;

impl WireTransport<(), AccessToken, String> for PanickingTransport {
    fn call(
        &mut self,
        _request: &WireRequest<()>,
    ) -> Result<Result<AccessToken, WireErrorBody<String>>, TransportError> {
        panic!("the connector must not be called on this path");
    }
}

fn token_connector(merchant_connector_id: Option<&str>) -> ConnectorData {
    ConnectorData {
        connector_name: "globalbank".to_string(),
        merchant_connector_id: merchant_connector_id
            .map(|id| MerchantConnectorAccountId::new(id.to_string())),
        token_support: TokenSupport::AllPaymentMethods,
    }
}

fn payment_envelope() -> RouterData<Authorize, PaymentsAuthorizeData, PaymentsResponseData> {
    RouterData {
        flow: PhantomData,
        connector: "globalbank".to_string(),
        merchant_id: MerchantId::new("merchant_1".to_string()),
        payment_id: "pay_1".to_string(),
        payment_method: PaymentMethod::Card,
        description: Some("an order".to_string()),
        connector_auth_type: ConnectorAuthType::BodyKey {
            api_key: Masked::new("app-id".to_string()),
            key1: Masked::new("second-secret".to_string()),
        },
        access_token: None,
        connector_request_reference_id: "ref_1".to_string(),
        request: PaymentsAuthorizeData {
            amount: 1000,
            currency: Currency::USD,
            router_return_url: Some("https://return.example".to_string()),
            webhook_url: Some("https://hook.example".to_string()),
        },
        response: Err(ErrorResponse::default()),
        status: AttemptStatus::Started,
    }
}

#[test]
fn token_expiry_is_reduced_by_margin() {
    let token = AccessToken { token: Masked::new("tok".to_string()), expires: 100 };
    let adjusted = token.reduce_expiry();
    assert_eq!(adjusted.expires, 85);
    assert_eq!(adjusted.token.peek().as_str(), "tok");
}

#[test]
fn token_expiry_saturates_at_zero() {
    let token = AccessToken { token: Masked::new("tok".to_string()), expires: 7 };
    assert_eq!(token.reduce_expiry().expires, 0);
    let exact = AccessToken { token: Masked::new("tok".to_string()), expires: 15 };
    assert_eq!(exact.reduce_expiry().expires, 0);
    let negative = AccessToken { token: Masked::new("tok".to_string()), expires: -3 };
    assert_eq!(negative.reduce_expiry().expires, 0);
}

#[test]
fn cache_key_prefers_merchant_connector_id() {
    let connector = token_connector(Some("mca_42"));
    assert_eq!(access_token_cache_key(&connector, Some("creds_7")), "mca_42");
}

#[test]
fn cache_key_falls_back_to_creds_identifier() {
    let connector = token_connector(None);
    assert_eq!(access_token_cache_key(&connector, Some("creds_7")), "creds_7");
}

#[test]
fn cache_key_falls_back_to_connector_name() {
    let connector = token_connector(None);
    assert_eq!(access_token_cache_key(&connector, None), "globalbank");
}

#[test]
fn cache_key_is_deterministic() {
    let connector = token_connector(Some("mca_42"));
    let first = access_token_cache_key(&connector, None);
    let second = access_token_cache_key(&connector, None);
    assert_eq!(first, second);
}

#[test]
fn not_applicable_path_is_idempotent_and_calls_nothing() {
    let connector = ConnectorData {
        connector_name: "opennode".to_string(),
        merchant_connector_id: None,
        token_support: TokenSupport::NotSupported,
    };
    let merchant_id = MerchantId::new("merchant_1".to_string());
    let envelope = payment_envelope();
    let mut store = PanickingStore;
    let mut transport = PanickingTransport;
    let adapter = TokenAdapter;
    let mut observer = CountingObserver::new();

    let first = add_access_token(
        &mut store, &adapter, &mut transport, &mut observer, &connector, &merchant_id, &envelope,
        None,
    )
    .expect("short-circuit must succeed");
    let second = add_access_token(
        &mut store, &adapter, &mut transport, &mut observer, &connector, &merchant_id, &envelope,
        None,
    )
    .expect("short-circuit must succeed");

    for result in [&first, &second] {
        assert!(!result.connector_supports_access_token);
        let err = match &result.access_token_result {
            Err(e) => e,
            Ok(_) => panic!("placeholder error expected"),
        };
        assert_eq!(err.code, "No error code");
        assert_eq!(err.message, "No error message");
        assert_eq!(err.status_code, 200);
        assert!(err.reason.is_none());
    }
    assert_eq!(observer.hits, 0);
    assert_eq!(observer.misses, 0);
    assert_eq!(observer.creations, 0);
}

#[test]
fn cache_hit_returns_stored_token_without_refresh() {
    let connector = token_connector(None);
    let merchant_id = MerchantId::new("merchant_1".to_string());
    let envelope = payment_envelope();
    let mut store = FakeStore::empty();
    store.token = Some(AccessToken { token: Masked::new("cached".to_string()), expires: 500 });
    let mut transport = PanickingTransport;
    let adapter = TokenAdapter;
    let mut observer = CountingObserver::new();

    let result = add_access_token(
        &mut store, &adapter, &mut transport, &mut observer, &connector, &merchant_id, &envelope,
        None,
    )
    .expect("cache hit must succeed");
    assert!(result.connector_supports_access_token);
    let token = result
        .access_token_result
        .expect("token expected")
        .expect("a cached token was present");
    assert_eq!(token.token.peek().as_str(), "cached");
    assert_eq!(token.expires, 500);
    assert_eq!(store.last_key.as_deref(), Some("globalbank"));
    assert_eq!(observer.hits, 1);
    assert_eq!(observer.misses, 0);
    assert_eq!(observer.creations, 0);
    assert_eq!(observer.last_connector.as_deref(), Some("globalbank"));
}

#[test]
fn cache_miss_refreshes_adjusts_and_caches() {
    let connector = token_connector(Some("mca_9"));
    let merchant_id = MerchantId::new("merchant_1".to_string());
    let envelope = payment_envelope();
    let mut store = FakeStore::empty();
    let mut transport = TokenTransport {
        outcome: Some(Ok(Ok(AccessToken { token: Masked::new("fresh".to_string()), expires: 100 }))),
    };
    let adapter = TokenAdapter;
    let mut observer = CountingObserver::new();

    let result = add_access_token(
        &mut store, &adapter, &mut transport, &mut observer, &connector, &merchant_id, &envelope,
        None,
    )
    .expect("refresh must succeed");
    assert!(result.connector_supports_access_token);
    let token = result.access_token_result.expect("token expected").expect("token expected");
    assert_eq!(token.token.peek().as_str(), "fresh");
    assert_eq!(token.expires, 85);
    assert_eq!(store.set_calls, 1);
    let stored = store.token.expect("the fresh token must be cached");
    assert_eq!(stored.expires, 85);
    assert_eq!(store.last_key.as_deref(), Some("mca_9"));
    assert_eq!(observer.hits, 0);
    assert_eq!(observer.misses, 1);
    assert_eq!(observer.creations, 1);
}

#[test]
fn cache_write_failure_does_not_block_the_flow() {
    let connector = token_connector(None);
    let merchant_id = MerchantId::new("merchant_1".to_string());
    let envelope = payment_envelope();
    let mut store = FakeStore::empty();
    store.fail_set = true;
    let mut transport = TokenTransport {
        outcome: Some(Ok(Ok(AccessToken { token: Masked::new("fresh".to_string()), expires: 100 }))),
    };
    let adapter = TokenAdapter;
    let mut observer = CountingObserver::new();

    let result = add_access_token(
        &mut store, &adapter, &mut transport, &mut observer, &connector, &merchant_id, &envelope,
        None,
    )
    .expect("a failed cache write must not fail the flow");
    let token = result.access_token_result.expect("token expected").expect("token expected");
    assert_eq!(token.token.peek().as_str(), "fresh");
    assert_eq!(token.expires, 85);
    assert_eq!(store.set_calls, 1);
    assert!(store.token.is_none());
}

#[test]
fn cache_fresh_token_survives_failing_store() {
    let merchant_id = MerchantId::new("merchant_1".to_string());
    let mut store = FakeStore::empty();
    store.fail_set = true;
    let token = AccessToken { token: Masked::new("t".to_string()), expires: 60 };
    let returned = cache_fresh_token(&mut store, &merchant_id, "key", token);
    assert_eq!(returned.expires, 45);
    assert_eq!(returned.token.peek().as_str(), "t");
}

#[test]
fn store_read_failure_aborts_the_operation() {
    let connector = token_connector(None);
    let merchant_id = MerchantId::new("merchant_1".to_string());
    let envelope = payment_envelope();
    let mut store = FakeStore::empty();
    store.fail_get = true;
    let mut transport = PanickingTransport;
    let adapter = TokenAdapter;
    let mut observer = CountingObserver::new();

    let result = add_access_token(
        &mut store, &adapter, &mut transport, &mut observer, &connector, &merchant_id, &envelope,
        None,
    );
    assert!(matches!(result, Err(ApiError::InternalServerError)));
    assert_eq!(observer.hits, 0);
    assert_eq!(observer.misses, 0);
}

#[test]
fn unusable_credentials_abort_the_refresh() {
    let connector = token_connector(None);
    let merchant_id = MerchantId::new("merchant_1".to_string());
    let mut envelope = payment_envelope();
    envelope.connector_auth_type = ConnectorAuthType::NoKey;
    let mut store = FakeStore::empty();
    let mut transport = PanickingTransport;
    let adapter = TokenAdapter;
    let mut observer = CountingObserver::new();

    let result = add_access_token(
        &mut store, &adapter, &mut transport, &mut observer, &connector, &merchant_id, &envelope,
        None,
    );
    assert!(matches!(
        result,
        Err(ApiError::InvalidDataValue { field_name: "connector_account_details" })
    ));
    assert_eq!(observer.misses, 1);
    assert_eq!(observer.creations, 0);
}

#[test]
fn refresh_timeout_degrades_to_typed_error() {
    let connector = token_connector(None);
    let merchant_id = MerchantId::new("merchant_1".to_string());
    let envelope = payment_envelope();
    let mut store = FakeStore::empty();
    let mut transport = TokenTransport { outcome: Some(Err(TransportError::Timeout)) };
    let adapter = TokenAdapter;
    let mut observer = CountingObserver::new();

    let result = add_access_token(
        &mut store, &adapter, &mut transport, &mut observer, &connector, &merchant_id, &envelope,
        None,
    )
    .expect("a timeout must not abort the operation");
    assert!(result.connector_supports_access_token);
    let err = match result.access_token_result {
        Err(e) => e,
        Ok(_) => panic!("the timeout error must be carried"),
    };
    assert_eq!(err.status_code, 504);
    assert_eq!(err.code, "TIMEOUT");
    assert_eq!(err.message, "Connector did not respond in specified time");
    assert_eq!(store.set_calls, 0);
    // The refresh step ended without a fatal error, so it still counts.
    assert_eq!(observer.misses, 1);
    assert_eq!(observer.creations, 1);
}

#[test]
fn update_router_data_plants_token_when_triggering() {
    let mut envelope = payment_envelope();
    let result = AddAccessTokenResult {
        access_token_result: Ok(Some(AccessToken {
            token: Masked::new("tok".to_string()),
            expires: 85,
        })),
        connector_supports_access_token: true,
    };
    let action: CallConnectorAction<()> = CallConnectorAction::Trigger;
    let proceed = update_router_data_with_access_token_result(&result, &mut envelope, &action);
    assert!(proceed);
    let planted = envelope.access_token.expect("token must be planted");
    assert_eq!(planted.token.peek().as_str(), "tok");
    assert_eq!(planted.expires, 85);
}

#[test]
fn update_router_data_plants_error_and_stops_flow() {
    let mut envelope = payment_envelope();
    let mut failure = ErrorResponse::default();
    failure.code = "AUTH_FAILED".to_string();
    let result = AddAccessTokenResult {
        access_token_result: Err(failure),
        connector_supports_access_token: true,
    };
    let action: CallConnectorAction<()> = CallConnectorAction::Trigger;
    let proceed = update_router_data_with_access_token_result(&result, &mut envelope, &action);
    assert!(!proceed);
    let err = envelope.response.expect_err("the error must fill the response slot");
    assert_eq!(err.code, "AUTH_FAILED");
}

#[test]
fn update_router_data_leaves_envelope_alone_when_not_triggering() {
    let mut envelope = payment_envelope();
    let result = AddAccessTokenResult {
        access_token_result: Ok(Some(AccessToken {
            token: Masked::new("tok".to_string()),
            expires: 85,
        })),
        connector_supports_access_token: true,
    };
    let action: CallConnectorAction<()> = CallConnectorAction::Avoid;
    let proceed = update_router_data_with_access_token_result(&result, &mut envelope, &action);
    assert!(proceed);
    assert!(envelope.access_token.is_none());
}

#[test]
fn engine_trigger_runs_the_token_exchange() {
    let adapter = TokenAdapter;
    let mut transport = TokenTransport {
        outcome: Some(Ok(Ok(AccessToken { token: Masked::new("t".to_string()), expires: 30 }))),
    };
    let envelope = connector_core::access_token::build_refresh_token_router_data(
        &payment_envelope(),
        AccessTokenRequestData {
            app_id: Masked::new("app-id".to_string()),
            id: None,
        },
    );
    let out = execute_connector_processing_step(
        &adapter,
        &mut transport,
        envelope,
        CallConnectorAction::Trigger,
    )
    .expect("the exchange must succeed");
    let token = out.response.expect("the token must fill the response slot");
    assert_eq!(token.expires, 30);
}

#[test]
fn refresh_envelope_carries_identity_and_auth() {
    let envelope = payment_envelope();
    let sub = connector_core::access_token::build_refresh_token_router_data(
        &envelope,
        AccessTokenRequestData { app_id: Masked::new("app-id".to_string()), id: None },
    );
    assert_eq!(sub.connector, "globalbank");
    assert_eq!(sub.merchant_id.id, "merchant_1");
    assert_eq!(sub.payment_id, "pay_1");
    assert_eq!(sub.payment_method, PaymentMethod::Card);
    assert_eq!(sub.description.as_deref(), Some("an order"));
    assert!(matches!(sub.connector_auth_type, ConnectorAuthType::BodyKey { .. }));
    assert!(sub.access_token.is_none());
    assert_eq!(sub.connector_request_reference_id, "ref_1");
    assert_eq!(sub.request.app_id.peek().as_str(), "app-id");
    let placeholder = match &sub.response {
        Err(e) => e,
        Ok(_) => panic!("the placeholder error must fill a fresh envelope"),
    };
    assert_eq!(placeholder.code, "No error code");
    assert_eq!(sub.status, AttemptStatus::Started);
}

#[test]
fn type_conversion_replaces_request_and_response_only() {
    let envelope = payment_envelope();
    let converted: RouterData<AccessTokenAuth, u32, u32> =
        connector_core::envelope::router_data_type_conversion(envelope, 7u32, Ok(9u32));
    assert_eq!(converted.connector, "globalbank");
    assert_eq!(converted.payment_id, "pay_1");
    assert_eq!(converted.request, 7);
    assert_eq!(converted.response.ok(), Some(9));
    assert_eq!(converted.status, AttemptStatus::Started);
}

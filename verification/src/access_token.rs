//! The access-token manager: cache lookup, synthetic sub-request
//! construction for token refresh, expiry-skew adjustment, and
//! best-effort cache write-back.
//!
//! It guarantees that any flow requiring connector authentication has a
//! token before the adapter builds its request, while keeping redundant
//! token-issuance calls to a minimum.

use vstd::prelude::*;
use crate::action::CallConnectorAction;
use crate::auth::AccessTokenRequestData;
use crate::envelope::AccessTokenAuth;
use crate::envelope::AccessTokenRouterData;
use crate::envelope::RouterData;
use crate::envelope::spec_with_access_token;
use crate::envelope::spec_with_response;
use crate::engine::execute_connector_processing_step;
use crate::engine::spec_triggered_outcome;
use crate::error::ConnectorError;
use crate::enums::PaymentMethod;
use crate::error::ApiError;
use crate::error::ErrorResponse;
use crate::error::is_default_error_response;
use crate::ids::MerchantConnectorAccountId;
use crate::ids::MerchantId;
use crate::integration::ConnectorIntegration;
use crate::integration::WireTransport;
use crate::observability::TokenCacheObserver;
use crate::store::AccessTokenStore;
use crate::token::AccessToken;
use crate::token::AddAccessTokenResult;
use crate::token::spec_reduced_expiry;
use core::marker::PhantomData;

verus! {

/// Whether, and for which payment methods, a connector authenticates its
/// calls with access tokens.
#[derive(Clone, Copy, Debug, PartialEq, Eq, Structural)]
pub enum TokenSupport {
    /// The connector never uses access tokens.
    NotSupported,
    /// The connector uses access tokens for every payment method.
    AllPaymentMethods,
    /// The connector uses access tokens only for this payment method.
    OnlyFor(PaymentMethod),
}

/// Whether a connector with this capability uses access tokens for the
/// given payment method.
pub open spec fn spec_supports_access_token(
    support: TokenSupport,
    payment_method: PaymentMethod,
) -> bool {
    match support {
        TokenSupport::NotSupported => false,
        TokenSupport::AllPaymentMethods => true,
        TokenSupport::OnlyFor(pm) => pm == payment_method,
    }
}

/// The dispatch-time identity of one connector: its name, the
/// merchant-connector account chosen for it (where routing fixed one),
/// and its access-token capability.
pub struct ConnectorData {
    pub connector_name: String,
    /// Absent when straight-through routing was used without naming an
    /// account, or when a credentials identifier was passed instead.
    pub merchant_connector_id: Option<MerchantConnectorAccountId>,
    pub token_support: TokenSupport,
}

impl ConnectorData {
    /// Whether this connector uses access tokens for the given payment
    /// method.
    pub fn supports_access_token(&self, payment_method: PaymentMethod) -> (r: bool)
        ensures
            r == spec_supports_access_token(self.token_support, payment_method),
    {
        match self.token_support {
            TokenSupport::NotSupported => false,
            TokenSupport::AllPaymentMethods => true,
            TokenSupport::OnlyFor(pm) => pm == payment_method,
        }
    }
}

/// The view of an optional credentials identifier.
pub open spec fn spec_opt_str_view(o: Option<&str>) -> Option<Seq<char>> {
    match o {
        Some(s) => Some(s@),
        None => None,
    }
}

/// The key a connector's access token is cached under: the
/// merchant-connector account identifier where one is fixed, else the
/// supplied credentials identifier, else the bare connector name. The
/// same logical credential set thus always resolves to the same key, and
/// keys are never shared across distinct credential sets.
pub open spec fn spec_access_token_cache_key(
    connector: ConnectorData,
    creds_identifier: Option<Seq<char>>,
) -> Seq<char> {
    if connector.merchant_connector_id is Some {
        connector.merchant_connector_id->0.id@
    } else if creds_identifier is Some {
        creds_identifier->0
    } else {
        connector.connector_name@
    }
}

/// Compute the cache key for a connector's access token.
pub fn access_token_cache_key(connector: &ConnectorData, creds_identifier: Option<&str>) -> (r:
    String)
    ensures
        r@ == spec_access_token_cache_key(*connector, spec_opt_str_view(creds_identifier)),
{
    match &connector.merchant_connector_id {
        Some(mca_id) => mca_id.get_string_repr().to_string(),
        None => match creds_identifier {
            Some(id) => id.to_string(),
            None => connector.connector_name.clone(),
        },
    }
}

/// Cache-key determinism: the key is a function of the connector identity
/// and the credentials identifier alone, and follows the fixed precedence
/// — account identifier first, then credentials identifier, then the bare
/// connector name.
pub proof fn lemma_cache_key_precedence(
    connector: ConnectorData,
    creds_identifier: Option<Seq<char>>,
)
    ensures
        connector.merchant_connector_id is Some ==> spec_access_token_cache_key(
            connector,
            creds_identifier,
        ) == connector.merchant_connector_id->0.id@,
        connector.merchant_connector_id is None && creds_identifier is Some
            ==> spec_access_token_cache_key(connector, creds_identifier) == creds_identifier->0,
        connector.merchant_connector_id is None && creds_identifier is None
            ==> spec_access_token_cache_key(connector, creds_identifier)
            == connector.connector_name@,
{
}

/// Build the synthetic sub-envelope for the token-refresh flow from the
/// live envelope's identity and auth material. Its response slot starts
/// out holding the placeholder error, as every envelope does before its
/// call.
pub fn build_refresh_token_router_data<F, Req, Res>(
    router_data: &RouterData<F, Req, Res>,
    request: AccessTokenRequestData,
) -> (r: AccessTokenRouterData)
    ensures
        r.connector == router_data.connector,
        r.merchant_id == router_data.merchant_id,
        r.payment_id == router_data.payment_id,
        r.payment_method == router_data.payment_method,
        r.description == router_data.description,
        r.connector_auth_type == router_data.connector_auth_type,
        r.access_token == router_data.access_token,
        r.connector_request_reference_id == router_data.connector_request_reference_id,
        r.request == request,
        r.response matches Err(e) && is_default_error_response(e),
        r.status == router_data.status,
{
    let access_token: Option<AccessToken> = match &router_data.access_token {
        Some(token) => Some(token.clone()),
        None => None,
    };
    RouterData {
        flow: PhantomData,
        connector: router_data.connector.clone(),
        merchant_id: router_data.merchant_id.clone(),
        payment_id: router_data.payment_id.clone(),
        payment_method: router_data.payment_method,
        description: router_data.description.clone(),
        connector_auth_type: router_data.connector_auth_type.clone(),
        access_token,
        connector_request_reference_id: router_data.connector_request_reference_id.clone(),
        request,
        response: Err(ErrorResponse::default()),
        status: router_data.status,
    }
}

/// Run the token-refresh flow through the execution engine under a forced
/// `Trigger` action.
///
/// Some engine step stands behind the result: when the step executed the
/// sub-envelope, its populated response slot is handed back — the engine
/// degrades a connector timeout into the canonical 504 error payload
/// there, so a timed-out refresh arrives as `Ok(Err(..))`, a clean
/// failure the payment flow can report, never a fatal error — while a
/// build fault or a non-timeout transport fault aborts the operation.
/// Every non-fatal return reports a token-creation observation tagged by
/// the connector's name.
pub fn refresh_connector_auth<B, W, EW, A, T, O>(
    adapter: &A,
    transport: &mut T,
    observer: &mut O,
    connector: &ConnectorData,
    router_data: AccessTokenRouterData,
) -> (r: Result<Result<AccessToken, ErrorResponse>, ApiError>) where
    A: ConnectorIntegration<AccessTokenAuth, AccessTokenRequestData, AccessToken, B, W, EW>,
    T: WireTransport<B, W, EW>,
    O: TokenCacheObserver,

    ensures
        r matches Err(e) ==> e is InternalServerError,
        exists|step: Result<AccessTokenRouterData, ConnectorError>|
            #[trigger] spec_triggered_outcome::<
                AccessTokenAuth,
                AccessTokenRequestData,
                AccessToken,
                B,
                W,
                EW,
                A,
            >(adapter, router_data, step) && (match step {
                Ok(d) => r == Ok::<Result<AccessToken, ErrorResponse>, ApiError>(d.response),
                Err(_) => r matches Err(e) && e is InternalServerError,
            }),
{
    let result = execute_connector_processing_step(
        adapter,
        transport,
        router_data,
        CallConnectorAction::Trigger,
    );
    match result {
        Ok(access_token_router_data) => {
            observer.access_token_creation(connector.connector_name.as_str());
            Ok(access_token_router_data.response)
        },
        Err(_) => Err(ApiError::InternalServerError),
    }
}

/// Adjust a freshly obtained token's expiry for network delays and write
/// it to the store, best-effort.
///
/// The adjusted token is returned whatever the store said: a failed
/// cache write is deliberately swallowed, because a payment must not
/// fail once its token was successfully created — the next operation
/// simply refreshes again.
pub fn cache_fresh_token<S: AccessTokenStore>(
    store: &mut S,
    merchant_id: &MerchantId,
    key: &str,
    access_token: AccessToken,
) -> (r: AccessToken)
    ensures
        r.token == access_token.token,
        r.expires == spec_reduced_expiry(access_token.expires),
{
    let modified_access_token_with_expiry = access_token.reduce_expiry();
    let set_result = store.set_access_token(
        merchant_id,
        key,
        modified_access_token_with_expiry.clone(),
    );
    // A write fault is discarded on purpose, not by oversight: the token
    // in hand is good, and the next operation will refresh again.
    match set_result {
        Ok(_) => (),
        Err(_) => (),
    }
    modified_access_token_with_expiry
}

/// The token outcome a completed refresh step leads to: a refreshed
/// token is returned (and offered to the cache) with its expiry reduced
/// by the safety margin; a refresh that ended in a connector error is
/// carried as data, and nothing touches the store.
pub open spec fn spec_token_outcome_of_refresh<S>(
    refreshed: Result<AccessToken, ErrorResponse>,
    r: Result<Result<Option<AccessToken>, ErrorResponse>, ApiError>,
    store_before: S,
    store_after: S,
) -> bool {
    match refreshed {
        Ok(token) => r matches Ok(Ok(Some(cached))) && cached.token == token.token
            && cached.expires == spec_reduced_expiry(token.expires),
        Err(e) => r == Ok::<Result<Option<AccessToken>, ErrorResponse>, ApiError>(Err(e))
            && store_after == store_before,
    }
}

/// Resolve the store's answer into the token outcome.
///
/// A cached token is handed back exactly as stored — no refresh, no
/// write, no call of any kind. A miss resolves the stored credentials
/// into a refresh request (refusing a blob with no usable key before
/// anything else runs), sends the refresh through the engine, and hands
/// the adjusted token back after a best-effort cache write; a refresh
/// that ended in a connector error is carried as data with nothing
/// cached. A token outcome is never an empty success. A hit or a miss is
/// reported to the observer, tagged by the connector's name.
pub fn resolve_cached_token<F, Req, Res, S, B, W, EW, A, T, O>(
    store: &mut S,
    adapter: &A,
    transport: &mut T,
    observer: &mut O,
    connector: &ConnectorData,
    merchant_id: &MerchantId,
    key: &str,
    router_data: &RouterData<F, Req, Res>,
    old_access_token: Option<AccessToken>,
) -> (r: Result<Result<Option<AccessToken>, ErrorResponse>, ApiError>) where
    S: AccessTokenStore,
    A: ConnectorIntegration<AccessTokenAuth, AccessTokenRequestData, AccessToken, B, W, EW>,
    T: WireTransport<B, W, EW>,
    O: TokenCacheObserver,

    ensures
        old_access_token matches Some(token) ==> (r == Ok::<
            Result<Option<AccessToken>, ErrorResponse>,
            ApiError,
        >(Ok(Some(token))) && *final(store) == *old(store) && *final(transport) == *old(
            transport,
        )),
        old_access_token is None && router_data.connector_auth_type is NoKey ==> (r matches Err(
            ApiError::InvalidDataValue { field_name },
        ) && field_name@ == "connector_account_details"@
            && *final(store) == *old(store) && *final(transport) == *old(transport)),
        old_access_token is None && !(router_data.connector_auth_type is NoKey) ==> ((r matches Err(
            e,
        ) && e is InternalServerError) || (exists|refreshed: Result<AccessToken, ErrorResponse>|
            #[trigger] spec_token_outcome_of_refresh(refreshed, r, *old(store), *final(store)))),
        r matches Err(e) ==> (e is InternalServerError || (e matches ApiError::InvalidDataValue {
            field_name,
        } && field_name@ == "connector_account_details"@ && router_data.connector_auth_type
            is NoKey)),
        r matches Ok(Ok(opt)) ==> opt is Some,
{
    match old_access_token {
        Some(access_token) => {
            observer.access_token_cache_hit(connector.connector_name.as_str());
            Ok(Ok(Some(access_token)))
        },
        None => {
            observer.access_token_cache_miss(connector.connector_name.as_str());
            let refresh_token_request_data = match AccessTokenRequestData::try_from(
                router_data.connector_auth_type.clone(),
            ) {
                Ok(data) => data,
                Err(e) => {
                    return Err(e);
                },
            };
            let refresh_token_router_data = build_refresh_token_router_data(
                router_data,
                refresh_token_request_data,
            );
            match refresh_connector_auth(
                adapter,
                transport,
                observer,
                connector,
                refresh_token_router_data,
            ) {
                Ok(Ok(access_token)) => {
                    let ghost refreshed_token = access_token;
                    let cached = cache_fresh_token(store, merchant_id, key, access_token);
                    let result: Result<Result<Option<AccessToken>, ErrorResponse>, ApiError> = Ok(
                        Ok(Some(cached)),
                    );
                    proof {
                        assert(spec_token_outcome_of_refresh(
                            Ok::<AccessToken, ErrorResponse>(refreshed_token),
                            result,
                            *old(store),
                            *store,
                        ));
                    }
                    result
                },
                Ok(Err(error_response)) => {
                    let ghost refresh_error = error_response;
                    let result: Result<Result<Option<AccessToken>, ErrorResponse>, ApiError> = Ok(
                        Err(error_response),
                    );
                    proof {
                        assert(spec_token_outcome_of_refresh(
                            Err::<AccessToken, ErrorResponse>(refresh_error),
                            result,
                            *old(store),
                            *store,
                        ));
                    }
                    result
                },
                Err(e) => Err(e),
            }
        },
    }
}

/// Ensure a usable access token for this envelope's connector call.
///
/// A connector that does not use access tokens short-circuits with a
/// "not applicable" result — the placeholder error under a lowered
/// capability flag — touching neither the store, the transport nor the
/// observer, so repeating the step never performs any call and always
/// answers the same. Otherwise the token is looked up under the cache key and the
/// store's answer is resolved by [`resolve_cached_token`]: a hit is
/// returned as stored, a miss refreshes through the execution engine and
/// caches the margin-adjusted token best-effort. The operation aborts
/// only with the internal error — a store read fault or an engine fault
/// — or with the invalid-data error when the stored credentials have no
/// usable key; a supported connector's token outcome is never an empty
/// success.
pub fn add_access_token<F, Req, Res, S, B, W, EW, A, T, O>(
    store: &mut S,
    adapter: &A,
    transport: &mut T,
    observer: &mut O,
    connector: &ConnectorData,
    merchant_id: &MerchantId,
    router_data: &RouterData<F, Req, Res>,
    creds_identifier: Option<&str>,
) -> (r: Result<AddAccessTokenResult, ApiError>) where
    S: AccessTokenStore,
    A: ConnectorIntegration<AccessTokenAuth, AccessTokenRequestData, AccessToken, B, W, EW>,
    T: WireTransport<B, W, EW>,
    O: TokenCacheObserver,

    ensures
        !spec_supports_access_token(connector.token_support, router_data.payment_method) ==> (
        r matches Ok(a) && a.access_token_result matches Err(e) && is_default_error_response(e)
            && !a.connector_supports_access_token
            && *final(store) == *old(store) && *final(transport) == *old(transport)
            && *final(observer) == *old(observer)),
        r matches Ok(a) ==> a.connector_supports_access_token == spec_supports_access_token(
            connector.token_support,
            router_data.payment_method,
        ),
        r matches Err(e) ==> (e is InternalServerError || (e matches ApiError::InvalidDataValue {
            field_name,
        } && field_name@ == "connector_account_details"@ && router_data.connector_auth_type
            is NoKey)),
        (r matches Ok(a) ==> (a.access_token_result matches Ok(opt) ==> opt is Some)),
{
    if !connector.supports_access_token(router_data.payment_method) {
        return Ok(
            AddAccessTokenResult {
                access_token_result: Err(ErrorResponse::default()),
                connector_supports_access_token: false,
            },
        );
    }
    let merchant_connector_id_or_connector_name = access_token_cache_key(
        connector,
        creds_identifier,
    );
    let old_access_token = match store.get_access_token(
        merchant_id,
        merchant_connector_id_or_connector_name.as_str(),
    ) {
        Ok(token) => token,
        Err(_) => {
            return Err(ApiError::InternalServerError);
        },
    };
    let res: Result<Option<AccessToken>, ErrorResponse> = match resolve_cached_token(
        store,
        adapter,
        transport,
        observer,
        connector,
        merchant_id,
        merchant_connector_id_or_connector_name.as_str(),
        router_data,
        old_access_token,
    ) {
        Ok(outcome) => outcome,
        Err(e) => {
            return Err(e);
        },
    };
    Ok(AddAccessTokenResult { access_token_result: res, connector_supports_access_token: true })
}

/// Whether the token-ensure outcome is applied to the envelope: only when
/// the connector supports access tokens and the action machine says the
/// connector will actually be invoked.
pub open spec fn spec_should_update_router_data<W>(
    add_access_token_result: AddAccessTokenResult,
    call_connector_action: CallConnectorAction<W>,
) -> bool {
    add_access_token_result.connector_supports_access_token && call_connector_action is Trigger
}

/// Fold the token-ensure outcome into the envelope.
///
/// The envelope is touched only when the connector will actually be
/// invoked; otherwise it is handed back untouched. When the token was
/// obtained it is planted in the envelope and the flow continues; when
/// obtaining it failed and the connector would be invoked, the error is
/// planted in the response slot and the returned flag says the flow
/// cannot continue — a clean payment failure instead of a crash.
pub fn update_router_data_with_access_token_result<F, Req, Res, W>(
    add_access_token_result: &AddAccessTokenResult,
    router_data: &mut RouterData<F, Req, Res>,
    call_connector_action: &CallConnectorAction<W>,
) -> (should_continue: bool)
    ensures
        !spec_should_update_router_data(*add_access_token_result, *call_connector_action) ==> (
        *final(router_data) == *old(router_data) && should_continue),
        spec_should_update_router_data(*add_access_token_result, *call_connector_action) ==> (
        match add_access_token_result.access_token_result {
            Ok(token) => *final(router_data) == spec_with_access_token(*old(router_data), token)
                && should_continue,
            Err(e) => *final(router_data) == spec_with_response(*old(router_data), Err(e))
                && !should_continue,
        }),
{
    let should_update_router_data = add_access_token_result.connector_supports_access_token
        && matches!(call_connector_action, CallConnectorAction::Trigger);
    if should_update_router_data {
        match &add_access_token_result.access_token_result {
            Ok(access_token) => {
                let token: Option<AccessToken> = match access_token {
                    Some(t) => Some(t.clone()),
                    None => None,
                };
                router_data.access_token = token;
                true
            },
            Err(connector_error) => {
                router_data.response = Err(connector_error.clone());
                false
            },
        }
    } else {
        true
    }
}

} // verus!

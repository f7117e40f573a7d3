//! Business profiles: a merchant's per-profile configuration, with the
//! changeset machinery that applies partial updates to a stored profile.
//!
//! Configuration blobs (routing algorithms, webhook details, link
//! configurations) are JSON values the profile carries through without
//! reading.

use vstd::prelude::*;
use crate::datetime::DateTime;
use crate::datetime::date_time_now;
use crate::masked::Masked;

verus! {

/// An encrypted blob as the key-management service hands it back.
pub struct Encryption {
    pub inner: Masked<Vec<u8>>,
}

/// A stored business profile.
pub struct BusinessProfile {
    pub profile_id: String,
    pub merchant_id: String,
    pub profile_name: String,
    pub created_at: DateTime,
    pub modified_at: DateTime,
    pub return_url: Option<String>,
    pub enable_payment_response_hash: bool,
    pub payment_response_hash_key: Option<String>,
    pub redirect_to_merchant_with_http_post: bool,
    pub webhook_details: Option<serde_json::Value>,
    pub metadata: Option<Masked<serde_json::Value>>,
    pub routing_algorithm: Option<serde_json::Value>,
    pub intent_fulfillment_time: Option<i64>,
    pub frm_routing_algorithm: Option<serde_json::Value>,
    pub payout_routing_algorithm: Option<serde_json::Value>,
    pub is_recon_enabled: bool,
    pub applepay_verified_domains: Option<Vec<String>>,
    pub payment_link_config: Option<serde_json::Value>,
    pub session_expiry: Option<i64>,
    pub authentication_connector_details: Option<serde_json::Value>,
    pub payout_link_config: Option<serde_json::Value>,
    pub is_extended_card_info_enabled: Option<bool>,
    pub extended_card_info_config: Option<Masked<serde_json::Value>>,
    pub is_connector_agnostic_mit_enabled: Option<bool>,
    pub use_billing_as_payment_method_billing: Option<bool>,
    pub collect_shipping_details_from_wallet_connector: Option<bool>,
    pub collect_billing_details_from_wallet_connector: Option<bool>,
    pub outgoing_webhook_custom_http_headers: Option<Encryption>,
}

/// A business profile about to be inserted.
pub struct BusinessProfileNew {
    pub profile_id: String,
    pub merchant_id: String,
    pub profile_name: String,
    pub created_at: DateTime,
    pub modified_at: DateTime,
    pub return_url: Option<String>,
    pub enable_payment_response_hash: bool,
    pub payment_response_hash_key: Option<String>,
    pub redirect_to_merchant_with_http_post: bool,
    pub webhook_details: Option<serde_json::Value>,
    pub metadata: Option<Masked<serde_json::Value>>,
    pub routing_algorithm: Option<serde_json::Value>,
    pub intent_fulfillment_time: Option<i64>,
    pub frm_routing_algorithm: Option<serde_json::Value>,
    pub payout_routing_algorithm: Option<serde_json::Value>,
    pub is_recon_enabled: bool,
    pub applepay_verified_domains: Option<Vec<String>>,
    pub payment_link_config: Option<serde_json::Value>,
    pub session_expiry: Option<i64>,
    pub authentication_connector_details: Option<serde_json::Value>,
    pub payout_link_config: Option<serde_json::Value>,
    pub is_extended_card_info_enabled: Option<bool>,
    pub extended_card_info_config: Option<Masked<serde_json::Value>>,
    pub is_connector_agnostic_mit_enabled: Option<bool>,
    pub use_billing_as_payment_method_billing: Option<bool>,
    pub collect_shipping_details_from_wallet_connector: Option<bool>,
    pub collect_billing_details_from_wallet_connector: Option<bool>,
    pub outgoing_webhook_custom_http_headers: Option<Encryption>,
}

/// The changeset form of a profile update: only the columns that change.
pub struct BusinessProfileUpdateInternal {
    pub profile_name: Option<String>,
    pub modified_at: Option<DateTime>,
    pub return_url: Option<String>,
    pub enable_payment_response_hash: Option<bool>,
    pub payment_response_hash_key: Option<String>,
    pub redirect_to_merchant_with_http_post: Option<bool>,
    pub webhook_details: Option<serde_json::Value>,
    pub metadata: Option<Masked<serde_json::Value>>,
    pub routing_algorithm: Option<serde_json::Value>,
    pub intent_fulfillment_time: Option<i64>,
    pub frm_routing_algorithm: Option<serde_json::Value>,
    pub payout_routing_algorithm: Option<serde_json::Value>,
    pub is_recon_enabled: Option<bool>,
    pub applepay_verified_domains: Option<Vec<String>>,
    pub payment_link_config: Option<serde_json::Value>,
    pub session_expiry: Option<i64>,
    pub authentication_connector_details: Option<serde_json::Value>,
    pub payout_link_config: Option<serde_json::Value>,
    pub is_extended_card_info_enabled: Option<bool>,
    pub extended_card_info_config: Option<Masked<serde_json::Value>>,
    pub is_connector_agnostic_mit_enabled: Option<bool>,
    pub use_billing_as_payment_method_billing: Option<bool>,
    pub collect_shipping_details_from_wallet_connector: Option<bool>,
    pub collect_billing_details_from_wallet_connector: Option<bool>,
    pub outgoing_webhook_custom_http_headers: Option<Encryption>,
}

/// An update request against a business profile.
pub enum BusinessProfileUpdate {
    /// A full update: every changeable column, each given or left as is.
    Update {
        profile_name: Option<String>,
        modified_at: Option<DateTime>,
        return_url: Option<String>,
        enable_payment_response_hash: Option<bool>,
        payment_response_hash_key: Option<String>,
        redirect_to_merchant_with_http_post: Option<bool>,
        webhook_details: Option<serde_json::Value>,
        metadata: Option<Masked<serde_json::Value>>,
        routing_algorithm: Option<serde_json::Value>,
        intent_fulfillment_time: Option<i64>,
        frm_routing_algorithm: Option<serde_json::Value>,
        payout_routing_algorithm: Option<serde_json::Value>,
        is_recon_enabled: Option<bool>,
        applepay_verified_domains: Option<Vec<String>>,
        payment_link_config: Option<serde_json::Value>,
        session_expiry: Option<i64>,
        authentication_connector_details: Option<serde_json::Value>,
        payout_link_config: Option<serde_json::Value>,
        extended_card_info_config: Option<Masked<serde_json::Value>>,
        use_billing_as_payment_method_billing: Option<bool>,
        collect_shipping_details_from_wallet_connector: Option<bool>,
        collect_billing_details_from_wallet_connector: Option<bool>,
        is_connector_agnostic_mit_enabled: Option<bool>,
        outgoing_webhook_custom_http_headers: Option<Encryption>,
    },
    /// Toggle only the extended-card-info capability.
    ExtendedCardInfoUpdate { is_extended_card_info_enabled: Option<bool> },
    /// Toggle only the connector-agnostic-MIT capability.
    ConnectorAgnosticMitUpdate { is_connector_agnostic_mit_enabled: Option<bool> },
}

/// The changeset a profile update resolves to: the full update carries
/// its columns over (the extended-card-info flag is not part of it), and
/// each single-flag update touches its one column alone.
pub open spec fn spec_business_profile_changeset(
    u: BusinessProfileUpdate,
) -> BusinessProfileUpdateInternal {
    match u {
        BusinessProfileUpdate::Update {
            profile_name,
            modified_at,
            return_url,
            enable_payment_response_hash,
            payment_response_hash_key,
            redirect_to_merchant_with_http_post,
            webhook_details,
            metadata,
            routing_algorithm,
            intent_fulfillment_time,
            frm_routing_algorithm,
            payout_routing_algorithm,
            is_recon_enabled,
            applepay_verified_domains,
            payment_link_config,
            session_expiry,
            authentication_connector_details,
            payout_link_config,
            extended_card_info_config,
            use_billing_as_payment_method_billing,
            collect_shipping_details_from_wallet_connector,
            collect_billing_details_from_wallet_connector,
            is_connector_agnostic_mit_enabled,
            outgoing_webhook_custom_http_headers,
        } => BusinessProfileUpdateInternal {
            profile_name,
            modified_at,
            return_url,
            enable_payment_response_hash,
            payment_response_hash_key,
            redirect_to_merchant_with_http_post,
            webhook_details,
            metadata,
            routing_algorithm,
            intent_fulfillment_time,
            frm_routing_algorithm,
            payout_routing_algorithm,
            is_recon_enabled,
            applepay_verified_domains,
            payment_link_config,
            session_expiry,
            authentication_connector_details,
            payout_link_config,
            is_extended_card_info_enabled: None,
            extended_card_info_config,
            is_connector_agnostic_mit_enabled,
            use_billing_as_payment_method_billing,
            collect_shipping_details_from_wallet_connector,
            collect_billing_details_from_wallet_connector,
            outgoing_webhook_custom_http_headers,
        },
        BusinessProfileUpdate::ExtendedCardInfoUpdate { is_extended_card_info_enabled } => BusinessProfileUpdateInternal {
            profile_name: None,
            modified_at: None,
            return_url: None,
            enable_payment_response_hash: None,
            payment_response_hash_key: None,
            redirect_to_merchant_with_http_post: None,
            webhook_details: None,
            metadata: None,
            routing_algorithm: None,
            intent_fulfillment_time: None,
            frm_routing_algorithm: None,
            payout_routing_algorithm: None,
            is_recon_enabled: None,
            applepay_verified_domains: None,
            payment_link_config: None,
            session_expiry: None,
            authentication_connector_details: None,
            payout_link_config: None,
            is_extended_card_info_enabled,
            extended_card_info_config: None,
            is_connector_agnostic_mit_enabled: None,
            use_billing_as_payment_method_billing: None,
            collect_shipping_details_from_wallet_connector: None,
            collect_billing_details_from_wallet_connector: None,
            outgoing_webhook_custom_http_headers: None,
        },
        BusinessProfileUpdate::ConnectorAgnosticMitUpdate {
            is_connector_agnostic_mit_enabled,
        } => BusinessProfileUpdateInternal {
            profile_name: None,
            modified_at: None,
            return_url: None,
            enable_payment_response_hash: None,
            payment_response_hash_key: None,
            redirect_to_merchant_with_http_post: None,
            webhook_details: None,
            metadata: None,
            routing_algorithm: None,
            intent_fulfillment_time: None,
            frm_routing_algorithm: None,
            payout_routing_algorithm: None,
            is_recon_enabled: None,
            applepay_verified_domains: None,
            payment_link_config: None,
            session_expiry: None,
            authentication_connector_details: None,
            payout_link_config: None,
            is_extended_card_info_enabled: None,
            extended_card_info_config: None,
            is_connector_agnostic_mit_enabled,
            use_billing_as_payment_method_billing: None,
            collect_shipping_details_from_wallet_connector: None,
            collect_billing_details_from_wallet_connector: None,
            outgoing_webhook_custom_http_headers: None,
        },
    }
}

impl From<BusinessProfileUpdate> for BusinessProfileUpdateInternal {
    fn from(business_profile_update: BusinessProfileUpdate) -> (r: Self) {
        match business_profile_update {
            BusinessProfileUpdate::Update {
                profile_name,
                modified_at,
                return_url,
                enable_payment_response_hash,
                payment_response_hash_key,
                redirect_to_merchant_with_http_post,
                webhook_details,
                metadata,
                routing_algorithm,
                intent_fulfillment_time,
                frm_routing_algorithm,
                payout_routing_algorithm,
                is_recon_enabled,
                applepay_verified_domains,
                payment_link_config,
                session_expiry,
                authentication_connector_details,
                payout_link_config,
                extended_card_info_config,
                use_billing_as_payment_method_billing,
                collect_shipping_details_from_wallet_connector,
                collect_billing_details_from_wallet_connector,
                is_connector_agnostic_mit_enabled,
                outgoing_webhook_custom_http_headers,
            } => BusinessProfileUpdateInternal {
                profile_name,
                modified_at,
                return_url,
                enable_payment_response_hash,
                payment_response_hash_key,
                redirect_to_merchant_with_http_post,
                webhook_details,
                metadata,
                routing_algorithm,
                intent_fulfillment_time,
                frm_routing_algorithm,
                payout_routing_algorithm,
                is_recon_enabled,
                applepay_verified_domains,
                payment_link_config,
                session_expiry,
                authentication_connector_details,
                payout_link_config,
                is_extended_card_info_enabled: None,
                extended_card_info_config,
                is_connector_agnostic_mit_enabled,
                use_billing_as_payment_method_billing,
                collect_shipping_details_from_wallet_connector,
                collect_billing_details_from_wallet_connector,
                outgoing_webhook_custom_http_headers,
            },
            BusinessProfileUpdate::ExtendedCardInfoUpdate {
                is_extended_card_info_enabled,
            } => BusinessProfileUpdateInternal {
                profile_name: None,
                modified_at: None,
                return_url: None,
                enable_payment_response_hash: None,
                payment_response_hash_key: None,
                redirect_to_merchant_with_http_post: None,
                webhook_details: None,
                metadata: None,
                routing_algorithm: None,
                intent_fulfillment_time: None,
                frm_routing_algorithm: None,
                payout_routing_algorithm: None,
                is_recon_enabled: None,
                applepay_verified_domains: None,
                payment_link_config: None,
                session_expiry: None,
                authentication_connector_details: None,
                payout_link_config: None,
                is_extended_card_info_enabled,
                extended_card_info_config: None,
                is_connector_agnostic_mit_enabled: None,
                use_billing_as_payment_method_billing: None,
                collect_shipping_details_from_wallet_connector: None,
                collect_billing_details_from_wallet_connector: None,
                outgoing_webhook_custom_http_headers: None,
            },
            BusinessProfileUpdate::ConnectorAgnosticMitUpdate {
                is_connector_agnostic_mit_enabled,
            } => BusinessProfileUpdateInternal {
                profile_name: None,
                modified_at: None,
                return_url: None,
                enable_payment_response_hash: None,
                payment_response_hash_key: None,
                redirect_to_merchant_with_http_post: None,
                webhook_details: None,
                metadata: None,
                routing_algorithm: None,
                intent_fulfillment_time: None,
                frm_routing_algorithm: None,
                payout_routing_algorithm: None,
                is_recon_enabled: None,
                applepay_verified_domains: None,
                payment_link_config: None,
                session_expiry: None,
                authentication_connector_details: None,
                payout_link_config: None,
                is_extended_card_info_enabled: None,
                extended_card_info_config: None,
                is_connector_agnostic_mit_enabled,
                use_billing_as_payment_method_billing: None,
                collect_shipping_details_from_wallet_connector: None,
                collect_billing_details_from_wallet_connector: None,
                outgoing_webhook_custom_http_headers: None,
            },
        }
    }
}

impl vstd::std_specs::convert::FromSpecImpl<BusinessProfileUpdate> for BusinessProfileUpdateInternal {
    open spec fn obeys_from_spec() -> bool {
        true
    }

    open spec fn from_spec(v: BusinessProfileUpdate) -> Self {
        spec_business_profile_changeset(v)
    }
}

/// The stored profile a new profile becomes: every field carried over.
pub open spec fn spec_business_profile_of_new(new: BusinessProfileNew) -> BusinessProfile {
    BusinessProfile {
        profile_id: new.profile_id,
        merchant_id: new.merchant_id,
        profile_name: new.profile_name,
        created_at: new.created_at,
        modified_at: new.modified_at,
        return_url: new.return_url,
        enable_payment_response_hash: new.enable_payment_response_hash,
        payment_response_hash_key: new.payment_response_hash_key,
        redirect_to_merchant_with_http_post: new.redirect_to_merchant_with_http_post,
        webhook_details: new.webhook_details,
        metadata: new.metadata,
        routing_algorithm: new.routing_algorithm,
        intent_fulfillment_time: new.intent_fulfillment_time,
        frm_routing_algorithm: new.frm_routing_algorithm,
        payout_routing_algorithm: new.payout_routing_algorithm,
        is_recon_enabled: new.is_recon_enabled,
        applepay_verified_domains: new.applepay_verified_domains,
        payment_link_config: new.payment_link_config,
        session_expiry: new.session_expiry,
        authentication_connector_details: new.authentication_connector_details,
        payout_link_config: new.payout_link_config,
        is_connector_agnostic_mit_enabled: new.is_connector_agnostic_mit_enabled,
        is_extended_card_info_enabled: new.is_extended_card_info_enabled,
        extended_card_info_config: new.extended_card_info_config,
        use_billing_as_payment_method_billing: new.use_billing_as_payment_method_billing,
        collect_shipping_details_from_wallet_connector:
            new.collect_shipping_details_from_wallet_connector,
        collect_billing_details_from_wallet_connector:
            new.collect_billing_details_from_wallet_connector,
        outgoing_webhook_custom_http_headers: new.outgoing_webhook_custom_http_headers,
    }
}

impl From<BusinessProfileNew> for BusinessProfile {
    fn from(new: BusinessProfileNew) -> (r: Self) {
        BusinessProfile {
            profile_id: new.profile_id,
            merchant_id: new.merchant_id,
            profile_name: new.profile_name,
            created_at: new.created_at,
            modified_at: new.modified_at,
            return_url: new.return_url,
            enable_payment_response_hash: new.enable_payment_response_hash,
            payment_response_hash_key: new.payment_response_hash_key,
            redirect_to_merchant_with_http_post: new.redirect_to_merchant_with_http_post,
            webhook_details: new.webhook_details,
            metadata: new.metadata,
            routing_algorithm: new.routing_algorithm,
            intent_fulfillment_time: new.intent_fulfillment_time,
            frm_routing_algorithm: new.frm_routing_algorithm,
            payout_routing_algorithm: new.payout_routing_algorithm,
            is_recon_enabled: new.is_recon_enabled,
            applepay_verified_domains: new.applepay_verified_domains,
            payment_link_config: new.payment_link_config,
            session_expiry: new.session_expiry,
            authentication_connector_details: new.authentication_connector_details,
            payout_link_config: new.payout_link_config,
            is_connector_agnostic_mit_enabled: new.is_connector_agnostic_mit_enabled,
            is_extended_card_info_enabled: new.is_extended_card_info_enabled,
            extended_card_info_config: new.extended_card_info_config,
            use_billing_as_payment_method_billing: new.use_billing_as_payment_method_billing,
            collect_shipping_details_from_wallet_connector:
                new.collect_shipping_details_from_wallet_connector,
            collect_billing_details_from_wallet_connector:
                new.collect_billing_details_from_wallet_connector,
            outgoing_webhook_custom_http_headers: new.outgoing_webhook_custom_http_headers,
        }
    }
}

impl vstd::std_specs::convert::FromSpecImpl<BusinessProfileNew> for BusinessProfile {
    open spec fn obeys_from_spec() -> bool {
        true
    }

    open spec fn from_spec(v: BusinessProfileNew) -> Self {
        spec_business_profile_of_new(v)
    }
}

impl BusinessProfileUpdate {
    /// Apply this update to a stored profile, producing the new row.
    ///
    /// Each field of the result is stated on its own: the row identity
    /// and creation time are carried from the stored profile; the
    /// always-present columns take the update's value where one was
    /// given and keep the stored one otherwise; the optional columns are
    /// replaced outright by the changeset's value, given or not; and the
    /// modification time is freshly read from the clock.
    pub fn apply_changeset(self, source: BusinessProfile) -> (r: BusinessProfile)
        ensures
            ({
                let u = spec_business_profile_changeset(self);
                &&& r.profile_id == source.profile_id
                &&& r.merchant_id == source.merchant_id
                &&& r.profile_name == u.profile_name.unwrap_or(source.profile_name)
                &&& r.created_at == source.created_at
                &&& r.modified_at.wf()
                &&& r.return_url == u.return_url
                &&& r.enable_payment_response_hash == u.enable_payment_response_hash.unwrap_or(
                    source.enable_payment_response_hash,
                )
                &&& r.payment_response_hash_key == u.payment_response_hash_key
                &&& r.redirect_to_merchant_with_http_post
                    == u.redirect_to_merchant_with_http_post.unwrap_or(
                    source.redirect_to_merchant_with_http_post,
                )
                &&& r.webhook_details == u.webhook_details
                &&& r.metadata == u.metadata
                &&& r.routing_algorithm == u.routing_algorithm
                &&& r.intent_fulfillment_time == u.intent_fulfillment_time
                &&& r.frm_routing_algorithm == u.frm_routing_algorithm
                &&& r.payout_routing_algorithm == u.payout_routing_algorithm
                &&& r.is_recon_enabled == u.is_recon_enabled.unwrap_or(source.is_recon_enabled)
                &&& r.applepay_verified_domains == u.applepay_verified_domains
                &&& r.payment_link_config == u.payment_link_config
                &&& r.session_expiry == u.session_expiry
                &&& r.authentication_connector_details == u.authentication_connector_details
                &&& r.payout_link_config == u.payout_link_config
                &&& r.is_extended_card_info_enabled == u.is_extended_card_info_enabled
                &&& r.extended_card_info_config == u.extended_card_info_config
                &&& r.is_connector_agnostic_mit_enabled == u.is_connector_agnostic_mit_enabled
                &&& r.use_billing_as_payment_method_billing
                    == u.use_billing_as_payment_method_billing
                &&& r.collect_shipping_details_from_wallet_connector
                    == u.collect_shipping_details_from_wallet_connector
                &&& r.collect_billing_details_from_wallet_connector
                    == u.collect_billing_details_from_wallet_connector
                &&& r.outgoing_webhook_custom_http_headers
                    == u.outgoing_webhook_custom_http_headers
            }),
    {
        let BusinessProfileUpdateInternal {
            profile_name,
            modified_at: _,
            return_url,
            enable_payment_response_hash,
            payment_response_hash_key,
            redirect_to_merchant_with_http_post,
            webhook_details,
            metadata,
            routing_algorithm,
            intent_fulfillment_time,
            frm_routing_algorithm,
            payout_routing_algorithm,
            is_recon_enabled,
            applepay_verified_domains,
            payment_link_config,
            session_expiry,
            authentication_connector_details,
            payout_link_config,
            is_extended_card_info_enabled,
            extended_card_info_config,
            is_connector_agnostic_mit_enabled,
            use_billing_as_payment_method_billing,
            collect_shipping_details_from_wallet_connector,
            collect_billing_details_from_wallet_connector,
            outgoing_webhook_custom_http_headers,
        } = BusinessProfileUpdateInternal::from(self);
        BusinessProfile {
            profile_name: profile_name.unwrap_or(source.profile_name),
            modified_at: date_time_now(),
            return_url,
            enable_payment_response_hash: enable_payment_response_hash.unwrap_or(
                source.enable_payment_response_hash,
            ),
            payment_response_hash_key,
            redirect_to_merchant_with_http_post: redirect_to_merchant_with_http_post.unwrap_or(
                source.redirect_to_merchant_with_http_post,
            ),
            webhook_details,
            metadata,
            routing_algorithm,
            intent_fulfillment_time,
            frm_routing_algorithm,
            payout_routing_algorithm,
            is_recon_enabled: is_recon_enabled.unwrap_or(source.is_recon_enabled),
            applepay_verified_domains,
            payment_link_config,
            session_expiry,
            authentication_connector_details,
            payout_link_config,
            is_extended_card_info_enabled,
            is_connector_agnostic_mit_enabled,
            extended_card_info_config,
            use_billing_as_payment_method_billing,
            collect_shipping_details_from_wallet_connector,
            collect_billing_details_from_wallet_connector,
            outgoing_webhook_custom_http_headers,
            ..source
        }
    }
}

} // verus!

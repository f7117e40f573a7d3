//! Connector credential shapes and their resolution into a token-refresh
//! request.

use vstd::prelude::*;
use crate::error::ApiError;
use crate::masked::Masked;
use crate::masked::lemma_masked_eq;

verus! {

/// The credential material a merchant stored for one connector, in one of
/// the shapes the platform understands.
pub enum ConnectorAuthType {
    /// A single API key sent as a header.
    HeaderKey { api_key: Masked<String> },
    /// An API key plus one more secret sent in the body.
    BodyKey { api_key: Masked<String>, key1: Masked<String> },
    /// An API key, a second secret and a signing secret.
    SignatureKey { api_key: Masked<String>, key1: Masked<String>, api_secret: Masked<String> },
    /// No credential stored.
    NoKey,
}

impl Clone for ConnectorAuthType {
    fn clone(&self) -> (r: Self)
        ensures
            r == *self,
    {
        match self {
            ConnectorAuthType::HeaderKey { api_key } => {
                let k = api_key.clone();
                proof {
                    lemma_masked_eq(k, *api_key);
                }
                ConnectorAuthType::HeaderKey { api_key: k }
            },
            ConnectorAuthType::BodyKey { api_key, key1 } => {
                let k = api_key.clone();
                let k1 = key1.clone();
                proof {
                    lemma_masked_eq(k, *api_key);
                    lemma_masked_eq(k1, *key1);
                }
                ConnectorAuthType::BodyKey { api_key: k, key1: k1 }
            },
            ConnectorAuthType::SignatureKey { api_key, key1, api_secret } => {
                let k = api_key.clone();
                let k1 = key1.clone();
                let s = api_secret.clone();
                proof {
                    lemma_masked_eq(k, *api_key);
                    lemma_masked_eq(k1, *key1);
                    lemma_masked_eq(s, *api_secret);
                }
                ConnectorAuthType::SignatureKey { api_key: k, key1: k1, api_secret: s }
            },
            ConnectorAuthType::NoKey => ConnectorAuthType::NoKey,
        }
    }
}

/// The payload of a synthetic token-refresh request, distilled from the
/// stored credentials.
pub struct AccessTokenRequestData {
    /// The identifier the connector issues tokens against.
    pub app_id: Masked<String>,
    /// A second credential component, for shapes that carry one.
    pub id: Option<Masked<String>>,
}

/// How a credential shape resolves into a token-refresh request: every
/// keyed shape resolves, and only a missing credential is refused.
pub open spec fn spec_access_token_request_data(
    auth: ConnectorAuthType,
) -> Result<AccessTokenRequestData, ApiError> {
    match auth {
        ConnectorAuthType::HeaderKey { api_key } => Ok(
            AccessTokenRequestData { app_id: api_key, id: None },
        ),
        ConnectorAuthType::BodyKey { api_key, key1 } => Ok(
            AccessTokenRequestData { app_id: api_key, id: Some(key1) },
        ),
        ConnectorAuthType::SignatureKey { api_key, key1, api_secret: _ } => Ok(
            AccessTokenRequestData { app_id: api_key, id: Some(key1) },
        ),
        ConnectorAuthType::NoKey => Err(
            ApiError::InvalidDataValue { field_name: "connector_account_details" },
        ),
    }
}

impl AccessTokenRequestData {
    /// Resolve stored credentials into the token-refresh request, refusing
    /// a credential blob with no usable key.
    pub fn try_from(auth: ConnectorAuthType) -> (r: Result<Self, ApiError>)
        ensures
            r == spec_access_token_request_data(auth),
    {
        match auth {
            ConnectorAuthType::HeaderKey { api_key } => Ok(
                AccessTokenRequestData { app_id: api_key, id: None },
            ),
            ConnectorAuthType::BodyKey { api_key, key1 } => Ok(
                AccessTokenRequestData { app_id: api_key, id: Some(key1) },
            ),
            ConnectorAuthType::SignatureKey { api_key, key1, api_secret: _ } => Ok(
                AccessTokenRequestData { app_id: api_key, id: Some(key1) },
            ),
            ConnectorAuthType::NoKey => Err(
                ApiError::InvalidDataValue { field_name: "connector_account_details" },
            ),
        }
    }
}

} // verus!

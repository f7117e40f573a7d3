//! The access-token cache: a shared, external key-value store.
//!
//! The store is consumed through this trait and implemented outside the
//! library (an in-process fake in tests, a remote cache in deployment).
//! Nothing is promised of it: every caller in the library states what it
//! does with whatever the store returns. Writers must treat the store as
//! eventually consistent and never assume exclusive ownership of a key.

use vstd::prelude::*;
use crate::error::StorageError;
use crate::ids::MerchantId;
use crate::token::AccessToken;

verus! {

/// Read and write access tokens keyed by merchant and connector
/// identifier.
pub trait AccessTokenStore {
    /// Look up the cached token under `(merchant_id, key)`.
    fn get_access_token(
        &mut self,
        merchant_id: &MerchantId,
        key: &str,
    ) -> Result<Option<AccessToken>, StorageError>;

    /// Store `token` under `(merchant_id, key)`.
    fn set_access_token(
        &mut self,
        merchant_id: &MerchantId,
        key: &str,
        token: AccessToken,
    ) -> Result<(), StorageError>;
}

} // verus!

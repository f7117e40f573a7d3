//! Connector access tokens and the expiry-skew correction applied before a
//! token is cached.

use vstd::prelude::*;
use crate::error::ErrorResponse;
use crate::masked::Masked;
use crate::masked::lemma_masked_eq;

verus! {

/// Seconds subtracted from a connector-reported token expiry before the
/// token is cached, to absorb the network delay between issuing a request
/// and the connector receiving it.
pub const REDUCE_ACCESS_TOKEN_EXPIRY_TIME: u8 = 15;

/// A connector-issued credential with a bounded validity window.
pub struct AccessToken {
    /// The secret token material.
    pub token: Masked<String>,
    /// Seconds of validity the token has left.
    pub expires: i64,
}

impl Clone for AccessToken {
    fn clone(&self) -> (r: Self)
        ensures
            r == *self,
    {
        let token = self.token.clone();
        proof {
            lemma_masked_eq(token, self.token);
        }
        AccessToken { token, expires: self.expires }
    }
}

/// A reported expiry with the safety margin taken off, floored at zero so
/// the stored expiry is never negative.
pub open spec fn spec_reduced_expiry(expires: i64) -> int {
    if expires - REDUCE_ACCESS_TOKEN_EXPIRY_TIME as int >= 0 {
        expires - REDUCE_ACCESS_TOKEN_EXPIRY_TIME as int
    } else {
        0
    }
}

impl AccessToken {
    /// Take the safety margin off the reported expiry. The token a
    /// connector is later handed must look valid when it arrives there,
    /// not only when it leaves here.
    pub fn reduce_expiry(self) -> (r: Self)
        ensures
            r.token == self.token,
            r.expires == spec_reduced_expiry(self.expires),
    {
        let margin: i64 = REDUCE_ACCESS_TOKEN_EXPIRY_TIME as i64;
        let expires: i64 = if self.expires >= margin {
            self.expires - margin
        } else {
            0
        };
        AccessToken { token: self.token, expires }
    }
}

/// Token expiry adjustment: for a reported expiry and the fixed safety
/// margin, the stored expiry is the difference, floored at zero and never
/// negative.
pub proof fn lemma_expiry_adjustment(expires: i64)
    ensures
        spec_reduced_expiry(expires) >= 0,
        expires >= REDUCE_ACCESS_TOKEN_EXPIRY_TIME as int ==> spec_reduced_expiry(expires)
            == expires - REDUCE_ACCESS_TOKEN_EXPIRY_TIME as int,
        expires < REDUCE_ACCESS_TOKEN_EXPIRY_TIME as int ==> spec_reduced_expiry(expires) == 0,
{
}

/// What the token-ensure step hands back: whether the connector supports
/// access tokens at all, and — independently — the token or the error the
/// refresh ended in. Callers branch on both signals, so they are kept
/// separate instead of being folded into one.
pub struct AddAccessTokenResult {
    /// The token obtained (or found cached), or the error that the refresh
    /// produced. When the connector does not support access tokens this
    /// holds the placeholder error payload and must be ignored.
    pub access_token_result: Result<Option<AccessToken>, ErrorResponse>,
    /// Whether the connector supports access tokens for the payment method
    /// at hand.
    pub connector_supports_access_token: bool,
}

} // verus!

//! Identifier newtypes used across the switch.
//!
//! Each wraps the string form handed out by the platform; the wrapper keeps
//! the different identifier spaces from being mixed up.

use vstd::prelude::*;

verus! {

/// Identifies a merchant account.
pub struct MerchantId {
    pub id: String,
}

impl MerchantId {
    /// Build an identifier from its string form.
    pub fn new(id: String) -> (r: Self)
        ensures
            r.id == id,
    {
        MerchantId { id }
    }

    /// The string form of the identifier.
    pub fn get_string_repr(&self) -> (r: &str)
        ensures
            r@ == self.id@,
    {
        self.id.as_str()
    }
}

impl Clone for MerchantId {
    fn clone(&self) -> (r: Self)
        ensures
            r == *self,
    {
        MerchantId { id: self.id.clone() }
    }
}

/// Identifies a business profile under a merchant.
pub struct ProfileId {
    pub id: String,
}

impl ProfileId {
    /// Build an identifier from its string form.
    pub fn new(id: String) -> (r: Self)
        ensures
            r.id == id,
    {
        ProfileId { id }
    }
}

impl Clone for ProfileId {
    fn clone(&self) -> (r: Self)
        ensures
            r == *self,
    {
        ProfileId { id: self.id.clone() }
    }
}

/// Identifies one merchant-connector account: a merchant's stored
/// configuration of a particular connector, including its credentials.
pub struct MerchantConnectorAccountId {
    pub id: String,
}

impl MerchantConnectorAccountId {
    /// Build an identifier from its string form.
    pub fn new(id: String) -> (r: Self)
        ensures
            r.id == id,
    {
        MerchantConnectorAccountId { id }
    }

    /// The string form of the identifier.
    pub fn get_string_repr(&self) -> (r: &str)
        ensures
            r@ == self.id@,
    {
        self.id.as_str()
    }
}

impl Clone for MerchantConnectorAccountId {
    fn clone(&self) -> (r: Self)
        ensures
            r == *self,
    {
        MerchantConnectorAccountId { id: self.id.clone() }
    }
}

} // verus!

//! A wrapper for values that must not leak into logs or debug output.
//!
//! Credential material (API keys, tokens) is carried inside `Masked` so that
//! ordinary code has to ask for the inner value explicitly.

use vstd::prelude::*;

verus! {

/// A value held back from casual display; the payment switch keeps every
/// credential behind this wrapper.
pub struct Masked<T> {
    inner: T,
}

impl<T> Masked<T> {
    /// The wrapped value, for use in specifications.
    pub closed spec fn spec_inner(&self) -> T {
        self.inner
    }

    /// Wrap a value.
    pub fn new(inner: T) -> (r: Self)
        ensures
            r.spec_inner() == inner,
    {
        Masked { inner }
    }

    /// Read the wrapped value without consuming the wrapper.
    pub fn peek(&self) -> (r: &T)
        ensures
            *r == self.spec_inner(),
    {
        &self.inner
    }

    /// Surrender the wrapper and take the value out.
    pub fn into_inner(self) -> (r: T)
        ensures
            r == self.spec_inner(),
    {
        self.inner
    }
}

/// Two wrappers around the same value are the same wrapper.
pub proof fn lemma_masked_eq<T>(a: Masked<T>, b: Masked<T>)
    requires
        a.spec_inner() == b.spec_inner(),
    ensures
        a == b,
{
}

impl<T: Clone> Clone for Masked<T> {
    fn clone(&self) -> (r: Self)
        ensures
            cloned::<T>(self.spec_inner(), r.spec_inner()),
    {
        Masked { inner: self.inner.clone() }
    }
}

} // verus!

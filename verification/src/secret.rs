//! A wrapper for sensitive strings. The wrapped value has no implicit
//! stringification; reading it takes an explicit `expose_secret` call
//! at each point of genuine need. This is a design affordance, not a
//! cryptographic boundary.

use vstd::prelude::*;

verus! {

/// A string that must be exposed deliberately to be read.
#[derive(Debug)]
pub struct SecretString {
    inner: String,
}

impl View for SecretString {
    type V = Seq<char>;

    closed spec fn view(&self) -> Seq<char> {
        self.inner@
    }
}

impl SecretString {
    /// Wraps a string.
    pub fn new(s: String) -> (r: SecretString)
        ensures
            r@ == s@,
    {
        SecretString { inner: s }
    }

    /// Reads the wrapped value. The name makes the exposure visible at
    /// every point of genuine need.
    pub fn expose_secret(&self) -> (r: &String)
        ensures
            r@ == self@,
    {
        &self.inner
    }
}

impl Clone for SecretString {
    fn clone(&self) -> (r: Self)
        ensures
            r@ == self@,
    {
        SecretString { inner: self.inner.clone() }
    }
}

} // verus!

//! An opaque wrapper for connection strings that must never be rendered in
//! log or error output.
//!
//! The wrapper deliberately has no `Debug` or `Display` implementation:
//! reading the value back requires the explicit [`SecretString::expose_secret`]
//! call.

use vstd::prelude::*;

verus! {

/// A secret string. Construction and equality are allowed; direct inspection
/// requires an explicit [`Self::expose_secret`] call.
pub struct SecretString {
    value: String,
}

impl View for SecretString {
    type V = Seq<char>;

    closed spec fn view(&self) -> Seq<char> {
        self.value@
    }
}

impl SecretString {
    /// Wraps a string as a secret.
    pub fn new(value: String) -> (s: Self)
        ensures
            s@ == value@,
    {
        SecretString { value }
    }

    /// Explicitly reveals the secret value.
    pub fn expose_secret(&self) -> (r: &str)
        ensures
            r@ == self@,
    {
        self.value.as_str()
    }

    /// Compares two secrets without revealing either.
    pub fn eq_secret(&self, other: &SecretString) -> (r: bool)
        ensures
            r == (self@ == other@),
    {
        self.value == other.value
    }
}

} // verus!

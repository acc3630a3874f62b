//! The failures that the protocol can report.

use vstd::prelude::*;

verus! {

/// Why an operation was refused.
#[derive(Clone, Copy, Debug, PartialEq, Eq, Structural)]
pub enum Error {
    /// A byte string has the wrong length for what it should encode.
    MalformedEncoding,
    /// Bytes of the right length that are no canonical encoding of a
    /// group element other than the identity.
    InvalidElement,
    /// Bytes of the right length that are no canonical encoding of a
    /// nonzero scalar.
    InvalidScalar,
    /// An input that is too long to be hashed into the final output, or
    /// that cannot be hashed to the group.
    InvalidInput,
    /// The server's proof does not bind its answer to its public key.
    ProofVerificationFailed,
    /// A blinding factor of zero, which has no inverse.
    DivisionByZero,
    /// A seed from which no key pair can be derived.
    InvalidSeed,
    /// The server's seed could not be had.
    SecretUnavailable,
}

impl Error {
    /// Whether the failure concerns one request only. The others must stop
    /// the server from starting.
    pub open spec fn request_scoped(self) -> bool {
        self != Error::InvalidSeed && self != Error::SecretUnavailable
    }

    /// Tells request-scoped failures from those that are fatal at start-up.
    pub fn is_request_scoped(&self) -> (r: bool)
        ensures
            r == self.request_scoped(),
    {
        match self {
            Error::InvalidSeed => false,
            Error::SecretUnavailable => false,
            _ => true,
        }
    }
}

} // verus!

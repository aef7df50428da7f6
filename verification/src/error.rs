//! Errors of requests and reasons for which a header is turned down.

use vstd::prelude::*;

verus! {

/// Why a request was turned down. A request that fails leaves the store as it was.
#[derive(Clone, Copy, Debug, PartialEq, Eq, Structural)]
pub enum Error {
    /// A stored client has no consensus state.
    NoneValue,
    /// No client is stored under the identifier.
    ItemNotFound,
    /// A client is already stored under the identifier.
    ClientAlreadyInitialized,
    /// A header or validator set of the payload does not decode.
    DeserializeError,
    /// The header was not accepted.
    ValidationError,
}

/// Why a header was not accepted.
#[derive(Clone, Copy, Debug, PartialEq, Eq, Structural)]
pub enum Rejection {
    /// A header or validator set does not decode.
    Undecodable,
    /// The validator set is not the one the header commits to, or the commit
    /// does not fit the header.
    InvalidValidatorSets,
    /// Less than two thirds of the header's validator set signed it.
    InvalidCommit,
    /// The trusted state is older than the trust window allows.
    Expired,
    /// The header is not above the trusted one.
    NonIncreasingHeight,
    /// The verifier did not link the header to the trusted state.
    Untrusted,
}

impl Rejection {
    /// The error for this reason: `DeserializeError` for what does not
    /// decode, `ValidationError` for all else.
    pub open spec fn spec_error(self) -> Error {
        match self {
            Rejection::Undecodable => Error::DeserializeError,
            _ => Error::ValidationError,
        }
    }

    /// The error that a request ends with when its header is turned down
    /// for this reason.
    #[verifier::when_used_as_spec(spec_error)]
    pub fn error(self) -> (e: Error)
        ensures
            e == self.error(),
    {
        match self {
            Rejection::Undecodable => Error::DeserializeError,
            _ => Error::ValidationError,
        }
    }
}

} // verus!

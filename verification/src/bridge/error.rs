//! The frozen error codes of the bridge.

use vstd::prelude::*;
use crate::bridge::api::CoreError;

verus! {

/// What a bridge call reports.
#[derive(Debug, Clone, Copy, PartialEq, Eq, Structural)]
pub enum BridgeError {
    /// The call succeeded.
    Success,
    /// No session is active.
    Locked,
    /// The core is killed.
    Killed,
    /// A size, a version or an encoding is not acceptable.
    InvalidInput,
    /// A primitive failed.
    CryptoFailure,
    /// The recovery binding does not hold.
    IntegrityFailure,
    /// The call is not permitted.
    Denied,
}

impl BridgeError {
    /// The number that stands for the error across the boundary.
    pub open spec fn spec_code(self) -> i32 {
        match self {
            BridgeError::Success => 0,
            BridgeError::Locked => 1,
            BridgeError::Killed => 2,
            BridgeError::InvalidInput => 3,
            BridgeError::CryptoFailure => 4,
            BridgeError::IntegrityFailure => 5,
            BridgeError::Denied => 6,
        }
    }

    /// The number that stands for the error across the boundary.
    pub fn code(self) -> (r: i32)
        ensures
            r == self.spec_code(),
            0 <= r <= 6,
    {
        match self {
            BridgeError::Success => 0,
            BridgeError::Locked => 1,
            BridgeError::Killed => 2,
            BridgeError::InvalidInput => 3,
            BridgeError::CryptoFailure => 4,
            BridgeError::IntegrityFailure => 5,
            BridgeError::Denied => 6,
        }
    }

    /// Distinct errors have distinct codes.
    pub proof fn lemma_code_injective(a: BridgeError, b: BridgeError)
        requires
            a.spec_code() == b.spec_code(),
        ensures
            a == b,
    {
    }
}

/// The bridge error that stands for an error of the core.
pub open spec fn bridge_error_of(err: CoreError) -> BridgeError {
    match err {
        CoreError::Locked => BridgeError::Locked,
        CoreError::Killed => BridgeError::Killed,
        CoreError::InvalidInput => BridgeError::InvalidInput,
        CoreError::CryptoFailure => BridgeError::CryptoFailure,
        CoreError::IntegrityFailure => BridgeError::IntegrityFailure,
        CoreError::Denied => BridgeError::Denied,
    }
}

impl From<CoreError> for BridgeError {
    fn from(err: CoreError) -> (r: Self) {
        match err {
            CoreError::Locked => BridgeError::Locked,
            CoreError::Killed => BridgeError::Killed,
            CoreError::InvalidInput => BridgeError::InvalidInput,
            CoreError::CryptoFailure => BridgeError::CryptoFailure,
            CoreError::IntegrityFailure => BridgeError::IntegrityFailure,
            CoreError::Denied => BridgeError::Denied,
        }
    }
}

impl vstd::std_specs::convert::FromSpecImpl<CoreError> for BridgeError {
    open spec fn obeys_from_spec() -> bool {
        true
    }

    open spec fn from_spec(err: CoreError) -> Self {
        bridge_error_of(err)
    }
}

} // verus!

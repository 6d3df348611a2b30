//! The binding between a recovery root and its session key.

use vstd::prelude::*;
use ::subtle::ConstantTimeEq;
use crate::crypto::derive::{derive_key, derived_key, Purpose};
use crate::memory::guard::GuardedKey32;

verus! {

/// The context under which a session key is derived from its root: the ASCII
/// bytes `INTEGRIT` read as a big-endian integer.
pub const INTEGRITY_CONTEXT: u64 = 0x494E544547524954;

/// The session key that a root is bound to.
pub open spec fn bound_session_key(root: Seq<u8>) -> Seq<u8> {
    derived_key(root, Purpose::Recovery, INTEGRITY_CONTEXT)
}

/// `ConstantTimeEq::ct_eq` of the `subtle` crate on two byte slices, turned
/// into a `bool`: whether the slices have the same length and the same bytes.
#[verifier::external_body]
pub(crate) fn ct_eq_bytes(a: &[u8], b: &[u8]) -> (same: bool)
    ensures
        same == (a@ == b@),
{
    a.ct_eq(b).into()
}

/// Why a key failed verification.
#[derive(Debug, Clone, Copy, PartialEq, Eq, Structural)]
pub enum IntegrityError {
    /// The session key is not the one its root is bound to.
    Invalid,
}

/// Checks, in constant time, that `session` is the key bound to `master`.
pub fn verify_key_integrity(master: &GuardedKey32, session: &GuardedKey32) -> (r: Result<
    (),
    IntegrityError,
>)
    ensures
        r is Ok <==> session@ == bound_session_key(master@),
        r is Err ==> r == Err::<(), IntegrityError>(IntegrityError::Invalid),
{
    let mut expected = GuardedKey32::zeroed();
    match derive_key(master, Purpose::Recovery, INTEGRITY_CONTEXT, &mut expected) {
        Ok(()) => {},
        Err(()) => {
            return Err(IntegrityError::Invalid);
        },
    }
    if ct_eq_bytes(session.borrow(), expected.borrow()) {
        Ok(())
    } else {
        Err(IntegrityError::Invalid)
    }
}

} // verus!

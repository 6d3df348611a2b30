//! The opaque handle of the core.

use vstd::prelude::*;

verus! {

/// A handle to the core: a 64-bit id that is never zero.
#[derive(Clone, Copy, PartialEq, Eq, Structural)]
pub struct CoreHandle(u64);

impl CoreHandle {
    #[verifier::type_invariant]
    spec fn nonzero(self) -> bool {
        self.0 != 0
    }

    /// The id behind the handle.
    pub closed spec fn spec_id(self) -> u64 {
        self.0
    }

    /// The handle with the given id.
    pub fn new(id: u64) -> (r: Self)
        requires
            id != 0,
        ensures
            r.spec_id() == id,
    {
        CoreHandle(id)
    }

    /// The handle made from a random value: the value itself, or one where
    /// the value is zero.
    pub fn from_random(value: u64) -> (r: Self)
        ensures
            r.spec_id() == if value == 0 {
                1
            } else {
                value
            },
    {
        if value == 0 {
            CoreHandle(1)
        } else {
            CoreHandle(value)
        }
    }

    /// The id behind the handle; it is never zero.
    pub fn id(self) -> (r: u64)
        ensures
            r == self.spec_id(),
            r != 0,
    {
        proof {
            use_type_invariant(self);
        }
        self.0
    }
}

} // verus!

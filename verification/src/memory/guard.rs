//! Fixed-size guarded cells for key material.

use vstd::prelude::*;
use crate::memory::zeroize::{zeroize_slice, zeros};

verus! {

/// A heap cell of exactly `N` secret bytes, zeroed when dropped.
pub struct GuardedBox<const N: usize> {
    bytes: Box<[u8; N]>,
}

/// The canonical 256-bit key cell.
pub type GuardedKey32 = GuardedBox<32>;

impl<const N: usize> GuardedBox<N> {
    /// The bytes held by the cell.
    pub closed spec fn view(&self) -> Seq<u8> {
        self.bytes@
    }

    /// A cell always holds exactly `N` bytes.
    pub proof fn lemma_len(&self)
        ensures
            self@.len() == N,
    {
    }

    /// A new cell that holds `value`.
    pub fn new(value: [u8; N]) -> (r: Self)
        ensures
            r@ == value@,
    {
        GuardedBox { bytes: Box::new(value) }
    }

    /// A new cell of `N` zero bytes.
    pub fn zeroed() -> (r: Self)
        ensures
            r@ == zeros(N as nat),
    {
        let r = GuardedBox { bytes: Box::new([0u8; N]) };
        assert(r@ =~= zeros(N as nat));
        r
    }

    /// A new cell that `init` has filled in place, starting from zeros. The
    /// cell exists before `init` runs and is zeroed like any other if `init`
    /// does not return.
    pub fn init_with<F: FnOnce(&mut [u8; N])>(init: F) -> (r: Self)
        requires
            forall|cell: &mut [u8; N]| cell@ == zeros(N as nat) ==> init.requires((cell,)),
        ensures
            exists|cell: &mut [u8; N]|
                cell@ == zeros(N as nat) && #[trigger] init.ensures((cell,), ()) && r@ == final(cell)@,
    {
        let mut r = Self::zeroed();
        init(r.borrow_mut());
        r
    }

    /// Read access to the bytes.
    pub fn borrow(&self) -> (r: &[u8; N])
        ensures
            r@ == self@,
    {
        &*self.bytes
    }

    /// Write access to the bytes.
    pub fn borrow_mut(&mut self) -> (r: &mut [u8; N])
        ensures
            r@ == old(self)@,
            final(self)@ == final(r)@,
    {
        &mut *self.bytes
    }
}

impl<const N: usize> Drop for GuardedBox<N> {
    fn drop(&mut self)
        opens_invariants none
        no_unwind
    {
        let cell: &mut [u8; N] = &mut *self.bytes;
        zeroize_slice(cell);
    }
}

} // verus!

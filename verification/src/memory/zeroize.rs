//! Wiping of transient buffers and an owning container for secret bytes.

use vstd::prelude::*;

verus! {

/// Every byte of `s` is zero.
pub open spec fn all_zero(s: Seq<u8>) -> bool {
    forall|i: int| 0 <= i < s.len() ==> s[i] == 0u8
}

/// The sequence of `n` zero bytes.
pub open spec fn zeros(n: nat) -> Seq<u8> {
    Seq::new(n, |i: int| 0u8)
}

/// A sequence is all zero exactly when it is the zero sequence of its length.
pub proof fn lemma_all_zero_is_zeros(s: Seq<u8>)
    ensures
        all_zero(s) <==> s == zeros(s.len()),
{
    if all_zero(s) {
        assert(s =~= zeros(s.len()));
    }
}

/// `Zeroize::zeroize` of the `zeroize` crate on a byte slice: it overwrites
/// every element with zero through volatile writes and keeps the length.
#[verifier::external_body]
pub(crate) fn zeroize_slice(buf: &mut [u8])
    ensures
        final(buf)@ == zeros(old(buf)@.len()),
    opens_invariants none
    no_unwind
{
    ::zeroize::Zeroize::zeroize(buf)
}

/// `Zeroize::zeroize` of the `zeroize` crate on a `Vec<u8>`: it zeroes the
/// elements and the spare capacity, then clears the vector.
#[verifier::external_body]
pub(crate) fn zeroize_vec(buf: &mut Vec<u8>)
    ensures
        final(buf)@ == Seq::<u8>::empty(),
    opens_invariants none
    no_unwind
{
    ::zeroize::Zeroize::zeroize(buf)
}

/// Overwrites a transient byte buffer with zeros.
pub fn wipe_bytes(buf: &mut [u8])
    ensures
        final(buf)@ == zeros(old(buf)@.len()),
{
    zeroize_slice(buf);
}

/// Zeroes a transient vector and leaves it empty.
pub fn wipe_vec(buf: &mut Vec<u8>)
    ensures
        final(buf)@ == Seq::<u8>::empty(),
{
    zeroize_vec(buf);
    buf.clear();
}

/// Marker for containers whose contents live on the heap.
pub trait HeapOnly {
}

impl HeapOnly for Vec<u8> {
}

/// Owner of a variable-length secret. The bytes are zeroed when the secret is
/// wiped or dropped; after a wipe the secret holds nothing.
#[must_use]
pub struct Secret {
    inner: Option<Vec<u8>>,
}

impl Secret {
    /// The secret still holds its bytes.
    pub closed spec fn is_live(&self) -> bool {
        self.inner is Some
    }

    /// The bytes held; empty once wiped.
    pub closed spec fn view(&self) -> Seq<u8> {
        match self.inner {
            Some(v) => v@,
            None => Seq::empty(),
        }
    }

    /// Takes ownership of secret bytes.
    pub fn new(value: Vec<u8>) -> (r: Self)
        ensures
            r.is_live(),
            r@ == value@,
    {
        Secret { inner: Some(value) }
    }

    /// Builds the secret in place: `init` fills a fresh empty vector.
    pub fn init_with<F: FnOnce(&mut Vec<u8>)>(init: F) -> (r: Self)
        requires
            forall|v: &mut Vec<u8>| v@ == Seq::<u8>::empty() ==> init.requires((v,)),
        ensures
            r.is_live(),
            exists|v: &mut Vec<u8>|
                v@ == Seq::<u8>::empty() && #[trigger] init.ensures((v,), ()) && r@ == final(v)@,
    {
        let mut boxed: Vec<u8> = Vec::new();
        init(&mut boxed);
        Secret { inner: Some(boxed) }
    }

    /// Whether the secret has been wiped.
    pub fn is_wiped(&self) -> (r: bool)
        ensures
            r == !self.is_live(),
            r ==> self@ == Seq::<u8>::empty(),
    {
        self.inner.is_none()
    }

    /// Read access to the bytes of a live secret.
    pub fn borrow(&self) -> (r: &Vec<u8>)
        requires
            self.is_live(),
        ensures
            r@ == self@,
    {
        self.inner.as_ref().unwrap()
    }

    /// Write access to the bytes of a live secret.
    pub fn borrow_mut(&mut self) -> (r: &mut Vec<u8>)
        requires
            old(self).is_live(),
        ensures
            r@ == old(self)@,
            final(self).is_live(),
            final(self)@ == final(r)@,
    {
        self.inner.as_mut().unwrap()
    }

    /// Zeroes the bytes and gives them up for good.
    pub fn wipe_now(&mut self)
        ensures
            !final(self).is_live(),
            final(self)@ == Seq::<u8>::empty(),
    {
        match self.inner.take() {
            Some(mut v) => {
                zeroize_vec(&mut v);
            },
            None => {},
        }
    }
}

impl Drop for Secret {
    fn drop(&mut self)
        opens_invariants none
        no_unwind
    {
        match &mut self.inner {
            Some(v) => {
                zeroize_vec(v);
            },
            None => {},
        }
    }
}

} // verus!

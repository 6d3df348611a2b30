//! Purpose-bound key derivation with HKDF-SHA256.

use vstd::prelude::*;
use ::hkdf::Hkdf;
use ::sha2::Sha256;
use crate::encoding::{lemma_u64_be_injective, u64_be, u64_to_be_bytes};
use crate::memory::guard::GuardedKey32;

verus! {

/// Output keying material of HKDF-SHA256 (RFC 5869) for the given salt, input
/// keying material, info and output length.
pub uninterp spec fn hkdf_sha256(
    salt: Option<Seq<u8>>,
    ikm: Seq<u8>,
    info: Seq<u8>,
    len: nat,
) -> Seq<u8>;

/// Longest output HKDF-SHA256 can produce.
pub const HKDF_MAX_OUTPUT: usize = 8160;

/// The bytes behind an optional slice.
pub open spec fn salt_view(salt: Option<&[u8]>) -> Option<Seq<u8>> {
    match salt {
        Some(s) => Some(s@),
        None => None,
    }
}

/// `Hkdf::<Sha256>::new` followed by `Hkdf::expand` of the `hkdf` crate. The
/// expansion fails only when more than 255 hash blocks are asked for, before
/// anything is written; otherwise it fills the whole output.
#[verifier::external_body]
pub(crate) fn hkdf_sha256_expand(
    salt: Option<&[u8]>,
    ikm: &[u8],
    info: &[u8],
    okm: &mut [u8],
) -> (ok: bool)
    ensures
        ok <==> old(okm)@.len() <= HKDF_MAX_OUTPUT,
        ok ==> final(okm)@ == hkdf_sha256(salt_view(salt), ikm@, info@, old(okm)@.len()),
        !ok ==> final(okm)@ == old(okm)@,
        final(okm)@.len() == old(okm)@.len(),
{
    Hkdf::<Sha256>::new(salt, ikm).expand(info, okm).is_ok()
}

/// The closed set of uses a derived key can be bound to.
#[derive(Clone, Copy, PartialEq, Eq, Structural)]
pub enum Purpose {
    /// Keys that encrypt file chunks.
    FileEncryption,
    /// Keys that protect file metadata.
    Metadata,
    /// Keys for device-to-device pairing.
    Pairing,
    /// Keys for recovery and the kill protocol.
    Recovery,
}

impl Purpose {
    /// The fixed domain-separation label of the purpose.
    pub open spec fn label_spec(self) -> Seq<u8> {
        match self {
            Purpose::FileEncryption => seq![
                0x72u8, 0x63u8, 0x78u8, 0x3au8, 0x66u8, 0x69u8, 0x6cu8, 0x65u8,
                0x3au8, 0x65u8, 0x6eu8, 0x63u8, 0x3au8, 0x76u8, 0x31u8,
            ],
            Purpose::Metadata => seq![
                0x72u8, 0x63u8, 0x78u8, 0x3au8, 0x6du8, 0x65u8, 0x74u8, 0x61u8,
                0x3au8, 0x76u8, 0x31u8,
            ],
            Purpose::Pairing => seq![
                0x72u8, 0x63u8, 0x78u8, 0x3au8, 0x70u8, 0x61u8, 0x69u8, 0x72u8,
                0x3au8, 0x76u8, 0x31u8,
            ],
            Purpose::Recovery => seq![
                0x72u8, 0x63u8, 0x78u8, 0x3au8, 0x72u8, 0x65u8, 0x63u8, 0x6fu8,
                0x76u8, 0x65u8, 0x72u8, 0x79u8, 0x3au8, 0x76u8, 0x31u8,
            ],
        }
    }

    /// The fixed domain-separation label of the purpose, as ASCII bytes.
    pub fn label(self) -> (r: Vec<u8>)
        ensures
            r@ == self.label_spec(),
    {
        let r: Vec<u8> = match self {
            Purpose::FileEncryption => vec![
                0x72u8, 0x63u8, 0x78u8, 0x3au8, 0x66u8, 0x69u8, 0x6cu8, 0x65u8,
                0x3au8, 0x65u8, 0x6eu8, 0x63u8, 0x3au8, 0x76u8, 0x31u8,
            ],
            Purpose::Metadata => vec![
                0x72u8, 0x63u8, 0x78u8, 0x3au8, 0x6du8, 0x65u8, 0x74u8, 0x61u8,
                0x3au8, 0x76u8, 0x31u8,
            ],
            Purpose::Pairing => vec![
                0x72u8, 0x63u8, 0x78u8, 0x3au8, 0x70u8, 0x61u8, 0x69u8, 0x72u8,
                0x3au8, 0x76u8, 0x31u8,
            ],
            Purpose::Recovery => vec![
                0x72u8, 0x63u8, 0x78u8, 0x3au8, 0x72u8, 0x65u8, 0x63u8, 0x6fu8,
                0x76u8, 0x65u8, 0x72u8, 0x79u8, 0x3au8, 0x76u8, 0x31u8,
            ],
        };
        assert(r@ =~= self.label_spec());
        r
    }
}

/// The HKDF info of a derivation: the purpose's label followed by the context,
/// big-endian.
pub open spec fn derive_info(purpose: Purpose, context: u64) -> Seq<u8> {
    purpose.label_spec() + u64_be(context)
}

/// The key derived from `parent` for a purpose and a context.
pub open spec fn derived_key(parent: Seq<u8>, purpose: Purpose, context: u64) -> Seq<u8> {
    hkdf_sha256(None, parent, derive_info(purpose, context), 32)
}

/// Domain separation: two derivations share their HKDF info only if they
/// share both purpose and context.
pub proof fn lemma_derive_info_injective(
    first: Purpose,
    first_context: u64,
    second: Purpose,
    second_context: u64,
)
    requires
        derive_info(first, first_context) == derive_info(second, second_context),
    ensures
        first == second,
        first_context == second_context,
{
    let a = derive_info(first, first_context);
    let b = derive_info(second, second_context);
    assert(a.len() == b.len());
    assert(a[4] == b[4]);
    assert(first == second);
    let n = first.label_spec().len() as int;
    assert(u64_be(first_context) =~= a.subrange(n, n + 8));
    assert(u64_be(second_context) =~= b.subrange(n, n + 8));
    lemma_u64_be_injective(first_context, second_context);
}

/// Derives the child key of `parent` for `purpose` and `context` into `out`:
/// HKDF-SHA256 with the parent as input keying material, no salt, and the
/// purpose's label followed by the big-endian context as info.
pub fn derive_key(
    parent: &GuardedKey32,
    purpose: Purpose,
    context: u64,
    out: &mut GuardedKey32,
) -> (r: Result<(), ()>)
    ensures
        r is Ok,
        final(out)@ == derived_key(parent@, purpose, context),
{
    let mut info: Vec<u8> = purpose.label();
    if info.len() > 32 {
        return Err(());
    }
    let ctx = u64_to_be_bytes(context);
    info.extend_from_slice(&ctx);
    assert(info@ =~= derive_info(purpose, context));
    let okm = out.borrow_mut();
    if hkdf_sha256_expand(None, parent.borrow(), info.as_slice(), okm) {
        Ok(())
    } else {
        Err(())
    }
}

} // verus!

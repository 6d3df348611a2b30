//! Backup key encapsulation: X25519 followed by HKDF-SHA256.

use vstd::prelude::*;
use ::rand_core::{OsRng, RngCore};
use ::x25519_dalek::{PublicKey, StaticSecret};
use crate::crypto::derive::{hkdf_sha256, hkdf_sha256_expand};
use crate::keystore::master::KillFuse;
use crate::memory::guard::GuardedKey32;

verus! {

/// The X25519 public key (RFC 7748) of a secret.
pub uninterp spec fn x25519_public_key(secret: Seq<u8>) -> Seq<u8>;

/// The X25519 shared secret (RFC 7748) of a secret and a peer's public key.
pub uninterp spec fn x25519_shared_secret(secret: Seq<u8>, peer: Seq<u8>) -> Seq<u8>;

/// `OsRng::try_fill_bytes` of the `rand_core` crate: fills the buffer from
/// the operating system's generator, or reports that it could not. Nothing
/// is known of the bytes.
#[verifier::external_body]
pub(crate) fn os_random_fill(buf: &mut [u8]) -> (ok: bool)
    ensures
        final(buf)@.len() == old(buf)@.len(),
{
    OsRng.try_fill_bytes(buf).is_ok()
}

/// `PublicKey::from` of the `x25519-dalek` crate on a `StaticSecret` made
/// from the given bytes: the public key of the secret.
#[verifier::external_body]
fn x25519_public(secret: &[u8; 32]) -> (public: [u8; 32])
    ensures
        public@ == x25519_public_key(secret@),
{
    PublicKey::from(&StaticSecret::from(*secret)).to_bytes()
}

/// `StaticSecret::diffie_hellman` of the `x25519-dalek` crate, on a secret
/// and a public key made from the given bytes: their shared secret, written
/// into `shared`.
#[verifier::external_body]
fn x25519_exchange(secret: &[u8; 32], peer: &[u8; 32], shared: &mut [u8; 32])
    ensures
        final(shared)@ == x25519_shared_secret(secret@, peer@),
{
    *shared = StaticSecret::from(*secret).diffie_hellman(&PublicKey::from(*peer)).to_bytes();
}

/// The HKDF salt of backup keys, `rcxcloud:kem:backup:v1`.
pub open spec fn kem_label() -> Seq<u8> {
    seq![
        0x72u8, 0x63u8, 0x78u8, 0x63u8, 0x6cu8, 0x6fu8, 0x75u8, 0x64u8,
        0x3au8, 0x6bu8, 0x65u8, 0x6du8, 0x3au8, 0x62u8, 0x61u8, 0x63u8,
        0x6bu8, 0x75u8, 0x70u8, 0x3au8, 0x76u8, 0x31u8,
    ]
}

/// The backup key that a shared secret and a context derive to.
pub open spec fn backup_key(shared: Seq<u8>, context: Seq<u8>) -> Seq<u8> {
    hkdf_sha256(Some(kem_label()), shared, context, 32)
}

/// Shortest context that decapsulation accepts.
pub const MIN_CONTEXT_LEN: usize = 32;

/// What the sender publishes of an encapsulation.
pub struct Encapsulation {
    /// The sender's ephemeral public key.
    pub ephemeral_public: [u8; 32],
}

/// Why random generation failed.
#[derive(Debug, Clone, Copy, PartialEq, Eq, Structural)]
pub enum CsrngError {
    /// The operating system's generator failed.
    Failed,
    /// The kill fuse is blown.
    Killed,
}

/// Why a key encapsulation failed.
#[derive(Debug, Clone, Copy, PartialEq, Eq, Structural)]
pub enum KEMError {
    /// The key could not be derived.
    Derive,
    /// The kill fuse is blown.
    Killed,
}

/// Fills `out` with random key material. Refused once the fuse is blown;
/// `out` is then left as it was.
pub fn csrng(fuse: &KillFuse, out: &mut GuardedKey32) -> (r: Result<(), CsrngError>)
    ensures
        fuse.killed() ==> r == Err::<(), CsrngError>(CsrngError::Killed)
            && final(out)@ == old(out)@,
        !fuse.killed() ==> r is Ok || r == Err::<(), CsrngError>(CsrngError::Failed),
{
    if fuse.is_killed() {
        return Err(CsrngError::Killed);
    }
    if os_random_fill(out.borrow_mut()) {
        Ok(())
    } else {
        Err(CsrngError::Failed)
    }
}

/// Derives the backup key of a shared secret and a context into `out`.
fn derive_backup_key(shared: &GuardedKey32, context: &[u8], out: &mut GuardedKey32) -> (r:
    Result<(), KEMError>)
    ensures
        r is Ok,
        final(out)@ == backup_key(shared@, context@),
{
    let label: [u8; 22] = [
        0x72u8, 0x63u8, 0x78u8, 0x63u8, 0x6cu8, 0x6fu8, 0x75u8, 0x64u8,
        0x3au8, 0x6bu8, 0x65u8, 0x6du8, 0x3au8, 0x62u8, 0x61u8, 0x63u8,
        0x6bu8, 0x75u8, 0x70u8, 0x3au8, 0x76u8, 0x31u8,
    ];
    assert(label@ =~= kem_label());
    let salt: &[u8] = &label;
    let okm = out.borrow_mut();
    assert(okm@.len() == 32);
    if hkdf_sha256_expand(Some(salt), shared.borrow(), context, okm) {
        Ok(())
    } else {
        Err(KEMError::Derive)
    }
}

/// Encapsulates a backup key for a peer with a given ephemeral secret:
/// returns the ephemeral public key and the key derived from the shared
/// secret and the context.
pub fn encapsulate_with(ephemeral: &GuardedKey32, peer_pub: &[u8; 32], context: &[u8]) -> (r:
    Result<(Encapsulation, GuardedKey32), KEMError>)
    ensures
        r is Ok,
        r->Ok_0.0.ephemeral_public@ == x25519_public_key(ephemeral@),
        r->Ok_0.1@ == backup_key(x25519_shared_secret(ephemeral@, peer_pub@), context@),
{
    let ephemeral_public = x25519_public(ephemeral.borrow());
    let mut shared = GuardedKey32::zeroed();
    x25519_exchange(ephemeral.borrow(), peer_pub, shared.borrow_mut());
    let mut out = GuardedKey32::zeroed();
    match derive_backup_key(&shared, context, &mut out) {
        Ok(()) => Ok((Encapsulation { ephemeral_public }, out)),
        Err(e) => Err(e),
    }
}

/// Encapsulates a backup key for a peer under a fresh random ephemeral
/// secret. Refused once the fuse is blown; fails if no randomness can be
/// had.
pub fn encapsulate(fuse: &KillFuse, peer_pub: &[u8; 32], context: &[u8]) -> (r: Result<
    (Encapsulation, GuardedKey32),
    KEMError,
>)
    ensures
        fuse.killed() ==> r is Err && r->Err_0 == KEMError::Killed,
        !fuse.killed() ==> r is Ok || r->Err_0 == KEMError::Derive,
        r is Ok ==> exists|ephemeral: Seq<u8>|
            r->Ok_0.0.ephemeral_public@ == #[trigger] x25519_public_key(ephemeral) && r->Ok_0.1@
                == backup_key(x25519_shared_secret(ephemeral, peer_pub@), context@),
{
    if fuse.is_killed() {
        return Err(KEMError::Killed);
    }
    let mut ephemeral = GuardedKey32::zeroed();
    match csrng(fuse, &mut ephemeral) {
        Ok(()) => {},
        Err(_) => {
            return Err(KEMError::Derive);
        },
    }
    encapsulate_with(&ephemeral, peer_pub, context)
}

/// Recovers the backup key from the peer's ephemeral public key into `out`.
/// Refused once the fuse is blown and for a context shorter than 32 bytes;
/// `out` is then left as it was.
pub fn decapsulate(
    fuse: &KillFuse,
    our_secret: &GuardedKey32,
    peer_ephemeral: &[u8; 32],
    context: &[u8],
    out: &mut GuardedKey32,
) -> (r: Result<(), KEMError>)
    ensures
        fuse.killed() ==> r == Err::<(), KEMError>(KEMError::Killed),
        !fuse.killed() && context@.len() < MIN_CONTEXT_LEN ==> r == Err::<(), KEMError>(
            KEMError::Derive,
        ),
        !fuse.killed() && context@.len() >= MIN_CONTEXT_LEN ==> r is Ok,
        r is Ok ==> final(out)@ == backup_key(
            x25519_shared_secret(our_secret@, peer_ephemeral@),
            context@,
        ),
        r is Err ==> final(out)@ == old(out)@,
{
    if fuse.is_killed() {
        return Err(KEMError::Killed);
    }
    if context.len() < MIN_CONTEXT_LEN {
        return Err(KEMError::Derive);
    }
    let mut shared = GuardedKey32::zeroed();
    x25519_exchange(our_secret.borrow(), peer_ephemeral, shared.borrow_mut());
    derive_backup_key(&shared, context, out)
}

} // verus!

//! AES-256-GCM with a 96-bit nonce and a 128-bit tag.

use vstd::prelude::*;
use ::aes_gcm::{AeadInPlace, Aes256Gcm, KeyInit, Nonce, Tag};
use crate::encoding::{copy_into, spliced};
use crate::memory::guard::GuardedKey32;
use crate::memory::zeroize::{wipe_bytes, zeros};

verus! {

/// Length of the authentication tag.
pub const TAG_LEN: usize = 16;

/// Length of the nonce.
pub const NONCE_LEN: usize = 12;

/// Longest plaintext the cipher accepts.
pub const P_MAX: u64 = 0x10_0000_0000;

/// Longest associated data the cipher accepts.
pub const A_MAX: u64 = 0x10_0000_0000;

/// What AES-256-GCM encryption yields: the ciphertext followed by the tag.
pub uninterp spec fn aes256_gcm_seal(
    key: Seq<u8>,
    nonce: Seq<u8>,
    plaintext: Seq<u8>,
    aad: Seq<u8>,
) -> Seq<u8>;

/// What AES-256-GCM decryption yields for a ciphertext followed by its tag:
/// the plaintext, or nothing where the tag does not authenticate.
pub uninterp spec fn aes256_gcm_open(
    key: Seq<u8>,
    nonce: Seq<u8>,
    sealed: Seq<u8>,
    aad: Seq<u8>,
) -> Option<Seq<u8>>;

/// `Aes256Gcm::encrypt_in_place_detached` of the `aes-gcm` crate, on a cipher
/// made with `Aes256Gcm::new`. The call fails only on a plaintext or
/// associated data longer than the cipher's limits and then leaves the buffer
/// alone. Otherwise the buffer holds the ciphertext, of the plaintext's
/// length, and the tag is returned.
#[verifier::external_body]
fn aes256_gcm_encrypt_in_place(
    key: &[u8; 32],
    nonce: &[u8; 12],
    aad: &[u8],
    buffer: &mut [u8],
) -> (tag: Option<[u8; 16]>)
    ensures
        tag is Some <==> (old(buffer)@.len() <= P_MAX && aad@.len() <= A_MAX),
        tag matches Some(t) ==> (final(buffer)@.len() == old(buffer)@.len() && final(buffer)@
            + t@ == aes256_gcm_seal(key@, nonce@, old(buffer)@, aad@)),
        tag is None ==> final(buffer)@ == old(buffer)@,
{
    let cipher = <Aes256Gcm as KeyInit>::new(key.into());
    match cipher.encrypt_in_place_detached(Nonce::from_slice(nonce), aad, buffer) {
        Ok(tag) => Some(tag.into()),
        Err(_) => None,
    }
}

/// `Aes256Gcm::decrypt_in_place_detached` of the `aes-gcm` crate, on a cipher
/// made with `Aes256Gcm::new`. Where the tag authenticates the buffer and the
/// associated data, the buffer holds the plaintext afterwards; otherwise the
/// call fails and leaves the buffer alone. What encryption produced under the
/// same key, nonce and associated data always authenticates and decrypts to
/// the plaintext it came from.
#[verifier::external_body]
fn aes256_gcm_decrypt_in_place(
    key: &[u8; 32],
    nonce: &[u8; 12],
    aad: &[u8],
    buffer: &mut [u8],
    tag: &[u8],
) -> (ok: bool)
    requires
        tag@.len() == TAG_LEN,
    ensures
        final(buffer)@.len() == old(buffer)@.len(),
        ok <==> aes256_gcm_open(key@, nonce@, old(buffer)@ + tag@, aad@) is Some,
        ok ==> aes256_gcm_open(key@, nonce@, old(buffer)@ + tag@, aad@) == Some(final(buffer)@),
        !ok ==> final(buffer)@ == old(buffer)@,
        forall|pt: Seq<u8>|
            (pt.len() <= P_MAX && aad@.len() <= A_MAX && #[trigger] aes256_gcm_seal(
                key@,
                nonce@,
                pt,
                aad@,
            ) == old(buffer)@ + tag@) ==> (ok && final(buffer)@ == pt),
{
    let cipher = <Aes256Gcm as KeyInit>::new(key.into());
    cipher.decrypt_in_place_detached(
        Nonce::from_slice(nonce),
        aad,
        buffer,
        Tag::from_slice(tag),
    ).is_ok()
}

/// The lengths on which `seal` does its work.
pub open spec fn seal_accepts(plaintext_len: nat, aad_len: nat, out_len: nat) -> bool {
    &&& out_len == plaintext_len + TAG_LEN
    &&& plaintext_len <= P_MAX
    &&& aad_len <= A_MAX
}

/// Encrypts `plaintext` into `out` as ciphertext followed by the tag. `out`
/// must be exactly sixteen bytes longer than the plaintext. On any failure
/// `out` is zeroed.
pub fn seal(
    key: &GuardedKey32,
    nonce: &[u8; 12],
    plaintext: &[u8],
    aad: &[u8],
    out: &mut [u8],
) -> (r: Result<(), ()>)
    ensures
        final(out)@.len() == old(out)@.len(),
        r is Ok <==> seal_accepts(plaintext@.len(), aad@.len(), old(out)@.len()),
        r is Ok ==> final(out)@ == aes256_gcm_seal(key@, nonce@, plaintext@, aad@),
        r is Err ==> final(out)@ == zeros(old(out)@.len()),
{
    let n: usize = plaintext.len();
    let out_len: usize = out.len();
    if n > usize::MAX - TAG_LEN || out_len != n + TAG_LEN {
        wipe_bytes(out);
        return Err(());
    }
    let (body, tag_slot) = out.split_at_mut(n);
    copy_into(body, 0, plaintext);
    proof {
        crate::encoding::lemma_spliced_whole(old(out)@.subrange(0, n as int), plaintext@);
    }
    match aes256_gcm_encrypt_in_place(key.borrow(), nonce, aad, body) {
        Some(tag) => {
            copy_into(tag_slot, 0, &tag);
            proof {
                crate::encoding::lemma_spliced_whole(
                    old(out)@.subrange(n as int, old(out)@.len() as int),
                    tag@,
                );
            }
            Ok(())
        },
        None => {
            wipe_bytes(body);
            wipe_bytes(tag_slot);
            assert(zeros(n as nat) + zeros(TAG_LEN as nat) =~= zeros(old(out)@.len()));
            Err(())
        },
    }
}

/// The lengths on which `open` attempts authentication.
pub open spec fn open_fits(input_len: nat, out_len: nat) -> bool {
    input_len >= TAG_LEN && out_len == input_len - TAG_LEN
}

/// Authenticates and decrypts `input`, ciphertext followed by the tag, into
/// `out`, which must be exactly sixteen bytes shorter. Returns whether the
/// input authenticated; if it did not, `out` is zeroed.
pub fn open(
    key: &GuardedKey32,
    nonce: &[u8; 12],
    input: &[u8],
    aad: &[u8],
    out: &mut [u8],
) -> (ok: bool)
    ensures
        final(out)@.len() == old(out)@.len(),
        ok <==> open_fits(input@.len(), old(out)@.len()) && aes256_gcm_open(
            key@,
            nonce@,
            input@,
            aad@,
        ) is Some,
        ok ==> aes256_gcm_open(key@, nonce@, input@, aad@) == Some(final(out)@),
        !ok ==> final(out)@ == zeros(old(out)@.len()),
        forall|pt: Seq<u8>|
            seal_accepts(pt.len(), aad@.len(), input@.len()) && old(out)@.len() == pt.len()
                && #[trigger] aes256_gcm_seal(key@, nonce@, pt, aad@) == input@ ==> ok
                && final(out)@ == pt,
{
    if input.len() < TAG_LEN || out.len() != input.len() - TAG_LEN {
        wipe_bytes(out);
        return false;
    }
    let n: usize = input.len() - TAG_LEN;
    let (ciphertext, tag) = input.split_at(n);
    copy_into(out, 0, ciphertext);
    proof {
        crate::encoding::lemma_spliced_whole(old(out)@, ciphertext@);
        assert(ciphertext@ + tag@ =~= input@);
    }
    let ok = aes256_gcm_decrypt_in_place(key.borrow(), nonce, aad, out, tag);
    if !ok {
        wipe_bytes(out);
    }
    ok
}

/// Encrypts `plaintext` into the front of `dst`, which may be longer than
/// needed, and returns the number of bytes written. A `dst` that is too short
/// is left alone; on any other failure the bytes that were to be written are
/// zeroed.
pub fn encrypt(
    key: &GuardedKey32,
    nonce: &[u8; 12],
    plaintext: &[u8],
    aad: &[u8],
    dst: &mut [u8],
) -> (r: Result<usize, ()>)
    ensures
        final(dst)@.len() == old(dst)@.len(),
        r is Ok <==> old(dst)@.len() >= plaintext@.len() + TAG_LEN && plaintext@.len() <= P_MAX
            && aad@.len() <= A_MAX,
        r matches Ok(n) ==> n == plaintext@.len() + TAG_LEN && final(dst)@ == spliced(
            old(dst)@,
            0,
            aes256_gcm_seal(key@, nonce@, plaintext@, aad@),
        ),
        r is Err && old(dst)@.len() < plaintext@.len() + TAG_LEN ==> final(dst)@ == old(dst)@,
        r is Err && old(dst)@.len() >= plaintext@.len() + TAG_LEN ==> final(dst)@ == spliced(
            old(dst)@,
            0,
            zeros((plaintext@.len() + TAG_LEN) as nat),
        ),
{
    let n: usize = plaintext.len();
    let dst_len: usize = dst.len();
    if n > usize::MAX - TAG_LEN || dst_len < n + TAG_LEN {
        return Err(());
    }
    let required: usize = n + TAG_LEN;
    let (head, rest) = dst.split_at_mut(required);
    let r = seal(key, nonce, plaintext, aad, head);
    proof {
        assert(final(head)@ + rest@ =~= spliced(old(dst)@, 0, final(head)@));
    }
    match r {
        Ok(()) => Ok(required),
        Err(()) => Err(()),
    }
}

/// Authenticates and decrypts `ciphertext` into the front of `dst`, which may
/// be longer than needed, and returns the number of plaintext bytes. Inputs
/// of unfit length leave `dst` alone; a failed authentication zeroes the
/// bytes that were to be written.
pub fn decrypt(
    key: &GuardedKey32,
    nonce: &[u8; 12],
    ciphertext: &[u8],
    aad: &[u8],
    dst: &mut [u8],
) -> (r: Result<usize, ()>)
    ensures
        final(dst)@.len() == old(dst)@.len(),
        r is Ok <==> ciphertext@.len() >= TAG_LEN && old(dst)@.len() >= ciphertext@.len()
            - TAG_LEN && aes256_gcm_open(key@, nonce@, ciphertext@, aad@) is Some,
        r matches Ok(n) ==> n == ciphertext@.len() - TAG_LEN && aes256_gcm_open(
            key@,
            nonce@,
            ciphertext@,
            aad@,
        ) == Some(final(dst)@.subrange(0, n as int)) && final(dst)@.subrange(
            n as int,
            old(dst)@.len() as int,
        ) == old(dst)@.subrange(n as int, old(dst)@.len() as int),
        r is Err && !(ciphertext@.len() >= TAG_LEN && old(dst)@.len() >= ciphertext@.len()
            - TAG_LEN) ==> final(dst)@ == old(dst)@,
        r is Err && ciphertext@.len() >= TAG_LEN && old(dst)@.len() >= ciphertext@.len() - TAG_LEN
            ==> final(dst)@ == spliced(
            old(dst)@,
            0,
            zeros((ciphertext@.len() - TAG_LEN) as nat),
        ),
{
    if ciphertext.len() < TAG_LEN {
        return Err(());
    }
    let pt_len: usize = ciphertext.len() - TAG_LEN;
    if dst.len() < pt_len {
        return Err(());
    }
    let (head, rest) = dst.split_at_mut(pt_len);
    let ok = open(key, nonce, ciphertext, aad, head);
    proof {
        assert(final(head)@ + rest@ =~= spliced(old(dst)@, 0, final(head)@));
        assert((final(head)@ + rest@).subrange(0, pt_len as int) =~= final(head)@);
        assert((final(head)@ + rest@).subrange(pt_len as int, old(dst)@.len() as int)
            =~= old(dst)@.subrange(pt_len as int, old(dst)@.len() as int));
    }
    if ok {
        Ok(pt_len)
    } else {
        Err(())
    }
}

} // verus!

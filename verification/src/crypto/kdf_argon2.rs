//! Argon2id key derivation with bounded cost.

use vstd::prelude::*;
use ::argon2::{Algorithm, Argon2, Version};
use crate::encoding::copy_into;
use crate::memory::guard::GuardedKey32;
use crate::memory::zeroize::{wipe_vec, Secret};

verus! {

/// Cost parameters of Argon2id.
#[derive(Clone, Copy)]
pub struct Params {
    /// Memory in KiB.
    pub mem_kib: u32,
    /// Number of passes.
    pub time: u32,
    /// Number of lanes.
    pub lanes: u32,
}

impl Default for Params {
    /// 64 MiB, three passes, one lane.
    fn default() -> (r: Self)
        ensures
            r.mem_kib == 65536,
            r.time == 3,
            r.lanes == 1,
    {
        Params { mem_kib: 65536, time: 3, lanes: 1 }
    }
}

/// Least memory accepted: 8 MiB.
pub const MIN_MEM_KIB: u32 = 8192;

/// Most memory accepted: 512 MiB.
pub const MAX_MEM_KIB: u32 = 524288;

/// Least number of lanes accepted.
pub const MIN_LANES: u32 = 1;

/// Largest number of lanes accepted.
pub const MAX_LANES: u32 = 4;

/// Least number of passes accepted.
pub const MIN_TIME: u32 = 1;

/// Largest number of passes accepted.
pub const MAX_TIME: u32 = 10;

/// Shortest salt Argon2 takes.
pub const MIN_SALT_LEN: usize = 8;

/// Longest password, salt or output Argon2 takes.
pub const ARGON2_MAX_LEN: u64 = 0xFFFF_FFFF;

/// Why a derivation failed.
#[derive(Debug, Clone, Copy, PartialEq, Eq, Structural)]
pub enum KdfError {
    /// The input or the salt is empty.
    InvalidInput,
    /// A cost parameter is out of bounds.
    Params,
    /// Argon2 refused the input.
    Derive,
}

/// The Argon2id hash (RFC 9106, version 0x13, no secret, no associated data)
/// of a password under a salt, with the given costs and output length.
pub uninterp spec fn argon2id(
    password: Seq<u8>,
    salt: Seq<u8>,
    mem_kib: u32,
    time: u32,
    lanes: u32,
    len: nat,
) -> Seq<u8>;

/// The inputs that the `argon2` crate hashes rather than refuses.
pub open spec fn argon2_accepts(
    password_len: nat,
    salt_len: nat,
    mem_kib: u32,
    time: u32,
    lanes: u32,
    out_len: nat,
) -> bool {
    &&& mem_kib >= 8
    &&& mem_kib >= 8 * lanes
    &&& time >= 1
    &&& 1 <= lanes <= 0xFF_FFFF
    &&& 4 <= out_len <= ARGON2_MAX_LEN
    &&& password_len <= ARGON2_MAX_LEN
    &&& MIN_SALT_LEN <= salt_len <= ARGON2_MAX_LEN
}

/// `Params::new`, `Argon2::new` with Argon2id and version 0x13, and
/// `Argon2::hash_password_into` of the `argon2` crate, with the length of
/// `out` as the output length. The crate refuses costs and lengths outside
/// its bounds before it writes anything; otherwise it fills `out` with the
/// hash.
#[verifier::external_body]
fn argon2id_hash_into(
    password: &[u8],
    salt: &[u8],
    mem_kib: u32,
    time: u32,
    lanes: u32,
    out: &mut [u8],
) -> (ok: bool)
    requires
        lanes <= 0xFF_FFFF,
    ensures
        ok <==> argon2_accepts(
            password@.len(),
            salt@.len(),
            mem_kib,
            time,
            lanes,
            old(out)@.len(),
        ),
        ok ==> final(out)@ == argon2id(password@, salt@, mem_kib, time, lanes, old(out)@.len()),
        !ok ==> final(out)@ == old(out)@,
        final(out)@.len() == old(out)@.len(),
{
    match ::argon2::Params::new(mem_kib, time, lanes, Some(out.len())) {
        Ok(p) => Argon2::new(Algorithm::Argon2id, Version::V0x13, p).hash_password_into(
            password,
            salt,
            out,
        ).is_ok(),
        Err(_) => false,
    }
}

/// The cost parameters are within this library's bounds.
pub open spec fn params_in_bounds(p: Params) -> bool {
    &&& MIN_MEM_KIB <= p.mem_kib <= MAX_MEM_KIB
    &&& MIN_TIME <= p.time <= MAX_TIME
    &&& MIN_LANES <= p.lanes <= MAX_LANES
}

/// The error a derivation ends in, if any, checked in this order: empty
/// input or salt, costs out of bounds, lengths that Argon2 refuses.
pub open spec fn kdf_failure(input_len: nat, salt_len: nat, p: Params) -> Option<KdfError> {
    if input_len == 0 || salt_len == 0 {
        Some(KdfError::InvalidInput)
    } else if !params_in_bounds(p) {
        Some(KdfError::Params)
    } else if salt_len < MIN_SALT_LEN || salt_len > ARGON2_MAX_LEN || input_len
        > ARGON2_MAX_LEN {
        Some(KdfError::Derive)
    } else {
        None
    }
}

/// Refuses an empty input or salt.
pub fn validate_inputs(input: &[u8], salt: &[u8]) -> (r: Result<(), KdfError>)
    ensures
        r is Ok <==> input@.len() > 0 && salt@.len() > 0,
        r is Err ==> r == Err::<(), KdfError>(KdfError::InvalidInput),
{
    if input.len() == 0 || salt.len() == 0 {
        return Err(KdfError::InvalidInput);
    }
    Ok(())
}

/// Refuses cost parameters out of bounds.
pub fn validate_params(params: &Params) -> (r: Result<(), KdfError>)
    ensures
        r is Ok <==> params_in_bounds(*params),
        r is Err ==> r == Err::<(), KdfError>(KdfError::Params),
{
    if params.mem_kib < MIN_MEM_KIB || params.mem_kib > MAX_MEM_KIB {
        return Err(KdfError::Params);
    }
    if params.time < MIN_TIME || params.time > MAX_TIME {
        return Err(KdfError::Params);
    }
    if params.lanes < MIN_LANES || params.lanes > MAX_LANES {
        return Err(KdfError::Params);
    }
    Ok(())
}

/// Derives one 256-bit key from `input` and `salt` into `out`. A wiped input
/// counts as empty. On failure `out` is left as it was.
pub fn derive_single_key(
    input: &Secret,
    salt: &[u8],
    params: &Params,
    out: &mut GuardedKey32,
) -> (r: Result<(), KdfError>)
    ensures
        match kdf_failure(input@.len(), salt@.len(), *params) {
            Some(e) => r == Err::<(), KdfError>(e) && final(out)@ == old(out)@,
            None => r is Ok && final(out)@ == argon2id(
                input@,
                salt@,
                params.mem_kib,
                params.time,
                params.lanes,
                32,
            ),
        },
{
    if input.is_wiped() {
        return Err(KdfError::InvalidInput);
    }
    let password = input.borrow().as_slice();
    validate_inputs(password, salt)?;
    validate_params(params)?;
    let okm = out.borrow_mut();
    if argon2id_hash_into(password, salt, params.mem_kib, params.time, params.lanes, okm) {
        Ok(())
    } else {
        Err(KdfError::Derive)
    }
}

/// Derives two 256-bit keys from one 64-byte Argon2id output: the first half
/// into `out_root`, the second into `out_session`. A wiped input counts as
/// empty. On failure both are left as they were.
pub fn derive_two_keys(
    input: &Secret,
    salt: &[u8],
    params: &Params,
    out_root: &mut GuardedKey32,
    out_session: &mut GuardedKey32,
) -> (r: Result<(), KdfError>)
    ensures
        match kdf_failure(input@.len(), salt@.len(), *params) {
            Some(e) => r == Err::<(), KdfError>(e) && final(out_root)@ == old(out_root)@
                && final(out_session)@ == old(out_session)@,
            None => {
                let okm = argon2id(
                    input@,
                    salt@,
                    params.mem_kib,
                    params.time,
                    params.lanes,
                    64,
                );
                r is Ok && final(out_root)@ == okm.subrange(0, 32) && final(out_session)@
                    == okm.subrange(32, 64)
            },
        },
{
    if input.is_wiped() {
        return Err(KdfError::InvalidInput);
    }
    let password = input.borrow().as_slice();
    validate_inputs(password, salt)?;
    validate_params(params)?;
    let mut tmp: Vec<u8> = vec![0u8; 64];
    let ok = argon2id_hash_into(
        password,
        salt,
        params.mem_kib,
        params.time,
        params.lanes,
        tmp.as_mut_slice(),
    );
    if !ok {
        wipe_vec(&mut tmp);
        return Err(KdfError::Derive);
    }
    let (first, second) = tmp.as_slice().split_at(32);
    copy_into(out_root.borrow_mut(), 0, first);
    copy_into(out_session.borrow_mut(), 0, second);
    proof {
        crate::encoding::lemma_spliced_whole(old(out_root)@, first@);
        crate::encoding::lemma_spliced_whole(old(out_session)@, second@);
    }
    wipe_vec(&mut tmp);
    Ok(())
}

} // verus!

use rcxcore::crypto::aad::Aad;
use rcxcore::crypto::aes_gcm::{decrypt, encrypt, open, seal};
use rcxcore::crypto::derive::{derive_key, Purpose};
use rcxcore::crypto::kdf_argon2::{
    derive_single_key, derive_two_keys, validate_inputs, validate_params, KdfError, Params,
};
use rcxcore::crypto::kem::{
    csrng, decapsulate, encapsulate, encapsulate_with, CsrngError, KEMError,
};
use rcxcore::crypto::nonce::derive_nonce;
use rcxcore::keystore::master::KillFuse;
use rcxcore::memory::{GuardedKey32, Secret};

fn unhex(s: &str) -> Vec<u8> {
    hex::decode(s).unwrap()
}

fn key32(s: &str) -> GuardedKey32 {
    let mut k = [0u8; 32];
    k.copy_from_slice(&unhex(s));
    GuardedKey32::new(k)
}

fn fast() -> Params {
    Params { mem_kib: 8192, time: 1, lanes: 1 }
}

#[test]
fn aad_is_made_only_in_version_one() {
    assert!(Aad::new(1, 2, 3, 1).is_some());
    assert!(Aad::new(1, 2, 3, 0).is_none());
    assert!(Aad::new(1, 2, 3, 2).is_none());
    assert!(Aad::new(1, 2, 3, 255).is_none());
}

#[test]
fn aad_serializes_to_fifteen_big_endian_bytes() {
    let aad = Aad::new(101010, 0, 1, 1).unwrap();
    assert_eq!(aad.serialize().to_vec(), unhex("0000000000018a9200000000000101"));
    let aad = Aad::new(0x0102030405060708, 0x0a0b0c0d, 0x1122, 1).unwrap();
    assert_eq!(
        aad.serialize(),
        [1, 2, 3, 4, 5, 6, 7, 8, 0x0a, 0x0b, 0x0c, 0x0d, 0x11, 0x22, 1]
    );
    assert_eq!(aad.file_id(), 0x0102030405060708);
    assert_eq!(aad.chunk(), 0x0a0b0c0d);
    assert_eq!(aad.cloud_id(), 0x1122);
    assert_eq!(aad.version(), 1);
}

#[test]
fn purpose_labels_are_the_fixed_strings() {
    assert_eq!(Purpose::FileEncryption.label(), b"rcx:file:enc:v1".to_vec());
    assert_eq!(Purpose::Metadata.label(), b"rcx:meta:v1".to_vec());
    assert_eq!(Purpose::Pairing.label(), b"rcx:pair:v1".to_vec());
    assert_eq!(Purpose::Recovery.label(), b"rcx:recovery:v1".to_vec());
}

#[test]
fn derive_key_matches_hkdf_sha256() {
    let parent = GuardedKey32::new([0x11; 32]);
    let mut out = GuardedKey32::zeroed();
    assert!(derive_key(&parent, Purpose::FileEncryption, 101010, &mut out).is_ok());
    assert_eq!(
        out.borrow().to_vec(),
        unhex("90374a69465adfa365045da39f965c1c40825680a74d7ec813df5c90077e09d4")
    );
    assert!(derive_key(&parent, Purpose::Metadata, 7, &mut out).is_ok());
    assert_eq!(
        out.borrow().to_vec(),
        unhex("96de55abd50622a0e50aee29856218d30e2ee3c02a65bb9dc63ee388eb557e76")
    );
    assert!(derive_key(&parent, Purpose::Pairing, 7, &mut out).is_ok());
    assert_eq!(
        out.borrow().to_vec(),
        unhex("db91fbc0dae8af79d40f10496dc7f2408222607d12a9e467e248803bf980fd3b")
    );
    assert!(derive_key(&parent, Purpose::Recovery, 7, &mut out).is_ok());
    assert_eq!(
        out.borrow().to_vec(),
        unhex("0d19905d55bc955741a69339350f026186519e940f1f58151f74181e3b1f1095")
    );
}

#[test]
fn derived_keys_are_separated_by_purpose_and_context() {
    let parent = GuardedKey32::new([0x11; 32]);
    let mut a = GuardedKey32::zeroed();
    let mut b = GuardedKey32::zeroed();
    let mut c = GuardedKey32::zeroed();
    derive_key(&parent, Purpose::Metadata, 7, &mut a).unwrap();
    derive_key(&parent, Purpose::Pairing, 7, &mut b).unwrap();
    derive_key(&parent, Purpose::Metadata, 8, &mut c).unwrap();
    assert_ne!(a.borrow(), b.borrow());
    assert_ne!(a.borrow(), c.borrow());
    let mut again = GuardedKey32::zeroed();
    derive_key(&parent, Purpose::Metadata, 7, &mut again).unwrap();
    assert_eq!(a.borrow(), again.borrow());
}

#[test]
fn derive_nonce_matches_truncated_hmac_sha256() {
    let key = GuardedKey32::new([0x22; 32]);
    assert_eq!(derive_nonce(&key, 101010, 0).to_vec(), unhex("5401fa45dcc0ca1d1d90d55a"));
}

#[test]
fn nonces_differ_for_distinct_file_and_chunk_pairs() {
    let key = GuardedKey32::new([0x22; 32]);
    let pairs = [(1u64, 0u32), (1, 1), (2, 0), (2, 1), (0, 0), (u64::MAX, u32::MAX)];
    for (i, a) in pairs.iter().enumerate() {
        for b in pairs.iter().skip(i + 1) {
            assert_ne!(derive_nonce(&key, a.0, a.1), derive_nonce(&key, b.0, b.1));
        }
    }
}

#[test]
fn seal_matches_aes_256_gcm() {
    let key = GuardedKey32::new([0x33; 32]);
    let mut out = vec![0u8; 5 + 16];
    assert!(seal(&key, &[1u8; 12], b"hello", b"aad", &mut out).is_ok());
    assert_eq!(out, unhex("b1a977bcc092969e2f19f831796e45a88194b86e55"));

    let zero = GuardedKey32::zeroed();
    let mut out = vec![0u8; 32];
    assert!(seal(&zero, &[0u8; 12], &[0u8; 16], &[], &mut out).is_ok());
    assert_eq!(
        out,
        unhex("cea7403d4d606b6e074ec5d3baf39d18d0d1c8a799996bf0265b98b5d48ab919")
    );
}

#[test]
fn seal_refuses_an_output_of_the_wrong_length_and_zeroes_it() {
    let key = GuardedKey32::new([0x33; 32]);
    for len in [0usize, 5, 20, 22, 40] {
        let mut out = vec![0xeeu8; len];
        assert!(seal(&key, &[1u8; 12], b"hello", b"aad", &mut out).is_err());
        assert_eq!(out, vec![0u8; len]);
    }
}

#[test]
fn open_returns_what_was_sealed() {
    let key = GuardedKey32::new([0x33; 32]);
    for pt in [&b""[..], &b"a"[..], &b"hello"[..], &[7u8; 1000][..]] {
        let mut sealed = vec![0u8; pt.len() + 16];
        seal(&key, &[9u8; 12], pt, b"some aad", &mut sealed).unwrap();
        let mut back = vec![0xeeu8; pt.len()];
        assert!(open(&key, &[9u8; 12], &sealed, b"some aad", &mut back));
        assert_eq!(back, pt);
    }
}

#[test]
fn open_with_other_aad_fails_and_zeroes_the_output() {
    let key = GuardedKey32::new([0x33; 32]);
    let mut sealed = vec![0u8; 5 + 16];
    seal(&key, &[9u8; 12], b"hello", b"aad one", &mut sealed).unwrap();
    let mut back = vec![0xeeu8; 5];
    assert!(!open(&key, &[9u8; 12], &sealed, b"aad two", &mut back));
    assert_eq!(back, vec![0u8; 5]);
    let mut back = vec![0xeeu8; 5];
    assert!(!open(&key, &[9u8; 12], &sealed, b"", &mut back));
    assert_eq!(back, vec![0u8; 5]);
}

#[test]
fn open_fails_on_any_flipped_bit() {
    let key = GuardedKey32::new([0x33; 32]);
    let mut sealed = vec![0u8; 5 + 16];
    seal(&key, &[9u8; 12], b"hello", b"aad", &mut sealed).unwrap();
    for i in 0..sealed.len() {
        for bit in 0..8 {
            let mut bad = sealed.clone();
            bad[i] ^= 1 << bit;
            let mut back = vec![0xeeu8; 5];
            assert!(!open(&key, &[9u8; 12], &bad, b"aad", &mut back));
            assert_eq!(back, vec![0u8; 5]);
        }
    }
}

#[test]
fn open_fails_under_another_key_or_nonce() {
    let key = GuardedKey32::new([0x33; 32]);
    let other = GuardedKey32::new([0x34; 32]);
    let mut sealed = vec![0u8; 5 + 16];
    seal(&key, &[9u8; 12], b"hello", b"aad", &mut sealed).unwrap();
    let mut back = vec![0xeeu8; 5];
    assert!(!open(&other, &[9u8; 12], &sealed, b"aad", &mut back));
    assert_eq!(back, vec![0u8; 5]);
    assert!(!open(&key, &[8u8; 12], &sealed, b"aad", &mut back));
}

#[test]
fn open_refuses_unfit_lengths_and_zeroes_the_output() {
    let key = GuardedKey32::new([0x33; 32]);
    let mut sealed = vec![0u8; 5 + 16];
    seal(&key, &[9u8; 12], b"hello", b"aad", &mut sealed).unwrap();
    let mut short = vec![0xeeu8; 4];
    assert!(!open(&key, &[9u8; 12], &sealed, b"aad", &mut short));
    assert_eq!(short, vec![0u8; 4]);
    let mut long = vec![0xeeu8; 6];
    assert!(!open(&key, &[9u8; 12], &sealed, b"aad", &mut long));
    assert_eq!(long, vec![0u8; 6]);
    let mut none = vec![0xeeu8; 3];
    assert!(!open(&key, &[9u8; 12], &[1u8; 15], b"aad", &mut none));
    assert_eq!(none, vec![0u8; 3]);
}

#[test]
fn encrypt_writes_the_front_of_a_longer_buffer() {
    let key = GuardedKey32::new([0x33; 32]);
    let mut dst = vec![0xeeu8; 30];
    assert_eq!(encrypt(&key, &[1u8; 12], b"hello", b"aad", &mut dst), Ok(21));
    assert_eq!(dst[..21].to_vec(), unhex("b1a977bcc092969e2f19f831796e45a88194b86e55"));
    assert_eq!(dst[21..].to_vec(), vec![0xeeu8; 9]);
    let mut small = vec![0xeeu8; 20];
    assert_eq!(encrypt(&key, &[1u8; 12], b"hello", b"aad", &mut small), Err(()));
    assert_eq!(small, vec![0xeeu8; 20]);
}

#[test]
fn decrypt_reads_into_the_front_of_a_longer_buffer() {
    let key = GuardedKey32::new([0x33; 32]);
    let sealed = unhex("b1a977bcc092969e2f19f831796e45a88194b86e55");
    let mut dst = vec![0xeeu8; 8];
    assert_eq!(decrypt(&key, &[1u8; 12], &sealed, b"aad", &mut dst), Ok(5));
    assert_eq!(dst, b"hello\xee\xee\xee".to_vec());
    let mut dst = vec![0xeeu8; 8];
    assert_eq!(decrypt(&key, &[1u8; 12], &sealed, b"bad", &mut dst), Err(()));
    assert_eq!(dst, vec![0, 0, 0, 0, 0, 0xee, 0xee, 0xee]);
    let mut small = vec![0xeeu8; 4];
    assert_eq!(decrypt(&key, &[1u8; 12], &sealed, b"aad", &mut small), Err(()));
    assert_eq!(small, vec![0xeeu8; 4]);
    assert_eq!(decrypt(&key, &[1u8; 12], &[0u8; 15], b"aad", &mut dst), Err(()));
}

#[test]
fn kdf_parameters_are_bounded() {
    assert_eq!(validate_params(&Params::default()), Ok(()));
    assert_eq!(validate_params(&Params { mem_kib: 8192, time: 1, lanes: 1 }), Ok(()));
    assert_eq!(validate_params(&Params { mem_kib: 524288, time: 10, lanes: 4 }), Ok(()));
    assert_eq!(
        validate_params(&Params { mem_kib: 8191, time: 1, lanes: 1 }),
        Err(KdfError::Params)
    );
    assert_eq!(
        validate_params(&Params { mem_kib: 524289, time: 1, lanes: 1 }),
        Err(KdfError::Params)
    );
    assert_eq!(
        validate_params(&Params { mem_kib: 8192, time: 0, lanes: 1 }),
        Err(KdfError::Params)
    );
    assert_eq!(
        validate_params(&Params { mem_kib: 8192, time: 11, lanes: 1 }),
        Err(KdfError::Params)
    );
    assert_eq!(
        validate_params(&Params { mem_kib: 8192, time: 1, lanes: 0 }),
        Err(KdfError::Params)
    );
    assert_eq!(
        validate_params(&Params { mem_kib: 8192, time: 1, lanes: 5 }),
        Err(KdfError::Params)
    );
}

#[test]
fn kdf_default_parameters() {
    let p = Params::default();
    assert_eq!((p.mem_kib, p.time, p.lanes), (64 * 1024, 3, 1));
}

#[test]
fn kdf_inputs_must_not_be_empty() {
    assert_eq!(validate_inputs(b"x", b"y"), Ok(()));
    assert_eq!(validate_inputs(b"", b"y"), Err(KdfError::InvalidInput));
    assert_eq!(validate_inputs(b"x", b""), Err(KdfError::InvalidInput));
}

#[test]
fn derive_single_key_matches_argon2id() {
    let input = Secret::new(b"password".to_vec());
    let mut out = GuardedKey32::zeroed();
    assert_eq!(derive_single_key(&input, b"saltsalt", &fast(), &mut out), Ok(()));
    assert_eq!(
        out.borrow().to_vec(),
        unhex("2a11caefb59c739222a1554241e5035b65782ced08280b469cd5a11065cd6f93")
    );
}

#[test]
fn derive_two_keys_splits_one_argon2id_output() {
    let input = Secret::new(b"password".to_vec());
    let mut root = GuardedKey32::zeroed();
    let mut session = GuardedKey32::zeroed();
    assert_eq!(derive_two_keys(&input, b"saltsalt", &fast(), &mut root, &mut session), Ok(()));
    assert_eq!(
        root.borrow().to_vec(),
        unhex("6567ea558b5b912d948eadbd4a2050291e33fdacb4ab4722ee7b6604addf024a")
    );
    assert_eq!(
        session.borrow().to_vec(),
        unhex("00f803dea1a9445787363a6e2c0e5f4b68fcad031f586f963318f498c2c11d99")
    );
}

#[test]
fn derive_single_key_reports_each_error_and_leaves_the_output() {
    let mut out = GuardedKey32::new([5; 32]);
    let input = Secret::new(b"password".to_vec());
    let empty = Secret::new(Vec::new());
    let mut wiped = Secret::new(b"password".to_vec());
    wiped.wipe_now();
    assert_eq!(
        derive_single_key(&empty, b"saltsalt", &fast(), &mut out),
        Err(KdfError::InvalidInput)
    );
    assert_eq!(
        derive_single_key(&wiped, b"saltsalt", &fast(), &mut out),
        Err(KdfError::InvalidInput)
    );
    assert_eq!(derive_single_key(&input, b"", &fast(), &mut out), Err(KdfError::InvalidInput));
    assert_eq!(
        derive_single_key(
            &input,
            b"saltsalt",
            &Params { mem_kib: 1, time: 1, lanes: 1 },
            &mut out
        ),
        Err(KdfError::Params)
    );
    assert_eq!(derive_single_key(&input, b"short", &fast(), &mut out), Err(KdfError::Derive));
    assert_eq!(out.borrow(), &[5u8; 32]);
}

#[test]
fn derive_two_keys_reports_each_error() {
    let mut a = GuardedKey32::new([5; 32]);
    let mut b = GuardedKey32::new([6; 32]);
    let input = Secret::new(b"password".to_vec());
    let empty = Secret::new(Vec::new());
    assert_eq!(
        derive_two_keys(&empty, b"saltsalt", &fast(), &mut a, &mut b),
        Err(KdfError::InvalidInput)
    );
    assert_eq!(
        derive_two_keys(
            &input,
            b"saltsalt",
            &Params { mem_kib: 8192, time: 1, lanes: 9 },
            &mut a,
            &mut b
        ),
        Err(KdfError::Params)
    );
    assert_eq!(
        derive_two_keys(&input, b"1234567", &fast(), &mut a, &mut b),
        Err(KdfError::Derive)
    );
    assert_eq!(a.borrow(), &[5u8; 32]);
    assert_eq!(b.borrow(), &[6u8; 32]);
}

#[test]
fn encapsulation_matches_x25519_and_hkdf() {
    let alice = key32("77076d0a7318a57d3c16c17251b26645df4c2f87ebc0992ab177fba51db92c2a");
    let mut bob_pub = [0u8; 32];
    bob_pub
        .copy_from_slice(&unhex("de9edb7d7b7dc1b4d35b61c2ece435373f8343c85b78674dadfc7e146f882b4f"));
    let context: Vec<u8> = (0u8..32).collect();
    let (enc, key) = encapsulate_with(&alice, &bob_pub, &context).unwrap();
    assert_eq!(
        enc.ephemeral_public.to_vec(),
        unhex("8520f0098930a754748b7ddcb43ef75a0dbf3a0d26381af4eba4a98eaa9b4e6a")
    );
    assert_eq!(
        key.borrow().to_vec(),
        unhex("2e3822e3932d29a6da123fb370428d98cb87bf3eecb62a47b45b28af0badff74")
    );
}

#[test]
fn decapsulation_recovers_the_encapsulated_key() {
    let fuse = KillFuse::new();
    let bob = key32("5dab087e624a8a4b79e17f8b83800ee66f3bb1292618b6fd1c2f8b27ff88e0eb");
    let mut alice_pub = [0u8; 32];
    alice_pub
        .copy_from_slice(&unhex("8520f0098930a754748b7ddcb43ef75a0dbf3a0d26381af4eba4a98eaa9b4e6a"));
    let context: Vec<u8> = (0u8..32).collect();
    let mut out = GuardedKey32::zeroed();
    assert_eq!(decapsulate(&fuse, &bob, &alice_pub, &context, &mut out), Ok(()));
    assert_eq!(
        out.borrow().to_vec(),
        unhex("2e3822e3932d29a6da123fb370428d98cb87bf3eecb62a47b45b28af0badff74")
    );
}

#[test]
fn random_encapsulation_and_decapsulation_agree() {
    let fuse = KillFuse::new();
    let bob = key32("5dab087e624a8a4b79e17f8b83800ee66f3bb1292618b6fd1c2f8b27ff88e0eb");
    let mut bob_pub = [0u8; 32];
    bob_pub
        .copy_from_slice(&unhex("de9edb7d7b7dc1b4d35b61c2ece435373f8343c85b78674dadfc7e146f882b4f"));
    let context = [3u8; 40];
    let (enc, key) = encapsulate(&fuse, &bob_pub, &context).unwrap();
    let mut out = GuardedKey32::zeroed();
    assert_eq!(decapsulate(&fuse, &bob, &enc.ephemeral_public, &context, &mut out), Ok(()));
    assert_eq!(out.borrow(), key.borrow());
    let (other, _) = encapsulate(&fuse, &bob_pub, &context).unwrap();
    assert_ne!(other.ephemeral_public, enc.ephemeral_public);
}

#[test]
fn decapsulation_refuses_short_contexts_and_killed_fuses() {
    let mut fuse = KillFuse::new();
    let bob = GuardedKey32::new([1; 32]);
    let mut out = GuardedKey32::new([5; 32]);
    assert_eq!(
        decapsulate(&fuse, &bob, &[9u8; 32], &[0u8; 31], &mut out),
        Err(KEMError::Derive)
    );
    assert_eq!(out.borrow(), &[5u8; 32]);
    fuse.blow();
    assert_eq!(
        decapsulate(&fuse, &bob, &[9u8; 32], &[0u8; 32], &mut out),
        Err(KEMError::Killed)
    );
    assert!(matches!(encapsulate(&fuse, &[9u8; 32], &[0u8; 32]), Err(KEMError::Killed)));
    assert_eq!(out.borrow(), &[5u8; 32]);
}

#[test]
fn csrng_fills_the_key_unless_killed() {
    let mut fuse = KillFuse::new();
    let mut a = GuardedKey32::zeroed();
    let mut b = GuardedKey32::zeroed();
    assert_eq!(csrng(&fuse, &mut a), Ok(()));
    assert_eq!(csrng(&fuse, &mut b), Ok(()));
    assert_ne!(a.borrow(), &[0u8; 32]);
    assert_ne!(a.borrow(), b.borrow());
    fuse.blow();
    let mut c = GuardedKey32::new([5; 32]);
    assert_eq!(csrng(&fuse, &mut c), Err(CsrngError::Killed));
    assert_eq!(c.borrow(), &[5u8; 32]);
}

use rcxcore::bridge::api::{map_keystore_error, map_session_error};
use rcxcore::bridge::{Bridge, BridgeError, Core, CoreError, CoreHandle};
use rcxcore::keystore::session::SessionError;
use rcxcore::keystore::KeyStoreError;

#[test]
fn error_codes_are_frozen() {
    assert_eq!(BridgeError::Success.code(), 0);
    assert_eq!(BridgeError::Locked.code(), 1);
    assert_eq!(BridgeError::Killed.code(), 2);
    assert_eq!(BridgeError::InvalidInput.code(), 3);
    assert_eq!(BridgeError::CryptoFailure.code(), 4);
    assert_eq!(BridgeError::IntegrityFailure.code(), 5);
    assert_eq!(BridgeError::Denied.code(), 6);
}

#[test]
fn core_errors_keep_their_kind_at_the_bridge() {
    assert_eq!(BridgeError::from(CoreError::Locked), BridgeError::Locked);
    assert_eq!(BridgeError::from(CoreError::Killed), BridgeError::Killed);
    assert_eq!(BridgeError::from(CoreError::InvalidInput), BridgeError::InvalidInput);
    assert_eq!(BridgeError::from(CoreError::CryptoFailure), BridgeError::CryptoFailure);
    assert_eq!(BridgeError::from(CoreError::IntegrityFailure), BridgeError::IntegrityFailure);
    assert_eq!(BridgeError::from(CoreError::Denied), BridgeError::Denied);
}

#[test]
fn keystore_and_session_errors_map_to_core_errors() {
    assert_eq!(map_keystore_error(KeyStoreError::Locked), CoreError::Locked);
    assert_eq!(map_keystore_error(KeyStoreError::Killed), CoreError::Killed);
    assert_eq!(map_keystore_error(KeyStoreError::Poisoned), CoreError::Killed);
    assert_eq!(map_keystore_error(KeyStoreError::AlreadyUnlocked), CoreError::Denied);
    assert_eq!(
        map_keystore_error(KeyStoreError::Session(SessionError::OutputTooSmall)),
        CoreError::InvalidInput
    );
    assert_eq!(map_session_error(SessionError::Killed), CoreError::Killed);
    assert_eq!(map_session_error(SessionError::Locked), CoreError::Locked);
    assert_eq!(map_session_error(SessionError::InvalidInput), CoreError::InvalidInput);
    assert_eq!(map_session_error(SessionError::OutputTooSmall), CoreError::InvalidInput);
    assert_eq!(map_session_error(SessionError::CryptoFailure), CoreError::CryptoFailure);
}

#[test]
fn handles_are_never_zero() {
    assert_eq!(CoreHandle::new(5).id(), 5);
    assert_eq!(CoreHandle::from_random(0).id(), 1);
    assert_eq!(CoreHandle::from_random(77).id(), 77);
    assert_eq!(CoreHandle::from_random(u64::MAX).id(), u64::MAX);
}

#[test]
fn a_locked_core_refuses_chunks_and_leaves_the_output() {
    let mut core = Core::new();
    assert!(!core.is_killed());
    assert_eq!(core.require_alive(), Ok(()));
    let mut out = vec![0xeeu8; 19];
    assert!(core.encrypt_chunk(1, 1, 0, b"abc", &mut out).err() == Some(CoreError::Locked));
    assert_eq!(out, vec![0xeeu8; 19]);
    let mut back = vec![0xeeu8; 3];
    assert!(core.decrypt_chunk(1, 1, 0, &[0u8; 19], &mut back).err() == Some(CoreError::Locked));
    assert_eq!(back, vec![0xeeu8; 3]);
}

#[test]
fn core_unlock_reports_each_error() {
    let mut core = Core::new();
    assert_eq!(core.unlock_with_phrase(Vec::new()), Err(CoreError::IntegrityFailure));
    assert_eq!(core.unlock_with_phrase(vec![1u8; 32]), Ok(()));
    assert_eq!(core.unlock_with_phrase(vec![1u8; 32]), Err(CoreError::Denied));
    core.lock();
    let mut out = vec![0xeeu8; 19];
    assert!(core.encrypt_chunk(1, 1, 0, b"abc", &mut out).err() == Some(CoreError::Locked));
    assert_eq!(core.unlock_with_phrase(vec![2u8; 32]), Ok(()));
}

#[test]
fn core_reports_length_mismatches_as_invalid_input() {
    let mut core = Core::new();
    core.unlock_with_phrase(vec![1u8; 32]).unwrap();
    let mut out = vec![0xeeu8; 18];
    assert!(core.encrypt_chunk(1, 1, 0, b"abc", &mut out).err() == Some(CoreError::InvalidInput));
    assert_eq!(out, vec![0u8; 18]);
    let mut back = vec![0xeeu8; 4];
    assert!(
        core.decrypt_chunk(1, 1, 0, &[0u8; 19], &mut back).err() == Some(CoreError::InvalidInput)
    );
    assert_eq!(back, vec![0u8; 4]);
    let mut back = vec![0xeeu8; 4];
    assert!(
        core.decrypt_chunk(1, 1, 0, &[0u8; 15], &mut back).err() == Some(CoreError::InvalidInput)
    );
    assert_eq!(back, vec![0u8; 4]);
}

#[test]
fn sessions_of_different_phrases_do_not_open_each_other() {
    let mut a = Core::new();
    let mut b = Core::new();
    a.unlock_with_phrase(vec![1u8; 32]).unwrap();
    b.unlock_with_phrase(vec![2u8; 32]).unwrap();
    let mut sealed = vec![0u8; 19];
    a.encrypt_chunk(1, 1, 0, b"abc", &mut sealed).ok().unwrap();
    let mut back = vec![0xeeu8; 3];
    let verified = b.decrypt_chunk(1, 1, 0, &sealed, &mut back).ok().unwrap();
    assert!(!verified.0);
    assert_eq!(back, vec![0u8; 3]);
}

#[test]
fn the_bridge_gives_out_a_nonzero_handle() {
    let mut bridge = Bridge::new();
    let (code, handle) = bridge.init();
    assert_eq!(code, BridgeError::Success);
    assert_ne!(handle, 0);
    let (code, other) = bridge.init();
    assert_eq!(code, BridgeError::Success);
    assert_ne!(other, 0);
    assert_ne!(other, handle);
    assert_eq!(bridge.unlock_with_phrase(other, Vec::new()), BridgeError::Denied);
    assert_eq!(bridge.unlock_with_phrase(handle, Vec::new()), BridgeError::InvalidInput);
}

#[test]
fn the_first_handle_is_the_one_accepted() {
    let mut bridge = Bridge::new();
    assert_eq!(bridge.unlock_with_phrase(1, vec![1u8; 32]), BridgeError::Denied);
    assert_eq!(bridge.init_with(0), (BridgeError::Success, 1));
    assert_eq!(bridge.init_with(42), (BridgeError::Success, 42));
    assert_eq!(bridge.unlock_with_phrase(42, vec![1u8; 32]), BridgeError::Denied);
    assert_eq!(bridge.unlock_with_phrase(0, vec![1u8; 32]), BridgeError::Denied);
    assert_eq!(bridge.unlock_with_phrase(1, Vec::new()), BridgeError::InvalidInput);
    assert_eq!(bridge.unlock_with_phrase(1, vec![1u8; 32]), BridgeError::Success);
    assert_eq!(bridge.unlock_with_phrase(1, vec![1u8; 32]), BridgeError::Denied);
}

#[test]
fn the_bridge_round_trips_a_chunk() {
    let mut bridge = Bridge::new();
    let (_, handle) = bridge.init_with(9);
    let plaintext = b"This is a top secret cloud document.";
    let mut sealed = vec![0u8; plaintext.len() + 16];
    assert_eq!(
        bridge.encrypt_chunk(handle, 101010, 1, 0, plaintext, &mut sealed),
        BridgeError::Locked
    );
    assert_eq!(bridge.unlock_with_phrase(handle, vec![1u8; 32]), BridgeError::Success);
    assert_eq!(
        bridge.encrypt_chunk(handle + 1, 101010, 1, 0, plaintext, &mut sealed),
        BridgeError::Denied
    );
    assert_eq!(sealed, vec![0u8; plaintext.len() + 16]);
    assert_eq!(
        bridge.encrypt_chunk(handle, 101010, 1, 0, plaintext, &mut sealed),
        BridgeError::Success
    );
    let mut back = vec![0u8; plaintext.len()];
    assert_eq!(
        bridge.decrypt_chunk(handle, 101010, 1, 0, &sealed, &mut back),
        BridgeError::Success
    );
    assert_eq!(back, plaintext);

    let mut back = vec![0xeeu8; plaintext.len()];
    assert_eq!(
        bridge.decrypt_chunk(handle, 101010, 2, 0, &sealed, &mut back),
        BridgeError::CryptoFailure
    );
    assert_eq!(back, vec![0u8; plaintext.len()]);
    let mut short = vec![0xeeu8; plaintext.len() - 1];
    assert_eq!(
        bridge.decrypt_chunk(handle, 101010, 1, 0, &sealed, &mut short),
        BridgeError::InvalidInput
    );
    assert_eq!(
        bridge.decrypt_chunk(handle + 1, 101010, 1, 0, &sealed, &mut back),
        BridgeError::Denied
    );
    bridge.lock(handle + 1);
    assert_eq!(
        bridge.decrypt_chunk(handle, 101010, 1, 0, &sealed, &mut back),
        BridgeError::Success
    );
    bridge.lock(handle);
    assert_eq!(
        bridge.decrypt_chunk(handle, 101010, 1, 0, &sealed, &mut back),
        BridgeError::Locked
    );
}

#[test]
fn a_killed_bridge_reports_killed_on_every_call() {
    let mut bridge = Bridge::new();
    let (_, handle) = bridge.init_with(9);
    assert_eq!(bridge.is_killed(), 0);
    bridge.core_mut().apply_verified_kill();
    assert_eq!(bridge.is_killed(), 1);
    assert_eq!(bridge.init(), (BridgeError::Killed, 0));
    assert_eq!(bridge.init_with(3), (BridgeError::Killed, 0));
    for h in [handle, handle + 1, 0] {
        assert_eq!(bridge.unlock_with_phrase(h, vec![1u8; 32]), BridgeError::Killed);
        assert_eq!(bridge.unlock_with_phrase(h, Vec::new()), BridgeError::Killed);
        let mut out = vec![0xeeu8; 19];
        assert_eq!(bridge.encrypt_chunk(h, 1, 1, 0, b"abc", &mut out), BridgeError::Killed);
        assert_eq!(bridge.encrypt_chunk(h, 1, 1, 0, b"abcd", &mut out), BridgeError::Killed);
        assert_eq!(out, vec![0xeeu8; 19]);
        let mut back = vec![0xeeu8; 3];
        assert_eq!(bridge.decrypt_chunk(h, 1, 1, 0, &[0u8; 19], &mut back), BridgeError::Killed);
        bridge.lock(h);
    }
    assert_eq!(bridge.is_killed(), 1);
}

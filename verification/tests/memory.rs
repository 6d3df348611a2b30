use rcxcore::memory::{wipe_bytes, wipe_vec, GuardedBox, GuardedKey32, Secret};

#[test]
fn guarded_key32_is_zeroed_on_init() {
    let key = GuardedKey32::zeroed();
    assert!(key.borrow().iter().all(|b| *b == 0));
}

#[test]
fn secret_vec_is_accessible_and_scoped() {
    let secret = Secret::new(vec![0xAA; 32]);
    assert_eq!(secret.borrow()[0], 0xAA);
    // Drop occurs at end of scope; zeroization is guaranteed by Drop.
}

#[test]
fn guarded_box_holds_what_it_was_given() {
    let mut cell = GuardedBox::<4>::new([1, 2, 3, 4]);
    assert_eq!(cell.borrow(), &[1, 2, 3, 4]);
    cell.borrow_mut()[2] = 9;
    assert_eq!(cell.borrow(), &[1, 2, 9, 4]);
}

#[test]
fn wipe_bytes_zeroes_and_keeps_length() {
    let mut buf = vec![7u8; 5];
    wipe_bytes(&mut buf);
    assert_eq!(buf, vec![0u8; 5]);
}

#[test]
fn wipe_vec_leaves_nothing() {
    let mut buf = vec![7u8; 5];
    wipe_vec(&mut buf);
    assert!(buf.is_empty());
}

#[test]
fn secret_wipe_is_final() {
    let mut secret = Secret::new(vec![1, 2, 3]);
    assert!(!secret.is_wiped());
    secret.borrow_mut()[0] = 5;
    assert_eq!(secret.borrow().as_slice(), &[5, 2, 3]);
    secret.wipe_now();
    assert!(secret.is_wiped());
    secret.wipe_now();
    assert!(secret.is_wiped());
}

#[test]
fn secret_init_with_fills_in_place() {
    let secret = Secret::init_with(|buf| {
        buf.extend_from_slice(&[4, 5, 6]);
    });
    assert_eq!(secret.borrow().as_slice(), &[4, 5, 6]);
}

#[test]
fn guarded_init_with_fills_a_zeroed_cell_in_place() {
    let cell = GuardedBox::<4>::init_with(|bytes| {
        assert_eq!(bytes, &[0u8; 4]);
        bytes[1] = 7;
    });
    assert_eq!(cell.borrow(), &[0, 7, 0, 0]);
}

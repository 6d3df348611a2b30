use rcxcore::encoding::{
    array_from, copy_into, u16_to_be_bytes, u32_to_be_bytes, u64_from_be_bytes, u64_to_be_bytes,
};

#[test]
fn u64_is_encoded_most_significant_byte_first() {
    assert_eq!(
        u64_to_be_bytes(0x0102_0304_0506_0708),
        [0x01, 0x02, 0x03, 0x04, 0x05, 0x06, 0x07, 0x08]
    );
    assert_eq!(u64_to_be_bytes(101010), 101010u64.to_be_bytes());
    assert_eq!(u64_to_be_bytes(u64::MAX), [0xff; 8]);
    assert_eq!(u64_to_be_bytes(0), [0; 8]);
}

#[test]
fn u32_and_u16_are_encoded_most_significant_byte_first() {
    assert_eq!(u32_to_be_bytes(0xdead_beef), [0xde, 0xad, 0xbe, 0xef]);
    assert_eq!(u16_to_be_bytes(0x1234), [0x12, 0x34]);
    assert_eq!(u16_to_be_bytes(1), [0, 1]);
}

#[test]
fn decoding_undoes_encoding() {
    for x in [0u64, 1, 7, 255, 256, 101010, u64::MAX, 0x8000_0000_0000_0000] {
        let bytes = u64_to_be_bytes(x);
        assert_eq!(u64_from_be_bytes(&bytes, 0), x);
    }
}

#[test]
fn decoding_reads_at_an_offset() {
    let buf = [9u8, 9, 0, 0, 0, 0, 0, 0, 1, 2, 9];
    assert_eq!(u64_from_be_bytes(&buf, 2), 0x0102);
}

#[test]
fn copy_into_replaces_only_the_covered_bytes() {
    let mut dst = [1u8, 2, 3, 4, 5, 6];
    copy_into(&mut dst, 2, &[9, 8]);
    assert_eq!(dst, [1, 2, 9, 8, 5, 6]);
    copy_into(&mut dst, 0, &[]);
    assert_eq!(dst, [1, 2, 9, 8, 5, 6]);
}

#[test]
fn array_from_takes_a_window() {
    let src = [1u8, 2, 3, 4, 5];
    let got: [u8; 3] = array_from(&src, 1);
    assert_eq!(got, [2, 3, 4]);
}

use pumpkin_wasm_host::leb128::read_leb128;

#[test]
fn reads_single_byte_values() {
    assert_eq!(read_leb128(&[0x00]), Some((0, 1)));
    assert_eq!(read_leb128(&[0x7f, 0xff]), Some((127, 1)));
}

#[test]
fn reads_multi_byte_values() {
    assert_eq!(read_leb128(&[0xe5, 0x8e, 0x26]), Some((624_485, 3)));
    assert_eq!(read_leb128(&[0x80, 0x01]), Some((128, 2)));
    assert_eq!(
        read_leb128(&[0xff, 0xff, 0xff, 0xff, 0xff, 0xff, 0xff, 0xff, 0xff, 0x01]),
        Some((u64::MAX, 10))
    );
}

#[test]
fn tenth_byte_keeps_only_its_lowest_bit() {
    assert_eq!(
        read_leb128(&[0x80, 0x80, 0x80, 0x80, 0x80, 0x80, 0x80, 0x80, 0x80, 0x7f]),
        Some((1u64 << 63, 10))
    );
}

#[test]
fn rejects_truncated_and_overlong_input() {
    assert_eq!(read_leb128(&[]), None);
    assert_eq!(read_leb128(&[0x80]), None);
    assert_eq!(read_leb128(&[0x80; 10]), None);
    assert_eq!(read_leb128(&[0x80; 11]), None);
}

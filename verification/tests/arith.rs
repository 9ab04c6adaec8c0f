use recovery_room::arith::u128_from_le_prefix;

#[test]
fn le_prefix_reads_lowest_byte_first() {
    let mut bytes = [0u8; 32];
    bytes[0] = 1;
    assert_eq!(u128_from_le_prefix(&bytes), 1);
    bytes[1] = 2;
    assert_eq!(u128_from_le_prefix(&bytes), 513);
    let mut high = [0u8; 32];
    high[15] = 0x80;
    assert_eq!(u128_from_le_prefix(&high), 1u128 << 127);
}

#[test]
fn le_prefix_ignores_the_upper_sixteen_bytes() {
    let mut bytes = [0u8; 32];
    for i in 0..32 {
        bytes[i] = (i + 1) as u8;
    }
    assert_eq!(u128_from_le_prefix(&bytes), 21345817372864405881847059188222722561);
    let mut only_upper = [0u8; 32];
    only_upper[16] = 0xff;
    only_upper[31] = 0xff;
    assert_eq!(u128_from_le_prefix(&only_upper), 0);
    assert_eq!(u128_from_le_prefix(&[0xff; 32]), u128::MAX);
}

#[test]
fn le_prefix_agrees_with_std() {
    let mut bytes = [0u8; 32];
    for i in 0..32 {
        bytes[i] = (i * 37 + 11) as u8;
    }
    let mut first = [0u8; 16];
    first.copy_from_slice(&bytes[0..16]);
    assert_eq!(u128_from_le_prefix(&bytes), u128::from_le_bytes(first));
}

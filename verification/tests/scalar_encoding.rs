//! Head-slot encodings of the static scalar types: each value occupies one
//! 32-byte word, zero- or sign-extended as its type prescribes.
use calldata::Builder;

fn word_with_tail(fill: u8, tail: &[u8]) -> Vec<u8> {
    let mut w = vec![fill; 32 - tail.len()];
    w.extend_from_slice(tail);
    w
}

#[test]
fn u8_is_one_zero_extended_word() {
    let buf = Builder::new().add_u8(0xAB).build();
    assert_eq!(buf, word_with_tail(0, &[0xAB]));
}

#[test]
fn u16_is_one_zero_extended_word() {
    let buf = Builder::new().add_u16(0x1234).build();
    assert_eq!(buf, word_with_tail(0, &[0x12, 0x34]));
}

#[test]
fn u32_is_one_zero_extended_word() {
    let buf = Builder::new().add_u32(0xDEAD_BEEF).build();
    assert_eq!(buf, word_with_tail(0, &[0xDE, 0xAD, 0xBE, 0xEF]));
}

#[test]
fn u64_is_one_zero_extended_word() {
    let buf = Builder::new().add_u64(0x0102_0304_0506_0708).build();
    assert_eq!(buf, word_with_tail(0, &[1, 2, 3, 4, 5, 6, 7, 8]));
}

#[test]
fn u128_max_fills_low_half() {
    let buf = Builder::new().add_u128(u128::MAX).build();
    assert_eq!(buf, word_with_tail(0, &[0xFF; 16]));
}

#[test]
fn i8_positive_is_zero_extended() {
    let buf = Builder::new().add_i8(0x5A).build();
    assert_eq!(buf, word_with_tail(0, &[0x5A]));
}

#[test]
fn i8_minus_one_is_all_ones() {
    let buf = Builder::new().add_i8(-1).build();
    assert_eq!(buf, vec![0xFF; 32]);
}

#[test]
fn i8_minus_two_sign_extends() {
    let buf = Builder::new().add_i8(-2).build();
    assert_eq!(buf, word_with_tail(0xFF, &[0xFE]));
}

#[test]
fn i16_negative_sign_extends() {
    let buf = Builder::new().add_i16(-0x1234).build();
    // Two's complement of 0x1234 in 16 bits is 0xEDCC.
    assert_eq!(buf, word_with_tail(0xFF, &[0xED, 0xCC]));
}

#[test]
fn i32_min_sign_extends() {
    let buf = Builder::new().add_i32(i32::MIN).build();
    assert_eq!(buf, word_with_tail(0xFF, &[0x80, 0, 0, 0]));
}

#[test]
fn i64_negative_sign_extends() {
    let buf = Builder::new().add_i64(-2).build();
    assert_eq!(buf, word_with_tail(0xFF, &[0xFE]));
}

#[test]
fn i128_min_sign_extends_with_ones() {
    let buf = Builder::new().add_i128(i128::MIN).build();
    let mut expected = vec![0xFF; 16];
    expected.push(0x80);
    expected.extend_from_slice(&[0u8; 15]);
    assert_eq!(buf, expected);
}

#[test]
fn u256_word_is_copied_verbatim() {
    let mut raw = [0u8; 32];
    for (i, b) in raw.iter_mut().enumerate() {
        *b = i as u8;
    }
    let buf = Builder::new().add_u256(&raw).build();
    assert_eq!(buf, raw.to_vec());
}

#[test]
fn i256_word_is_copied_verbatim() {
    let raw = [0xCD; 32];
    let buf = Builder::new().add_i256(&raw).build();
    assert_eq!(buf, raw.to_vec());
}

#[test]
fn address_is_right_aligned_in_word() {
    let src = [0xAA; 20];
    let mut b = Builder::new();
    b.add_address(&src).unwrap();
    let buf = b.build();
    assert_eq!(buf, word_with_tail(0, &src));
}

#[test]
fn function_is_left_aligned_in_word() {
    let src = [0xBB; 24];
    let mut b = Builder::new();
    b.add_function(&src).unwrap();
    let buf = b.build();
    let mut expected = src.to_vec();
    expected.extend_from_slice(&[0u8; 8]);
    assert_eq!(buf, expected);
}

#[test]
fn two_static_params_take_two_slots_in_order() {
    let buf = Builder::new().add_u8(1).add_u8(2).build();
    assert_eq!(buf.len(), 64);
    assert_eq!(buf[..32].to_vec(), word_with_tail(0, &[1]));
    assert_eq!(buf[32..].to_vec(), word_with_tail(0, &[2]));
}

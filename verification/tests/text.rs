use gmf::object_id::ObjectId;
use gmf::text::{decimal_text, pad_right};

#[test]
fn decimal_of_zero_is_one_digit() {
    assert_eq!(decimal_text(0), "0");
}

#[test]
fn decimal_of_single_digits() {
    assert_eq!(decimal_text(7), "7");
    assert_eq!(decimal_text(9), "9");
}

#[test]
fn decimal_has_no_leading_zero() {
    assert_eq!(decimal_text(10), "10");
    assert_eq!(decimal_text(1005), "1005");
    assert_eq!(decimal_text(1234567890), "1234567890");
}

#[test]
fn decimal_of_the_largest_number() {
    assert_eq!(decimal_text(usize::MAX), format!("{}", usize::MAX));
}

#[test]
fn pad_right_fills_with_blanks() {
    assert_eq!(pad_right(String::from("ab"), 5), "ab   ");
    assert_eq!(pad_right(String::new(), 3), "   ");
}

#[test]
fn pad_right_leaves_wide_text_alone() {
    assert_eq!(pad_right(String::from("abcdef"), 6), "abcdef");
    assert_eq!(pad_right(String::from("abcdef"), 2), "abcdef");
    assert_eq!(pad_right(String::from("abc"), 0), "abc");
}

#[test]
fn pad_right_counts_characters_not_bytes() {
    assert_eq!(pad_right(String::from("éé"), 4), "éé  ");
}

#[test]
fn object_id_needs_twenty_bytes() {
    assert!(ObjectId::from_bytes(&[0u8; 19]).is_none());
    assert!(ObjectId::from_bytes(&[0u8; 21]).is_none());
    assert!(ObjectId::from_bytes(&[]).is_none());
    let id = ObjectId::from_bytes(&[7u8; 20]).unwrap();
    assert_eq!(id.bytes, [7u8; 20]);
}

#[test]
fn object_id_zero_is_zero() {
    assert!(ObjectId::zero().is_zero());
    assert_eq!(ObjectId::zero().bytes, [0u8; 20]);
    assert!(ObjectId::from_bytes(&[0u8; 20]).unwrap().is_zero());
}

#[test]
fn object_id_with_any_set_byte_is_not_zero() {
    let mut first = [0u8; 20];
    first[0] = 1;
    assert!(!ObjectId::from_bytes(&first).unwrap().is_zero());
    let mut last = [0u8; 20];
    last[19] = 0x80;
    assert!(!ObjectId::from_bytes(&last).unwrap().is_zero());
}

#[test]
fn object_id_hex_is_lower_case_high_half_first() {
    let bytes: [u8; 20] = [
        0xde, 0xcb, 0xf2, 0xbe, 0x52, 0x9a, 0xb6, 0x55, 0x7d, 0x54, 0x29, 0x92, 0x22, 0x51, 0xe5,
        0xee, 0x36, 0x51, 0x98, 0x17,
    ];
    let id = ObjectId::from_bytes(&bytes).unwrap();
    assert_eq!(id.to_hex(), "decbf2be529ab6557d5429922251e5ee36519817");
}

#[test]
fn object_id_hex_keeps_leading_zeros() {
    let mut bytes = [0u8; 20];
    bytes[1] = 0x0a;
    bytes[19] = 0x01;
    let id = ObjectId::from_bytes(&bytes).unwrap();
    assert_eq!(id.to_hex(), "000a000000000000000000000000000000000001");
    assert_eq!(ObjectId::zero().to_hex(), "0000000000000000000000000000000000000000");
}

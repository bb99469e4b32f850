use gbcart::to_ascii_u16;

#[test]
fn test_ascii_u16_1() {
    assert_eq!(to_ascii_u16(0x13), 0x3133)
}

#[test]
fn test_ascii_u16_2() {
    assert_eq!(to_ascii_u16(0x13), u16::from_be_bytes(*b"13"))
}

#[test]
fn ascii_u16_digits() {
    assert_eq!(to_ascii_u16(0x00), u16::from_be_bytes(*b"00"));
    assert_eq!(to_ascii_u16(0x99), u16::from_be_bytes(*b"99"));
    assert_eq!(to_ascii_u16(0x42), u16::from_be_bytes(*b"42"));
}

use k66_hal::bits::{
    u32_get_bit, u32_get_field, u32_set_bit, u32_set_field, u8_get_bit, u8_get_field, u8_set_bit,
    u8_set_field,
};

#[test]
fn single_bit_reads() {
    assert!(u8_get_bit(0b0001_0000, 4));
    assert!(!u8_get_bit(0b0001_0000, 3));
    assert!(u32_get_bit(1 << 31, 31));
    assert!(!u32_get_bit(1 << 31, 0));
}

#[test]
fn single_bit_writes() {
    assert_eq!(u8_set_bit(0, 3, true), 0b0000_1000);
    assert_eq!(u8_set_bit(0xFF, 3, false), 0b1111_0111);
    assert_eq!(u32_set_bit(0, 11, true), 1 << 11);
    assert_eq!(u32_set_bit(u32::MAX, 11, false), !(1 << 11));
}

#[test]
fn field_reads() {
    assert_eq!(u8_get_field(0b1010_0000, 5, 3), 0b101);
    assert_eq!(u32_get_field(0x0102_0000, 24, 4), 1);
    assert_eq!(u32_get_field(0x0102_0000, 16, 4), 2);
}

#[test]
fn field_writes_replace_only_their_field() {
    assert_eq!(u8_set_field(0b1111_1111, 3, 3, 0), 0b1100_0111);
    assert_eq!(u8_set_field(0, 4, 2, 0b10), 0b0010_0000);
    assert_eq!(u32_set_field(0xFFFF_FFFF, 16, 4, 0), 0xFFF0_FFFF);
    assert_eq!(u32_set_field(0, 28, 4, 0xF), 0xF000_0000);
}

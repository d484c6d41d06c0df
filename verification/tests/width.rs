use cpu::width::BitWidth;
use cpu::width::SizedValue;

#[test]
fn default_write_then_read_is_zero_8bit() {
    let mut reg: u16 = 0xabcd;
    let zero = <u8 as BitWidth>::default();
    <u8 as BitWidth>::set(&mut reg, zero);
    assert_eq!(<u8 as BitWidth>::get(reg), 0x00);
}

#[test]
fn default_write_then_read_is_zero_16bit() {
    let mut reg: u16 = 0xabcd;
    let zero = <u16 as BitWidth>::default();
    <u16 as BitWidth>::set(&mut reg, zero);
    assert_eq!(<u16 as BitWidth>::get(reg), 0x0000);
}

#[test]
fn eight_bit_write_preserves_high_byte() {
    let mut reg: u16 = 0x1234;
    <u8 as BitWidth>::set(&mut reg, 0x42);
    assert_eq!(reg, 0x1242);
    let zero = <u8 as BitWidth>::default();
    <u8 as BitWidth>::set(&mut reg, zero);
    assert_eq!(reg, 0x1200);
}

#[test]
fn sixteen_bit_write_replaces_whole_cell() {
    let mut reg: u16 = 0x1234;
    <u16 as BitWidth>::set(&mut reg, 0xbeef);
    assert_eq!(reg, 0xbeef);
}

#[test]
fn eight_bit_read_is_low_byte() {
    assert_eq!(<u8 as BitWidth>::get(0xab42), 0x42);
    assert_eq!(<u16 as BitWidth>::get(0xab42), 0xab42);
}

#[test]
fn sized_value_carries_one_width() {
    let b = SizedValue::Byte(0x42);
    let w = SizedValue::Word(0x1234);
    assert!(matches!(b, SizedValue::Byte(0x42)));
    assert!(matches!(w, SizedValue::Word(0x1234)));
    assert_ne!(b, SizedValue::Word(0x0042));
}

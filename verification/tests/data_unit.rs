use nes::data_unit::{extend_sign, high_byte, low_byte, make_word, Byte, Word};

#[test]
fn byte_arithmetic_wraps() {
    assert_eq!(Byte::new(0xFF).wrapping_add(Byte(2)), Byte(0x01));
    assert_eq!(Byte(0x00).wrapping_sub(Byte(1)), Byte(0xFF));
    assert_eq!(Byte(0x81).shl(1), Byte(0x02));
    assert_eq!(Byte(0x81).shr(1), Byte(0x40));
    assert_eq!(Byte(0x81).u8(), 0x81);
    assert_eq!(Byte(0x81).u16(), 0x0081);
    assert_eq!(Byte(0x81).word(), Word(0x0081));
}

#[test]
fn byte_bits_and_sign() {
    let b = Byte(0b1000_0101);
    assert_eq!(b.nth(0), 1);
    assert_eq!(b.nth(1), 0);
    assert_eq!(b.nth(2), 1);
    assert_eq!(b.nth(7), 1);
    assert_eq!(b.i8(), -123);
    assert_eq!(Byte(0x7F).i8(), 127);
    assert_eq!(Byte(0x80).i8(), -128);
}

#[test]
fn word_arithmetic_wraps() {
    assert_eq!(Word::new(0xFFFF).wrapping_add(Word(2)), Word(0x0001));
    assert_eq!(Word(0x0000).wrapping_sub(Word(1)), Word(0xFFFF));
    assert_eq!(Word(0x8001).shl(1), Word(0x0002));
    assert_eq!(Word(0x8001).shr(1), Word(0x4000));
    assert_eq!(Word(0x1234).byte(), Byte(0x34));
    assert_eq!(Word(0x1234).u16(), 0x1234);
    assert_eq!(Word(0x8000).nth(15), 1);
    assert_eq!(Word(0x8000).nth(14), 0);
    assert_eq!(Word(0xFFFE).i16(), -2);
    assert_eq!(Word(0x7FFF).i16(), 32767);
}

#[test]
fn words_from_bytes() {
    assert_eq!(make_word(0x34, 0x12), 0x1234);
    assert_eq!(low_byte(0x1234), 0x34);
    assert_eq!(high_byte(0x1234), 0x12);
    assert_eq!(extend_sign(0x05), 0x0005);
    assert_eq!(extend_sign(0xFB), 0xFFFB);
}

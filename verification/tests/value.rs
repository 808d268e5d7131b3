use isa_codec::{Value, Width};

#[test]
fn byte_value() {
    let v = Value::byte(0xF3);
    assert_eq!(v.width(), Width::Byte);
    assert_eq!(v.value_word(), 0x00F3);
    assert_eq!(v.value_byte(0), 0xF3);
    assert_eq!(v.value_byte(1), 0x00);
}

#[test]
fn word_value() {
    let v = Value::word(0xF337);
    assert_eq!(v.width(), Width::Word);
    assert_eq!(v.value_word(), 0xF337);
    assert_eq!(v.value_byte(0), 0x37);
    assert_eq!(v.value_byte(1), 0xF3);
}

#[test]
fn value_equality_is_structural() {
    assert_eq!(Value::byte(7), Value::byte(7));
    assert_ne!(Value::byte(7), Value::word(7));
    assert_ne!(Value::word(7), Value::word(8));
}

#[test]
fn value_from_conversions() {
    assert_eq!(Value::from(0xF3u8), Value::byte(0xF3));
    assert_eq!(Value::from(0xF337u16), Value::word(0xF337));
}

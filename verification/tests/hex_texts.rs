use userop_encoder::hex_text::bytes_from_hex;

#[test]
fn two_digits_spell_a_byte() {
    assert_eq!(bytes_from_hex("00"), Some(vec![0x00]));
    assert_eq!(bytes_from_hex("0f"), Some(vec![0x0f]));
    assert_eq!(bytes_from_hex("f0"), Some(vec![0xf0]));
    assert_eq!(bytes_from_hex("ff"), Some(vec![0xff]));
    assert_eq!(bytes_from_hex("deadBEEF"), Some(vec![0xde, 0xad, 0xbe, 0xef]));
    assert_eq!(bytes_from_hex("0123456789abcdef"), bytes_from_hex("0123456789ABCDEF"));
}

#[test]
fn empty_text_spells_no_bytes() {
    assert_eq!(bytes_from_hex(""), Some(Vec::new()));
}

#[test]
fn odd_length_spells_nothing() {
    assert_eq!(bytes_from_hex("0"), None);
    assert_eq!(bytes_from_hex("abc"), None);
}

#[test]
fn other_characters_spell_nothing() {
    assert_eq!(bytes_from_hex("0g"), None);
    assert_eq!(bytes_from_hex("0x12"), None);
    assert_eq!(bytes_from_hex(" 12 "), None);
    assert_eq!(bytes_from_hex("1é"), None);
    assert_eq!(bytes_from_hex("éé"), None);
    assert_eq!(bytes_from_hex("/0"), None);
    assert_eq!(bytes_from_hex(":0"), None);
    assert_eq!(bytes_from_hex("@0"), None);
    assert_eq!(bytes_from_hex("G0"), None);
    assert_eq!(bytes_from_hex("`0"), None);
}

use ovr_core::system::text_without_terminator;

#[test]
fn a_string_property_loses_its_last_byte() {
    assert_eq!(text_without_terminator(b"LHR-12345678\0".to_vec()).unwrap(), "LHR-12345678");
    assert_eq!(text_without_terminator(vec![0]).unwrap(), "");
    assert_eq!(text_without_terminator(b"ab".to_vec()).unwrap(), "a");
}

#[test]
fn a_string_property_keeps_a_nul_inside() {
    assert_eq!(text_without_terminator(b"a\0b\0".to_vec()).unwrap(), "a\0b");
}

#[test]
fn a_string_property_of_several_bytes_a_character_is_decoded() {
    let mut storage = "Valve Index\u{2122}".as_bytes().to_vec();
    storage.push(0);
    assert_eq!(text_without_terminator(storage).unwrap(), "Valve Index\u{2122}");
}

#[test]
fn an_ill_formed_string_property_is_not_decoded() {
    assert_eq!(text_without_terminator(vec![0xFF, 0]), None);
    assert_eq!(text_without_terminator(vec![0xE2, 0x84, 0]), None);
}

#[test]
fn an_ill_formed_last_byte_does_not_count() {
    assert_eq!(text_without_terminator(vec![b'o', b'k', 0xFF]).unwrap(), "ok");
}

use ovr_core::c_string::{is_nul_terminated, read_string, read_utf8, with_nul};

#[test]
fn a_string_ends_at_the_first_nul() {
    assert_eq!(read_string(b"left\0right\0"), b"left".to_vec());
    assert_eq!(read_string(b"abc\0\0\0\0"), b"abc".to_vec());
    assert_eq!(read_string(b"\0abc"), Vec::<u8>::new());
}

#[test]
fn a_buffer_without_nul_is_read_whole() {
    assert_eq!(read_string(b"whole"), b"whole".to_vec());
    assert_eq!(read_string(b""), Vec::<u8>::new());
    assert_eq!(read_string(&[0xFF, 0x01]), vec![0xFF, 0x01]);
}

#[test]
fn a_full_name_buffer_is_read_up_to_its_terminator() {
    let mut buf = [0u8; 128];
    buf[..14].copy_from_slice(b"Left Hand Grip");
    assert_eq!(read_utf8(&buf).unwrap(), "Left Hand Grip");
    let full = [b'x'; 128];
    assert_eq!(read_utf8(&full).unwrap(), "x".repeat(128));
    assert_eq!(read_utf8(&[0u8; 128]).unwrap(), "");
}

#[test]
fn text_of_several_bytes_a_character_is_decoded() {
    assert_eq!(read_utf8("Gr\u{fc}\u{df}e \u{4e16}\u{754c} \u{1f44b}\0rest".as_bytes()).unwrap(), "Gr\u{fc}\u{df}e \u{4e16}\u{754c} \u{1f44b}");
}

#[test]
fn ill_formed_text_is_not_decoded() {
    assert_eq!(read_utf8(&[0xFF, 0]), None);
    assert_eq!(read_utf8(&[b'a', 0xC3, 0, 0xBC]), None);
    assert_eq!(read_utf8(&[0xC0, 0x80, 0]), None);
    assert_eq!(read_utf8(&[0xED, 0xA0, 0x80, 0]), None);
    assert_eq!(read_utf8(&[0x80]), None);
}

#[test]
fn ill_formed_bytes_after_the_terminator_do_not_count() {
    assert_eq!(read_utf8(&[b'o', b'k', 0, 0xFF, 0xFE]).unwrap(), "ok");
}

#[test]
fn the_terminator_is_appended() {
    assert_eq!(with_nul(b"abc"), Some(b"abc\0".to_vec()));
    assert_eq!(with_nul(b""), Some(vec![0]));
    assert_eq!(with_nul(&[0xFF]), Some(vec![0xFF, 0]));
}

#[test]
fn bytes_with_a_nul_get_no_terminator() {
    assert_eq!(with_nul(b"\0"), None);
    assert_eq!(with_nul(b"a\0"), None);
    assert_eq!(with_nul(b"a\0b"), None);
    assert_eq!(with_nul(b"\0b"), None);
}

#[test]
fn terminated_means_one_nul_at_the_end() {
    assert!(is_nul_terminated(b"abc\0"));
    assert!(is_nul_terminated(b"\0"));
    assert!(!is_nul_terminated(b""));
    assert!(!is_nul_terminated(b"abc"));
    assert!(!is_nul_terminated(b"a\0c\0"));
    assert!(!is_nul_terminated(b"abc\0\0"));
    assert!(!is_nul_terminated(b"\0abc"));
}

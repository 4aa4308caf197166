use ovr_core::compositor::extension_names;

fn buffer(text: &[u8]) -> [u8; 1024] {
    let mut buf = [0u8; 1024];
    buf[..text.len()].copy_from_slice(text);
    buf
}

#[test]
fn nothing_reported_gives_no_names() {
    assert_eq!(extension_names(0, &buffer(b"")), Some(vec![]));
    assert_eq!(extension_names(0, &buffer(b"VK_KHR_surface")), Some(vec![]));
    assert_eq!(extension_names(0, &[0xFF, 0xFF]), Some(vec![]));
}

#[test]
fn names_are_split_at_spaces() {
    let text = b"VK_KHR_external_memory_capabilities VK_KHR_surface VK_KHR_get_physical_device_properties2";
    let names = extension_names(text.len() as u32 + 1, &buffer(text)).unwrap();
    assert_eq!(
        names,
        vec![
            "VK_KHR_external_memory_capabilities".to_string(),
            "VK_KHR_surface".to_string(),
            "VK_KHR_get_physical_device_properties2".to_string(),
        ]
    );
}

#[test]
fn one_name_is_one_piece() {
    assert_eq!(extension_names(15, &buffer(b"VK_KHR_surface")).unwrap(), vec!["VK_KHR_surface".to_string()]);
}

#[test]
fn an_empty_string_is_one_empty_name() {
    assert_eq!(extension_names(1, &buffer(b"")).unwrap(), vec![String::new()]);
}

#[test]
fn spaces_at_the_ends_and_in_a_row_give_empty_names() {
    assert_eq!(extension_names(3, &buffer(b"a ")).unwrap(), vec!["a".to_string(), String::new()]);
    assert_eq!(extension_names(3, &buffer(b" a")).unwrap(), vec![String::new(), "a".to_string()]);
    assert_eq!(
        extension_names(5, &buffer(b"a  b")).unwrap(),
        vec!["a".to_string(), String::new(), "b".to_string()]
    );
    assert_eq!(extension_names(2, &buffer(b" ")).unwrap(), vec![String::new(), String::new()]);
}

#[test]
fn names_split_as_the_standard_library_splits() {
    for text in ["", " ", "a", "a b", "a b ", "  a  b  ", "VK_a VK_b VK_c", "\u{e9}t\u{e9} \u{4e16} x", "tab\tis no space"] {
        let expected: Vec<String> = text.split(' ').map(|piece| piece.to_owned()).collect();
        assert_eq!(extension_names(1, &buffer(text.as_bytes())).unwrap(), expected);
    }
}

#[test]
fn names_end_at_the_terminator() {
    assert_eq!(
        extension_names(4, b"a b\0c d\0").unwrap(),
        vec!["a".to_string(), "b".to_string()]
    );
}

#[test]
fn a_buffer_without_terminator_is_split_whole() {
    assert_eq!(extension_names(3, b"a b").unwrap(), vec!["a".to_string(), "b".to_string()]);
}

#[test]
fn ill_formed_names_are_not_split() {
    assert_eq!(extension_names(4, &buffer(&[b'a', b' ', 0xFF])), None);
    assert_eq!(extension_names(2, &buffer(&[0xC3])), None);
}

#[test]
fn names_joined_with_spaces_are_the_string_again() {
    let text = "VK_one  VK_two VK_three ";
    let names = extension_names(1, &buffer(text.as_bytes())).unwrap();
    assert_eq!(names.join(" "), text);
    assert!(names.iter().all(|name| !name.contains(' ')));
    assert_eq!(names.len(), text.matches(' ').count() + 1);
}

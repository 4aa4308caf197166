use ovr_core::chaperone_setup::exported;

#[test]
fn a_successful_export_is_handed_on_with_its_terminator() {
    let data = b"{\"universes\":[]}\0".to_vec();
    assert_eq!(exported(true, data.clone()), Some(data));
    assert_eq!(exported(true, vec![0]), Some(vec![0]));
}

#[test]
fn a_failed_export_gives_nothing() {
    assert_eq!(exported(false, b"{}\0".to_vec()), None);
    assert_eq!(exported(false, vec![]), None);
}

#[test]
fn an_export_without_its_terminator_gives_nothing() {
    assert_eq!(exported(true, b"{}".to_vec()), None);
    assert_eq!(exported(true, vec![]), None);
}

#[test]
fn an_export_with_a_nul_inside_gives_nothing() {
    assert_eq!(exported(true, b"{\0}\0".to_vec()), None);
    assert_eq!(exported(true, b"{}\0\0".to_vec()), None);
}

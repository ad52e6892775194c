use platform_file_ops::machine::get_machine_id;

#[test]
fn machine_id_is_the_same_on_repeated_calls() {
    let a = get_machine_id();
    let b = get_machine_id();
    assert_eq!(a, b);
    if let Ok(id) = a {
        assert_eq!(id.as_bytes(), b.unwrap().as_bytes());
    }
}

#[test]
fn machine_id_has_no_outer_white_space() {
    if let Ok(id) = get_machine_id() {
        assert_eq!(id.trim(), id);
    }
}

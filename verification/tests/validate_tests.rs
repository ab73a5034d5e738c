use gossip_node::validate::validate_connected_person;

#[test]
fn empty_identifier_is_rejected() {
    let r = validate_connected_person("");
    assert_eq!(r, Err("Connected person cannot be empty".to_owned()));
}

#[test]
fn nonempty_identifier_is_accepted() {
    assert_eq!(validate_connected_person("alice"), Ok(()));
    assert_eq!(validate_connected_person(" "), Ok(()));
}

use gossip_node::hash::{compute_message_id, content_hash, message_id_for_text, MessageId};

#[test]
fn empty_payload_hashes_to_offset_basis() {
    assert_eq!(content_hash(&[]), 0xcbf29ce484222325);
}

#[test]
fn known_fnv1a_vectors() {
    assert_eq!(content_hash(b"a"), 0xaf63dc4c8601ec8c);
    assert_eq!(content_hash(b"foobar"), 0x85944171f73967e8);
    assert_eq!(content_hash(b"hello"), 0xa430d84680aabd0b);
}

#[test]
fn identical_payloads_share_an_id() {
    let p1: Vec<u8> = vec![1, 2, 3, 250];
    let p2: Vec<u8> = vec![1, 2, 3, 250];
    assert_eq!(compute_message_id(&p1), compute_message_id(&p2));
}

#[test]
fn different_payloads_get_different_ids() {
    assert_ne!(compute_message_id(b"a"), compute_message_id(b"b"));
    assert_ne!(compute_message_id(b""), compute_message_id(b"a"));
}

#[test]
fn text_id_is_the_id_of_its_utf8_bytes() {
    assert_eq!(message_id_for_text("hello"), compute_message_id(b"hello"));
    assert_eq!(
        message_id_for_text("hello"),
        MessageId { value: 0xa430d84680aabd0b },
    );
}

#[test]
fn text_id_is_stable_across_calls() {
    let a = message_id_for_text("the same text");
    let b = message_id_for_text("the same text");
    assert_eq!(a, b);
}

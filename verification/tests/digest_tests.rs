use sha2::Digest;

#[test]
fn counter_bytes_are_little_endian() {
    let bytes = packet_pipeline::bytes::counter_bytes(0x0102030405060708i64);
    assert_eq!(bytes, vec![0x08, 0x07, 0x06, 0x05, 0x04, 0x03, 0x02, 0x01]);

    let negative = packet_pipeline::bytes::counter_bytes(-1i64);
    assert_eq!(negative, vec![0xff; 8]);

    let zero = packet_pipeline::bytes::counter_bytes(0i64);
    assert_eq!(zero, vec![0x00; 8]);
}

#[test]
fn tag_is_the_truncated_digest_of_counter_payload_key() {
    let key = vec![7u8; 32];
    let payload = b"abc".to_vec();
    let tag = packet_pipeline::digest::compute_tag(5, &payload, &key);

    let mut message: Vec<u8> = Vec::new();
    message.extend_from_slice(&5i64.to_le_bytes());
    message.extend_from_slice(&payload);
    message.extend_from_slice(&key);
    let digest = sha2::Sha256::digest(&message);

    assert_eq!(tag.len(), 8);
    assert_eq!(tag.as_slice(), &digest[..8]);
}

#[test]
fn tag_depends_on_each_input() {
    let key = vec![7u8; 32];
    let other_key = vec![8u8; 32];
    let payload = b"abc".to_vec();
    let base = packet_pipeline::digest::compute_tag(5, &payload, &key);

    assert_ne!(base, packet_pipeline::digest::compute_tag(6, &payload, &key));
    assert_ne!(base, packet_pipeline::digest::compute_tag(5, &b"abd".to_vec(), &key));
    assert_ne!(base, packet_pipeline::digest::compute_tag(5, &payload, &other_key));
}

#[test]
fn verify_tag_compares_content() {
    let a = vec![1u8, 2, 3, 4, 5, 6, 7, 8];
    let b = vec![1u8, 2, 3, 4, 5, 6, 7, 9];
    assert!(packet_pipeline::digest::verify_tag(&a, &a.clone()));
    assert!(!packet_pipeline::digest::verify_tag(&a, &b));
    assert!(!packet_pipeline::digest::verify_tag(&a, &vec![1u8, 2, 3]));
}

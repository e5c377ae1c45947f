use rbxsync::fingerprint::content_fingerprint;

#[test]
fn fingerprint_matches_known_digest() {
    // SHA-256 of "abc"
    let bytes = b"abc".to_vec();
    assert_eq!(
        content_fingerprint(&bytes),
        "ba7816bf8f01cfea414140de5dae2223b00361a396177a9cb410ff61f20015ad"
    );
}

#[test]
fn fingerprint_of_empty_input() {
    // SHA-256 of the empty byte string
    let bytes: Vec<u8> = Vec::new();
    assert_eq!(
        content_fingerprint(&bytes),
        "e3b0c44298fc1c149afbf4c8996fb92427ae41e4649b934ca495991b7852b855"
    );
}

#[test]
fn one_byte_change_changes_fingerprint() {
    let original = vec![1u8, 2, 3, 4, 5, 6, 7, 8];
    let mut changed = original.clone();
    changed[3] ^= 0x01;
    assert_ne!(content_fingerprint(&original), content_fingerprint(&changed));
    // reverting the byte restores the exact fingerprint
    changed[3] ^= 0x01;
    assert_eq!(content_fingerprint(&original), content_fingerprint(&changed));
}

#[test]
fn fingerprint_is_64_hex_digits() {
    let fp = content_fingerprint(&b"anything".to_vec());
    assert_eq!(fp.len(), 64);
    assert!(fp.chars().all(|c| c.is_ascii_hexdigit() && !c.is_ascii_uppercase()));
}

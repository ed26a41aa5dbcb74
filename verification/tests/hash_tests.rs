use phototransfer::hashing::hash_bytes;

#[test]
fn hash_matches_known_vectors() {
    assert_eq!(
        hash_bytes(b"abc"),
        "ba7816bf8f01cfea414140de5dae2223b00361a396177a9cb410ff61f20015ad"
    );
    assert_eq!(
        hash_bytes(b""),
        "e3b0c44298fc1c149afbf4c8996fb92427ae41e4649b934ca495991b7852b855"
    );
}

#[test]
fn identical_content_from_different_sources_hashes_alike() {
    // The same bytes arriving from two different buffers (as from two
    // different file paths) give the identical digest.
    let first: Vec<u8> = vec![1, 2, 3, 4, 5, 6, 7, 8];
    let second: Vec<u8> = (1u8..=8).collect();
    assert_eq!(hash_bytes(&first), hash_bytes(&second));
}

#[test]
fn single_byte_change_changes_the_digest() {
    let content: Vec<u8> = vec![9u8; 4096];
    let mut tweaked = content.clone();
    tweaked[2048] ^= 1;
    assert_ne!(hash_bytes(&content), hash_bytes(&tweaked));
}

#[test]
fn digest_is_64_lowercase_hex_chars() {
    let d = hash_bytes(b"phone photo bytes");
    assert_eq!(d.len(), 64);
    assert!(d.chars().all(|c| c.is_ascii_digit() || ('a'..='f').contains(&c)));
}

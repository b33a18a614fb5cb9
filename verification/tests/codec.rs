use rustshell::codec::{hex_text, password_response, utf16le, FileHasher};

#[test]
fn utf16_has_surrogate_pairs_and_low_bytes_first() {
    for sample in ["", "A", "é", "😀é", "\u{ffff}\u{10000}\u{10ffff}"] {
        let expected: Vec<u8> = sample.encode_utf16().flat_map(|unit| unit.to_le_bytes()).collect();
        assert_eq!(utf16le(sample), expected);
    }
    assert_eq!(utf16le("😀é"), vec![0x3d, 0xd8, 0x00, 0xde, 0xe9, 0x00]);
}

#[test]
fn bytes_are_written_in_lower_case_hexadecimal() {
    assert_eq!(hex_text(&[0x00, 0x0f, 0xa5, 0xff]), "000fa5ff");
    assert_eq!(hex_text(&[]), "");
}

#[test]
fn files_have_their_sha256_however_they_are_read() {
    let mut hasher = FileHasher::new();
    hasher.update(b"hello ");
    hasher.update(b"");
    hasher.update(b"world");
    assert_eq!(hasher.finish(), "b94d27b9934d3e08a52e52d7da7dabfac484efe37a5380ee9088f7ace2efcde9");
    assert_eq!(
        FileHasher::new().finish(),
        "e3b0c44298fc1c149afbf4c8996fb92427ae41e4649b934ca495991b7852b855"
    );
}

#[test]
fn password_challenges_are_answered_with_two_digests() {
    let answer = password_response("secret", "salt", "challenge");
    assert_eq!(hex_text(&answer), "e7a6ce628b5e3401c0e8672a894d0102967ef39091c6efbb0f8a72d3781d617e");
}

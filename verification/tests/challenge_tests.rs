use base64::Engine;
use passkey_bridge::Challenge;

#[test]
fn generated_challenge_encodes_to_43_chars() {
    let c = Challenge::generate();
    let s = c.encode();
    assert_eq!(s.len(), 43);
    assert!(!s.ends_with('='));
}

#[test]
fn generated_challenge_uses_url_safe_alphabet() {
    for _ in 0..16 {
        let s = Challenge::generate().encode();
        assert!(s.chars().all(|ch| ch.is_ascii_alphanumeric() || ch == '-' || ch == '_'));
    }
}

#[test]
fn successive_challenges_differ() {
    let mut seen: Vec<String> = Vec::new();
    for _ in 0..64 {
        let s = Challenge::generate().encode();
        assert!(!seen.contains(&s), "two challenges were equal");
        seen.push(s);
    }
}

#[test]
fn challenge_decodes_to_exactly_32_bytes() {
    let c = Challenge::generate();
    let s = c.encode();
    let decoded = base64::engine::general_purpose::URL_SAFE_NO_PAD
        .decode(&s)
        .expect("challenge text must be valid base64url");
    assert_eq!(decoded.len(), 32);
}

#[test]
fn encode_then_decode_recovers_the_bytes() {
    let c = Challenge::generate();
    let s = c.encode();
    let d = Challenge::decode(&s).expect("canonical encoding must decode");
    assert_eq!(d.as_bytes(), c.as_bytes());
    assert_eq!(d.encode(), s);
}

#[test]
fn decode_matches_the_base64_crate() {
    let c = Challenge::generate();
    let s = c.encode();
    let via_crate = base64::engine::general_purpose::URL_SAFE_NO_PAD
        .decode(&s)
        .expect("valid");
    let via_library = Challenge::decode(&s).expect("valid");
    assert_eq!(via_library.as_bytes(), &via_crate);
    assert_eq!(c.as_bytes(), &via_crate);
}

#[test]
fn all_zero_challenge_is_43_letters_a() {
    let text = "AAAAAAAAAAAAAAAAAAAAAAAAAAAAAAAAAAAAAAAAAAA";
    assert_eq!(text.len(), 43);
    let c = Challenge::decode(text).expect("canonical encoding of 32 zero bytes");
    assert_eq!(c.as_bytes(), &vec![0u8; 32]);
    assert_eq!(c.encode(), text);
}

#[test]
fn decode_rejects_garbage() {
    assert!(Challenge::decode("not base64!!").is_none());
    assert!(Challenge::decode("").is_none());
}

#[test]
fn decode_rejects_wrong_length() {
    // Canonical encoding, but of 3 bytes rather than 32.
    let short = base64::engine::general_purpose::URL_SAFE_NO_PAD.encode([1u8, 2, 3]);
    assert!(Challenge::decode(&short).is_none());
}

#[test]
fn decode_rejects_padded_text() {
    // The transport encoding is padding-free; padded text is not canonical.
    let padded = base64::engine::general_purpose::URL_SAFE.encode([7u8; 32]);
    assert!(padded.contains('='));
    assert!(Challenge::decode(&padded).is_none());
}

#[test]
fn decode_rejects_nonzero_trailing_bits() {
    // "AB" would decode to one byte only if the low four bits of 'B' were
    // dropped; the canonical encoding of that byte is "AA".
    assert!(Challenge::decode("AB").is_none());
}

use bn254_pubkey::errors::InvalidLength;
use bn254_pubkey::key::{PubKey, KEY_LEN};
use bn254_pubkey::text::TextError;
use bn254_pubkey::wire::{type_url, WireMessage};

fn sample_key() -> PubKey {
    let mut key = [0u8; 32];
    let mut i = 0usize;
    while i < 32 {
        key[i] = (i as u8) + 1;
        i += 1;
    }
    PubKey { key }
}

#[test]
fn wire_round_trip() {
    let original = sample_key();
    let wire = original.encode();
    let decoded = PubKey::decode(wire).expect("a 32-byte field must decode");
    assert_eq!(decoded, original);
    assert_eq!(decoded.key, original.key);
}

#[test]
fn decode_exact_length_succeeds() {
    let bytes: Vec<u8> = (0u8..32u8).collect();
    let wire = WireMessage { key: bytes.clone() };
    let decoded = PubKey::decode(wire).expect("a 32-byte field must decode");
    assert_eq!(decoded.key.to_vec(), bytes);
}

#[test]
fn decode_one_byte_short_fails() {
    let wire = WireMessage { key: vec![0u8; 31] };
    let err = PubKey::decode(wire).expect_err("31 bytes must be rejected");
    assert_eq!(err, InvalidLength { expected: 32, found: 31 });
}

#[test]
fn decode_one_byte_long_fails() {
    let wire = WireMessage { key: vec![0u8; 33] };
    let err = PubKey::decode(wire).expect_err("33 bytes must be rejected");
    assert_eq!(err, InvalidLength { expected: 32, found: 33 });
}

#[test]
fn decode_empty_fails() {
    let wire = WireMessage { key: Vec::new() };
    let err = PubKey::decode(wire).expect_err("an empty field must be rejected");
    assert_eq!(err, InvalidLength { expected: 32, found: 0 });
}

#[test]
fn encode_preserves_bytes() {
    let original = sample_key();
    let wire = original.encode();
    assert_eq!(wire.key.len(), KEY_LEN);
    assert_eq!(wire.key, original.key.to_vec());
}

#[test]
fn type_url_stable() {
    assert_eq!(type_url(), "/cosmos.crypto.bn254.PubKey");
}

#[test]
fn text_round_trip() {
    let original = sample_key();
    let text = original.to_text();
    let decoded = PubKey::from_text(&text).expect("the textual form must decode");
    assert_eq!(decoded, original);
    assert_eq!(decoded.key, original.key);
    // The intermediate form is valid base64 of exactly the key's bytes.
    let raw = base64::Engine::decode(&base64::engine::general_purpose::STANDARD, &text)
        .expect("the textual form must be valid base64");
    assert_eq!(raw, original.key.to_vec());
}

#[test]
fn text_of_zero_key() {
    let zero = PubKey { key: [0u8; 32] };
    assert_eq!(zero.to_text(), "AAAAAAAAAAAAAAAAAAAAAAAAAAAAAAAAAAAAAAAAAAA=");
}

#[test]
fn from_text_rejects_garbage() {
    let err = PubKey::from_text("not base64!").expect_err("garbage must be rejected");
    assert_eq!(err, TextError::Base64);
}

#[test]
fn from_text_rejects_noncanonical() {
    // Three unpadded symbols decode nothing under the canonical engine.
    let err = PubKey::from_text("AAA").expect_err("unpadded input must be rejected");
    assert_eq!(err, TextError::Base64);
}

#[test]
fn from_text_rejects_short_payload() {
    let text = base64::Engine::encode(&base64::engine::general_purpose::STANDARD, [7u8; 31]);
    let err = PubKey::from_text(&text).expect_err("31 decoded bytes must be rejected");
    assert_eq!(err, TextError::Length(InvalidLength { expected: 32, found: 31 }));
}

#[test]
fn from_text_rejects_long_payload() {
    let text = base64::Engine::encode(&base64::engine::general_purpose::STANDARD, [7u8; 33]);
    let err = PubKey::from_text(&text).expect_err("33 decoded bytes must be rejected");
    assert_eq!(err, TextError::Length(InvalidLength { expected: 32, found: 33 }));
}

#[test]
fn pubkey_equality_is_structural() {
    let a = sample_key();
    let b = sample_key();
    assert_eq!(a, b);
    let mut c = sample_key();
    c.key[31] = 0;
    assert_ne!(a, c);
}

use base64::Engine;
use genrs_lib::{encode_key, generate_key, EncodingFormat, KeyPreset};

#[test]
fn key_length_matches_request() {
    assert_eq!(generate_key(0).len(), 0);
    assert_eq!(generate_key(1).len(), 1);
    assert_eq!(generate_key(16).len(), 16);
    assert_eq!(generate_key(32).len(), 32);
    assert_eq!(generate_key(64).len(), 64);
}

#[test]
fn hex_encoding_exact_value() {
    let encoded = encode_key(vec![0x00, 0xde, 0xad, 0xbe, 0xef, 0xff], EncodingFormat::Hex);
    assert_eq!(encoded.unwrap(), "00deadbeefff");
}

#[test]
fn hex_encoding_empty_key() {
    let encoded = encode_key(Vec::new(), EncodingFormat::Hex);
    assert_eq!(encoded.unwrap(), "");
}

#[test]
fn base64_encoding_exact_values() {
    assert_eq!(encode_key(vec![77, 97, 110], EncodingFormat::Base64).unwrap(), "TWFu");
    assert_eq!(encode_key(vec![77, 97], EncodingFormat::Base64).unwrap(), "TWE=");
    assert_eq!(encode_key(vec![77], EncodingFormat::Base64).unwrap(), "TQ==");
    assert_eq!(encode_key(Vec::new(), EncodingFormat::Base64).unwrap(), "");
}

#[test]
fn hex_round_trip_recovers_key() {
    let key = generate_key(32);
    let encoded = encode_key(key.clone(), EncodingFormat::Hex).unwrap();
    assert_eq!(hex::decode(&encoded).unwrap(), key);
}

#[test]
fn base64_round_trip_recovers_key() {
    for length in [0usize, 1, 2, 3, 31, 32, 33] {
        let key = generate_key(length);
        let encoded = encode_key(key.clone(), EncodingFormat::Base64).unwrap();
        let decoded = base64::engine::general_purpose::STANDARD
            .decode(&encoded)
            .unwrap();
        assert_eq!(decoded, key);
    }
}

#[test]
fn base64_sixteen_byte_key_decodes_to_sixteen_bytes() {
    let key = generate_key(16);
    let encoded = encode_key(key, EncodingFormat::Base64).unwrap();
    let decoded = base64::engine::general_purpose::STANDARD
        .decode(&encoded)
        .unwrap();
    assert_eq!(decoded.len(), 16);
}

#[test]
fn aes256_preset_is_32_bytes_described_as_aes_256() {
    let preset = KeyPreset::Aes256;
    assert_eq!(preset.key_length(), 32);
    assert_eq!(preset.description(), "AES-256");
    let key = generate_key(preset.key_length());
    assert_eq!(key.len(), 32);
}

#[test]
fn preset_lengths_and_descriptions() {
    let cases: [(KeyPreset, usize, &str); 9] = [
        (KeyPreset::Aes128, 16, "AES-128"),
        (KeyPreset::Aes192, 24, "AES-192"),
        (KeyPreset::Aes256, 32, "AES-256"),
        (KeyPreset::HmacSha256, 32, "HMAC-SHA256"),
        (KeyPreset::HmacSha512, 64, "HMAC-SHA512"),
        (KeyPreset::Jwt256, 32, "JWT-256"),
        (KeyPreset::Jwt512, 64, "JWT-512"),
        (KeyPreset::ApiKey128, 16, "API Key 128-bit"),
        (KeyPreset::ApiKey256, 32, "API Key 256-bit"),
    ];
    for (preset, length, description) in cases {
        assert_eq!(preset.key_length(), length);
        assert_eq!(preset.description(), description);
    }
}

use authy::api_key::encode_then_decode;
use authy::{ApiKey, ApiKeyError};

#[test]
fn generated_key_has_sixteen_bytes() {
    let key = ApiKey::generate();
    assert_eq!(key.into_inner().len(), 16);
}

#[test]
fn default_key_is_random_issuance() {
    let key = ApiKey::default();
    assert_eq!(key.into_inner().len(), 16);
}

#[test]
fn round_trip_on_generated_keys() {
    for _ in 0..32 {
        let key = ApiKey::generate();
        let back = encode_then_decode(&key).unwrap();
        assert!(back == key);
    }
}

#[test]
fn round_trip_through_text() {
    let key = ApiKey::generate();
    let text = key.to_base64();
    let back = ApiKey::from_str(&text).unwrap();
    assert!(back == key);
}

#[test]
fn encoding_of_known_bytes() {
    let key = ApiKey::from_str("AAAAAAAAAAAAAAAAAAAAAA==").unwrap();
    assert_eq!(key.as_bytes().as_slice(), &[0u8; 16][..]);
    assert_eq!(key.to_base64(), "AAAAAAAAAAAAAAAAAAAAAA==");
}

#[test]
fn encoding_matches_reference_encoder() {
    let key = ApiKey::generate();
    let expected = base64::encode(key.as_bytes().as_slice());
    assert_eq!(key.to_base64(), expected);
}

#[test]
fn decode_rejects_invalid_text() {
    assert!(matches!(ApiKey::from_str("!!!"), Err(ApiKeyError::DecodeError(_))));
    assert!(matches!(ApiKey::from_str("not base64 at all"), Err(ApiKeyError::DecodeError(_))));
}

#[test]
fn key_equality_is_byte_equality() {
    let a = ApiKey::from_str("aGVsbG8=").unwrap();
    let b = ApiKey::from_str("aGVsbG8=").unwrap();
    let c = ApiKey::from_str("aGVsbG9v").unwrap();
    assert!(a == b);
    assert!(a != c);
}

#[test]
fn clone_preserves_bytes() {
    let key = ApiKey::generate();
    let copy = key.clone();
    assert!(copy == key);
}

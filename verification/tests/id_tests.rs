use meroctl::{ResolvedId, ID_LENGTH};

fn id_from(bytes: &[u8]) -> ResolvedId {
    ResolvedId::from_bytes(bytes.to_vec()).unwrap()
}

#[test]
fn from_bytes_accepts_only_id_length() {
    assert!(ResolvedId::from_bytes(vec![7u8; ID_LENGTH]).is_some());
    assert!(ResolvedId::from_bytes(vec![7u8; 31]).is_none());
    assert!(ResolvedId::from_bytes(vec![7u8; 33]).is_none());
    assert!(ResolvedId::from_bytes(Vec::new()).is_none());
}

#[test]
fn bytes_round_trip() {
    let raw: Vec<u8> = (0u8..32).collect();
    let id = id_from(&raw);
    assert_eq!(id.bytes(), raw.as_slice());
}

#[test]
fn zero_id_base58_is_thirty_two_ones() {
    let id = id_from(&[0u8; 32]);
    assert_eq!(id.to_base58(), "1".repeat(32));
}

#[test]
fn base58_text_round_trips_through_parse() {
    let raw: Vec<u8> = (100u8..132).collect();
    let id = id_from(&raw);
    let text = id.to_base58();
    let back = ResolvedId::parse(&text).unwrap();
    assert_eq!(back, id);
    assert_eq!(back.bytes(), raw.as_slice());
}

#[test]
fn parse_rejects_wrong_length() {
    // Valid base 58, but the bytes it encodes are far too short.
    let short = bs58::encode([1u8, 2, 3, 4]).into_string();
    assert!(ResolvedId::parse(&short).is_none());
}

#[test]
fn parse_rejects_invalid_characters() {
    // '0', 'O', 'I' and 'l' are outside the Bitcoin base-58 alphabet.
    assert!(ResolvedId::parse("0OIl").is_none());
    assert!(ResolvedId::parse("not an identifier").is_none());
    assert!(ResolvedId::parse("").is_none());
}

#[test]
fn equality_follows_bytes() {
    let a = id_from(&[5u8; 32]);
    let b = id_from(&[5u8; 32]);
    let mut raw = [5u8; 32];
    raw[31] = 6;
    let c = id_from(&raw);
    assert_eq!(a, b);
    assert_ne!(a, c);
}

#[test]
fn clone_preserves_bytes() {
    let a = id_from(&[9u8; 32]);
    let b = a.clone();
    assert_eq!(a, b);
}

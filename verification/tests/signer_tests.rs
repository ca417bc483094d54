use meroctl::{auth_headers, auth_headers_now, SigningKey};

#[test]
fn no_key_attaches_no_headers_at_all() {
    assert!(auth_headers(None, 1_700_000_000).is_none());
    assert!(auth_headers_now(None).is_none());
}

#[test]
fn signing_twice_yields_identical_headers() {
    let seed = [13u8; 32];
    let k1 = SigningKey::from_seed(seed);
    let k2 = SigningKey::from_seed(seed);
    let h1 = auth_headers(Some(&k1), 1_700_000_000).unwrap();
    let h2 = auth_headers(Some(&k2), 1_700_000_000).unwrap();
    assert_eq!(h1.timestamp, h2.timestamp);
    assert_eq!(h1.signature, h2.signature);
}

#[test]
fn timestamp_header_is_the_decimal_seconds() {
    let key = SigningKey::from_seed([1u8; 32]);
    let h = auth_headers(Some(&key), 1_700_000_000).unwrap();
    assert_eq!(h.timestamp, "1700000000");
    let h = auth_headers(Some(&key), -5).unwrap();
    assert_eq!(h.timestamp, "-5");
}

#[test]
fn signature_header_matches_direct_signing() {
    let seed = [42u8; 32];
    let key = SigningKey::from_seed(seed);
    let ts: i64 = 1_700_000_000;
    let h = auth_headers(Some(&key), ts).unwrap();

    let mut bytes = seed;
    let keypair = libp2p::identity::Keypair::ed25519_from_bytes(&mut bytes).unwrap();
    let sig = keypair.sign(ts.to_string().as_bytes()).unwrap();
    let expected = bs58::encode(sig).into_string();
    assert_eq!(h.signature, expected);
}

#[test]
fn different_keys_sign_differently() {
    let h1 = auth_headers(Some(&SigningKey::from_seed([1u8; 32])), 7).unwrap();
    let h2 = auth_headers(Some(&SigningKey::from_seed([2u8; 32])), 7).unwrap();
    assert_eq!(h1.timestamp, h2.timestamp);
    assert_ne!(h1.signature, h2.signature);
}

#[test]
fn fresh_headers_carry_a_decimal_timestamp() {
    let key = SigningKey::from_seed([3u8; 32]);
    let h = auth_headers_now(Some(&key)).unwrap();
    assert!(!h.timestamp.is_empty());
    assert!(h.timestamp.chars().all(|c| c.is_ascii_digit() || c == '-'));
    assert!(!h.signature.is_empty());
}

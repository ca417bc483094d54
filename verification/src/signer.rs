use vstd::prelude::*;

use crate::id::{b58_encode, base58_of};
use crate::num::{decimal_of, i64_to_decimal};

verus! {

/// The Ed25519 signature over the UTF-8 bytes of `msg` by the key with
/// the given 32-byte secret seed. Ed25519 signing is deterministic, so
/// the signature is a function of seed and message alone; its bytes are
/// left unstated and every contract speaks through this name.
pub uninterp spec fn ed25519_sig_of(seed: Seq<u8>, msg: Seq<char>) -> Seq<u8>;

/// A caller-held Ed25519 signing key, as its 32-byte secret seed.
pub struct SigningKey {
    seed: [u8; 32],
}

impl View for SigningKey {
    type V = Seq<u8>;

    closed spec fn view(&self) -> Seq<u8> {
        self.seed@
    }
}

impl SigningKey {
    pub fn from_seed(seed: [u8; 32]) -> (r: SigningKey)
        ensures
            r@ == seed@,
    {
        SigningKey { seed }
    }
}

/// Relies on libp2p_identity::Keypair::ed25519_from_bytes and
/// Keypair::sign: a keypair is built from any 32 secret bytes, an Ed25519
/// signature is a deterministic function of the secret key and the signed
/// bytes (RFC 8032), and signing with an Ed25519 keypair never fails, so
/// the two error branches below are never taken.
#[verifier::external_body]
fn ed25519_sign(seed: &[u8; 32], msg: &str) -> (r: Vec<u8>)
    ensures
        r@ == ed25519_sig_of(seed@, msg@),
{
    let mut bytes = *seed;
    match libp2p::identity::Keypair::ed25519_from_bytes(&mut bytes) {
        Ok(keypair) => keypair.sign(msg.as_bytes()).unwrap_or_default(),
        Err(_) => Vec::new(),
    }
}

/// Relies on chrono::Utc::now: the clock's reading depends on the
/// environment, so nothing is promised of the value.
#[verifier::external_body]
fn now_timestamp() -> i64 {
    chrono::Utc::now().timestamp()
}

/// The two authentication header values derived from one signing key and
/// one timestamp: the timestamp in decimal, and the base-58 rendering of
/// the signature over the timestamp's text.
pub struct AuthHeaders {
    pub timestamp: String,
    pub signature: String,
}

/// What the signature header holds for a given key seed and timestamp.
pub open spec fn signature_text(seed: Seq<u8>, ts: int) -> Seq<char> {
    base58_of(ed25519_sig_of(seed, decimal_of(ts)))
}

/// Builds the authentication headers for one request. With no key the
/// request goes out unauthenticated: no headers at all, not empty ones.
pub fn auth_headers(key: Option<&SigningKey>, ts: i64) -> (r: Option<AuthHeaders>)
    ensures
        key is None ==> r is None,
        key matches Some(k) ==> (r matches Some(h) && h.timestamp@ == decimal_of(ts as int)
            && h.signature@ == signature_text(k@, ts as int)),
{
    match key {
        None => None,
        Some(k) => {
            let ts_text = i64_to_decimal(ts);
            let sig = ed25519_sign(&k.seed, ts_text.as_str());
            let signature = b58_encode(sig.as_slice());
            Some(AuthHeaders { timestamp: ts_text, signature })
        },
    }
}

/// Builds the authentication headers against the clock: a fresh timestamp
/// for this call, signed as `auth_headers` says. Replay protection is the
/// remote side's concern; this layer only supplies the fresh timestamp.
pub fn auth_headers_now(key: Option<&SigningKey>) -> (r: Option<AuthHeaders>)
    ensures
        key is None ==> r is None,
        key matches Some(k) ==> (r matches Some(h) && exists|ts: int|
            h.timestamp@ == decimal_of(ts) && h.signature@ == signature_text(k@, ts)),
{
    let ts = now_timestamp();
    let r = auth_headers(key, ts);
    proof {
        if r is Some {
            assert(r->0.timestamp@ == decimal_of(ts as int) && r->0.signature@
                == signature_text(key->0@, ts as int));
        }
    }
    r
}

/// Signing is deterministic: for one key seed and one timestamp there is
/// exactly one pair of header values, so signing the same timestamp twice
/// with the same key yields the same timestamp text and the same
/// signature.
pub proof fn lemma_signature_deterministic(
    seed: Seq<u8>,
    ts: int,
    t1: Seq<char>,
    s1: Seq<char>,
    t2: Seq<char>,
    s2: Seq<char>,
)
    requires
        t1 == decimal_of(ts),
        s1 == signature_text(seed, ts),
        t2 == decimal_of(ts),
        s2 == signature_text(seed, ts),
    ensures
        t1 == t2,
        s1 == s2,
{
}

} // verus!

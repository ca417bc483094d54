use vstd::prelude::*;
use vstd::slice::slice_to_vec;

verus! {

/// The text that base-58 encoding (Bitcoin alphabet) produces for the
/// given bytes. The encoding is a function of the bytes alone; its exact
/// digits are left unstated and every contract speaks through this name.
pub uninterp spec fn base58_of(bytes: Seq<u8>) -> Seq<char>;

/// The outcome of base-58 decoding (Bitcoin alphabet) on the given text:
/// the bytes it encodes, or nothing when the text is not valid base 58.
pub uninterp spec fn base58_decode(text: Seq<char>) -> Option<Seq<u8>>;

/// Relies on bs58::encode with the default (Bitcoin) alphabet: the text
/// depends on the input bytes alone, and bs58::decode gives the same
/// bytes back from it.
#[verifier::external_body]
pub(crate) fn b58_encode(bytes: &[u8]) -> (r: String)
    ensures
        r@ == base58_of(bytes@),
        base58_decode(r@) == Some(bytes@),
{
    bs58::encode(bytes).into_string()
}

/// Relies on bs58::decode with the default (Bitcoin) alphabet: decoding
/// either yields the bytes the text encodes or fails; `base58_decode`
/// names that outcome, which depends on the text alone.
#[verifier::external_body]
pub(crate) fn b58_decode(text: &str) -> (r: Option<Vec<u8>>)
    ensures
        match r {
            Some(v) => base58_decode(text@) == Some(v@),
            None => base58_decode(text@) is None,
        },
{
    bs58::decode(text).into_vec().ok()
}

/// Every identifier an alias can resolve to — a context id, a public key
/// or an application id — is 32 bytes, written as base 58 in text form.
pub const ID_LENGTH: usize = 32;

/// The concrete identifier an alias resolves to: 32 raw bytes whose
/// canonical text form is their base-58 encoding.
#[derive(Debug)]
pub struct ResolvedId {
    bytes: Vec<u8>,
}

/// The bytes that a piece of text denotes as a literal identifier: the
/// base-58 decoding of the text, accepted only at the exact identifier
/// length.
pub open spec fn parse_id_spec(text: Seq<char>) -> Option<Seq<u8>> {
    match base58_decode(text) {
        Some(b) => if b.len() == ID_LENGTH { Some(b) } else { None },
        None => None,
    }
}

impl View for ResolvedId {
    type V = Seq<u8>;

    closed spec fn view(&self) -> Seq<u8> {
        self.bytes@
    }
}

impl ResolvedId {
    #[verifier::type_invariant]
    spec fn inv(self) -> bool {
        self.bytes@.len() == ID_LENGTH
    }

    /// Accepts exactly the byte strings of identifier length.
    pub fn from_bytes(bytes: Vec<u8>) -> (r: Option<ResolvedId>)
        ensures
            bytes@.len() == ID_LENGTH ==> (r matches Some(id) && id@ == bytes@),
            bytes@.len() != ID_LENGTH ==> r is None,
    {
        if bytes.len() == ID_LENGTH {
            Some(ResolvedId { bytes })
        } else {
            None
        }
    }

    pub fn bytes(&self) -> (r: &[u8])
        ensures
            r@ == self@,
            r@.len() == ID_LENGTH,
    {
        proof {
            use_type_invariant(self);
        }
        self.bytes.as_slice()
    }

    /// The canonical text form of this identifier.
    pub fn to_base58(&self) -> (r: String)
        ensures
            r@ == base58_of(self@),
            base58_decode(r@) == Some(self@),
    {
        proof {
            use_type_invariant(self);
        }
        b58_encode(self.bytes.as_slice())
    }

    /// Reads text as a literal identifier: base-58 decode, accepted only
    /// at the identifier length. Malformed text is reported as absence,
    /// never as an error.
    pub fn parse(text: &str) -> (r: Option<ResolvedId>)
        ensures
            match r {
                Some(id) => parse_id_spec(text@) == Some(id@),
                None => parse_id_spec(text@) is None,
            },
    {
        match b58_decode(text) {
            Some(v) => ResolvedId::from_bytes(v),
            None => None,
        }
    }
}

impl Clone for ResolvedId {
    fn clone(&self) -> (r: Self)
        ensures
            r@ == self@,
    {
        proof {
            use_type_invariant(self);
        }
        ResolvedId { bytes: slice_to_vec(self.bytes.as_slice()) }
    }
}

impl vstd::std_specs::cmp::PartialEqSpecImpl for ResolvedId {
    open spec fn obeys_eq_spec() -> bool {
        true
    }

    open spec fn eq_spec(&self, other: &Self) -> bool {
        self@ == other@
    }
}

impl PartialEq for ResolvedId {
    fn eq(&self, other: &Self) -> (r: bool) {
        proof {
            use_type_invariant(self);
            use_type_invariant(other);
        }
        let mut i: usize = 0;
        while i < ID_LENGTH
            invariant
                0 <= i <= ID_LENGTH,
                self.bytes@.len() == ID_LENGTH,
                other.bytes@.len() == ID_LENGTH,
                forall|j: int| 0 <= j < i ==> self.bytes@[j] == other.bytes@[j],
            decreases ID_LENGTH - i,
        {
            if self.bytes[i] != other.bytes[i] {
                proof {
                    assert(self@[i as int] != other@[i as int]);
                }
                return false;
            }
            i += 1;
        }
        proof {
            assert(self@ =~= other@);
        }
        true
    }
}

} // verus!

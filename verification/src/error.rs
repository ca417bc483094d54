use vstd::prelude::*;

verus! {

/// Everything that can go wrong in this layer, kept apart by origin:
/// a remote refusal is not a decode failure, and a caller bug (a scoped
/// kind used without a scope) is neither.
#[derive(Debug)]
pub enum ClientError {
    /// The alias text is empty, too long, or holds a character outside
    /// the accepted set.
    InvalidAlias,
    /// A scoped kind was used without a scope: a bug at the call site,
    /// not a missing alias.
    ScopeMissing,
    /// The remote service answered with a non-success status; the raw
    /// response text is kept verbatim.
    Remote { status_code: u16, message: String },
    /// The response body did not match the expected schema.
    Decode,
    /// An alias that the caller needs could not be resolved at all.
    UnresolvedAlias,
    /// The remote service reported success but returned no payload where
    /// one was required.
    MissingPayload,
}

/// Failure to derive a URL from an address description.
#[derive(Clone, Copy, PartialEq, Eq, Structural, Debug)]
pub enum UrlError {
    /// No IPv4 component was present.
    NoIp,
    /// No TCP port component was present.
    NoPort,
    /// The configuration lists no address at all.
    NoAddress,
}

} // verus!

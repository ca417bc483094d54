use vstd::prelude::*;

use crate::alias::AliasName;
use crate::client::LookupResult;
use crate::error::ClientError;
use crate::id::{parse_id_spec, ResolvedId};

verus! {

/// How an alias came to denote a value: the remote store held a binding,
/// or the alias text itself was a well-formed literal identifier.
pub enum ResolveResponseValue {
    Lookup(ResolvedId),
    Parsed(ResolvedId),
}

/// The outcome of resolving one alias. `value` of `None` means
/// unresolved — a normal answer, not an error; each call site decides
/// whether absence is fatal for its purpose.
pub struct ResolveResponse {
    pub alias: AliasName,
    pub value: Option<ResolveResponseValue>,
}

/// The outcome reduced to what it denotes: whether it came from the
/// remote store, and the identifier's bytes.
pub open spec fn outcome_model(v: Option<ResolveResponseValue>) -> Option<(bool, Seq<u8>)> {
    match v {
        Some(ResolveResponseValue::Lookup(id)) => Some((true, id@)),
        Some(ResolveResponseValue::Parsed(id)) => Some((false, id@)),
        None => None,
    }
}

/// What resolution must produce from a lookup answer and the alias text:
/// a remote binding always wins; only in its absence is the text read as
/// a literal identifier; when that fails too, the alias is unresolved.
pub open spec fn resolve_model(found: Option<Seq<u8>>, text: Seq<char>) -> Option<(bool, Seq<u8>)> {
    match found {
        Some(v) => Some((true, v)),
        None => match parse_id_spec(text) {
            Some(b) => Some((false, b)),
            None => None,
        },
    }
}

/// Resolves an alias, given the remote store's answer for it. The lookup
/// strictly precedes this parse fallback, and a registered binding
/// shadows an identifier-shaped name. Malformed literal text is treated
/// as absence, never surfaced as an error.
pub fn resolve_alias(alias: AliasName, looked: LookupResult) -> (r: ResolveResponse)
    ensures
        r.alias@ == alias@ && r.alias.kind_spec() == alias.kind_spec(),
        outcome_model(r.value) == resolve_model(
            match looked.value {
                Some(id) => Some(id@),
                None => None,
            },
            alias@,
        ),
        looked.value matches Some(v) ==> (r.value matches Some(ResolveResponseValue::Lookup(id))
            && id@ == v@),
        looked.value is None && parse_id_spec(alias@) is Some ==> (r.value matches Some(
            ResolveResponseValue::Parsed(id),
        ) && id@ == parse_id_spec(alias@)->0),
        looked.value is None && parse_id_spec(alias@) is None ==> r.value is None,
{
    match looked.value {
        Some(id) => ResolveResponse { alias, value: Some(ResolveResponseValue::Lookup(id)) },
        None => {
            let parsed = ResolvedId::parse(alias.as_str());
            match parsed {
                Some(id) => ResolveResponse {
                    alias,
                    value: Some(ResolveResponseValue::Parsed(id)),
                },
                None => ResolveResponse { alias, value: None },
            }
        },
    }
}

impl ResolveResponse {
    /// The resolved identifier, however it was obtained, or nothing.
    pub fn value(&self) -> (r: Option<&ResolvedId>)
        ensures
            match self.value {
                Some(ResolveResponseValue::Lookup(id)) => r matches Some(v) && v@ == id@,
                Some(ResolveResponseValue::Parsed(id)) => r matches Some(v) && v@ == id@,
                None => r is None,
            },
    {
        match &self.value {
            Some(ResolveResponseValue::Lookup(id)) => Some(id),
            Some(ResolveResponseValue::Parsed(id)) => Some(id),
            None => None,
        }
    }

    /// The resolved identifier for call sites that cannot proceed
    /// without one; absence becomes the unresolved-alias error.
    pub fn require_value(&self) -> (r: Result<ResolvedId, ClientError>)
        ensures
            match self.value {
                Some(ResolveResponseValue::Lookup(id)) => r matches Ok(v) && v@ == id@,
                Some(ResolveResponseValue::Parsed(id)) => r matches Ok(v) && v@ == id@,
                None => r matches Err(e) && e is UnresolvedAlias,
            },
    {
        match &self.value {
            Some(ResolveResponseValue::Lookup(id)) => Ok(id.clone()),
            Some(ResolveResponseValue::Parsed(id)) => Ok(id.clone()),
            None => Err(ClientError::UnresolvedAlias),
        }
    }
}

/// Precedence: when the remote store holds a binding, resolution returns
/// it as a Lookup outcome — never the Parsed reading of the text — even
/// when the alias text would itself parse as a literal identifier.
pub proof fn lemma_lookup_precedence(found: Seq<u8>, text: Seq<char>)
    ensures
        resolve_model(Some(found), text) == Some((true, found)),
{
}

/// Fallback correctness: with no remote binding, a syntactically valid
/// literal identifier resolves to exactly its decoded bytes, marked as
/// Parsed.
pub proof fn lemma_parse_fallback(text: Seq<char>, bytes: Seq<u8>)
    requires
        parse_id_spec(text) == Some(bytes),
    ensures
        resolve_model(None, text) == Some((false, bytes)),
{
}

/// Unresolved correctness: with no remote binding and text that is not a
/// valid literal identifier, resolution reports absence.
pub proof fn lemma_unresolved(text: Seq<char>)
    requires
        parse_id_spec(text) is None,
    ensures
        resolve_model(None, text) is None,
{
}

} // verus!

//! Alias resolution and authenticated-request layer for an administrative
//! client: short human-chosen names for remote entities (contexts,
//! identities, applications), a two-phase resolver with a literal-parse
//! fallback, and timestamp-signature authentication headers.

mod alias;
mod client;
mod endpoints;
mod error;
mod id;
mod kind;
mod num;
mod resolve;
mod signer;
mod url;

pub use alias::{check_alias_text, default_alias, lemma_alias_text_is_path_safe, valid_alias_char,
    valid_alias_text, AliasName, MAX_ALIAS_LENGTH};
pub use client::{check_status, create_alias_call, create_alias_path, delete_alias_call,
    delete_alias_path, effective_scope, interpret_lookup_body, is_success_status,
    lookup_alias_call, lookup_alias_path, ApiCall, CreateAliasBody, LookupBody, LookupResult,
    RequestType};
pub use endpoints::{grant_call, grant_path, identities_call, identities_path, invite_call,
    invite_payload, set_default_identity_call, Capability, GrantBody, InviteBody, PeersCommand};
pub use error::{ClientError, UrlError};
pub use id::{base58_decode, base58_of, parse_id_spec, ResolvedId, ID_LENGTH};
pub use kind::EntityKind;
pub use num::{decimal_of, digit_char, digits_of, i64_to_decimal, u64_to_decimal};
pub use resolve::{lemma_lookup_precedence, lemma_parse_fallback, lemma_unresolved, outcome_model,
    resolve_alias, resolve_model, ResolveResponse, ResolveResponseValue};
pub use signer::{auth_headers, auth_headers_now, ed25519_sig_of, lemma_signature_deterministic,
    signature_text, AuthHeaders, SigningKey};
pub use url::{fetch_multiaddr, last_ip4, last_port, last_scheme, multiaddr_to_url,
    path_with_slash, scheme_or_default, url_of, AddrPart};

use vstd::pervasive::unreached;
use vstd::prelude::*;
use vstd::string::StringExecFns;

use crate::alias::default_alias;
use crate::client::{create_alias_call, create_alias_path, ApiCall, CreateAliasBody, RequestType};
use crate::error::ClientError;
use crate::id::{base58_of, ResolvedId};
use crate::kind::EntityKind;

verus! {

/// Asks for the number of connected peers.
pub struct PeersCommand;

impl PeersCommand {
    /// The request this command sends; the response carries the count.
    pub fn call(&self) -> (r: ApiCall)
        ensures
            r.method == RequestType::Get,
            r.path@ == "admin-api/dev/peers"@,
    {
        ApiCall { method: RequestType::Get, path: String::from_str("admin-api/dev/peers") }
    }
}

/// The path that lists a context's identities, or only the owned ones.
pub open spec fn identities_path(context: Seq<u8>, owned: bool) -> Seq<char> {
    "admin-api/dev/contexts/"@ + base58_of(context) + (if owned {
        "/identities-owned"@
    } else {
        "/identities"@
    })
}

/// Builds the request that lists the identities of a context.
pub fn identities_call(context: &ResolvedId, owned: bool) -> (r: ApiCall)
    ensures
        r.method == RequestType::Get,
        r.path@ == identities_path(context@, owned),
{
    let mut path = String::from_str("admin-api/dev/contexts/");
    let b58 = context.to_base58();
    path.append(b58.as_str());
    if owned {
        path.append("/identities-owned");
    } else {
        path.append("/identities");
    }
    proof {
        assert(path@ =~= identities_path(context@, owned));
    }
    ApiCall { method: RequestType::Get, path }
}

/// What a member may be allowed to do in a context.
#[derive(Clone, Copy, PartialEq, Eq, Structural, Debug)]
pub enum Capability {
    ManageApplication,
    ManageMembers,
    Proxy,
}

/// The body of a grant request: who receives which capability.
pub struct GrantBody {
    pub grantee: ResolvedId,
    pub capability: Capability,
}

/// The path that grants capabilities within a context.
pub open spec fn grant_path(context: Seq<u8>) -> Seq<char> {
    "admin-api/dev/contexts/"@ + base58_of(context) + "/capabilities/grant"@
}

/// Builds the request that grants `capability` to `grantee` in a
/// context. Both identifiers are expected already resolved.
pub fn grant_call(context: &ResolvedId, grantee: ResolvedId, capability: Capability) -> (r: (
    ApiCall,
    GrantBody,
))
    ensures
        r.0.method == RequestType::Post,
        r.0.path@ == grant_path(context@),
        r.1.grantee@ == grantee@,
        r.1.capability == capability,
{
    let mut path = String::from_str("admin-api/dev/contexts/");
    let b58 = context.to_base58();
    path.append(b58.as_str());
    path.append("/capabilities/grant");
    proof {
        assert(path@ =~= grant_path(context@));
    }
    (ApiCall { method: RequestType::Post, path }, GrantBody { grantee, capability })
}

/// The body of an invite request: the context, the inviting identity
/// and the invited identity.
pub struct InviteBody {
    pub context_id: ResolvedId,
    pub inviter_id: ResolvedId,
    pub invitee_id: ResolvedId,
}

/// Builds the request that creates an invitation to a context.
pub fn invite_call(context_id: ResolvedId, inviter_id: ResolvedId, invitee_id: ResolvedId) -> (r: (
    ApiCall,
    InviteBody,
))
    ensures
        r.0.method == RequestType::Post,
        r.0.path@ == "admin-api/dev/contexts/invite"@,
        r.1.context_id@ == context_id@,
        r.1.inviter_id@ == inviter_id@,
        r.1.invitee_id@ == invitee_id@,
{
    (
        ApiCall {
            method: RequestType::Post,
            path: String::from_str("admin-api/dev/contexts/invite"),
        },
        InviteBody { context_id, inviter_id, invitee_id },
    )
}

/// The invitation payload out of a successful invite response. A
/// success response without one cannot serve this flow and is reported
/// as the missing-payload error.
pub fn invite_payload(data: Option<String>) -> (r: Result<String, ClientError>)
    ensures
        data matches Some(p) ==> (r matches Ok(q) && q@ == p@),
        data is None ==> (r matches Err(e) && e is MissingPayload),
{
    match data {
        Some(p) => Ok(p),
        None => Err(ClientError::MissingPayload),
    }
}

/// Builds the request that makes `identity` the default identity of a
/// context: it registers the conventional alias text "default" for the
/// identity, scoped by the context.
pub fn set_default_identity_call(context: &ResolvedId, identity: &ResolvedId) -> (r: (
    ApiCall,
    CreateAliasBody,
))
    ensures
        r.0.method == RequestType::Post,
        r.0.path@ == create_alias_path(EntityKind::Identity, Some(context@)),
        r.1.alias@ == "default"@,
        r.1.kind == EntityKind::Identity,
        r.1.value_b58@ == base58_of(identity@),
{
    let alias = default_alias(EntityKind::Identity);
    match create_alias_call(&alias, Some(context), identity) {
        Ok(call) => call,
        Err(_) => unreached(),
    }
}

} // verus!

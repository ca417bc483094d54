use vstd::prelude::*;
use vstd::string::StringExecFns;

use crate::alias::AliasName;
use crate::error::ClientError;
use crate::id::{base58_of, parse_id_spec, ResolvedId};
use crate::kind::EntityKind;

verus! {

/// The HTTP method a request goes out with.
#[derive(Clone, Copy, PartialEq, Eq, Structural, Debug)]
pub enum RequestType {
    Get,
    Post,
    Delete,
}

/// One outbound request, short of its body: the method and the path
/// below the configured base endpoint.
pub struct ApiCall {
    pub method: RequestType,
    pub path: String,
}

/// The body of an alias-creation request. The wire field that carries
/// the value is named after the kind, so the kind travels along for the
/// serializer.
pub struct CreateAliasBody {
    pub alias: String,
    pub kind: EntityKind,
    pub value_b58: String,
}

/// The path for registering an alias: the create prefix, the kind's
/// segment, and — for scoped kinds only — the scope identifier.
pub open spec fn create_alias_path(kind: EntityKind, scope: Option<Seq<u8>>) -> Seq<char> {
    "admin-api/dev/alias/create/"@ + kind.segment_spec() + (match scope {
        Some(s) => "/"@ + base58_of(s),
        None => Seq::<char>::empty(),
    })
}

/// The path for removing an alias: the delete prefix, the kind's
/// segment, the scope identifier for scoped kinds, and the alias text.
pub open spec fn delete_alias_path(
    kind: EntityKind,
    scope: Option<Seq<u8>>,
    alias: Seq<char>,
) -> Seq<char> {
    "admin-api/dev/alias/delete/"@ + kind.segment_spec() + "/"@ + (match scope {
        Some(s) => base58_of(s) + "/"@,
        None => Seq::<char>::empty(),
    }) + alias
}

/// The path for looking an alias up, shaped as the delete path is.
pub open spec fn lookup_alias_path(
    kind: EntityKind,
    scope: Option<Seq<u8>>,
    alias: Seq<char>,
) -> Seq<char> {
    "admin-api/dev/alias/lookup/"@ + kind.segment_spec() + "/"@ + (match scope {
        Some(s) => base58_of(s) + "/"@,
        None => Seq::<char>::empty(),
    }) + alias
}

/// The scope that actually reaches the wire: scoped kinds splice the
/// given scope in, unscoped kinds ignore one even when it is supplied.
pub open spec fn effective_scope(kind: EntityKind, scope: Option<Seq<u8>>) -> Option<Seq<u8>> {
    if kind.requires_scope_spec() {
        scope
    } else {
        None
    }
}

/// The spliced form of a scope for paths of the `<kind>/<scope>/<alias>`
/// shape: the scope's text and a trailing slash, or nothing for an
/// unscoped kind.
fn scope_then_slash(kind: EntityKind, scope: Option<&ResolvedId>) -> (r: Result<
    String,
    ClientError,
>)
    ensures
        kind.requires_scope_spec() && scope is None ==> (r matches Err(e) && e is ScopeMissing),
        !(kind.requires_scope_spec() && scope is None) ==> (r matches Ok(s) && s@ == (match
            effective_scope(
            kind,
            match scope {
                Some(id) => Some(id@),
                None => None,
            },
        ) {
            Some(b) => base58_of(b) + "/"@,
            None => Seq::<char>::empty(),
        })),
{
    if kind.requires_scope() {
        match scope {
            None => Err(ClientError::ScopeMissing),
            Some(id) => {
                let mut s = id.to_base58();
                s.append("/");
                proof {
                    reveal_strlit("/");
                    assert(s@ =~= base58_of(id@) + "/"@);
                }
                Ok(s)
            },
        }
    } else {
        Ok(String::new())
    }
}

/// Builds the request that registers `alias` for `value`. For a scoped
/// kind the scope is required at this call site: its absence is reported
/// as the caller bug it is, and nothing is sent. The method is POST.
pub fn create_alias_call(alias: &AliasName, scope: Option<&ResolvedId>, value: &ResolvedId) -> (r:
    Result<(ApiCall, CreateAliasBody), ClientError>)
    ensures
        alias.kind_spec().requires_scope_spec() && scope is None ==> (r matches Err(e)
            && e is ScopeMissing),
        !(alias.kind_spec().requires_scope_spec() && scope is None) ==> (r matches Ok(c)
            && c.0.method == RequestType::Post && c.0.path@ == create_alias_path(
            alias.kind_spec(),
            effective_scope(
                alias.kind_spec(),
                match scope {
                    Some(id) => Some(id@),
                    None => None,
                },
            ),
        ) && c.1.alias@ == alias@ && c.1.kind == alias.kind_spec() && c.1.value_b58@ == base58_of(
            value@,
        )),
{
    let kind = alias.kind();
    let mut path = String::from_str("admin-api/dev/alias/create/");
    path.append(kind.segment());
    if kind.requires_scope() {
        match scope {
            None => {
                return Err(ClientError::ScopeMissing);
            },
            Some(id) => {
                path.append("/");
                let b58 = id.to_base58();
                path.append(b58.as_str());
                proof {
                    reveal_strlit("/");
                    assert(path@ =~= create_alias_path(alias.kind_spec(), Some(id@)));
                }
            },
        }
    } else {
        proof {
            assert(path@ =~= create_alias_path(alias.kind_spec(), None));
        }
    }
    let body = CreateAliasBody {
        alias: String::from_str(alias.as_str()),
        kind,
        value_b58: value.to_base58(),
    };
    Ok((ApiCall { method: RequestType::Post, path }, body))
}

/// Builds the request that removes `alias`. Scope handling and method
/// are as for `create_alias_call`; the alias text ends the path.
pub fn delete_alias_call(alias: &AliasName, scope: Option<&ResolvedId>) -> (r: Result<
    ApiCall,
    ClientError,
>)
    ensures
        alias.kind_spec().requires_scope_spec() && scope is None ==> (r matches Err(e)
            && e is ScopeMissing),
        !(alias.kind_spec().requires_scope_spec() && scope is None) ==> (r matches Ok(c)
            && c.method == RequestType::Post && c.path@ == delete_alias_path(
            alias.kind_spec(),
            effective_scope(
                alias.kind_spec(),
                match scope {
                    Some(id) => Some(id@),
                    None => None,
                },
            ),
            alias@,
        )),
{
    let kind = alias.kind();
    let scoped = scope_then_slash(kind, scope)?;
    let mut path = String::from_str("admin-api/dev/alias/delete/");
    path.append(kind.segment());
    path.append("/");
    path.append(scoped.as_str());
    path.append(alias.as_str());
    proof {
        reveal_strlit("/");
        assert(path@ =~= delete_alias_path(
            alias.kind_spec(),
            effective_scope(
                alias.kind_spec(),
                match scope {
                    Some(id) => Some(id@),
                    None => None,
                },
            ),
            alias@,
        ));
    }
    Ok(ApiCall { method: RequestType::Post, path })
}

/// Builds the request that looks `alias` up. Scope handling and method
/// are as for `delete_alias_call`.
pub fn lookup_alias_call(alias: &AliasName, scope: Option<&ResolvedId>) -> (r: Result<
    ApiCall,
    ClientError,
>)
    ensures
        alias.kind_spec().requires_scope_spec() && scope is None ==> (r matches Err(e)
            && e is ScopeMissing),
        !(alias.kind_spec().requires_scope_spec() && scope is None) ==> (r matches Ok(c)
            && c.method == RequestType::Post && c.path@ == lookup_alias_path(
            alias.kind_spec(),
            effective_scope(
                alias.kind_spec(),
                match scope {
                    Some(id) => Some(id@),
                    None => None,
                },
            ),
            alias@,
        )),
{
    let kind = alias.kind();
    let scoped = scope_then_slash(kind, scope)?;
    let mut path = String::from_str("admin-api/dev/alias/lookup/");
    path.append(kind.segment());
    path.append("/");
    path.append(scoped.as_str());
    path.append(alias.as_str());
    proof {
        reveal_strlit("/");
        assert(path@ =~= lookup_alias_path(
            alias.kind_spec(),
            effective_scope(
                alias.kind_spec(),
                match scope {
                    Some(id) => Some(id@),
                    None => None,
                },
            ),
            alias@,
        ));
    }
    Ok(ApiCall { method: RequestType::Post, path })
}

/// The statuses the remote side uses for success.
pub open spec fn is_success_status(status: u16) -> bool {
    200 <= status < 300
}

/// Turns a non-success response into the remote error that carries the
/// status and the raw body text, verbatim. A success status passes.
pub fn check_status(status: u16, body: String) -> (r: Result<(), ClientError>)
    ensures
        is_success_status(status) ==> r is Ok,
        !is_success_status(status) ==> (r matches Err(ClientError::Remote {
            status_code,
            message,
        }) && status_code == status && message@ == body@),
{
    if 200 <= status && status < 300 {
        Ok(())
    } else {
        Err(ClientError::Remote { status_code: status, message: body })
    }
}

/// A lookup response body as the wire carries it: the bound value in its
/// canonical text form, or nothing when the alias is not registered.
pub struct LookupBody {
    pub value: Option<String>,
}

/// A successful lookup: the currently bound identifier, or an explicit
/// absence. Absence is a valid answer, not an error.
pub struct LookupResult {
    pub value: Option<ResolvedId>,
}

/// Reads a decoded lookup body. A body that could not be decoded at all
/// (`None`), or whose value is not a well-formed identifier, is the
/// fatal decode failure — kept distinct from a remote-reported error.
pub fn interpret_lookup_body(decoded: Option<LookupBody>) -> (r: Result<LookupResult, ClientError>)
    ensures
        decoded is None ==> (r matches Err(e) && e is Decode),
        decoded matches Some(b) ==> (match b.value {
            None => r matches Ok(lr) && lr.value is None,
            Some(text) => (match parse_id_spec(text@) {
                Some(bytes) => r matches Ok(lr) && (lr.value matches Some(id) && id@ == bytes),
                None => r matches Err(e) && e is Decode,
            }),
        }),
{
    match decoded {
        None => Err(ClientError::Decode),
        Some(b) => match b.value {
            None => Ok(LookupResult { value: None }),
            Some(text) => match ResolvedId::parse(text.as_str()) {
                Some(id) => Ok(LookupResult { value: Some(id) }),
                None => Err(ClientError::Decode),
            },
        },
    }
}

} // verus!

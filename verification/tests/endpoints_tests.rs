use meroctl::{
    grant_call, identities_call, invite_call, invite_payload, set_default_identity_call,
    Capability, ClientError, EntityKind, PeersCommand, RequestType, ResolvedId,
};

fn id_from(bytes: &[u8]) -> ResolvedId {
    ResolvedId::from_bytes(bytes.to_vec()).unwrap()
}

#[test]
fn peers_call_shape() {
    let call = PeersCommand.call();
    assert_eq!(call.method, RequestType::Get);
    assert_eq!(call.path, "admin-api/dev/peers");
}

#[test]
fn identities_call_shapes() {
    let context = id_from(&[0u8; 32]);
    let all = identities_call(&context, false);
    assert_eq!(all.method, RequestType::Get);
    assert_eq!(all.path, format!("admin-api/dev/contexts/{}/identities", "1".repeat(32)));
    let owned = identities_call(&context, true);
    assert_eq!(owned.path, format!("admin-api/dev/contexts/{}/identities-owned", "1".repeat(32)));
}

#[test]
fn grant_call_shape() {
    let context = id_from(&[0u8; 32]);
    let grantee = id_from(&[5u8; 32]);
    let (call, body) = grant_call(&context, grantee.clone(), Capability::ManageMembers);
    assert_eq!(call.method, RequestType::Post);
    assert_eq!(call.path, format!("admin-api/dev/contexts/{}/capabilities/grant", "1".repeat(32)));
    assert_eq!(body.grantee, grantee);
    assert_eq!(body.capability, Capability::ManageMembers);
}

#[test]
fn invite_call_shape() {
    let context = id_from(&[1u8; 32]);
    let inviter = id_from(&[2u8; 32]);
    let invitee = id_from(&[3u8; 32]);
    let (call, body) = invite_call(context.clone(), inviter.clone(), invitee.clone());
    assert_eq!(call.method, RequestType::Post);
    assert_eq!(call.path, "admin-api/dev/contexts/invite");
    assert_eq!(body.context_id, context);
    assert_eq!(body.inviter_id, inviter);
    assert_eq!(body.invitee_id, invitee);
}

#[test]
fn invite_payload_present_and_missing() {
    let p = invite_payload(Some("encoded".to_string())).unwrap();
    assert_eq!(p, "encoded");
    assert!(matches!(invite_payload(None), Err(ClientError::MissingPayload)));
}

#[test]
fn set_default_identity_call_shape() {
    let context = id_from(&[0u8; 32]);
    let identity = id_from(&[6u8; 32]);
    let (call, body) = set_default_identity_call(&context, &identity);
    assert_eq!(call.method, RequestType::Post);
    assert_eq!(call.path, format!("admin-api/dev/alias/create/identity/{}", "1".repeat(32)));
    assert_eq!(body.alias, "default");
    assert_eq!(body.kind, EntityKind::Identity);
    assert_eq!(body.value_b58, identity.to_base58());
}

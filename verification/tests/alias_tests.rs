use meroctl::{check_alias_text, default_alias, AliasName, ClientError, EntityKind};

#[test]
fn kind_segments() {
    assert_eq!(EntityKind::Context.segment(), "context");
    assert_eq!(EntityKind::Identity.segment(), "identity");
    assert_eq!(EntityKind::Application.segment(), "application");
}

#[test]
fn kind_scope_requirements() {
    assert!(!EntityKind::Context.requires_scope());
    assert!(EntityKind::Identity.requires_scope());
    assert!(!EntityKind::Application.requires_scope());
}

#[test]
fn alias_accepts_ordinary_names() {
    let a = AliasName::new(EntityKind::Context, "my-node.test_1".to_string()).unwrap();
    assert_eq!(a.as_str(), "my-node.test_1");
    assert_eq!(a.kind(), EntityKind::Context);
}

#[test]
fn alias_rejects_empty_text() {
    let r = AliasName::new(EntityKind::Context, String::new());
    assert!(matches!(r, Err(ClientError::InvalidAlias)));
}

#[test]
fn alias_accepts_maximum_length() {
    let text: String = "a".repeat(50);
    let a = AliasName::new(EntityKind::Application, text.clone()).unwrap();
    assert_eq!(a.as_str(), text);
}

#[test]
fn alias_rejects_overlong_text() {
    let text: String = "a".repeat(51);
    let r = AliasName::new(EntityKind::Application, text);
    assert!(matches!(r, Err(ClientError::InvalidAlias)));
}

#[test]
fn alias_rejects_path_breaking_characters() {
    for bad in ["a/b", "a b", "a\tb", "hello!", "x#y", "a\nb"] {
        let r = AliasName::new(EntityKind::Identity, bad.to_string());
        assert!(matches!(r, Err(ClientError::InvalidAlias)), "{bad}");
    }
}

#[test]
fn alias_rejects_non_ascii_text() {
    let r = AliasName::new(EntityKind::Context, "café".to_string());
    assert!(matches!(r, Err(ClientError::InvalidAlias)));
}

#[test]
fn alias_same_text_different_kinds_keep_their_kinds() {
    let a = AliasName::new(EntityKind::Context, "dev".to_string()).unwrap();
    let b = AliasName::new(EntityKind::Identity, "dev".to_string()).unwrap();
    assert_eq!(a.as_str(), b.as_str());
    assert_ne!(a.kind(), b.kind());
}

#[test]
fn check_alias_text_agrees_with_constructor() {
    assert!(check_alias_text("default"));
    assert!(check_alias_text("A1-b2_c3.d4"));
    assert!(!check_alias_text(""));
    assert!(!check_alias_text("with space"));
}

#[test]
fn default_alias_text_and_kind() {
    let a = default_alias(EntityKind::Identity);
    assert_eq!(a.as_str(), "default");
    assert_eq!(a.kind(), EntityKind::Identity);
}

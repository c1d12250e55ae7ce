use tauri_plugin_cblite::collection::{collection_name, collection_names, parse_collection};
use tauri_plugin_cblite::database::{plan_open_database, target_collection};
use tauri_plugin_cblite::replication::{
    choose_authentication, field_encryption_key, plan_replication, replicator_direction,
    Authentication, ReplicatorDirection, FIELD_ENCRYPTION_ROUNDS,
};
use tauri_plugin_cblite::session::PluginSession;

#[test]
fn parse_collection_splits_scope_and_name() {
    assert_eq!(parse_collection("inventory.items"), ("inventory", "items"));
    assert_eq!(parse_collection("_default.notes"), ("_default", "notes"));
}

#[test]
fn parse_collection_without_dot_uses_default_scope() {
    assert_eq!(parse_collection("notes"), ("_default", "notes"));
    assert_eq!(parse_collection(""), ("_default", ""));
}

#[test]
fn parse_collection_splits_at_first_dot_only() {
    assert_eq!(parse_collection("a.b.c"), ("a", "b.c"));
    assert_eq!(parse_collection(".x"), ("", "x"));
    assert_eq!(parse_collection("x."), ("x", ""));
    assert_eq!(parse_collection("é.ü"), ("é", "ü"));
}

#[test]
fn collection_names_keep_order() {
    let specs = vec!["_default.notes".to_string(), "users".to_string(), "s.c.d".to_string()];
    let names = collection_names(&specs);
    assert_eq!(names.len(), 3);
    assert_eq!((names[0].scope.as_str(), names[0].name.as_str()), ("_default", "notes"));
    assert_eq!((names[1].scope.as_str(), names[1].name.as_str()), ("_default", "users"));
    assert_eq!((names[2].scope.as_str(), names[2].name.as_str()), ("s", "c.d"));
    let one = collection_name("coding.tasks");
    assert_eq!((one.scope.as_str(), one.name.as_str()), ("coding", "tasks"));
}

#[test]
fn open_plan_drops_empty_password_and_parses_collections() {
    let p = plan_open_database(Some(String::new()), None);
    assert!(p.encryption_password.is_none());
    assert!(p.collections.is_empty());
    let p = plan_open_database(
        Some("secret".to_string()),
        Some(vec!["_default.notes".to_string(), "users".to_string()]),
    );
    assert_eq!(p.encryption_password.as_deref(), Some("secret"));
    assert_eq!(p.collections.len(), 2);
    assert_eq!(p.collections[1].scope, "_default");
    assert_eq!(p.collections[1].name, "users");
    let p = plan_open_database(None, Some(vec![]));
    assert!(p.encryption_password.is_none());
    assert!(p.collections.is_empty());
}

#[test]
fn target_collection_needs_open_database() {
    let mut session: PluginSession<u32, (), (), ()> = PluginSession::new();
    assert_eq!(target_collection(&session, "a.b").unwrap_err(), "Database not open");
    session.open(7, vec![]);
    let (db, c) = target_collection(&session, "a.b").unwrap();
    assert_eq!(*db, 7);
    assert_eq!((c.scope.as_str(), c.name.as_str()), ("a", "b"));
}

#[test]
fn direction_names() {
    assert_eq!(replicator_direction("push"), ReplicatorDirection::Push);
    assert_eq!(replicator_direction("pull"), ReplicatorDirection::Pull);
    assert_eq!(replicator_direction("both"), ReplicatorDirection::PushAndPull);
    assert_eq!(replicator_direction("PUSH"), ReplicatorDirection::PushAndPull);
    assert_eq!(replicator_direction(""), ReplicatorDirection::PushAndPull);
}

#[test]
fn session_authentication_preferred() {
    match choose_authentication(Some("alice"), Some("pw"), Some("abc123"), None) {
        Authentication::Session { session_id, cookie_name } => {
            assert_eq!(session_id, "abc123");
            assert_eq!(cookie_name, "SyncGatewaySession");
        }
        other => panic!("expected session auth, got {:?}", other),
    }
    match choose_authentication(None, None, Some("abc123"), Some("MyCookie")) {
        Authentication::Session { cookie_name, .. } => assert_eq!(cookie_name, "MyCookie"),
        other => panic!("expected session auth, got {:?}", other),
    }
}

#[test]
fn basic_authentication_needs_user_and_password() {
    match choose_authentication(Some("alice"), Some("secret"), Some(""), None) {
        Authentication::Password { username, password } => {
            assert_eq!(username, "alice");
            assert_eq!(password, "secret");
        }
        other => panic!("expected basic auth, got {:?}", other),
    }
    match choose_authentication(Some("alice"), Some(""), None, None) {
        Authentication::Password { password, .. } => assert_eq!(password, ""),
        other => panic!("expected basic auth, got {:?}", other),
    }
    assert!(matches!(choose_authentication(Some(""), Some("x"), None, None), Authentication::Anonymous));
    assert!(matches!(choose_authentication(Some("alice"), None, None, None), Authentication::Anonymous));
    assert!(matches!(choose_authentication(None, None, None, None), Authentication::Anonymous));
}

fn expected_key(password: &str, salt: &[u8]) -> [u8; 32] {
    let mut key = [0u8; 32];
    pbkdf2::pbkdf2::<hmac::Hmac<sha2::Sha256>>(password.as_bytes(), salt, 100_000, &mut key).unwrap();
    key
}

#[test]
fn field_encryption_key_derivation() {
    assert_eq!(FIELD_ENCRYPTION_ROUNDS, 100_000);
    assert_eq!(field_encryption_key(None, Some("c2FsdA==")), Ok(None));
    assert_eq!(field_encryption_key(Some("pw"), None), Ok(None));
    assert_eq!(field_encryption_key(Some(""), Some("c2FsdA==")), Ok(None));
    assert_eq!(field_encryption_key(Some("pw"), Some("")), Ok(None));
    // "c2FsdA==" is base64 for "salt".
    let key = field_encryption_key(Some("pw"), Some("c2FsdA==")).unwrap().unwrap();
    assert_eq!(key, expected_key("pw", b"salt"));
    assert_ne!(key, [0u8; 32]);
    let other = field_encryption_key(Some("pw2"), Some("c2FsdA==")).unwrap().unwrap();
    assert_ne!(key, other);
}

#[test]
fn field_encryption_rejects_bad_salt() {
    assert_eq!(
        field_encryption_key(Some("pw"), Some("!!!!")),
        Err("invalid salt: Invalid symbol 33, offset 0.".to_string())
    );
    assert_eq!(
        field_encryption_key(Some("pw"), Some("c2FsdA")),
        Err("invalid salt: Invalid padding".to_string())
    );
}

#[test]
fn replication_plan_fixed_settings() {
    let plan = plan_replication("pull", vec!["public".to_string()], Some("alice"), Some("pw"), None, None, None, None).unwrap();
    assert_eq!(plan.direction, ReplicatorDirection::Pull);
    assert!(plan.continuous);
    assert!(plan.disable_auto_purge);
    assert_eq!(plan.max_attempts, 5);
    assert_eq!(plan.max_attempt_wait_time, 10);
    assert_eq!(plan.heartbeat, 30);
    assert_eq!(plan.headers, vec![("Accept".to_string(), "application/json".to_string())]);
    assert!(plan.accept_parent_domain_cookies);
    assert!(plan.field_encryption_key.is_none());
    assert!(matches!(plan.authentication, Authentication::Password { .. }));
    assert_eq!(plan.channels, vec!["public".to_string()]);
}

#[test]
fn replication_needs_a_channel() {
    let err = plan_replication("pull", vec![], None, None, None, None, None, None).unwrap_err();
    assert_eq!(err, "start_replication needs at least one channel");
    // The channel check comes before the salt is read.
    let err = plan_replication("pull", vec![], None, None, None, None, Some("pw"), Some("!")).unwrap_err();
    assert_eq!(err, "start_replication needs at least one channel");
}

#[test]
fn replication_plan_with_field_encryption() {
    let plan = plan_replication("both", vec!["a".to_string(), "b".to_string()], None, None, Some("sid"), None, Some("pw"), Some("c2FsdA==")).unwrap();
    assert_eq!(plan.direction, ReplicatorDirection::PushAndPull);
    assert_eq!(plan.field_encryption_key, Some(expected_key("pw", b"salt")));
    assert!(matches!(plan.authentication, Authentication::Session { .. }));
    assert_eq!(plan.channels, vec!["a".to_string(), "b".to_string()]);
    let err = plan_replication("push", vec!["public".to_string()], None, None, None, None, Some("pw"), Some("a")).unwrap_err();
    assert_eq!(err, "invalid salt: Invalid input length: 1");
}

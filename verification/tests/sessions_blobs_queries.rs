use tauri_plugin_cblite::blobs::{blob_data_response, decode_blob_data, encode_blob_content, prepare_blob_save};
use tauri_plugin_cblite::documents::{
    document_response, fields_to_encrypt, merge_properties, stored_properties, DocumentLookup,
};
use tauri_plugin_cblite::events::{
    activity_label, replication_status_event, ActivityLevel, COLLECTION_CHANGED, REPLICATION_STATUS,
};
use tauri_plugin_cblite::peer::{
    peer_listener_status, plan_peer_listener, ListenerSnapshot, PeerState,
};
use tauri_plugin_cblite::prediction::{plan_predictive_model, ModelSource, PredictionRegistry};
use tauri_plugin_cblite::query::{
    collect_rows, parameter_bindings, query_language, ParamBinding, ParamValue, QueryLanguage,
};
use tauri_plugin_cblite::session::PluginSession;

type Session = PluginSession<&'static str, u8, u16, String>;

#[test]
fn session_open_close_and_replicator() {
    let mut s: Session = PluginSession::new();
    assert!(!s.is_open());
    assert_eq!(s.database().unwrap_err(), "Database not open");
    assert!(s.take_replicator().is_none());
    assert!(s.open("db1", vec![1, 2]).is_none());
    assert!(s.is_open());
    assert_eq!(*s.database().unwrap(), "db1");
    assert_eq!(s.state.as_ref().unwrap().coll_listeners, vec![1, 2]);
    assert!(s.state.as_ref().unwrap().listeners.is_empty());
    assert!(s.install_replicator("r1".to_string()).is_none());
    assert_eq!(s.install_replicator("r2".to_string()), Some("r1".to_string()));
    assert_eq!(s.take_replicator(), Some("r2".to_string()));
    assert_eq!(s.take_replicator(), None);
    assert_eq!(*s.database().unwrap(), "db1");
    s.install_replicator("r3".to_string());
    let previous = s.open("db2", vec![]).unwrap();
    assert_eq!(previous.db, "db1");
    assert_eq!(previous.replicator, Some("r3".to_string()));
    assert!(s.state.as_ref().unwrap().replicator.is_none());
    let closed = s.close().unwrap();
    assert_eq!(closed.db, "db2");
    assert!(!s.is_open());
    assert_eq!(s.database().unwrap_err(), "Database not open");
    assert!(s.close().is_none());
}

#[test]
fn blob_payload_decoding() {
    assert_eq!(decode_blob_data("aGVsbG8="), Ok(b"hello".to_vec()));
    assert_eq!(decode_blob_data(""), Ok(vec![]));
    assert_eq!(
        decode_blob_data("aGVsbG8"),
        Err("base64 decode error: Invalid padding".to_string())
    );
    assert_eq!(
        decode_blob_data("aGV*bG8="),
        Err("base64 decode error: Invalid symbol 42, offset 3.".to_string())
    );
    assert_eq!(
        decode_blob_data("aGVsbG9="),
        Err("base64 decode error: Invalid last symbol 57, offset 6.".to_string())
    );
}

#[test]
fn blob_content_encoding_round_trips() {
    assert_eq!(encode_blob_content(b"hello"), "aGVsbG8=");
    assert_eq!(encode_blob_content(b""), "");
    assert_eq!(encode_blob_content(b"f"), "Zg==");
    assert_eq!(encode_blob_content(b"fo"), "Zm8=");
    assert_eq!(encode_blob_content(b"foo"), "Zm9v");
    assert_eq!(encode_blob_content(&[0xFF, 0xEC, 0x20, 0x55, 0]), "/+wgVQA=");
    let bytes: Vec<u8> = (0..=255u8).collect();
    assert_eq!(decode_blob_data(&encode_blob_content(&bytes)), Ok(bytes));
}

#[test]
fn blob_save_decodes_before_checking_database() {
    let mut s: Session = PluginSession::new();
    assert_eq!(
        prepare_blob_save(&s, "!").unwrap_err(),
        "base64 decode error: Invalid symbol 33, offset 0."
    );
    assert_eq!(prepare_blob_save(&s, "aGk=").unwrap_err(), "Database not open");
    s.open("db", vec![]);
    let (db, bytes) = prepare_blob_save(&s, "aGk=").unwrap();
    assert_eq!(*db, "db");
    assert_eq!(bytes, b"hi".to_vec());
}

#[test]
fn blob_data_response_found_and_missing() {
    assert_eq!(blob_data_response("sha1-abc", Some(b"hi")), Ok("aGk=".to_string()));
    assert_eq!(
        blob_data_response("sha1-abc", None),
        Err("Blob not found: sha1-abc".to_string())
    );
}

#[test]
fn query_language_is_case_insensitive_json() {
    assert_eq!(query_language("json"), QueryLanguage::Json);
    assert_eq!(query_language("JSON"), QueryLanguage::Json);
    assert_eq!(query_language("JsOn"), QueryLanguage::Json);
    assert_eq!(query_language("N1QL"), QueryLanguage::N1ql);
    assert_eq!(query_language("jsonx"), QueryLanguage::N1ql);
    assert_eq!(query_language(""), QueryLanguage::N1ql);
    assert_eq!(query_language("ǰson"), QueryLanguage::N1ql);
}

#[test]
fn unparsable_rows_are_dropped_in_order() {
    let rows: Vec<Result<i32, String>> = vec![Ok(1), Err("bad".into()), Ok(3), Err("x".into()), Ok(5)];
    assert_eq!(collect_rows(rows), vec![1, 3, 5]);
    let none: Vec<Result<i32, String>> = vec![Err("bad".into())];
    assert!(collect_rows(none).is_empty());
}

#[test]
fn parameters_bind_by_kind() {
    let params = vec![
        ("type".to_string(), ParamValue::Text("reminder".to_string())),
        ("n".to_string(), ParamValue::Number(2.5f64)),
        ("flag".to_string(), ParamValue::Bool(true)),
        ("list".to_string(), ParamValue::Other),
    ];
    let b = parameter_bindings(Some(params));
    assert_eq!(b.len(), 4);
    assert!(matches!(&b[0], (k, ParamBinding::Text(v)) if k == "type" && v == "reminder"));
    assert!(matches!(&b[1], (k, ParamBinding::Number(v)) if k == "n" && *v == 2.5));
    assert!(matches!(&b[2], (k, ParamBinding::Bool(true)) if k == "flag"));
    assert!(matches!(&b[3], (k, ParamBinding::Null) if k == "list"));
    assert!(parameter_bindings::<f64>(None).is_empty());
}

#[test]
fn merge_keeps_stored_keys_and_takes_body_values() {
    let stored = vec![("title".to_string(), 1), ("content".to_string(), 2)];
    let body = vec![("title".to_string(), 10), ("tag".to_string(), 30)];
    let merged = merge_properties(stored, body);
    assert_eq!(
        merged,
        vec![("content".to_string(), 2), ("title".to_string(), 10), ("tag".to_string(), 30)]
    );
    let fresh = merge_properties(vec![], vec![("a".to_string(), 1)]);
    assert_eq!(fresh, vec![("a".to_string(), 1)]);
    let unchanged = merge_properties(vec![("a".to_string(), 1)], vec![]);
    assert_eq!(unchanged, vec![("a".to_string(), 1)]);
}

#[test]
fn only_string_fields_are_encrypted() {
    let requested = vec![
        ("ssn".to_string(), Some("123".to_string())),
        ("age".to_string(), None),
        ("card".to_string(), Some("4111".to_string())),
    ];
    assert_eq!(
        fields_to_encrypt(requested),
        vec![("ssn".to_string(), "123".to_string()), ("card".to_string(), "4111".to_string())]
    );
}

#[test]
fn missing_document_is_null() {
    assert_eq!(document_response(DocumentLookup::Found(5)), Ok(Some(5)));
    assert_eq!(document_response::<i32>(DocumentLookup::NotFound), Ok(None));
    assert_eq!(
        document_response::<i32>(DocumentLookup::Failed("boom".to_string())),
        Err("boom".to_string())
    );
}

#[test]
fn event_names_and_status_payload() {
    assert_eq!(COLLECTION_CHANGED, "cblite://collection-changed");
    assert_eq!(REPLICATION_STATUS, "cblite://replication-status");
    assert_eq!(activity_label(ActivityLevel::Stopped), "Stopped");
    assert_eq!(activity_label(ActivityLevel::Offline), "Offline");
    assert_eq!(activity_label(ActivityLevel::Connecting), "Connecting");
    assert_eq!(activity_label(ActivityLevel::Idle), "Idle");
    assert_eq!(activity_label(ActivityLevel::Busy), "Busy");
    let e = replication_status_event(None, ActivityLevel::Busy, None);
    assert_eq!(e.replicator, "default");
    assert_eq!(e.activity, "Busy");
    assert!(e.error.is_none());
    let e = replication_status_event(Some("peer"), ActivityLevel::Stopped, Some("handshake failed".into()));
    assert_eq!(e.replicator, "peer");
    assert_eq!(e.activity, "Stopped");
    assert_eq!(e.error.as_deref(), Some("handshake failed"));
}

#[test]
fn peer_status_without_listener_is_zero() {
    let s = peer_listener_status(None);
    assert!(!s.listening);
    assert_eq!(s.port, 0);
    assert_eq!(s.connections, 0);
    assert_eq!(s.active_connections, 0);
    assert!(s.urls.is_empty());
    let s = peer_listener_status(Some(ListenerSnapshot {
        port: 4984,
        connection_count: 3,
        active_connection_count: 1,
        urls: vec!["ws://10.0.0.2:4984/db".to_string()],
    }));
    assert!(s.listening);
    assert_eq!(s.port, 4984);
    assert_eq!(s.connections, 3);
    assert_eq!(s.active_connections, 1);
    assert_eq!(s.urls, vec!["ws://10.0.0.2:4984/db".to_string()]);
}

#[test]
fn peer_listener_plan_checks() {
    let mut s: Session = PluginSession::new();
    assert_eq!(
        plan_peer_listener(&s, &vec!["a.b".to_string()], None, None).unwrap_err(),
        "Database not open"
    );
    s.open("db", vec![]);
    assert_eq!(
        plan_peer_listener(&s, &vec![], Some(1), None).unwrap_err(),
        "start_peer_listener needs at least one collection"
    );
    let (db, plan) = plan_peer_listener(&s, &vec!["a.b".to_string(), "c".to_string()], None, None).unwrap();
    assert_eq!(*db, "db");
    assert_eq!(plan.port, 0);
    assert!(!plan.read_only);
    assert!(!plan.enable_delta_sync);
    assert_eq!(plan.collections.len(), 2);
    assert_eq!(plan.collections[1].scope, "_default");
    let (_, plan) = plan_peer_listener(&s, &vec!["x".to_string()], Some(5000), Some(true)).unwrap();
    assert_eq!(plan.port, 5000);
    assert!(plan.read_only);
}

#[test]
fn replacing_a_listener_hands_back_the_old_one() {
    let mut p: PeerState<&str> = PeerState::new();
    assert!(p.listener.is_none());
    assert_eq!(p.install("first"), None);
    assert_eq!(p.install("second"), Some("first"));
    assert_eq!(p.take(), Some("second"));
    assert_eq!(p.take(), None);
}

#[test]
fn predictive_model_defaults() {
    let m = plan_predictive_model(None, None, None);
    assert!(matches!(m.source, ModelSource::FixedScore));
    assert_eq!(m.input_field, "input");
    assert_eq!(m.output_field, "output");
    let m = plan_predictive_model(Some("/m.onnx".into()), Some("embedding".into()), Some("scores".into()));
    assert!(matches!(&m.source, ModelSource::Onnx(p) if p == "/m.onnx"));
    assert_eq!(m.input_field, "embedding");
    assert_eq!(m.output_field, "scores");
}

#[test]
fn registry_tracks_names() {
    let mut r = PredictionRegistry::new();
    assert!(!r.contains("sentiment"));
    r.insert("sentiment".to_string());
    r.insert("sentiment".to_string());
    r.insert("other".to_string());
    assert!(r.contains("sentiment"));
    assert!(r.contains("other"));
    r.remove("sentiment");
    assert!(!r.contains("sentiment"));
    assert!(r.contains("other"));
    r.remove("missing");
    assert!(r.contains("other"));
}

#[test]
fn saving_the_same_body_twice_merges_once() {
    let stored = vec![("a".to_string(), 1), ("b".to_string(), 2)];
    let body = vec![("b".to_string(), 20)];
    let once = merge_properties(stored, body.clone());
    let twice = merge_properties(once.clone(), body);
    assert_eq!(once, twice);
}

#[test]
fn decoded_payload_encodes_back_to_itself() {
    for payload in ["", "Zg==", "Zm8=", "Zm9v", "aGVsbG8=", "/+wgVQA="] {
        let bytes = decode_blob_data(payload).unwrap();
        assert_eq!(blob_data_response("d", Some(&bytes)), Ok(payload.to_string()));
    }
    // Non-canonical forms are refused rather than read loosely.
    assert!(decode_blob_data("Zg").is_err());
    assert!(decode_blob_data("Zh==").is_err());
    assert!(decode_blob_data(" Zg==").is_err());
}

#[test]
fn merged_keys_stay_distinct() {
    let stored = vec![("a".to_string(), 1), ("b".to_string(), 2), ("c".to_string(), 3)];
    let body = vec![("c".to_string(), 30), ("d".to_string(), 40), ("a".to_string(), 10)];
    let merged = merge_properties(stored, body);
    let mut keys: Vec<&str> = merged.iter().map(|(k, _)| k.as_str()).collect();
    keys.sort();
    assert_eq!(keys, vec!["a", "b", "c", "d"]);
    assert_eq!(merged.iter().find(|(k, _)| k == "a").unwrap().1, 10);
    assert_eq!(merged.iter().find(|(k, _)| k == "b").unwrap().1, 2);
}

#[test]
fn save_merges_only_into_what_was_read() {
    assert_eq!(stored_properties(DocumentLookup::Found(vec![1, 2])), Ok(vec![1, 2]));
    assert_eq!(stored_properties::<i32>(DocumentLookup::NotFound), Ok(vec![]));
    assert_eq!(
        stored_properties::<i32>(DocumentLookup::Failed("busy".to_string())),
        Err("busy".to_string())
    );
}

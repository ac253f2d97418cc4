//! Snapshot export/import behaviour, the result envelope, and error texts.

use mls_session::client::MlsClient;
use mls_session::errors::MlsError;
use mls_session::JsResult;

fn new_client(name: &str) -> MlsClient {
    MlsClient::new(name).expect("client creation")
}

#[test]
fn export_encodes_credential_exactly() {
    let a = new_client("alice");
    let snapshot = a.export_state().expect("export");
    // "alice" in standard base64.
    assert_eq!(snapshot.credential, "YWxpY2U=");
    assert!(!snapshot.signature_key.is_empty());
    assert_eq!(snapshot.groups.len(), 0);
}

#[test]
fn export_import_round_trip_preserves_ids_and_epochs() {
    let mut a = new_client("alice");
    let b = new_client("bob");
    let g1 = a.create_group("first").expect("create");
    let g2 = a.create_group("second").expect("create");
    let kp = b.generate_key_packages(1).expect("issue");
    a.add_members(&g1.group_id, vec![kp[0].data.clone()]).expect("add members");

    let snapshot = a.export_state().expect("export");
    assert_eq!(snapshot.groups.len(), 2);

    let restored = MlsClient::import_state(&snapshot).expect("import");
    assert_eq!(restored.get_epoch(&g1.group_id).expect("epoch"), 1);
    assert_eq!(restored.get_epoch(&g2.group_id).expect("epoch"), 0);

    // The re-exported snapshot carries the same ids, wire ids, epochs and
    // membership trees.
    let again = restored.export_state().expect("re-export");
    assert_eq!(again.credential, snapshot.credential);
    assert_eq!(again.groups.len(), snapshot.groups.len());
    for (x, y) in snapshot.groups.iter().zip(again.groups.iter()) {
        assert_eq!(x.id, y.id);
        assert_eq!(x.mls_group_id, y.mls_group_id);
        assert_eq!(x.epoch, y.epoch);
        assert_eq!(x.state, y.state);
    }
}

#[test]
fn imported_client_refuses_protocol_operations() {
    let mut a = new_client("alice");
    let g = a.create_group("room").expect("create");
    let snapshot = a.export_state().expect("export");
    let mut restored = MlsClient::import_state(&snapshot).expect("import");
    assert!(matches!(restored.generate_key_packages(1), Err(MlsError::NotLive)));
    assert!(matches!(restored.encrypt(&g.group_id, &b"x".to_vec()), Err(MlsError::NotLive)));
    assert!(matches!(restored.create_group("another"), Err(MlsError::NotLive)));
}

#[test]
fn import_rejects_corrupt_entry_atomically() {
    let mut a = new_client("alice");
    a.create_group("room").expect("create");
    let mut snapshot = a.export_state().expect("export");
    snapshot.groups[0].state = "not base64!".to_string();
    assert!(matches!(MlsClient::import_state(&snapshot), Err(MlsError::InvalidEncoding)));
}

#[test]
fn import_rejects_corrupt_credential() {
    let a = new_client("alice");
    let mut snapshot = a.export_state().expect("export");
    snapshot.credential = "***".to_string();
    assert!(matches!(MlsClient::import_state(&snapshot), Err(MlsError::InvalidEncoding)));
}

#[test]
fn result_envelope_is_consistent() {
    let ok: JsResult<u64> = JsResult::ok(7);
    assert!(ok.ok);
    assert_eq!(ok.value, Some(7));
    assert!(ok.error.is_none());

    let err: JsResult<u64> = JsResult::err("boom".to_string());
    assert!(!err.ok);
    assert!(err.value.is_none());
    assert_eq!(err.error, Some("boom".to_string()));
}

#[test]
fn error_texts_match_their_variants() {
    assert_eq!(MlsError::GroupNotFound.as_text(), "Group not found");
    assert_eq!(MlsError::InvalidEncoding.as_text(), "Invalid base64 input");
    assert_eq!(MlsError::WrongMessageType.as_text(), "Message is not a Welcome");
    assert_eq!(MlsError::Engine("entropy drained".to_string()).as_text(), "entropy drained");
}

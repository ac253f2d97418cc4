//! End-to-end protocol scenarios over the real OpenMLS engine.

use base64::Engine;
use mls_session::client::InboundOutcome;
use mls_session::client::MlsClient;
use mls_session::errors::MlsError;

fn new_client(name: &str) -> MlsClient {
    MlsClient::new(name).expect("client creation")
}

#[test]
fn issue_zero_key_packages() {
    let a = new_client("alice");
    let packages = a.generate_key_packages(0).expect("issue");
    assert_eq!(packages.len(), 0);
}

#[test]
fn issue_one_key_package() {
    let a = new_client("alice");
    let packages = a.generate_key_packages(1).expect("issue");
    assert_eq!(packages.len(), 1);
    assert!(!packages[0].id.is_empty());
    assert!(!packages[0].data.is_empty());
}

#[test]
fn issue_fifty_key_packages_distinct_ids() {
    let a = new_client("alice");
    let packages = a.generate_key_packages(50).expect("issue");
    assert_eq!(packages.len(), 50);
    for i in 0..packages.len() {
        for j in 0..i {
            assert_ne!(packages[i].id, packages[j].id, "ids must be pairwise distinct");
        }
    }
}

#[test]
fn create_group_starts_at_epoch_zero() {
    let mut a = new_client("alice");
    let created = a.create_group("room").expect("create");
    assert_eq!(a.get_epoch(&created.group_id).expect("epoch"), 0);
    assert!(!created.mls_group_id.is_empty());
}

#[test]
fn add_members_advances_epoch_to_one() {
    let mut a = new_client("alice");
    let b = new_client("bob");
    let created = a.create_group("room").expect("create");
    let kp = b.generate_key_packages(1).expect("issue");
    let result = a
        .add_members(&created.group_id, vec![kp[0].data.clone()])
        .expect("add members");
    assert_eq!(a.get_epoch(&created.group_id).expect("epoch"), 1);
    assert!(!result.commit.is_empty());
    assert_eq!(result.welcomes.len(), 1);
    assert_eq!(result.welcomes[0].key_package_ref, kp[0].id);
}

#[test]
fn full_join_scenario() {
    // A creates G (epoch 0), B publishes one key package, A adds B:
    // A's epoch becomes 1 and a commit and welcome are produced; B joins
    // from the welcome and sees epoch 1 too.
    let mut a = new_client("alice");
    let mut b = new_client("bob");
    let created = a.create_group("room").expect("create");
    assert_eq!(a.get_epoch(&created.group_id).expect("epoch"), 0);
    let kp = b.generate_key_packages(1).expect("issue");
    let result = a
        .add_members(&created.group_id, vec![kp[0].data.clone()])
        .expect("add members");
    assert_eq!(a.get_epoch(&created.group_id).expect("epoch"), 1);
    let joined = b.join_group(&result.welcomes[0].welcome).expect("join");
    assert_eq!(b.get_epoch(&joined.group_id).expect("epoch"), 1);
    // Both sides agree on the wire-level group id.
    assert_eq!(joined.mls_group_id, created.mls_group_id);
}

#[test]
fn encrypt_decrypt_round_trip() {
    let mut a = new_client("alice");
    let mut b = new_client("bob");
    let created = a.create_group("room").expect("create");
    let kp = b.generate_key_packages(1).expect("issue");
    let result = a
        .add_members(&created.group_id, vec![kp[0].data.clone()])
        .expect("add members");
    let joined = b.join_group(&result.welcomes[0].welcome).expect("join");

    let plaintext = b"hello, sealed world".to_vec();
    let encrypted = a.encrypt(&created.group_id, &plaintext).expect("encrypt");
    assert_eq!(encrypted.epoch, 1);
    match b.decrypt(&joined.group_id, &encrypted.ciphertext).expect("decrypt") {
        InboundOutcome::Plaintext(message) => {
            assert_eq!(message.plaintext, plaintext);
            assert_eq!(message.sender_index, 0);
        },
        InboundOutcome::CommitApplied => panic!("expected plaintext, got a commit"),
    }
}

#[test]
fn decrypt_after_epoch_advance_fails() {
    let mut a = new_client("alice");
    let mut b = new_client("bob");
    let mut c = new_client("carol");
    let created = a.create_group("room").expect("create");
    let kp_b = b.generate_key_packages(1).expect("issue");
    let add_b = a
        .add_members(&created.group_id, vec![kp_b[0].data.clone()])
        .expect("add bob");
    let joined = b.join_group(&add_b.welcomes[0].welcome).expect("join");

    // A message sealed at epoch 1, left undelivered while the group moves on.
    let stale = a.encrypt(&created.group_id, &b"late".to_vec()).expect("encrypt");

    let kp_c = c.generate_key_packages(1).expect("issue");
    let add_c = a
        .add_members(&created.group_id, vec![kp_c[0].data.clone()])
        .expect("add carol");
    match b.decrypt(&joined.group_id, &add_c.commit).expect("process commit") {
        InboundOutcome::CommitApplied => {},
        InboundOutcome::Plaintext(_) => panic!("expected a commit"),
    }
    assert_eq!(b.get_epoch(&joined.group_id).expect("epoch"), 2);

    // The stale ciphertext is refused, never decrypted to garbage.
    let outcome = b.decrypt(&joined.group_id, &stale.ciphertext);
    assert!(matches!(outcome, Err(MlsError::Engine(_))));
}

#[test]
fn inbound_commit_advances_epoch() {
    let mut a = new_client("alice");
    let mut b = new_client("bob");
    let mut c = new_client("carol");
    let created = a.create_group("room").expect("create");
    let kp_b = b.generate_key_packages(1).expect("issue");
    let add_b = a
        .add_members(&created.group_id, vec![kp_b[0].data.clone()])
        .expect("add bob");
    let joined = b.join_group(&add_b.welcomes[0].welcome).expect("join");
    assert_eq!(b.get_epoch(&joined.group_id).expect("epoch"), 1);

    let kp_c = c.generate_key_packages(1).expect("issue");
    let add_c = a
        .add_members(&created.group_id, vec![kp_c[0].data.clone()])
        .expect("add carol");
    match b.decrypt(&joined.group_id, &add_c.commit).expect("process commit") {
        InboundOutcome::CommitApplied => {},
        InboundOutcome::Plaintext(_) => panic!("expected a commit"),
    }
    assert_eq!(b.get_epoch(&joined.group_id).expect("epoch"), 2);
}

#[test]
fn process_inbound_unknown_group_fails_not_found() {
    let mut a = new_client("alice");
    let outcome = a.decrypt("no-such-group", "AQIDBA==");
    assert!(matches!(outcome, Err(MlsError::GroupNotFound)));
}

#[test]
fn unknown_group_everywhere() {
    let mut a = new_client("alice");
    assert!(matches!(a.get_epoch("missing"), Err(MlsError::GroupNotFound)));
    assert!(matches!(a.encrypt("missing", &b"x".to_vec()), Err(MlsError::GroupNotFound)));
    assert!(matches!(a.add_members("missing", vec![]), Err(MlsError::GroupNotFound)));
}

#[test]
fn add_members_is_atomic_on_invalid_package() {
    let mut a = new_client("alice");
    let b = new_client("bob");
    let created = a.create_group("room").expect("create");
    let mut packages: Vec<String> = b
        .generate_key_packages(3)
        .expect("issue")
        .into_iter()
        .map(|p| p.data)
        .collect();
    // Valid base64 of bytes that are not a key package.
    packages[1] = "AQIDBA==".to_string();
    let outcome = a.add_members(&created.group_id, packages);
    assert!(matches!(outcome, Err(MlsError::InvalidKeyPackage)));
    // The failed call left the group untouched: still epoch 0, and a clean
    // add still works afterwards.
    assert_eq!(a.get_epoch(&created.group_id).expect("epoch"), 0);
    let retry = b.generate_key_packages(1).expect("issue");
    a.add_members(&created.group_id, vec![retry[0].data.clone()]).expect("clean add");
    assert_eq!(a.get_epoch(&created.group_id).expect("epoch"), 1);
}

#[test]
fn add_members_rejects_bad_base64() {
    let mut a = new_client("alice");
    let created = a.create_group("room").expect("create");
    let outcome = a.add_members(&created.group_id, vec!["not base64!".to_string()]);
    assert!(matches!(outcome, Err(MlsError::InvalidEncoding)));
    assert_eq!(a.get_epoch(&created.group_id).expect("epoch"), 0);
}

#[test]
fn join_group_rejects_bad_base64() {
    let mut a = new_client("alice");
    assert!(matches!(a.join_group("***"), Err(MlsError::InvalidEncoding)));
}

#[test]
fn join_group_rejects_non_welcome_frame() {
    let mut a = new_client("alice");
    let mut b = new_client("bob");
    let b_kp = b.generate_key_packages(1).expect("issue");
    let created = a.create_group("room").expect("create");
    let result = a
        .add_members(&created.group_id, vec![b_kp[0].data.clone()])
        .expect("add members");
    // A commit frame parses as a protocol message but is not a welcome.
    let outcome = b.join_group(&result.commit);
    assert!(matches!(outcome, Err(MlsError::WrongMessageType)));
}

#[test]
fn decrypt_rejects_bad_base64() {
    let mut a = new_client("alice");
    let created = a.create_group("room").expect("create");
    let outcome = a.decrypt(&created.group_id, "@@@");
    assert!(matches!(outcome, Err(MlsError::InvalidEncoding)));
}

#[test]
fn own_echo_is_refused_explicitly() {
    let mut a = new_client("alice");
    let b = new_client("bob");
    let created = a.create_group("room").expect("create");
    let kp = b.generate_key_packages(1).expect("issue");
    a.add_members(&created.group_id, vec![kp[0].data.clone()]).expect("add members");
    let encrypted = a.encrypt(&created.group_id, &b"to myself".to_vec()).expect("encrypt");
    // The delivery service fans the client's own message back to it.
    let outcome = a.decrypt(&created.group_id, &encrypted.ciphertext);
    assert!(matches!(outcome, Err(MlsError::UnsupportedMessage)));
}

#[test]
fn commit_in_one_group_leaves_others_unchanged() {
    let mut a = new_client("alice");
    let b = new_client("bob");
    let g1 = a.create_group("first").expect("create");
    let g2 = a.create_group("second").expect("create");
    let kp = b.generate_key_packages(1).expect("issue");
    a.add_members(&g1.group_id, vec![kp[0].data.clone()]).expect("add members");
    assert_eq!(a.get_epoch(&g1.group_id).expect("epoch"), 1);
    assert_eq!(a.get_epoch(&g2.group_id).expect("epoch"), 0);
}

#[test]
fn wire_group_id_is_base64_of_local_id() {
    let mut a = new_client("alice");
    let created = a.create_group("room").expect("create");
    let decoded = base64::engine::general_purpose::STANDARD
        .decode(&created.mls_group_id)
        .expect("wire id decodes");
    assert_eq!(decoded, created.group_id.as_bytes());
}

#[test]
fn sender_index_reports_actual_sender() {
    let mut a = new_client("alice");
    let mut b = new_client("bob");
    let created = a.create_group("room").expect("create");
    let kp = b.generate_key_packages(1).expect("issue");
    let result = a
        .add_members(&created.group_id, vec![kp[0].data.clone()])
        .expect("add members");
    let joined = b.join_group(&result.welcomes[0].welcome).expect("join");
    let encrypted = b.encrypt(&joined.group_id, &b"from bob".to_vec()).expect("encrypt");
    match a.decrypt(&created.group_id, &encrypted.ciphertext).expect("decrypt") {
        InboundOutcome::Plaintext(message) => {
            assert_eq!(message.plaintext, b"from bob".to_vec());
            // The group's creator sits at leaf 0; the added member at leaf 1.
            assert_eq!(message.sender_index, 1);
        },
        InboundOutcome::CommitApplied => panic!("expected plaintext, got a commit"),
    }
}

use desktop_core::agent::{
    process_sign_request, resolve_socket_path, BitwardenDesktopAgent, SignLookupKind, SignOutcome,
};
use desktop_core::approval::ApprovalBridge;
use desktop_core::generator::generate_keypair;
use desktop_core::keys::PrivateKeyEntry;

fn agent_with_one_key(name: &str, credential_id: &str) -> (BitwardenDesktopAgent, Vec<u8>) {
    let generated = generate_keypair("ed25519").expect("generation must succeed");
    let mut agent = BitwardenDesktopAgent::new();
    let entries = vec![PrivateKeyEntry {
        private_key: generated.private_key.clone(),
        name: name.to_owned(),
        uuid: credential_id.to_owned(),
    }];
    let skipped = agent.set_keys(&entries).expect("set_keys always succeeds");
    assert_eq!(skipped, 0);
    let public_key_bytes = agent.list()[0].public_key_bytes.clone();
    (agent, public_key_bytes)
}

#[test]
fn one_inserted_key_lists_one_identity() {
    let (agent, public_key_bytes) = agent_with_one_key("work key", "cred-42");
    assert_eq!(agent.list().len(), 1);
    let (kind, record) = agent.signing_lookup(&public_key_bytes);
    assert!(matches!(kind, SignLookupKind::Available));
    assert_eq!(record.expect("record present").credential_id, "cred-42");
}

#[test]
fn sign_flow_approval_gates_the_signature() {
    let (agent, public_key_bytes) = agent_with_one_key("work key", "cred-42");
    let (kind, record) = agent.signing_lookup(&public_key_bytes);

    // The confirm round trip carries the record's credential id to the UI.
    let mut bridge = ApprovalBridge::new();
    assert!(bridge.begin_confirm(&record.expect("record present").credential_id));
    assert_eq!(bridge.pending_request().map(|s| s.as_str()), Some("cred-42"));

    bridge.deliver_response(true);
    let approved = bridge.complete_confirm().expect("decision delivered");
    assert!(matches!(process_sign_request(kind, approved), SignOutcome::Proceed));

    assert!(bridge.begin_confirm("cred-42"));
    bridge.deliver_response(false);
    let denied = bridge.complete_confirm().expect("decision delivered");
    assert!(matches!(process_sign_request(kind, denied), SignOutcome::RefusedDenied));
}

#[test]
fn locked_agent_refuses_signing_distinctly() {
    let (mut agent, public_key_bytes) = agent_with_one_key("work key", "cred-42");
    agent.lock().expect("lock always succeeds");

    assert_eq!(agent.list().len(), 1, "identities stay listable while locked");
    let (kind, record) = agent.signing_lookup(&public_key_bytes);
    assert!(matches!(kind, SignLookupKind::Locked));
    assert!(record.expect("record present").private_key.is_none());
    assert!(matches!(
        process_sign_request(kind, true),
        SignOutcome::RefusedLocked
    ));
}

#[test]
fn stopped_agent_lists_nothing_and_knows_no_identity() {
    let (mut agent, public_key_bytes) = agent_with_one_key("work key", "cred-42");
    agent.stop();

    assert_eq!(agent.list().len(), 0);
    let (kind, record) = agent.signing_lookup(&public_key_bytes);
    assert!(matches!(kind, SignLookupKind::Unknown));
    assert!(record.is_none());
    assert!(matches!(
        process_sign_request(kind, true),
        SignOutcome::RefusedUnknown
    ));
    assert!(!agent.should_accept_connection());

    // Stopping again must change nothing and must not panic.
    agent.stop();
    assert_eq!(agent.list().len(), 0);
}

#[test]
fn accepting_follows_the_lifecycle() {
    let mut agent = BitwardenDesktopAgent::new();
    assert!(
        !agent.should_accept_connection(),
        "a created agent does not serve before its transport is bound"
    );
    agent.mark_listening();
    assert!(agent.should_accept_connection());
    agent.stop();
    assert!(!agent.should_accept_connection());
    agent.mark_listening();
    assert!(!agent.should_accept_connection(), "stopping is terminal");
}

#[test]
fn set_keys_reports_skipped_entries() {
    let mut agent = BitwardenDesktopAgent::new();
    let entries = vec![
        PrivateKeyEntry {
            private_key: "not a key".to_owned(),
            name: "bad".to_owned(),
            uuid: "cred-bad".to_owned(),
        },
    ];
    let skipped = agent.set_keys(&entries).expect("set_keys always succeeds");
    assert_eq!(skipped, 1);
    assert_eq!(agent.list().len(), 0);
}

#[test]
fn socket_path_prefers_the_environment_override() {
    let resolved = resolve_socket_path(Some("/tmp/agent.sock".to_owned()), Some("/home/u".to_owned()));
    assert_eq!(resolved.as_deref(), Some("/tmp/agent.sock"));
}

#[test]
fn socket_path_defaults_to_the_home_directory() {
    let resolved = resolve_socket_path(None, Some("/home/u".to_owned()));
    assert_eq!(resolved.as_deref(), Some("/home/u/.bitwarden-ssh-agent.sock"));
}

#[test]
fn socket_path_without_home_is_unresolvable() {
    assert!(resolve_socket_path(None, None).is_none());
}

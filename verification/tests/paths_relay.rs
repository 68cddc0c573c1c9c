use desktop_core::ipc_path::{linux_cache_path, macos_container_path, windows_pipe_path};
use desktop_core::relay::{
    client_relay_step, connected_message, disconnected_message, proxy_step, should_retry,
    ClientEvent, ProxyAction, ProxyEvent, RelayAction, MAX_CONNECTION_FAILURES, MAX_FRAME_LENGTH,
    RECONNECT_DELAY_SECONDS,
};
use desktop_core::transport::{listener_step, ListenerAction, ListenerEvent, ListenerState};

use base64::Engine;
use sha2::Digest;

#[test]
fn linux_path_joins_cache_directory_application_and_name() {
    let path = linux_cache_path("/home/u/.cache", "bitwarden");
    assert_eq!(path, "/home/u/.cache/com.bitwarden.desktop/app.bitwarden");
}

#[test]
fn windows_pipe_name_hashes_the_home_directory() {
    let home = b"C:\\Users\\test".to_vec();
    let path = windows_pipe_path(&home, "bitwarden");

    let digest = sha2::Sha256::digest(&home);
    let encoded = base64::engine::general_purpose::URL_SAFE_NO_PAD.encode(digest.as_slice());
    assert_eq!(path, format!("\\\\.\\pipe\\{encoded}.app.bitwarden"));
}

#[test]
fn macos_path_keeps_only_the_user_components() {
    let components = vec![
        "Users".to_owned(),
        "alice".to_owned(),
        "Library".to_owned(),
        "Containers".to_owned(),
        "com.bitwarden.desktop".to_owned(),
        "Data".to_owned(),
    ];
    let path = macos_container_path(&components, "bitwarden");
    assert_eq!(
        path,
        "/Users/alice/Library/Group Containers/LTZ2PFU5D6.com.bitwarden.desktop/tmp/app.bitwarden"
    );
}

#[test]
fn macos_path_with_a_short_home_keeps_it_whole() {
    let components = vec!["root".to_owned()];
    let path = macos_container_path(&components, "bitwarden");
    assert_eq!(
        path,
        "/root/Library/Group Containers/LTZ2PFU5D6.com.bitwarden.desktop/tmp/app.bitwarden"
    );
}

#[test]
fn retry_stops_at_the_failure_cap() {
    assert!(should_retry(0));
    assert!(should_retry(MAX_CONNECTION_FAILURES - 1));
    assert!(!should_retry(MAX_CONNECTION_FAILURES));
    assert!(!should_retry(MAX_CONNECTION_FAILURES + 5));
}

#[test]
fn control_messages_are_the_wire_constants() {
    assert_eq!(connected_message(), "{\"command\":\"connected\"}");
    assert_eq!(disconnected_message(), "{\"command\":\"disconnected\"}");
    assert_eq!(MAX_FRAME_LENGTH, 8192);
    assert_eq!(RECONNECT_DELAY_SECONDS, 5);
}

#[test]
fn client_forwards_messages_both_ways() {
    match client_relay_step(ClientEvent::HostMessage("hello".to_owned())) {
        RelayAction::SendToServer(m) => assert_eq!(m, "hello"),
        _ => panic!("a host message goes to the server"),
    }
    match client_relay_step(ClientEvent::ServerData("reply".to_owned())) {
        RelayAction::ForwardToHost(m) => assert_eq!(m, "reply"),
        _ => panic!("server data goes to the host"),
    }
}

#[test]
fn client_announces_disconnection_and_stops() {
    assert!(matches!(
        client_relay_step(ClientEvent::ServerClosed),
        RelayAction::NotifyDisconnectAndStop
    ));
    assert!(matches!(
        client_relay_step(ClientEvent::ServerError),
        RelayAction::NotifyDisconnectAndStop
    ));
    assert!(matches!(
        client_relay_step(ClientEvent::HostClosed),
        RelayAction::StopClean
    ));
}

#[test]
fn proxy_routes_frames_and_exits_on_teardown() {
    match proxy_step(ProxyEvent::DesktopMessage("out".to_owned())) {
        ProxyAction::WriteToBrowser(m) => assert_eq!(m, "out"),
        _ => panic!("a desktop message goes to the browser"),
    }
    match proxy_step(ProxyEvent::BrowserFrame("in".to_owned())) {
        ProxyAction::SendToDesktop(m) => assert_eq!(m, "in"),
        _ => panic!("a browser frame goes to the desktop"),
    }
    assert!(matches!(proxy_step(ProxyEvent::IpcTaskFinished), ProxyAction::Exit));
    assert!(matches!(proxy_step(ProxyEvent::DesktopChannelClosed), ProxyAction::Exit));
    assert!(matches!(proxy_step(ProxyEvent::BrowserEof), ProxyAction::Exit));
    assert!(matches!(proxy_step(ProxyEvent::BrowserReadError), ProxyAction::Exit));
}

#[test]
fn pipe_listener_keeps_listening_after_each_client() {
    let mut state = ListenerState::Listening;
    for _ in 0..3 {
        let (next, action) = listener_step(state, ListenerEvent::ClientConnected);
        assert!(matches!(action, ListenerAction::HandOutConnection));
        assert!(matches!(next, ListenerState::Listening));
        state = next;
    }
    let (stopped, action) = listener_step(state, ListenerEvent::Cancelled);
    assert!(matches!(stopped, ListenerState::Stopped));
    assert!(matches!(action, ListenerAction::NoConnection));

    let (still_stopped, action) = listener_step(stopped, ListenerEvent::ClientConnected);
    assert!(matches!(still_stopped, ListenerState::Stopped));
    assert!(matches!(action, ListenerAction::NoConnection));
}

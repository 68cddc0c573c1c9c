//! Decision rules of the two relay loops around the desktop application:
//! the IPC client that keeps a connection to the desktop process, and the
//! proxy that bridges a native-messaging stdio channel to that client.
//!
//! The loops themselves suspend on channels and sockets and so live outside
//! the library; each of their decisions — what to do with each event, when
//! to give up reconnecting, which control messages to announce — stands
//! here with an exact contract.

use vstd::prelude::*;

verus! {

/// Connection attempts made before the client stops trying to reach the
/// desktop process, so a failed connection cannot leave it behind as a
/// zombie.
pub const MAX_CONNECTION_FAILURES: u32 = 20;

/// Seconds the client waits after a failed connection attempt before the
/// next one.
pub const RECONNECT_DELAY_SECONDS: u64 = 5;

/// Whether the client should try connecting again after one more failure:
/// only while the failure count stays below the cap.
pub fn should_retry(connection_failures: u32) -> (r: bool)
    ensures
        r == (connection_failures < MAX_CONNECTION_FAILURES),
{
    connection_failures < MAX_CONNECTION_FAILURES
}

/// The control message announced to the host when the connection is up.
pub fn connected_message() -> (r: String)
    ensures
        r@ == "{\"command\":\"connected\"}"@,
{
    "{\"command\":\"connected\"}".to_owned()
}

/// The control message announced to the host when the connection is gone.
pub fn disconnected_message() -> (r: String)
    ensures
        r@ == "{\"command\":\"disconnected\"}"@,
{
    "{\"command\":\"disconnected\"}".to_owned()
}

/// One event of the connected client's loop: a message from the host to
/// pass on, the host channel closing, data read from the desktop process
/// (already decoded to text by the caller), the desktop process closing
/// the stream, or a read error.
pub enum ClientEvent {
    HostMessage(String),
    HostClosed,
    ServerData(String),
    ServerClosed,
    ServerError,
}

/// What the client does with one event: write to the desktop process,
/// forward to the host, announce the disconnection and stop this
/// connection, or stop cleanly for good.
pub enum RelayAction {
    SendToServer(String),
    ForwardToHost(String),
    NotifyDisconnectAndStop,
    StopClean,
}

/// The connected client's rule, event for event: host messages go to the
/// desktop process, its data goes to the host, its disappearance (clean or
/// failed) is announced before this connection ends, and a closed host
/// channel ends the client for good.
pub fn client_relay_step(event: ClientEvent) -> (r: RelayAction)
    ensures
        (event matches ClientEvent::HostMessage(m) ==> r matches RelayAction::SendToServer(s)
            && s@ == m@),
        (event matches ClientEvent::ServerData(m) ==> r matches RelayAction::ForwardToHost(s)
            && s@ == m@),
        event is HostClosed ==> r is StopClean,
        event is ServerClosed || event is ServerError ==> r is NotifyDisconnectAndStop,
{
    match event {
        ClientEvent::HostMessage(m) => RelayAction::SendToServer(m),
        ClientEvent::HostClosed => RelayAction::StopClean,
        ClientEvent::ServerData(m) => RelayAction::ForwardToHost(m),
        ClientEvent::ServerClosed => RelayAction::NotifyDisconnectAndStop,
        ClientEvent::ServerError => RelayAction::NotifyDisconnectAndStop,
    }
}

/// The longest frame the proxy reads from or writes to the browser's
/// native-messaging channel.
pub const MAX_FRAME_LENGTH: usize = 8192;

/// One event of the proxy's loop: the IPC client task finishing, a message
/// from the desktop application (or that channel closing), and a frame
/// from the browser (or its end or a read error).
pub enum ProxyEvent {
    IpcTaskFinished,
    DesktopMessage(String),
    DesktopChannelClosed,
    BrowserFrame(String),
    BrowserEof,
    BrowserReadError,
}

/// What the proxy does with one event: print to the browser, pass to the
/// IPC client, or exit.
pub enum ProxyAction {
    WriteToBrowser(String),
    SendToDesktop(String),
    Exit,
}

/// The proxy's rule, event for event: desktop messages go out to the
/// browser, browser frames go in to the desktop, and everything else —
/// the IPC task ending, either channel closing, a read error — exits the
/// proxy.
pub fn proxy_step(event: ProxyEvent) -> (r: ProxyAction)
    ensures
        (event matches ProxyEvent::DesktopMessage(m) ==> r matches ProxyAction::WriteToBrowser(s)
            && s@ == m@),
        (event matches ProxyEvent::BrowserFrame(m) ==> r matches ProxyAction::SendToDesktop(s)
            && s@ == m@),
        event is IpcTaskFinished || event is DesktopChannelClosed || event is BrowserEof
            || event is BrowserReadError ==> r is Exit,
{
    match event {
        ProxyEvent::IpcTaskFinished => ProxyAction::Exit,
        ProxyEvent::DesktopMessage(m) => ProxyAction::WriteToBrowser(m),
        ProxyEvent::DesktopChannelClosed => ProxyAction::Exit,
        ProxyEvent::BrowserFrame(m) => ProxyAction::SendToDesktop(m),
        ProxyEvent::BrowserEof => ProxyAction::Exit,
        ProxyEvent::BrowserReadError => ProxyAction::Exit,
    }
}

} // verus!

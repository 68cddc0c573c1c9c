//! The transport listener's continuity rule.
//!
//! A listener hands the agent a lazy, unbounded sequence of connections
//! until it is torn down. A Unix socket listener does this natively; a
//! Windows named pipe serves one client per instance, so its listener must
//! recreate and re-listen on a fresh instance with the same name after
//! every client — presenting one continuous sequence, indistinguishable
//! from the Unix case. The rule below states that continuity: handing out
//! a connection leaves the listener listening; only cancellation stops it.

use vstd::prelude::*;

verus! {

/// The listener's state: listening for the next client, or torn down for
/// good. There is no state in between: a pipe instance consumed by a
/// client is replaced within the same step.
#[derive(Clone, Copy, Debug, PartialEq, Eq, Structural)]
pub enum ListenerState {
    Listening,
    Stopped,
}

/// What reaches the listener: a client connecting, or the cancellation
/// signal.
#[derive(Clone, Copy, Debug, PartialEq, Eq, Structural)]
pub enum ListenerEvent {
    ClientConnected,
    Cancelled,
}

/// What the listener does in one step: hand the accepted connection to the
/// agent (and immediately listen anew), or nothing.
#[derive(Clone, Copy, Debug, PartialEq, Eq, Structural)]
pub enum ListenerAction {
    HandOutConnection,
    NoConnection,
}

/// The listener's transition rule: a connecting client is handed out and
/// the listener is listening again at once — the recreate-after-disconnect
/// of a named pipe instance stays inside this step, invisible to the agent
/// — and cancellation, and nothing else, stops the sequence for good.
pub open spec fn listener_step_model(state: ListenerState, event: ListenerEvent) -> (
    ListenerState,
    ListenerAction,
) {
    match (state, event) {
        (ListenerState::Listening, ListenerEvent::ClientConnected) => (
            ListenerState::Listening,
            ListenerAction::HandOutConnection,
        ),
        (_, ListenerEvent::Cancelled) => (ListenerState::Stopped, ListenerAction::NoConnection),
        (ListenerState::Stopped, _) => (ListenerState::Stopped, ListenerAction::NoConnection),
    }
}

/// One step of the listener, exactly [`listener_step_model`].
pub fn listener_step(state: ListenerState, event: ListenerEvent) -> (r: (
    ListenerState,
    ListenerAction,
))
    ensures
        r == listener_step_model(state, event),
{
    match (state, event) {
        (ListenerState::Listening, ListenerEvent::ClientConnected) => (
            ListenerState::Listening,
            ListenerAction::HandOutConnection,
        ),
        (_, ListenerEvent::Cancelled) => (ListenerState::Stopped, ListenerAction::NoConnection),
        (ListenerState::Stopped, _) => (ListenerState::Stopped, ListenerAction::NoConnection),
    }
}

/// The state after `n` clients have connected in turn, none of them
/// cancelled.
pub open spec fn listener_run(state: ListenerState, n: nat) -> ListenerState
    decreases n,
{
    if n == 0 {
        state
    } else {
        listener_step_model(listener_run(state, (n - 1) as nat), ListenerEvent::ClientConnected).0
    }
}

/// Continuity: however many clients connect in turn, the listener is still
/// listening afterwards and each step handed its connection out — the
/// connection sequence is unbounded until cancellation.
pub proof fn lemma_listener_serves_until_cancelled(n: nat)
    ensures
        listener_run(ListenerState::Listening, n) == ListenerState::Listening,
        n > 0 ==> listener_step_model(
            listener_run(ListenerState::Listening, (n - 1) as nat),
            ListenerEvent::ClientConnected,
        ).1 == ListenerAction::HandOutConnection,
    decreases n,
{
    if n > 0 {
        lemma_listener_serves_until_cancelled((n - 1) as nat);
    }
}

} // verus!

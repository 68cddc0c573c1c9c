//! The desktop agent: a shared key store, a cancellation flag, and the
//! rules its server loop and signing path follow.
//!
//! The asynchronous shell around this type — binding a socket, accepting
//! connections, driving the wire protocol — lives outside the library; what
//! stands here is every decision that shell makes: which path to listen on,
//! whether to keep accepting, what a signing attempt finds in the store,
//! and how stopping clears the secrets out.

use vstd::prelude::*;

use crate::keys::{KeyOpError, PrivateKeyEntry};
use crate::keystore::{locked_model, replace_model, KeyRecord, KeyStore, RecordModel};
use crate::textutil::append_str;

verus! {

/// What a signing attempt finds for a public key: an unknown identity, a
/// known identity whose private material is locked away, or a usable key.
#[derive(Clone, Copy, Debug, PartialEq, Eq, Structural)]
pub enum SignLookupKind {
    Unknown,
    Locked,
    Available,
}

/// The lookup outcome owed for a store and a public key: unknown when the
/// key is absent, locked when present without private material, available
/// otherwise.
pub open spec fn sign_lookup_model(m: Map<Seq<u8>, RecordModel>, k: Seq<u8>) -> SignLookupKind {
    if !m.contains_key(k) {
        SignLookupKind::Unknown
    } else if m[k].private_key is None {
        SignLookupKind::Locked
    } else {
        SignLookupKind::Available
    }
}

/// What the handler does with a sign request, given what the store holds
/// and whether the human approved: it proceeds to sign only for an
/// available key with an affirmative approval, and otherwise refuses with
/// the precise reason.
#[derive(Clone, Copy, Debug, PartialEq, Eq, Structural)]
pub enum SignOutcome {
    /// The key is usable and the human approved: sign.
    Proceed,
    /// No record is filed under the requested identity.
    RefusedUnknown,
    /// The identity is known but its private material is locked away.
    RefusedLocked,
    /// The human denied the request (or no decision could be obtained).
    RefusedDenied,
}

/// The agent's lifecycle: created but not yet serving, listening for
/// connections, or stopped for good. Stopping is terminal and the only way
/// out of either earlier state.
#[derive(Clone, Copy, Debug, PartialEq, Eq, Structural)]
pub enum AgentLifecycle {
    Created,
    Listening,
    Stopped,
}

/// The agent: the shared key store and its lifecycle. The channels,
/// sockets and tasks around it live outside the library.
pub struct BitwardenDesktopAgent {
    keystore: KeyStore,
    phase: AgentLifecycle,
}

impl BitwardenDesktopAgent {
    /// The mapping the agent's store currently holds.
    pub closed spec fn keys(&self) -> Map<Seq<u8>, RecordModel> {
        self.keystore@
    }

    /// Where the agent stands in its lifecycle.
    pub closed spec fn lifecycle(&self) -> AgentLifecycle {
        self.phase
    }

    /// Whether the cancellation signal has been raised: the lifecycle has
    /// reached its terminal state.
    pub open spec fn is_cancelled(&self) -> bool {
        self.lifecycle() == AgentLifecycle::Stopped
    }

    pub closed spec fn wf(&self) -> bool {
        self.keystore.wf()
    }

    /// A fresh agent: empty store, created but not yet serving.
    pub fn new() -> (r: BitwardenDesktopAgent)
        ensures
            r.wf(),
            r.keys() == Map::<Seq<u8>, RecordModel>::empty(),
            r.lifecycle() == AgentLifecycle::Created,
    {
        BitwardenDesktopAgent { keystore: KeyStore::new(), phase: AgentLifecycle::Created }
    }

    /// The transport is bound: the agent serves. Only a created agent
    /// starts listening — after a bind failure this is never called, and
    /// the agent exists without serving; a stopped agent stays stopped.
    pub fn mark_listening(&mut self)
        requires
            old(self).wf(),
        ensures
            final(self).wf(),
            final(self).keys() == old(self).keys(),
            old(self).lifecycle() == AgentLifecycle::Created ==> final(self).lifecycle()
                == AgentLifecycle::Listening,
            old(self).lifecycle() != AgentLifecycle::Created ==> final(self).lifecycle()
                == old(self).lifecycle(),
    {
        if self.phase == AgentLifecycle::Created {
            self.phase = AgentLifecycle::Listening;
        }
    }

    /// Stop the agent: raise the cancellation signal (the accept loop exits
    /// at its next check) and clear the store so no secret lingers.
    /// Idempotent and terminal: stopping a stopped agent changes nothing,
    /// and no later call leaves the stopped state.
    pub fn stop(&mut self)
        requires
            old(self).wf(),
        ensures
            final(self).wf(),
            final(self).lifecycle() == AgentLifecycle::Stopped,
            final(self).keys() == Map::<Seq<u8>, RecordModel>::empty(),
    {
        self.phase = AgentLifecycle::Stopped;
        self.keystore.clear();
    }

    /// Whether the accept loop should take another connection: only while
    /// the agent is listening, so cancellation is observed cooperatively.
    pub fn should_accept_connection(&self) -> (r: bool)
        ensures
            r == (self.lifecycle() == AgentLifecycle::Listening),
    {
        self.phase == AgentLifecycle::Listening
    }

    /// Atomically replace the stored keys from raw entries. Entries that
    /// fail to parse are skipped (their count is reported back for
    /// logging), the rest repopulate the store in order; prior contents are
    /// gone even when every entry fails. The call itself always succeeds.
    pub fn set_keys(&mut self, new_keys: &Vec<PrivateKeyEntry>) -> (r: Result<usize, KeyOpError>)
        requires
            old(self).wf(),
        ensures
            final(self).wf(),
            final(self).lifecycle() == old(self).lifecycle(),
            final(self).keys() == replace_model(new_keys@),
            r matches Ok(skipped) && skipped <= new_keys@.len(),
    {
        let skipped = self.keystore.replace_all(new_keys);
        Ok(skipped)
    }

    /// Strip every record's private material, leaving identities listable
    /// but unusable for signing. The call itself always succeeds.
    pub fn lock(&mut self) -> (r: Result<(), KeyOpError>)
        requires
            old(self).wf(),
        ensures
            final(self).wf(),
            final(self).lifecycle() == old(self).lifecycle(),
            final(self).keys().dom() == old(self).keys().dom(),
            forall|k: Seq<u8>|
                old(self).keys().contains_key(k) ==> final(self).keys()[k] == locked_model(
                    old(self).keys()[k],
                ),
            r is Ok,
    {
        self.keystore.lock();
        Ok(())
    }

    /// A snapshot of the stored records, for identity listing.
    pub fn list(&self) -> (r: &Vec<KeyRecord>)
        requires
            self.wf(),
        ensures
            r@.len() == self.keys().dom().len(),
            forall|i: int|
                0 <= i < r@.len() ==> #[trigger] self.keys().contains_key(
                    r@[i].public_key_bytes@,
                ) && self.keys()[r@[i].public_key_bytes@] == r@[i]@,
            forall|k: Seq<u8>|
                self.keys().contains_key(k) ==> exists|i: int|
                    0 <= i < r@.len() && #[trigger] r@[i].public_key_bytes@ == k,
            forall|i: int, j: int|
                0 <= i < j < r@.len() ==> r@[i].public_key_bytes@ != r@[j].public_key_bytes@,
    {
        self.keystore.list()
    }

    /// What a signing attempt finds for the given public key, with the
    /// record when the identity is known. A missing identity and a locked
    /// one are distinct conditions: the protocol layer reports the first as
    /// "identity unknown" and the second as a refusal.
    pub fn signing_lookup(&self, public_key: &Vec<u8>) -> (r: (SignLookupKind, Option<
        &KeyRecord,
    >))
        requires
            self.wf(),
        ensures
            r.0 == sign_lookup_model(self.keys(), public_key@),
            r.0 == SignLookupKind::Unknown <==> r.1 is None,
            r.1 matches Some(rec) ==> rec@ == self.keys()[public_key@] && rec.public_key_bytes@
                == public_key@,
    {
        match self.keystore.find(public_key) {
            Some(record) => {
                match &record.private_key {
                    Some(_) => (SignLookupKind::Available, Some(record)),
                    None => (SignLookupKind::Locked, Some(record)),
                }
            },
            None => (SignLookupKind::Unknown, None),
        }
    }
}

/// The rule every sign request is held to: it proceeds exactly for an
/// available key with an affirmative approval; everything else is a
/// refusal that names its reason.
pub fn process_sign_request(lookup: SignLookupKind, approved: bool) -> (r: SignOutcome)
    ensures
        r == SignOutcome::Proceed <==> (lookup == SignLookupKind::Available && approved),
        r == SignOutcome::RefusedUnknown <==> lookup == SignLookupKind::Unknown,
        r == SignOutcome::RefusedLocked <==> lookup == SignLookupKind::Locked,
        r == SignOutcome::RefusedDenied <==> (lookup == SignLookupKind::Available && !approved),
{
    match lookup {
        SignLookupKind::Unknown => SignOutcome::RefusedUnknown,
        SignLookupKind::Locked => SignOutcome::RefusedLocked,
        SignLookupKind::Available => {
            if approved {
                SignOutcome::Proceed
            } else {
                SignOutcome::RefusedDenied
            }
        },
    }
}

/// After `stop()` the store is empty, so every signing attempt — against
/// previously valid keys included — finds an unknown identity, and an
/// identity listing is empty.
pub proof fn lemma_stopped_agent_rejects_all(k: Seq<u8>)
    ensures
        sign_lookup_model(Map::<Seq<u8>, RecordModel>::empty(), k) == SignLookupKind::Unknown,
        Map::<Seq<u8>, RecordModel>::empty().dom().len() == 0,
{
    assert(!Map::<Seq<u8>, RecordModel>::empty().contains_key(k));
    assert(Map::<Seq<u8>, RecordModel>::empty().dom() =~= Set::<Seq<u8>>::empty());
}

/// The socket path the agent listens on: the environment-supplied override
/// when present, else the default socket file under the user's home
/// directory; with neither, no path can be resolved and the agent must
/// report instead of serving.
pub fn resolve_socket_path(env_override: Option<String>, home: Option<String>) -> (r: Option<
    String,
>)
    ensures
        env_override matches Some(p) ==> (r matches Some(q) && q@ == p@),
        env_override is None ==> (home matches Some(h) ==> (r matches Some(q) && q@ == h@
            + "/.bitwarden-ssh-agent.sock"@)),
        env_override is None && home is None ==> r is None,
{
    match env_override {
        Some(path) => Some(path),
        None => {
            match home {
                Some(mut base) => {
                    append_str(&mut base, "/.bitwarden-ssh-agent.sock");
                    Some(base)
                },
                None => None,
            }
        },
    }
}

} // verus!

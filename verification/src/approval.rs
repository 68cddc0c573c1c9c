//! The approval bridge: a bounded, ordered request/response round trip
//! between a signing attempt and the out-of-process approval UI.
//!
//! Requests and responses travel on independent channels with no
//! correlation identifier on the wire, so the bridge serializes round
//! trips: a confirm call must hold the single response end from sending its
//! request until it has consumed exactly one response. The model below
//! records the full history — every credential id sent, every decision the
//! UI delivered, and how many decisions have been consumed — and each
//! completed round trip consumes exactly the next undelivered decision.

use vstd::prelude::*;

verus! {

/// The history and state of the bridge: all requests sent, all decisions
/// the UI delivered, how many decisions round trips have consumed, whether
/// a round trip currently holds the response end, and whether the channel
/// has closed.
pub struct BridgeModel {
    pub requests: Seq<Seq<char>>,
    pub responses: Seq<bool>,
    pub taken: nat,
    pub held: bool,
    pub closed: bool,
}

/// A round trip may begin when no other holds the response end and the
/// channel is open.
pub open spec fn can_begin(m: BridgeModel) -> bool {
    !m.held && !m.closed
}

/// Beginning a round trip records the request and takes the response end.
pub open spec fn begin_model(m: BridgeModel, credential_id: Seq<char>) -> BridgeModel {
    BridgeModel { requests: m.requests.push(credential_id), held: true, ..m }
}

/// The UI delivering a decision appends it to the history; a closed
/// channel delivers nothing.
pub open spec fn deliver_model(m: BridgeModel, decision: bool) -> BridgeModel {
    if m.closed {
        m
    } else {
        BridgeModel { responses: m.responses.push(decision), ..m }
    }
}

/// What a holding round trip observes: the next undelivered decision when
/// one is there; a denial when the channel closed with none pending (an
/// in-flight request on a closed channel is denied, never retried); nothing
/// yet otherwise — the round trip keeps waiting.
pub open spec fn complete_result(m: BridgeModel) -> Option<bool> {
    if m.taken < m.responses.len() {
        Some(m.responses[m.taken as int])
    } else if m.closed {
        Some(false)
    } else {
        None
    }
}

/// Completing a round trip consumes one decision and releases the response
/// end; observing nothing leaves the bridge unchanged.
pub open spec fn complete_model(m: BridgeModel) -> BridgeModel {
    if m.taken < m.responses.len() {
        BridgeModel { taken: m.taken + 1, held: false, ..m }
    } else if m.closed {
        BridgeModel { held: false, ..m }
    } else {
        m
    }
}

/// The approval bridge. Its view is the [`BridgeModel`] history.
pub struct ApprovalBridge {
    requests: Vec<String>,
    responses: Vec<bool>,
    taken: usize,
    held: bool,
    closed: bool,
}

impl View for ApprovalBridge {
    type V = BridgeModel;

    closed spec fn view(&self) -> BridgeModel {
        BridgeModel {
            requests: Seq::new(self.requests@.len(), |i: int| self.requests@[i]@),
            responses: self.responses@,
            taken: self.taken as nat,
            held: self.held,
            closed: self.closed,
        }
    }
}

impl ApprovalBridge {
    /// Consumed decisions never outnumber delivered ones, and a held
    /// response end belongs to a recorded request.
    pub closed spec fn wf(self) -> bool {
        &&& self.taken <= self.responses@.len()
        &&& (self.held ==> self.requests@.len() > 0)
    }

    /// A fresh bridge: no history, response end free, channel open.
    pub fn new() -> (r: ApprovalBridge)
        ensures
            r.wf(),
            r@ == (BridgeModel {
                requests: Seq::empty(),
                responses: Seq::empty(),
                taken: 0,
                held: false,
                closed: false,
            }),
    {
        let r = ApprovalBridge {
            requests: Vec::new(),
            responses: Vec::new(),
            taken: 0,
            held: false,
            closed: false,
        };
        proof {
            assert(r@.requests =~= Seq::<Seq<char>>::empty());
        }
        r
    }

    /// Begin a confirm round trip for the given credential id: take the
    /// response end and send the request. Refused — with the bridge
    /// unchanged — while another round trip holds the response end or after
    /// the channel closed; a refusal on a closed channel is a denial, and a
    /// busy bridge means the caller must wait its turn.
    pub fn begin_confirm(&mut self, credential_id: &str) -> (granted: bool)
        requires
            old(self).wf(),
        ensures
            final(self).wf(),
            granted == can_begin(old(self)@),
            granted ==> final(self)@ == begin_model(old(self)@, credential_id@),
            !granted ==> final(self)@ == old(self)@,
    {
        if self.held || self.closed {
            return false;
        }
        self.requests.push(credential_id.to_owned());
        self.held = true;
        proof {
            assert(self@.requests =~= begin_model(old(self)@, credential_id@).requests);
        }
        true
    }

    /// The UI delivers one boolean decision. On a closed channel the
    /// decision is dropped.
    pub fn deliver_response(&mut self, decision: bool)
        requires
            old(self).wf(),
        ensures
            final(self).wf(),
            final(self)@ == deliver_model(old(self)@, decision),
    {
        if !self.closed {
            self.responses.push(decision);
        }
    }

    /// Close the channel: no further decisions will ever arrive. Idempotent.
    pub fn close_channel(&mut self)
        requires
            old(self).wf(),
        ensures
            final(self).wf(),
            final(self)@ == (BridgeModel { closed: true, ..old(self)@ }),
    {
        self.closed = true;
    }

    /// Poll the round trip that holds the response end: `Some` with the
    /// next undelivered decision once the UI has answered, `Some(false)`
    /// when the channel closed unanswered, `None` while the answer is still
    /// owed (the caller suspends and polls again). Without a holder nothing
    /// is consumed.
    pub fn complete_confirm(&mut self) -> (r: Option<bool>)
        requires
            old(self).wf(),
        ensures
            final(self).wf(),
            old(self)@.held ==> r == complete_result(old(self)@) && final(self)@ == complete_model(
                old(self)@,
            ),
            !old(self)@.held ==> r is None && final(self)@ == old(self)@,
    {
        if !self.held {
            return None;
        }
        if self.taken < self.responses.len() {
            let decision = self.responses[self.taken];
            self.taken = self.taken + 1;
            self.held = false;
            Some(decision)
        } else if self.closed {
            self.held = false;
            Some(false)
        } else {
            None
        }
    }

    /// The credential id awaiting approval, while a round trip is in
    /// flight: what the UI shows to the human approver.
    pub fn pending_request(&self) -> (r: Option<&String>)
        requires
            self.wf(),
        ensures
            self@.held ==> (r matches Some(c) && c@ == self@.requests.last()),
            !self@.held ==> r is None,
    {
        if self.held {
            Some(&self.requests[self.requests.len() - 1])
        } else {
            None
        }
    }
}

/// The decision handed back to a signing attempt: the UI's answer when one
/// was produced, denial when the approval pipeline failed to produce one.
/// An absent answer is never an approval.
pub fn response_or_deny(response: Option<bool>) -> (r: bool)
    ensures
        r == (response matches Some(true)),
{
    match response {
        Some(decision) => decision,
        None => false,
    }
}

/// Serialized round trips never cross-deliver: from a quiescent bridge
/// (response end free, every delivered decision consumed), a round trip A
/// that begins, then sees the UI deliver any non-empty run of decisions,
/// receives exactly the first decision delivered after its own request —
/// and the next round trip starts consuming strictly after it. A round
/// trip that begins before another can begin therefore never receives the
/// other's answer.
pub proof fn lemma_no_cross_delivery(m: BridgeModel, credential_id: Seq<char>, delta: Seq<bool>)
    requires
        can_begin(m),
        m.taken == m.responses.len(),
        delta.len() > 0,
    ensures
        ({
            let in_flight = BridgeModel {
                responses: begin_model(m, credential_id).responses + delta,
                ..begin_model(m, credential_id)
            };
            complete_result(in_flight) == Some(delta.first()) && complete_model(in_flight).taken
                == m.taken + 1 && !complete_model(in_flight).held
        }),
{
    let m1 = begin_model(m, credential_id);
    let in_flight = BridgeModel { responses: m1.responses + delta, ..m1 };
    assert(in_flight.responses[m.taken as int] == delta.first());
}

} // verus!

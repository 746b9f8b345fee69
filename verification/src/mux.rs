//! The WebSocket multiplexer's bookkeeping: the pending-request map that
//! correlates interleaved responses with their callers, the connection
//! state machine, and the reading of response frames.
//!
//! The I/O half — the socket, the send half's lock, the receiver task —
//! performs these decisions; every rule it must follow is stated and
//! proved here.

use vstd::prelude::*;
use crate::json::{JsonValue, JsonView, spec_obj_get, spec_obj_has_key};
use crate::jsontext::parse_json;

verus! {

broadcast use vstd::std_specs::vec::group_vec_axioms, vstd::seq::group_seq_axioms;

/// Whether an id stands in a list of registered ids.
pub open spec fn spec_has_id(ids: Seq<Seq<char>>, id: Seq<char>) -> bool {
    exists|i: int| 0 <= i < ids.len() && ids[i] == id
}

/// The pending-request map of one connection: the ids of calls whose
/// responders still wait, each at most once.
#[derive(Debug)]
pub struct Multiplexer {
    /// The registered request ids, in registration order.
    pub pending: Vec<String>,
}

impl Multiplexer {
    /// The map invariant: every id is registered at most once.
    pub open spec fn wf(&self) -> bool {
        forall|i: int, j: int|
            0 <= i < j < self.pending@.len() ==> self.pending.deep_view()[i]
                != self.pending.deep_view()[j]
    }

    /// An empty map.
    pub fn new() -> (r: Self)
        ensures
            r.pending.deep_view() == Seq::<Seq<char>>::empty(),
            r.wf(),
    {
        let r = Multiplexer { pending: Vec::new() };
        proof {
            assert(r.pending.deep_view() =~= Seq::<Seq<char>>::empty());
        }
        r
    }

    /// How many calls still wait.
    pub fn pending_count(&self) -> (r: usize)
        ensures
            r == self.pending@.len(),
    {
        self.pending.len()
    }

    /// Whether a call under the given id still waits.
    #[verifier::loop_isolation(false)]
    pub fn is_registered(&self, id: &str) -> (r: bool)
        ensures
            r == spec_has_id(self.pending.deep_view(), id@),
    {
        let ghost gs = self.pending.deep_view();
        let id_owned = id.to_owned();
        let mut i: usize = 0;
        while i < self.pending.len()
            invariant
                i <= self.pending@.len(),
                gs == self.pending.deep_view(),
                forall|j: int| 0 <= j < i ==> gs[j] != id@,
            decreases self.pending@.len() - i,
        {
            if self.pending[i] == id_owned {
                proof {
                    assert(gs[i as int] == self.pending@[i as int]@);
                    assert(spec_has_id(gs, id@));
                }
                return true;
            }
            proof {
                assert(gs[i as int] == self.pending@[i as int]@);
            }
            i += 1;
        }
        false
    }

    /// Register a caller's responder under an id. A duplicate id is a
    /// caller error: nothing changes and the registration is refused.
    #[verifier::loop_isolation(false)]
    pub fn register(&mut self, id: &str) -> (r: bool)
        requires
            old(self).wf(),
        ensures
            final(self).wf(),
            r == !spec_has_id(old(self).pending.deep_view(), id@),
            r ==> final(self).pending.deep_view() == old(self).pending.deep_view().push(id@),
            !r ==> final(self).pending.deep_view() == old(self).pending.deep_view(),
            spec_has_id(final(self).pending.deep_view(), id@),
    {
        if self.is_registered(id) {
            return false;
        }
        let ghost gs = self.pending.deep_view();
        self.pending.push(id.to_owned());
        proof {
            assert(self.pending.deep_view() =~= gs.push(id@));
            assert(self.pending.deep_view()[gs.len() as int] == id@);
        }
        true
    }

    /// Drop a caller's registration, called on the caller's own deadline
    /// or cancellation. After it, nothing is deliverable under the id.
    #[verifier::loop_isolation(false)]
    pub fn withdraw(&mut self, id: &str) -> (r: bool)
        requires
            old(self).wf(),
        ensures
            final(self).wf(),
            r == spec_has_id(old(self).pending.deep_view(), id@),
            !spec_has_id(final(self).pending.deep_view(), id@),
    {
        self.deliver(id)
    }

    /// The receiver task's decision for an arriving frame carrying an id:
    /// exactly the registered caller's entry leaves the map, and a frame
    /// for an unknown or already-served id changes nothing.
    #[verifier::loop_isolation(false)]
    pub fn deliver(&mut self, id: &str) -> (r: bool)
        requires
            old(self).wf(),
        ensures
            final(self).wf(),
            r == spec_has_id(old(self).pending.deep_view(), id@),
            !spec_has_id(final(self).pending.deep_view(), id@),
            r ==> final(self).pending@.len() == old(self).pending@.len() - 1,
            r ==> exists|i: int|
                0 <= i < old(self).pending@.len() && old(self).pending.deep_view()[i] == id@
                    && final(self).pending.deep_view() == old(self).pending.deep_view().subrange(
                    0,
                    i,
                ) + old(self).pending.deep_view().subrange(
                    i + 1,
                    old(self).pending@.len() as int,
                ),
            !r ==> final(self).pending.deep_view() == old(self).pending.deep_view(),
    {
        let ghost gs = self.pending.deep_view();
        let id_owned = id.to_owned();
        let mut i: usize = 0;
        while i < self.pending.len()
            invariant
                i <= self.pending@.len(),
                gs == self.pending.deep_view(),
                forall|j: int| 0 <= j < i ==> gs[j] != id@,
            decreases self.pending@.len() - i,
        {
            if self.pending[i] == id_owned {
                proof {
                    assert(gs[i as int] == self.pending@[i as int]@);
                    assert(gs[i as int] == id@);
                    assert(spec_has_id(gs, id@));
                }
                self.pending.remove(i);
                proof {
                    assert(self.pending.deep_view() =~= gs.subrange(0, i as int) + gs.subrange(
                        i + 1,
                        gs.len() as int,
                    ));
                    assert forall|j: int| 0 <= j < self.pending.deep_view().len() implies
                        self.pending.deep_view()[j] != id@ by {
                        if j < i {
                            assert(self.pending.deep_view()[j] == gs[j]);
                        } else {
                            assert(self.pending.deep_view()[j] == gs[j + 1]);
                        }
                    }
                    assert(0 <= i < gs.len() && gs[i as int] == id@
                        && self.pending.deep_view() == gs.subrange(0, i as int) + gs.subrange(
                        i + 1,
                        gs.len() as int,
                    ));
                }
                return true;
            }
            proof {
                assert(gs[i as int] == self.pending@[i as int]@);
            }
            i += 1;
        }
        false
    }
}

/// The connection lifecycle of the WebSocket transport.
#[derive(Debug, Clone, Copy, PartialEq, Eq, Structural)]
pub enum WsConnectionState {
    /// No connection exists.
    NotConnected,
    /// The handshake is under way.
    Connecting,
    /// The connection is established.
    Open,
    /// The connection is going down; responders drain.
    Closing,
    /// The connection is gone; the next call reconnects.
    Closed,
}

/// What happens to a WebSocket connection.
#[derive(Debug, Clone, Copy, PartialEq, Eq, Structural)]
pub enum WsConnectionEvent {
    /// A caller asked to execute a request.
    ExecuteRequested,
    /// The handshake finished.
    HandshakeSucceeded,
    /// The handshake failed; the error goes to the caller.
    HandshakeFailed,
    /// Sending a frame failed; outstanding responders get errors.
    SendFailed,
    /// The receiver task ended.
    ReceiverExited,
    /// Every outstanding responder has been drained.
    RespondersDrained,
}

/// The connection state machine: the next state after an event. An event
/// that the current state does not react to leaves it unchanged.
/// Reconnection is not automatic: only the next execute after `Closed`
/// re-enters `Connecting`.
pub open spec fn spec_ws_next_state(s: WsConnectionState, e: WsConnectionEvent)
    -> WsConnectionState {
    match (s, e) {
        (WsConnectionState::NotConnected, WsConnectionEvent::ExecuteRequested)
            => WsConnectionState::Connecting,
        (WsConnectionState::Closed, WsConnectionEvent::ExecuteRequested)
            => WsConnectionState::Connecting,
        (WsConnectionState::Connecting, WsConnectionEvent::HandshakeSucceeded)
            => WsConnectionState::Open,
        (WsConnectionState::Connecting, WsConnectionEvent::HandshakeFailed)
            => WsConnectionState::NotConnected,
        (WsConnectionState::Open, WsConnectionEvent::SendFailed) => WsConnectionState::Closing,
        (WsConnectionState::Open, WsConnectionEvent::ReceiverExited)
            => WsConnectionState::Closing,
        (WsConnectionState::Closing, WsConnectionEvent::RespondersDrained)
            => WsConnectionState::Closed,
        _ => s,
    }
}

/// Step the connection state machine.
pub fn ws_next_state(s: WsConnectionState, e: WsConnectionEvent) -> (r: WsConnectionState)
    ensures
        r == spec_ws_next_state(s, e),
{
    match (s, e) {
        (WsConnectionState::NotConnected, WsConnectionEvent::ExecuteRequested)
            => WsConnectionState::Connecting,
        (WsConnectionState::Closed, WsConnectionEvent::ExecuteRequested)
            => WsConnectionState::Connecting,
        (WsConnectionState::Connecting, WsConnectionEvent::HandshakeSucceeded)
            => WsConnectionState::Open,
        (WsConnectionState::Connecting, WsConnectionEvent::HandshakeFailed)
            => WsConnectionState::NotConnected,
        (WsConnectionState::Open, WsConnectionEvent::SendFailed) => WsConnectionState::Closing,
        (WsConnectionState::Open, WsConnectionEvent::ReceiverExited)
            => WsConnectionState::Closing,
        (WsConnectionState::Closing, WsConnectionEvent::RespondersDrained)
            => WsConnectionState::Closed,
        (other, _) => other,
    }
}

/// What a received text frame carries: the envelope's id and its result,
/// when both are present; nothing otherwise, and the frame is ignored.
pub open spec fn spec_frame_parts(v: JsonView) -> Option<(Seq<char>, JsonView)> {
    match v {
        JsonView::Obj(ms) => {
            if spec_obj_has_key(ms, "id"@) && spec_obj_has_key(ms, "result"@) {
                match spec_obj_get(ms, "id"@) {
                    JsonView::Str(id) => Some((id, spec_obj_get(ms, "result"@))),
                    _ => None,
                }
            } else {
                None
            }
        },
        _ => None,
    }
}

/// Read the id and result out of a parsed response frame.
pub fn frame_parts(v: &JsonValue) -> (r: Option<(String, JsonValue)>)
    ensures
        (match r {
            Some(p) => spec_frame_parts(v@) == Some((p.0@, p.1@)),
            None => spec_frame_parts(v@) is None,
        }),
{
    let is_obj = match v {
        JsonValue::Obj(_) => true,
        _ => false,
    };
    if !is_obj {
        return None;
    }
    let id = match v.get("id") {
        Some(field) => match field.as_str() {
            Some(s) => s.clone(),
            None => {
                return None;
            },
        },
        None => {
            return None;
        },
    };
    match v.get("result") {
        Some(result) => Some((id, result.clone())),
        None => None,
    }
}

/// Read the id and result out of a text frame; `None` for frames that are
/// not one JSON envelope with a string id and a result.
pub fn parse_frame(text: &str) -> (r: Option<(String, JsonValue)>) {
    match parse_json(text) {
        Some(v) => frame_parts(&v),
        None => None,
    }
}

} // verus!

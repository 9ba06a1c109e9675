//! End-to-end guarantees of one request/reply exchange.
//!
//! The transport preserves message boundaries and FIFO order in each
//! direction, and the connector keeps exactly one request in flight, so
//! the reply the host receives next is the reply the child sent for the
//! host's last request. The laws here state what that exchange yields:
//! which reply a serving child sends for each request, that the host
//! accepts exactly that reply, and that the byte format carries both ways
//! unchanged.

use vstd::prelude::*;

use crate::child::{child_next, spec_reply_for, ChildEvent, ChildState};
use crate::codec::{spec_decode, spec_encode};
use crate::connector::{host_next, host_run, lemma_disconnected_is_permanent, HostOp, HostPhase};
use crate::messages::{Hand, IPCMessage, SkeletalInputActionStates};

verus! {

/// The one reply a serving child sends for a request: `states` is the
/// reading the child took for the request's hand (and is irrelevant for
/// `SyncActions`).
pub open spec fn spec_exchange_reply(req: IPCMessage, states: SkeletalInputActionStates) -> Option<
    IPCMessage,
> {
    spec_reply_for(child_next(ChildState::Serving, ChildEvent::Request(Some(req))).1, states)
}

/// Round trip of a synchronization request: a serving child answers
/// `SyncActions` with `Ack` and nothing else, stays serving, and the host
/// accepts exactly that reply and becomes idle again. The byte format
/// carries both messages unchanged.
pub proof fn lemma_sync_round_trip(states: SkeletalInputActionStates)
    ensures
        spec_exchange_reply(IPCMessage::SyncActions, states) == Some(IPCMessage::Ack),
        child_next(ChildState::Serving, ChildEvent::Request(Some(IPCMessage::SyncActions))).0
            == ChildState::Serving,
        host_next(HostPhase::AwaitingAck, HostOp::FinishSync(Some(IPCMessage::Ack)))
            == HostPhase::Idle,
        spec_decode(spec_encode(IPCMessage::SyncActions)) == Some(IPCMessage::SyncActions),
        spec_decode(spec_encode(IPCMessage::Ack)) == Some(IPCMessage::Ack),
{
    crate::codec::lemma_decode_encode(IPCMessage::SyncActions);
    crate::codec::lemma_decode_encode(IPCMessage::Ack);
}

/// Round trip of the hand requests: `GetHand(true)` yields a `HandData`
/// reply — the only reply sent for it, so it arrives before any other —
/// carrying the left hand's reading unchanged; a following
/// `GetHand(false)` yields a second, independent `HandData` carrying the
/// right hand's reading, with no influence from the first. The child stays
/// serving through both, the host accepts each reply and returns to idle,
/// and the byte format carries every message of both exchanges unchanged.
pub proof fn lemma_get_hand_round_trip(
    left: SkeletalInputActionStates,
    right: SkeletalInputActionStates,
)
    requires
        left.wf(),
        right.wf(),
    ensures
        spec_exchange_reply(IPCMessage::GetHand(true), left) == Some(IPCMessage::HandData(left)),
        spec_exchange_reply(IPCMessage::GetHand(false), right) == Some(
            IPCMessage::HandData(right),
        ),
        child_next(ChildState::Serving, ChildEvent::Request(Some(IPCMessage::GetHand(true)))).0
            == ChildState::Serving,
        child_next(ChildState::Serving, ChildEvent::Request(Some(IPCMessage::GetHand(false)))).0
            == ChildState::Serving,
        host_next(
            HostPhase::AwaitingHandData(Hand::Left),
            HostOp::FinishGetHand(Some(IPCMessage::HandData(left))),
        ) == HostPhase::Idle,
        host_next(
            HostPhase::AwaitingHandData(Hand::Right),
            HostOp::FinishGetHand(Some(IPCMessage::HandData(right))),
        ) == HostPhase::Idle,
        spec_decode(spec_encode(IPCMessage::GetHand(true))) == Some(IPCMessage::GetHand(true)),
        spec_decode(spec_encode(IPCMessage::GetHand(false))) == Some(IPCMessage::GetHand(false)),
        spec_decode(spec_encode(IPCMessage::HandData(left))) == Some(IPCMessage::HandData(left)),
        spec_decode(spec_encode(IPCMessage::HandData(right))) == Some(
            IPCMessage::HandData(right),
        ),
{
    crate::codec::lemma_decode_encode(IPCMessage::GetHand(true));
    crate::codec::lemma_decode_encode(IPCMessage::GetHand(false));
    crate::codec::lemma_decode_encode(IPCMessage::HandData(left));
    crate::codec::lemma_decode_encode(IPCMessage::HandData(right));
}

/// When the child process has exited, the host's next send or receive
/// fails, and the connector turns that failure into `Disconnected` — not a
/// panic and not a hang — and stays disconnected through every later
/// operation.
pub proof fn lemma_child_exit_surfaces_as_disconnect(ops: Seq<HostOp>)
    ensures
        host_next(HostPhase::AwaitingAck, HostOp::FinishSync(None)) == HostPhase::Disconnected,
        forall|hand: Hand|
            host_next(HostPhase::AwaitingHandData(hand), HostOp::FinishGetHand(None))
                == HostPhase::Disconnected,
        host_run(HostPhase::Disconnected, ops) == HostPhase::Disconnected,
{
    lemma_disconnected_is_permanent(ops);
}

} // verus!

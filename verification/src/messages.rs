//! The closed request/reply message protocol exchanged between the host
//! connector and the child runtime process, together with the data it
//! carries.

use vstd::prelude::*;

verus! {

/// Which hand a skeletal action reading applies to.
#[derive(Clone, Copy, Debug, PartialEq, Eq, Structural)]
pub enum Hand {
    Left,
    Right,
}

impl Hand {
    /// The protocol encodes the hand as a single flag: `true` means left.
    pub fn is_left(&self) -> (r: bool)
        ensures
            r == (*self is Left),
    {
        matches!(self, Hand::Left)
    }
}

/// Fixed-point scale for curl magnitudes: `CURL_ONE` stands for a fully
/// curled finger, `0` for a fully extended one. The runtime reports curls
/// as fractions in the unit interval; the shell converts them to this scale
/// before they enter the protocol.
pub const CURL_ONE: u32 = 1_000_000;

/// One fresh reading of the four skeletal input actions for a single hand:
/// two touch flags and two curl magnitudes.
#[derive(Clone, Copy, Debug, PartialEq, Eq, Structural)]
pub struct SkeletalInputActionStates {
    pub thumb_touch: bool,
    pub index_touch: bool,
    pub index_curl: u32,
    pub rest_curl: u32,
}

impl SkeletalInputActionStates {
    /// Both curl magnitudes lie on the fixed-point unit interval.
    pub open spec fn wf(self) -> bool {
        self.index_curl <= CURL_ONE && self.rest_curl <= CURL_ONE
    }

    pub fn new(thumb_touch: bool, index_touch: bool, index_curl: u32, rest_curl: u32) -> (r: Self)
        requires
            index_curl <= CURL_ONE,
            rest_curl <= CURL_ONE,
        ensures
            r == (SkeletalInputActionStates { thumb_touch, index_touch, index_curl, rest_curl }),
            r.wf(),
    {
        SkeletalInputActionStates { thumb_touch, index_touch, index_curl, rest_curl }
    }
}

/// The four protocol messages. `SyncActions` and `GetHand` are the only
/// requests the host may send; `Ack` and `HandData` are the only replies the
/// child may send, and each request has exactly one legal reply shape.
#[derive(Clone, Copy, Debug, PartialEq, Eq, Structural)]
pub enum IPCMessage {
    /// Request: synchronize all action state for the current frame.
    SyncActions,
    /// Request: return the action states for one hand; `true` means left.
    GetHand(bool),
    /// Reply to `GetHand`.
    HandData(SkeletalInputActionStates),
    /// Reply to `SyncActions`.
    Ack,
}

impl IPCMessage {
    pub open spec fn is_request(self) -> bool {
        self is SyncActions || self is GetHand
    }

    pub open spec fn is_reply(self) -> bool {
        self is HandData || self is Ack
    }

    /// The pairing invariant of the protocol: every request has exactly one
    /// legal reply variant, and any other observed pairing is a protocol
    /// violation.
    pub open spec fn legal_reply(self, reply: IPCMessage) -> bool {
        match self {
            IPCMessage::SyncActions => reply is Ack,
            IPCMessage::GetHand(_) => reply is HandData,
            _ => false,
        }
    }

    /// Any data carried by the message is well formed.
    pub open spec fn wf(self) -> bool {
        match self {
            IPCMessage::HandData(states) => states.wf(),
            _ => true,
        }
    }
}

/// A reply is legal for at most one request shape: the protocol can never
/// leave the host unsure which request a well-formed reply answers.
pub proof fn lemma_reply_determines_request_shape(req1: IPCMessage, req2: IPCMessage, reply: IPCMessage)
    requires
        req1.legal_reply(reply),
        req2.legal_reply(reply),
    ensures
        (req1 is SyncActions && req2 is SyncActions) || (req1 is GetHand && req2 is GetHand),
{
}

} // verus!

//! The host-side connector: a strictly one-in-flight request/reply state
//! machine over the child connection.
//!
//! The shell owns the actual process handle and channel endpoints. It
//! reports the spawn/handshake outcome to [`SkeletalInputIPC::new`], asks
//! the connector which message to send with the `begin_*` operations, and
//! hands the received reply (or the channel failure) back through the
//! matching `finish_*` operation. The connector decides every outcome:
//! which request is sent, how each reply is interpreted, and when the
//! connection is considered dead.

use vstd::prelude::*;

use crate::messages::{Hand, IPCMessage, SkeletalInputActionStates};

verus! {

/// Errors the connector reports to its caller.
#[derive(Clone, Copy, Debug, PartialEq, Eq, Structural)]
pub enum SkeletalIpcError {
    /// No connection was ever established, or a channel send/receive failed
    /// after one was. Permanent: every later operation reports it again.
    Disconnected,
    /// A well-formed reply arrived that is not the legal reply to the
    /// outstanding request: host and child have desynchronized. The
    /// connection is not used any further.
    ProtocolViolation,
}

/// The connector's phase, as the contracts see it.
#[derive(Clone, Copy, Debug, PartialEq, Eq, Structural)]
pub enum HostPhase {
    /// No usable connection; entered at construction after a failed spawn,
    /// or on any channel failure or protocol violation. Never left.
    Disconnected,
    /// Connected, no request outstanding.
    Idle,
    /// A `SyncActions` request has been issued and its reply is owed.
    AwaitingAck,
    /// A `GetHand` request for this hand has been issued and its reply is
    /// owed.
    AwaitingHandData(Hand),
}

/// One connector operation, for stating laws about whole operation
/// sequences.
#[derive(Clone, Copy, Debug, PartialEq, Eq, Structural)]
pub enum HostOp {
    BeginSync,
    FinishSync(Option<IPCMessage>),
    BeginGetHand(Hand),
    FinishGetHand(Option<IPCMessage>),
}

impl HostOp {
    /// Operations that issue a new request.
    pub open spec fn is_begin(self) -> bool {
        self is BeginSync || self is BeginGetHand
    }

    /// Operations that consume the reply to the outstanding request.
    pub open spec fn is_finish(self) -> bool {
        self is FinishSync || self is FinishGetHand
    }
}

/// A request has been issued and its reply not yet consumed.
pub open spec fn request_pending(p: HostPhase) -> bool {
    p is AwaitingAck || p is AwaitingHandData
}

/// Which operations the protocol admits in each phase. Issuing is admitted
/// only while no request is pending; finishing only while the matching
/// request is pending.
pub open spec fn host_enabled(p: HostPhase, op: HostOp) -> bool {
    match op {
        HostOp::BeginSync => !request_pending(p),
        HostOp::BeginGetHand(_) => !request_pending(p),
        HostOp::FinishSync(_) => p is AwaitingAck,
        HostOp::FinishGetHand(_) => p is AwaitingHandData,
    }
}

/// The phase after one enabled operation.
pub open spec fn host_next(p: HostPhase, op: HostOp) -> HostPhase {
    if p is Disconnected {
        HostPhase::Disconnected
    } else {
        match op {
            HostOp::BeginSync => HostPhase::AwaitingAck,
            HostOp::BeginGetHand(hand) => HostPhase::AwaitingHandData(hand),
            HostOp::FinishSync(reply) => match reply {
                Some(IPCMessage::Ack) => HostPhase::Idle,
                _ => HostPhase::Disconnected,
            },
            HostOp::FinishGetHand(reply) => match reply {
                Some(IPCMessage::HandData(_)) => HostPhase::Idle,
                _ => HostPhase::Disconnected,
            },
        }
    }
}

/// The phase after a whole sequence of enabled operations.
pub open spec fn host_run(p: HostPhase, ops: Seq<HostOp>) -> HostPhase
    decreases ops.len(),
{
    if ops.len() == 0 {
        p
    } else {
        host_run(host_next(p, ops[0]), ops.drop_first())
    }
}

/// A sequence of operations each of which is admitted in the phase the
/// previous ones lead to.
pub open spec fn host_trace_enabled(p: HostPhase, ops: Seq<HostOp>) -> bool
    decreases ops.len(),
{
    ops.len() == 0 || (host_enabled(p, ops[0]) && host_trace_enabled(
        host_next(p, ops[0]),
        ops.drop_first(),
    ))
}

/// The host connector. It owns the connection exclusively — the record is
/// never shared or cloned, and every operation takes `&mut self` — so only
/// one caller can ever have a request in flight.
pub struct SkeletalInputIPC {
    phase: HostPhase,
}

impl View for SkeletalInputIPC {
    type V = HostPhase;

    closed spec fn view(&self) -> HostPhase {
        self.phase
    }
}

impl SkeletalInputIPC {
    /// Build the connector from the spawn/handshake outcome. A failed spawn
    /// leaves it permanently disconnected; there is no retry.
    pub fn new(connected: bool) -> (r: Self)
        ensures
            r@ == if connected {
                HostPhase::Idle
            } else {
                HostPhase::Disconnected
            },
    {
        SkeletalInputIPC {
            phase: if connected {
                HostPhase::Idle
            } else {
                HostPhase::Disconnected
            },
        }
    }

    /// Issue the per-frame synchronization request. On a live connection
    /// this yields the `SyncActions` message for the shell to send and
    /// leaves its reply owed; on a dead one it reports `Disconnected` at
    /// once, and no channel is to be touched.
    pub fn begin_sync_actions(&mut self) -> (r: Result<IPCMessage, SkeletalIpcError>)
        requires
            !request_pending(old(self)@),
        ensures
            final(self)@ == host_next(old(self)@, HostOp::BeginSync),
            old(self)@ is Idle ==> r == Ok::<IPCMessage, SkeletalIpcError>(IPCMessage::SyncActions)
                && final(self)@ is AwaitingAck,
            old(self)@ is Disconnected ==> r == Err::<IPCMessage, SkeletalIpcError>(
                SkeletalIpcError::Disconnected,
            ) && final(self)@ is Disconnected,
    {
        match self.phase {
            HostPhase::Disconnected => Err(SkeletalIpcError::Disconnected),
            _ => {
                self.phase = HostPhase::AwaitingAck;
                Ok(IPCMessage::SyncActions)
            },
        }
    }

    /// Consume the reply to a `SyncActions` request. `reply` is the received
    /// message, or `None` if the send or the receive failed. Success is owed
    /// exactly on `Ack`; a channel failure is `Disconnected`, any other
    /// well-formed reply is a desynchronization and reported as
    /// `ProtocolViolation`; both leave the connection permanently dead.
    pub fn finish_sync_actions(&mut self, reply: Option<IPCMessage>) -> (r: Result<
        (),
        SkeletalIpcError,
    >)
        requires
            old(self)@ is AwaitingAck,
        ensures
            final(self)@ == host_next(old(self)@, HostOp::FinishSync(reply)),
            reply == Some(IPCMessage::Ack) ==> r == Ok::<(), SkeletalIpcError>(()) && final(self)@
                is Idle,
            reply is None ==> r == Err::<(), SkeletalIpcError>(SkeletalIpcError::Disconnected)
                && final(self)@ is Disconnected,
            reply is Some && !(reply == Some(IPCMessage::Ack)) ==> r == Err::<(), SkeletalIpcError>(
                SkeletalIpcError::ProtocolViolation,
            ) && final(self)@ is Disconnected,
    {
        match reply {
            Some(IPCMessage::Ack) => {
                self.phase = HostPhase::Idle;
                Ok(())
            },
            Some(_) => {
                self.phase = HostPhase::Disconnected;
                Err(SkeletalIpcError::ProtocolViolation)
            },
            None => {
                self.phase = HostPhase::Disconnected;
                Err(SkeletalIpcError::Disconnected)
            },
        }
    }

    /// Issue a request for one hand's action states. On a live connection
    /// this yields the `GetHand` message — the flag is `true` exactly for
    /// the left hand — and leaves its reply owed; on a dead one it reports
    /// `Disconnected` at once.
    pub fn begin_get_action_states(&mut self, hand: Hand) -> (r: Result<
        IPCMessage,
        SkeletalIpcError,
    >)
        requires
            !request_pending(old(self)@),
        ensures
            final(self)@ == host_next(old(self)@, HostOp::BeginGetHand(hand)),
            old(self)@ is Idle ==> r == Ok::<IPCMessage, SkeletalIpcError>(
                IPCMessage::GetHand(hand is Left),
            ) && final(self)@ == HostPhase::AwaitingHandData(hand),
            old(self)@ is Disconnected ==> r == Err::<IPCMessage, SkeletalIpcError>(
                SkeletalIpcError::Disconnected,
            ) && final(self)@ is Disconnected,
    {
        match self.phase {
            HostPhase::Disconnected => Err(SkeletalIpcError::Disconnected),
            _ => {
                self.phase = HostPhase::AwaitingHandData(hand);
                Ok(IPCMessage::GetHand(hand.is_left()))
            },
        }
    }

    /// Consume the reply to a `GetHand` request. Success is owed exactly on
    /// `HandData`, whose payload is returned unchanged; failures are
    /// classified as in `finish_sync_actions`.
    pub fn finish_get_action_states(&mut self, reply: Option<IPCMessage>) -> (r: Result<
        SkeletalInputActionStates,
        SkeletalIpcError,
    >)
        requires
            old(self)@ is AwaitingHandData,
        ensures
            final(self)@ == host_next(old(self)@, HostOp::FinishGetHand(reply)),
            forall|states: SkeletalInputActionStates|
                reply == Some(IPCMessage::HandData(states)) ==> r == Ok::<
                    SkeletalInputActionStates,
                    SkeletalIpcError,
                >(states) && final(self)@ is Idle,
            reply is None ==> r == Err::<SkeletalInputActionStates, SkeletalIpcError>(
                SkeletalIpcError::Disconnected,
            ) && final(self)@ is Disconnected,
            reply is Some && !(reply.unwrap() is HandData) ==> r == Err::<
                SkeletalInputActionStates,
                SkeletalIpcError,
            >(SkeletalIpcError::ProtocolViolation) && final(self)@ is Disconnected,
    {
        match reply {
            Some(IPCMessage::HandData(states)) => {
                self.phase = HostPhase::Idle;
                Ok(states)
            },
            Some(_) => {
                self.phase = HostPhase::Disconnected;
                Err(SkeletalIpcError::ProtocolViolation)
            },
            None => {
                self.phase = HostPhase::Disconnected;
                Err(SkeletalIpcError::Disconnected)
            },
        }
    }

    /// Whether the connection is still usable. The shell needs no channel
    /// for a disconnected connector.
    pub fn is_connected(&self) -> (r: bool)
        ensures
            r == !(self@ is Disconnected),
    {
        !matches!(self.phase, HostPhase::Disconnected)
    }
}

/// A disconnected connector stays disconnected: no sequence of operations,
/// of any length, leaves the phase again. Together with the `begin_*`
/// contracts — which report `Disconnected` whenever the phase is
/// `Disconnected` — this says that once the spawn fails, or the channel
/// fails once, every later `syncActions` and `getActionStates` call, for
/// either hand, reports `Disconnected`.
pub proof fn lemma_disconnected_is_permanent(ops: Seq<HostOp>)
    ensures
        host_run(HostPhase::Disconnected, ops) == HostPhase::Disconnected,
    decreases ops.len(),
{
    if ops.len() > 0 {
        lemma_disconnected_is_permanent(ops.drop_first());
    }
}

/// In an enabled trace, the operation at each position is admitted in the
/// phase that the operations before it lead to.
pub proof fn lemma_trace_enabled_at(p: HostPhase, ops: Seq<HostOp>, i: int)
    requires
        host_trace_enabled(p, ops),
        0 <= i < ops.len(),
    ensures
        host_enabled(host_run(p, ops.take(i)), ops[i]),
    decreases i,
{
    if i == 0 {
        assert(ops.take(0) =~= Seq::<HostOp>::empty());
    } else {
        lemma_trace_enabled_at(host_next(p, ops[0]), ops.drop_first(), i - 1);
        assert(ops.drop_first().take(i - 1) =~= ops.take(i).drop_first());
        assert(host_run(p, ops.take(i)) == host_run(
            host_next(p, ops.take(i)[0]),
            ops.take(i).drop_first(),
        ));
        assert(ops.drop_first()[i - 1] == ops[i]);
    }
}

/// Only one request is ever in flight: while a reply is owed no operation
/// that issues a request is admitted, issuing from the idle phase owes
/// exactly one reply, and consuming that reply is the only way back. The
/// exclusive ownership of the connector (every operation takes `&mut self`)
/// rules out a second caller interleaving its own request.
pub proof fn lemma_single_request_in_flight(p: HostPhase, op: HostOp)
    ensures
        request_pending(p) && op.is_begin() ==> !host_enabled(p, op),
        p is Idle && op.is_begin() ==> request_pending(host_next(p, op)),
        request_pending(p) && host_enabled(p, op) ==> !request_pending(host_next(p, op)),
{
}

/// In any enabled trace that starts with no request pending, a reply is
/// consumed between any two issued requests: the operation right after an
/// issue is a finish.
pub proof fn lemma_reply_consumed_between_requests(p: HostPhase, ops: Seq<HostOp>, i: int)
    requires
        host_trace_enabled(p, ops),
        !(p is Disconnected),
        0 <= i < ops.len() - 1,
        host_run(p, ops.take(i)) is Idle,
        ops[i].is_begin(),
    ensures
        ops[i + 1].is_finish(),
{
    lemma_trace_enabled_at(p, ops, i + 1);
    assert(ops.take(i + 1) =~= ops.take(i).push(ops[i]));
    lemma_host_run_push(p, ops.take(i), ops[i]);
}

/// Running one more operation is one more step.
pub proof fn lemma_host_run_push(p: HostPhase, ops: Seq<HostOp>, op: HostOp)
    ensures
        host_run(p, ops.push(op)) == host_next(host_run(p, ops), op),
    decreases ops.len(),
{
    assert(ops.push(op)[0] == if ops.len() == 0 {
        op
    } else {
        ops[0]
    });
    if ops.len() == 0 {
        assert(ops.push(op).drop_first() =~= Seq::<HostOp>::empty());
        assert(host_run(p, ops.push(op)) == host_run(
            host_next(p, op),
            Seq::<HostOp>::empty(),
        ));
        assert(host_run(host_next(p, op), Seq::<HostOp>::empty()) == host_next(p, op));
        assert(host_run(p, ops) == p);
    } else {
        lemma_host_run_push(host_next(p, ops[0]), ops.drop_first(), op);
        assert(ops.push(op).drop_first() =~= ops.drop_first().push(op));
        assert(host_run(p, ops.push(op)) == host_run(
            host_next(p, ops[0]),
            ops.drop_first().push(op),
        ));
        assert(host_run(p, ops) == host_run(host_next(p, ops[0]), ops.drop_first()));
    }
}

} // verus!

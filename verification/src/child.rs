//! The child process's state machine: initialization, readiness, action-set
//! attachment, and the serving loop.
//!
//! The shell in the child process performs the runtime and channel work —
//! creating the instance and session, polling the event stream, attaching
//! the action set, receiving requests, and sending replies — and feeds each
//! outcome to [`child_step`], which decides the next state and the action
//! to take. Every decision of the child's loop lives here; the shell only
//! carries them out.

use vstd::prelude::*;

use crate::messages::{IPCMessage, SkeletalInputActionStates};

verus! {

/// The session states the runtime's event stream can report. Only `Ready`
/// matters to this machine; everything else is discarded while waiting.
#[derive(Clone, Copy, Debug, PartialEq, Eq, Structural)]
pub enum SessionStateKind {
    Idle,
    Ready,
    Synchronized,
    Visible,
    Focused,
    Stopping,
    LossPending,
    Exiting,
    Unknown,
}

/// One round of polling the runtime's event stream, as the machine sees it.
#[derive(Clone, Copy, Debug, PartialEq, Eq, Structural)]
pub enum PolledEvent {
    /// A session-state-changed event reaching this state.
    SessionStateChanged(SessionStateKind),
    /// Any other event.
    OtherEvent,
    /// The poll returned nothing.
    NoEvent,
}

/// The child's states, in the order it passes through them.
#[derive(Clone, Copy, Debug, PartialEq, Eq, Structural)]
pub enum ChildState {
    /// Creating the secondary runtime instance and a headless session.
    Initializing,
    /// Polling the event stream until the session reports ready.
    WaitingForReady,
    /// Beginning the session, creating and binding the skeletal actions,
    /// and attaching the action set.
    Attaching,
    /// Blocking on the notification endpoint and answering requests.
    Serving,
    /// The process is exiting, cleanly or by abort.
    Terminated,
}

/// One outcome of the shell's outside work, handed to the machine.
#[derive(Clone, Copy, Debug, PartialEq, Eq, Structural)]
pub enum ChildEvent {
    /// Whether instance and session creation succeeded.
    InitResult(bool),
    /// What one poll of the event stream produced.
    Polled(PolledEvent),
    /// Whether session begin, action creation, binding and attachment all
    /// succeeded.
    AttachResult(bool),
    /// A received request, or `None` if the receive failed because the host
    /// disconnected.
    Request(Option<IPCMessage>),
    /// Whether sending the reply to the last request succeeded.
    SendResult(bool),
}

/// What the shell must do next.
#[derive(Clone, Copy, Debug, PartialEq, Eq, Structural)]
pub enum ChildAction {
    /// Nothing beyond moving to the next state.
    Proceed,
    /// Fatal failure or protocol violation: log and abort the process.
    AbortProcess,
    /// Synchronize all action state for the frame, then send `Ack`.
    SyncAndReply,
    /// Read the four action states for one hand — `true` means left — then
    /// send them as `HandData`.
    ReadHandAndReply(bool),
    /// The host is gone: leave the serving loop and exit normally.
    ExitCleanly,
}

/// Which outcomes can arise in which state: each state waits for exactly
/// one kind of outside work, except that serving alternates between a
/// received request and the fate of the reply sent for it.
pub open spec fn event_fits(s: ChildState, ev: ChildEvent) -> bool {
    match s {
        ChildState::Initializing => ev is InitResult,
        ChildState::WaitingForReady => ev is Polled,
        ChildState::Attaching => ev is AttachResult,
        ChildState::Serving => ev is Request || ev is SendResult,
        ChildState::Terminated => false,
    }
}

/// The machine's transition function. Failures during initialization or
/// attachment are fatal, as is a request that is not one of the two legal
/// request variants; a receive or send failure means the host is gone and
/// ends the loop cleanly; while waiting for readiness every event other
/// than a session-state change to ready is discarded.
pub open spec fn child_next(s: ChildState, ev: ChildEvent) -> (ChildState, ChildAction) {
    match (s, ev) {
        (ChildState::Initializing, ChildEvent::InitResult(ok)) => if ok {
            (ChildState::WaitingForReady, ChildAction::Proceed)
        } else {
            (ChildState::Terminated, ChildAction::AbortProcess)
        },
        (ChildState::WaitingForReady, ChildEvent::Polled(ev)) => if ev
            == PolledEvent::SessionStateChanged(SessionStateKind::Ready) {
            (ChildState::Attaching, ChildAction::Proceed)
        } else {
            (ChildState::WaitingForReady, ChildAction::Proceed)
        },
        (ChildState::Attaching, ChildEvent::AttachResult(ok)) => if ok {
            (ChildState::Serving, ChildAction::Proceed)
        } else {
            (ChildState::Terminated, ChildAction::AbortProcess)
        },
        (ChildState::Serving, ChildEvent::Request(req)) => match req {
            Some(IPCMessage::SyncActions) => (ChildState::Serving, ChildAction::SyncAndReply),
            Some(IPCMessage::GetHand(is_left)) => (
                ChildState::Serving,
                ChildAction::ReadHandAndReply(is_left),
            ),
            Some(_) => (ChildState::Terminated, ChildAction::AbortProcess),
            None => (ChildState::Terminated, ChildAction::ExitCleanly),
        },
        (ChildState::Serving, ChildEvent::SendResult(ok)) => if ok {
            (ChildState::Serving, ChildAction::Proceed)
        } else {
            (ChildState::Terminated, ChildAction::ExitCleanly)
        },
        _ => (ChildState::Terminated, ChildAction::AbortProcess),
    }
}

/// One step of the child's state machine, as run by the shell.
pub fn child_step(s: ChildState, ev: ChildEvent) -> (r: (ChildState, ChildAction))
    requires
        event_fits(s, ev),
    ensures
        r == child_next(s, ev),
{
    match (s, ev) {
        (ChildState::Initializing, ChildEvent::InitResult(ok)) => if ok {
            (ChildState::WaitingForReady, ChildAction::Proceed)
        } else {
            (ChildState::Terminated, ChildAction::AbortProcess)
        },
        (ChildState::WaitingForReady, ChildEvent::Polled(ev)) => if matches!(
            ev,
            PolledEvent::SessionStateChanged(SessionStateKind::Ready)
        ) {
            (ChildState::Attaching, ChildAction::Proceed)
        } else {
            (ChildState::WaitingForReady, ChildAction::Proceed)
        },
        (ChildState::Attaching, ChildEvent::AttachResult(ok)) => if ok {
            (ChildState::Serving, ChildAction::Proceed)
        } else {
            (ChildState::Terminated, ChildAction::AbortProcess)
        },
        (ChildState::Serving, ChildEvent::Request(req)) => match req {
            Some(IPCMessage::SyncActions) => (ChildState::Serving, ChildAction::SyncAndReply),
            Some(IPCMessage::GetHand(is_left)) => (
                ChildState::Serving,
                ChildAction::ReadHandAndReply(is_left),
            ),
            Some(_) => (ChildState::Terminated, ChildAction::AbortProcess),
            None => (ChildState::Terminated, ChildAction::ExitCleanly),
        },
        (ChildState::Serving, ChildEvent::SendResult(ok)) => if ok {
            (ChildState::Serving, ChildAction::Proceed)
        } else {
            (ChildState::Terminated, ChildAction::ExitCleanly)
        },
        _ => (ChildState::Terminated, ChildAction::AbortProcess),
    }
}

/// The reply the shell sends after carrying out an action, given the states
/// it read for `ReadHandAndReply`; `None` for actions that send nothing.
pub open spec fn spec_reply_for(a: ChildAction, states: SkeletalInputActionStates) -> Option<
    IPCMessage,
> {
    match a {
        ChildAction::SyncAndReply => Some(IPCMessage::Ack),
        ChildAction::ReadHandAndReply(_) => Some(IPCMessage::HandData(states)),
        _ => None,
    }
}

/// The reply to a `SyncActions` request, sent after the frame's action
/// synchronization.
pub fn reply_for_sync() -> (r: IPCMessage)
    ensures
        r == IPCMessage::Ack,
{
    IPCMessage::Ack
}

/// The reply to a `GetHand` request, carrying the states read for the
/// requested hand unchanged.
pub fn reply_for_hand(states: SkeletalInputActionStates) -> (r: IPCMessage)
    ensures
        r == IPCMessage::HandData(states),
{
    IPCMessage::HandData(states)
}

/// The subaction path for one hand, as resolved by the child before reading
/// that hand's action states.
pub fn hand_path(is_left: bool) -> (r: &'static str)
    ensures
        is_left ==> r@ == "/user/hand/left"@,
        !is_left ==> r@ == "/user/hand/right"@,
{
    if is_left {
        "/user/hand/left"
    } else {
        "/user/hand/right"
    }
}

/// A serving child answers every legal request with the legal reply for
/// exactly that request, and stays serving: `SyncActions` is answered by
/// `Ack` and `GetHand` by `HandData`, never anything else, and never more
/// than one reply per request.
pub proof fn lemma_serving_replies_are_legal(req: IPCMessage, states: SkeletalInputActionStates)
    requires
        req.is_request(),
    ensures
        child_next(ChildState::Serving, ChildEvent::Request(Some(req))).0 == ChildState::Serving,
        spec_reply_for(child_next(ChildState::Serving, ChildEvent::Request(Some(req))).1, states)
            is Some,
        req.legal_reply(
            spec_reply_for(
                child_next(ChildState::Serving, ChildEvent::Request(Some(req))).1,
                states,
            ).unwrap(),
        ),
{
}

/// A request that is not one of the two legal request variants is a
/// protocol violation: the child answers nothing and aborts.
pub proof fn lemma_illegal_request_is_fatal(req: IPCMessage)
    requires
        !req.is_request(),
    ensures
        child_next(ChildState::Serving, ChildEvent::Request(Some(req))) == (
            ChildState::Terminated,
            ChildAction::AbortProcess,
        ),
{
}

/// How far along its lifecycle a state is.
pub open spec fn state_rank(s: ChildState) -> int {
    match s {
        ChildState::Initializing => 0,
        ChildState::WaitingForReady => 1,
        ChildState::Attaching => 2,
        ChildState::Serving => 3,
        ChildState::Terminated => 4,
    }
}

/// The child only moves forward: initialization, readiness, attachment,
/// serving, termination, in that order, never back. In particular it
/// serves no request before its action set is attached, and once
/// terminated it takes no further event.
pub proof fn lemma_child_never_regresses(s: ChildState, ev: ChildEvent)
    requires
        event_fits(s, ev),
    ensures
        state_rank(child_next(s, ev).0) >= state_rank(s),
{
}

/// The child sends a reply only while serving, and only for a legal
/// request: no event in any other state, and no channel failure, produces
/// one.
pub proof fn lemma_replies_only_answer_requests(
    s: ChildState,
    ev: ChildEvent,
    states: SkeletalInputActionStates,
)
    requires
        event_fits(s, ev),
        spec_reply_for(child_next(s, ev).1, states) is Some,
    ensures
        s is Serving,
        ev matches ChildEvent::Request(Some(req)) && req.is_request(),
{
}

} // verus!

//! One full session, with the host connector and the child state machine
//! run in lockstep and every message carried through the byte codec, the
//! way the transport carries it.

use skeletal_input::child::{child_step, reply_for_hand, reply_for_sync, ChildAction, ChildEvent, ChildState};
use skeletal_input::codec::{decode, encode};
use skeletal_input::connector::SkeletalInputIPC;
use skeletal_input::messages::{Hand, IPCMessage, SkeletalInputActionStates, CURL_ONE};

/// Carry one request to the child, let it decide, and carry its reply back.
fn exchange(
    child: &mut ChildState,
    request: IPCMessage,
    reading: SkeletalInputActionStates,
) -> Option<IPCMessage> {
    let wire = encode(&request);
    let received = decode(wire.as_slice()).expect("the encoding of a request always decodes");
    let (next, action) = child_step(*child, ChildEvent::Request(Some(received)));
    *child = next;
    let reply = match action {
        ChildAction::SyncAndReply => reply_for_sync(),
        ChildAction::ReadHandAndReply(_) => reply_for_hand(reading),
        _ => return None,
    };
    let wire_back = encode(&reply);
    let delivered = decode(wire_back.as_slice()).expect("the encoding of a reply always decodes");
    let (next, _) = child_step(*child, ChildEvent::SendResult(true));
    *child = next;
    Some(delivered)
}

#[test]
fn full_session_sequence() {
    // The child comes up: initialization, readiness, attachment.
    let mut child = ChildState::Initializing;
    let (s, _) = child_step(child, ChildEvent::InitResult(true));
    child = s;
    let (s, _) = child_step(
        child,
        ChildEvent::Polled(skeletal_input::child::PolledEvent::SessionStateChanged(
            skeletal_input::child::SessionStateKind::Ready,
        )),
    );
    child = s;
    let (s, _) = child_step(child, ChildEvent::AttachResult(true));
    child = s;
    assert_eq!(child, ChildState::Serving);

    // The handshake succeeded, so the connector is live.
    let mut ipc = SkeletalInputIPC::new(true);

    // syncActions() -> Ok(())
    let request = ipc.begin_sync_actions().unwrap();
    let reply = exchange(&mut child, request, SkeletalInputActionStates::new(false, false, 0, 0));
    assert_eq!(ipc.finish_sync_actions(reply), Ok(()));

    // getActionStates(Left) -> Ok with curls on the unit interval
    let left_reading = SkeletalInputActionStates::new(true, false, 420_000, 980_000);
    let request = ipc.begin_get_action_states(Hand::Left).unwrap();
    let reply = exchange(&mut child, request, left_reading);
    let states = ipc.finish_get_action_states(reply).unwrap();
    assert!(states.thumb_touch);
    assert!(!states.index_touch);
    assert!(states.index_curl <= CURL_ONE);
    assert!(states.rest_curl <= CURL_ONE);
    assert_eq!(states, left_reading);

    // The right hand's reading is independent of the left's.
    let right_reading = SkeletalInputActionStates::new(false, true, 10, 20);
    let request = ipc.begin_get_action_states(Hand::Right).unwrap();
    let reply = exchange(&mut child, request, right_reading);
    assert_eq!(ipc.finish_get_action_states(reply), Ok(right_reading));

    // Dropping the connection: the child's next receive fails and it
    // leaves the loop; the host side force-terminates the process.
    assert_eq!(child, ChildState::Serving);
    let (s, a) = child_step(child, ChildEvent::Request(None));
    assert_eq!(s, ChildState::Terminated);
    assert_eq!(a, ChildAction::ExitCleanly);
}

use skeletal_input::connector::{SkeletalInputIPC, SkeletalIpcError};
use skeletal_input::messages::{Hand, IPCMessage, SkeletalInputActionStates};

#[test]
fn spawn_failure_disconnects_every_call() {
    // If the child executable cannot be spawned, every subsequent operation
    // reports Disconnected, for both hands, however often it is retried.
    let mut ipc = SkeletalInputIPC::new(false);
    assert!(!ipc.is_connected());
    for _ in 0..3 {
        assert_eq!(ipc.begin_sync_actions(), Err(SkeletalIpcError::Disconnected));
        assert_eq!(
            ipc.begin_get_action_states(Hand::Left),
            Err(SkeletalIpcError::Disconnected)
        );
        assert_eq!(
            ipc.begin_get_action_states(Hand::Right),
            Err(SkeletalIpcError::Disconnected)
        );
    }
}

#[test]
fn sync_actions_accepts_only_ack() {
    let mut ipc = SkeletalInputIPC::new(true);
    let request = ipc.begin_sync_actions().unwrap();
    assert_eq!(request, IPCMessage::SyncActions);
    assert_eq!(ipc.finish_sync_actions(Some(IPCMessage::Ack)), Ok(()));
    assert!(ipc.is_connected());
}

#[test]
fn sync_actions_rejects_wrong_reply_as_violation() {
    let mut ipc = SkeletalInputIPC::new(true);
    ipc.begin_sync_actions().unwrap();
    let wrong = IPCMessage::HandData(SkeletalInputActionStates::new(false, false, 0, 0));
    assert_eq!(
        ipc.finish_sync_actions(Some(wrong)),
        Err(SkeletalIpcError::ProtocolViolation)
    );
    // A desynchronized connection is not used any further.
    assert!(!ipc.is_connected());
    assert_eq!(ipc.begin_sync_actions(), Err(SkeletalIpcError::Disconnected));
}

#[test]
fn get_action_states_accepts_only_hand_data() {
    let mut ipc = SkeletalInputIPC::new(true);
    let request = ipc.begin_get_action_states(Hand::Left).unwrap();
    assert_eq!(request, IPCMessage::GetHand(true));
    let reading = SkeletalInputActionStates::new(true, false, 250_000, 750_000);
    assert_eq!(
        ipc.finish_get_action_states(Some(IPCMessage::HandData(reading))),
        Ok(reading)
    );

    let request = ipc.begin_get_action_states(Hand::Right).unwrap();
    assert_eq!(request, IPCMessage::GetHand(false));
    assert_eq!(
        ipc.finish_get_action_states(Some(IPCMessage::Ack)),
        Err(SkeletalIpcError::ProtocolViolation)
    );
}

#[test]
fn channel_failure_disconnects_permanently() {
    // After the child exits, the next receive fails; the call reports
    // Disconnected rather than panicking, and the connection stays down.
    let mut ipc = SkeletalInputIPC::new(true);
    ipc.begin_sync_actions().unwrap();
    assert_eq!(
        ipc.finish_sync_actions(None),
        Err(SkeletalIpcError::Disconnected)
    );
    assert!(!ipc.is_connected());
    assert_eq!(ipc.begin_sync_actions(), Err(SkeletalIpcError::Disconnected));
    assert_eq!(
        ipc.begin_get_action_states(Hand::Left),
        Err(SkeletalIpcError::Disconnected)
    );
}

#[test]
fn receive_failure_on_get_disconnects() {
    let mut ipc = SkeletalInputIPC::new(true);
    ipc.begin_get_action_states(Hand::Right).unwrap();
    assert_eq!(
        ipc.finish_get_action_states(None),
        Err(SkeletalIpcError::Disconnected)
    );
    assert!(!ipc.is_connected());
}

#[test]
fn one_request_in_flight_per_connector() {
    // The connector is exclusively owned and issues requests strictly one
    // at a time: a reply is consumed before the next request is issued, so
    // a sync followed by a left-hand read observes its own replies in
    // order, with no interleaving from any other request.
    let mut ipc = SkeletalInputIPC::new(true);
    let first = ipc.begin_sync_actions().unwrap();
    assert_eq!(first, IPCMessage::SyncActions);
    assert_eq!(ipc.finish_sync_actions(Some(IPCMessage::Ack)), Ok(()));
    let second = ipc.begin_get_action_states(Hand::Left).unwrap();
    assert_eq!(second, IPCMessage::GetHand(true));
    let left = SkeletalInputActionStates::new(false, true, 1, 2);
    assert_eq!(
        ipc.finish_get_action_states(Some(IPCMessage::HandData(left))),
        Ok(left)
    );
}

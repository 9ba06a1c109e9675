use skeletal_input::codec::{decode, encode};
use skeletal_input::messages::{IPCMessage, SkeletalInputActionStates, CURL_ONE};

fn states(thumb: bool, index: bool, index_curl: u32, rest_curl: u32) -> SkeletalInputActionStates {
    SkeletalInputActionStates::new(thumb, index, index_curl, rest_curl)
}

#[test]
fn encode_sync_actions_exact_bytes() {
    assert_eq!(encode(&IPCMessage::SyncActions), vec![0u8]);
}

#[test]
fn encode_ack_exact_bytes() {
    assert_eq!(encode(&IPCMessage::Ack), vec![3u8]);
}

#[test]
fn encode_get_hand_exact_bytes() {
    assert_eq!(encode(&IPCMessage::GetHand(true)), vec![1u8, 1]);
    assert_eq!(encode(&IPCMessage::GetHand(false)), vec![1u8, 0]);
}

#[test]
fn encode_hand_data_exact_bytes() {
    // 0x000f4240 == 1_000_000, little endian: 0x40 0x42 0x0f 0x00
    let m = IPCMessage::HandData(states(true, false, CURL_ONE, 0x01020304));
    assert_eq!(
        encode(&m),
        vec![2u8, 1, 0, 0x40, 0x42, 0x0f, 0x00, 0x04, 0x03, 0x02, 0x01]
    );
}

#[test]
fn round_trip_every_variant() {
    let messages = vec![
        IPCMessage::SyncActions,
        IPCMessage::Ack,
        IPCMessage::GetHand(true),
        IPCMessage::GetHand(false),
        IPCMessage::HandData(states(false, false, 0, 0)),
        IPCMessage::HandData(states(true, true, CURL_ONE, CURL_ONE)),
        IPCMessage::HandData(states(false, true, 123_456, 999_999)),
    ];
    for m in messages {
        let bytes = encode(&m);
        assert_eq!(decode(bytes.as_slice()), Some(m));
    }
}

#[test]
fn decode_rejects_empty_input() {
    assert_eq!(decode(&[]), None);
}

#[test]
fn decode_rejects_unknown_tag() {
    assert_eq!(decode(&[4u8]), None);
    assert_eq!(decode(&[255u8]), None);
}

#[test]
fn decode_rejects_wrong_length() {
    assert_eq!(decode(&[0u8, 0]), None);
    assert_eq!(decode(&[3u8, 0]), None);
    assert_eq!(decode(&[1u8]), None);
    assert_eq!(decode(&[1u8, 1, 0]), None);
    assert_eq!(decode(&[2u8, 0, 0, 0, 0, 0, 0, 0, 0, 0]), None);
    assert_eq!(decode(&[2u8, 0, 0, 0, 0, 0, 0, 0, 0, 0, 0, 0]), None);
}

#[test]
fn decode_rejects_bad_flag_byte() {
    assert_eq!(decode(&[1u8, 2]), None);
    assert_eq!(decode(&[2u8, 2, 0, 0, 0, 0, 0, 0, 0, 0, 0]), None);
    assert_eq!(decode(&[2u8, 0, 255, 0, 0, 0, 0, 0, 0, 0, 0]), None);
}

#[test]
fn decode_rejects_curl_above_one() {
    // 1_000_001 little endian: 0x41 0x42 0x0f 0x00
    assert_eq!(decode(&[2u8, 0, 0, 0x41, 0x42, 0x0f, 0x00, 0, 0, 0, 0]), None);
    assert_eq!(decode(&[2u8, 0, 0, 0, 0, 0, 0, 0x41, 0x42, 0x0f, 0x00]), None);
}

#[test]
fn decode_accepts_curl_at_bounds() {
    let low = decode(&[2u8, 0, 0, 0, 0, 0, 0, 0, 0, 0, 0]).unwrap();
    assert_eq!(low, IPCMessage::HandData(states(false, false, 0, 0)));
    let high = decode(&[2u8, 1, 1, 0x40, 0x42, 0x0f, 0x00, 0x40, 0x42, 0x0f, 0x00]).unwrap();
    assert_eq!(high, IPCMessage::HandData(states(true, true, CURL_ONE, CURL_ONE)));
}

//! Byte encoding of the protocol messages.
//!
//! The transport preserves message boundaries but carries plain bytes, so
//! the protocol needs an encoding that round-trips every message exactly.
//! The format is a one-byte tag followed by the fixed-size payload of the
//! variant; flags are one byte, curl magnitudes four little-endian bytes.
//! Decoding is strict: it accepts exactly the encodings this module
//! produces, so the encoding of each message is also canonical.

use vstd::prelude::*;

use crate::messages::{IPCMessage, SkeletalInputActionStates, CURL_ONE};

verus! {

pub const TAG_SYNC_ACTIONS: u8 = 0;
pub const TAG_GET_HAND: u8 = 1;
pub const TAG_HAND_DATA: u8 = 2;
pub const TAG_ACK: u8 = 3;

/// A flag is encoded as exactly one byte, `1` for true and `0` for false.
pub open spec fn spec_bool_byte(b: bool) -> u8 {
    if b {
        1
    } else {
        0
    }
}

/// Little-endian bytes of a curl magnitude.
pub open spec fn spec_u32_le(x: u32) -> Seq<u8> {
    seq![
        (x & 0xff) as u8,
        ((x >> 8) & 0xff) as u8,
        ((x >> 16) & 0xff) as u8,
        ((x >> 24) & 0xff) as u8,
    ]
}

/// The value read back from four little-endian bytes.
pub open spec fn spec_u32_from_le(b0: u8, b1: u8, b2: u8, b3: u8) -> u32 {
    (b0 as u32) | ((b1 as u32) << 8) | ((b2 as u32) << 16) | ((b3 as u32) << 24)
}

pub open spec fn spec_encode(m: IPCMessage) -> Seq<u8> {
    match m {
        IPCMessage::SyncActions => seq![TAG_SYNC_ACTIONS],
        IPCMessage::GetHand(is_left) => seq![TAG_GET_HAND, spec_bool_byte(is_left)],
        IPCMessage::HandData(states) => seq![
            TAG_HAND_DATA,
            spec_bool_byte(states.thumb_touch),
            spec_bool_byte(states.index_touch),
        ] + spec_u32_le(states.index_curl) + spec_u32_le(states.rest_curl),
        IPCMessage::Ack => seq![TAG_ACK],
    }
}

/// Strict decoding: `Some` exactly on the canonical encodings of well-formed
/// messages.
pub open spec fn spec_decode(bytes: Seq<u8>) -> Option<IPCMessage> {
    if bytes.len() == 0 {
        None
    } else if bytes[0] == TAG_SYNC_ACTIONS {
        if bytes.len() == 1 {
            Some(IPCMessage::SyncActions)
        } else {
            None
        }
    } else if bytes[0] == TAG_GET_HAND {
        if bytes.len() == 2 && (bytes[1] == 0 || bytes[1] == 1) {
            Some(IPCMessage::GetHand(bytes[1] == 1))
        } else {
            None
        }
    } else if bytes[0] == TAG_HAND_DATA {
        if bytes.len() == 11 && (bytes[1] == 0 || bytes[1] == 1) && (bytes[2] == 0 || bytes[2] == 1)
            && spec_u32_from_le(bytes[3], bytes[4], bytes[5], bytes[6]) <= CURL_ONE
            && spec_u32_from_le(bytes[7], bytes[8], bytes[9], bytes[10]) <= CURL_ONE {
            Some(IPCMessage::HandData(SkeletalInputActionStates {
                thumb_touch: bytes[1] == 1,
                index_touch: bytes[2] == 1,
                index_curl: spec_u32_from_le(bytes[3], bytes[4], bytes[5], bytes[6]),
                rest_curl: spec_u32_from_le(bytes[7], bytes[8], bytes[9], bytes[10]),
            }))
        } else {
            None
        }
    } else if bytes[0] == TAG_ACK {
        if bytes.len() == 1 {
            Some(IPCMessage::Ack)
        } else {
            None
        }
    } else {
        None
    }
}

/// Reading the little-endian bytes of a value gives the value back.
pub proof fn lemma_u32_le_round_trip(x: u32)
    ensures
        spec_u32_from_le(
            (x & 0xff) as u8,
            ((x >> 8) & 0xff) as u8,
            ((x >> 16) & 0xff) as u8,
            ((x >> 24) & 0xff) as u8,
        ) == x,
{
    assert(((x & 0xff) as u8 as u32) | ((((x >> 8) & 0xff) as u8 as u32) << 8) | ((((x >> 16)
        & 0xff) as u8 as u32) << 16) | ((((x >> 24) & 0xff) as u8 as u32) << 24) == x)
        by (bit_vector);
}

/// The little-endian bytes of the value read from four bytes are those four
/// bytes again: no two byte quadruples read as the same value.
pub proof fn lemma_u32_le_canonical(b0: u8, b1: u8, b2: u8, b3: u8)
    ensures
        spec_u32_le(spec_u32_from_le(b0, b1, b2, b3)) == seq![b0, b1, b2, b3],
{
    let x = spec_u32_from_le(b0, b1, b2, b3);
    assert((((b0 as u32) | ((b1 as u32) << 8) | ((b2 as u32) << 16) | ((b3 as u32) << 24)) & 0xff)
        as u8 == b0) by (bit_vector);
    assert(((((b0 as u32) | ((b1 as u32) << 8) | ((b2 as u32) << 16) | ((b3 as u32) << 24)) >> 8)
        & 0xff) as u8 == b1) by (bit_vector);
    assert(((((b0 as u32) | ((b1 as u32) << 8) | ((b2 as u32) << 16) | ((b3 as u32) << 24)) >> 16)
        & 0xff) as u8 == b2) by (bit_vector);
    assert(((((b0 as u32) | ((b1 as u32) << 8) | ((b2 as u32) << 16) | ((b3 as u32) << 24)) >> 24)
        & 0xff) as u8 == b3) by (bit_vector);
    assert(spec_u32_le(x) =~= seq![b0, b1, b2, b3]);
}

/// Round trip: decoding the encoding of any well-formed message gives the
/// message back, so no message is lost or altered by the byte format.
pub proof fn lemma_decode_encode(m: IPCMessage)
    requires
        m.wf(),
    ensures
        spec_decode(spec_encode(m)) == Some(m),
{
    match m {
        IPCMessage::SyncActions => {
        },
        IPCMessage::GetHand(is_left) => {
        },
        IPCMessage::HandData(states) => {
            let bytes = spec_encode(m);
            lemma_u32_le_round_trip(states.index_curl);
            lemma_u32_le_round_trip(states.rest_curl);
            assert(bytes.len() == 11);
            assert(spec_u32_from_le(bytes[3], bytes[4], bytes[5], bytes[6]) == states.index_curl);
            assert(spec_u32_from_le(bytes[7], bytes[8], bytes[9], bytes[10]) == states.rest_curl);
        },
        IPCMessage::Ack => {
        },
    }
}

/// Canonical form: whatever decodes was the encoding of the decoded message,
/// and that message is well formed. Together with the round trip this makes
/// the encoding a bijection between well-formed messages and accepted byte
/// strings.
pub proof fn lemma_encode_decode(bytes: Seq<u8>, m: IPCMessage)
    requires
        spec_decode(bytes) == Some(m),
    ensures
        m.wf(),
        spec_encode(m) == bytes,
{
    if bytes[0] == TAG_HAND_DATA {
        lemma_u32_le_canonical(bytes[3], bytes[4], bytes[5], bytes[6]);
        lemma_u32_le_canonical(bytes[7], bytes[8], bytes[9], bytes[10]);
        assert(spec_encode(m) =~= bytes);
    } else if bytes[0] == TAG_SYNC_ACTIONS || bytes[0] == TAG_GET_HAND || bytes[0] == TAG_ACK {
        assert(spec_encode(m) =~= bytes);
    }
}

fn bool_byte(b: bool) -> (r: u8)
    ensures
        r == spec_bool_byte(b),
{
    if b {
        1
    } else {
        0
    }
}

fn push_u32_le(out: &mut Vec<u8>, x: u32)
    ensures
        final(out)@ == old(out)@ + spec_u32_le(x),
{
    out.push((x & 0xff) as u8);
    out.push(((x >> 8) & 0xff) as u8);
    out.push(((x >> 16) & 0xff) as u8);
    out.push(((x >> 24) & 0xff) as u8);
    assert(final(out)@ =~= old(out)@ + spec_u32_le(x));
}

/// Encode one message for the transport.
pub fn encode(m: &IPCMessage) -> (r: Vec<u8>)
    ensures
        r@ == spec_encode(*m),
{
    let mut out: Vec<u8> = Vec::new();
    match m {
        IPCMessage::SyncActions => {
            out.push(TAG_SYNC_ACTIONS);
        },
        IPCMessage::GetHand(is_left) => {
            out.push(TAG_GET_HAND);
            out.push(bool_byte(*is_left));
        },
        IPCMessage::HandData(states) => {
            out.push(TAG_HAND_DATA);
            out.push(bool_byte(states.thumb_touch));
            out.push(bool_byte(states.index_touch));
            push_u32_le(&mut out, states.index_curl);
            push_u32_le(&mut out, states.rest_curl);
        },
        IPCMessage::Ack => {
            out.push(TAG_ACK);
        },
    }
    assert(out@ =~= spec_encode(*m));
    out
}

fn u32_from_le(b0: u8, b1: u8, b2: u8, b3: u8) -> (r: u32)
    ensures
        r == spec_u32_from_le(b0, b1, b2, b3),
{
    (b0 as u32) | ((b1 as u32) << 8) | ((b2 as u32) << 16) | ((b3 as u32) << 24)
}

/// Decode one transport message. Returns `None` on anything but the
/// canonical encoding of a well-formed message; the caller treats that as a
/// protocol violation.
pub fn decode(bytes: &[u8]) -> (r: Option<IPCMessage>)
    ensures
        r == spec_decode(bytes@),
        r is Some ==> r.unwrap().wf(),
{
    proof {
        if spec_decode(bytes@) is Some {
            lemma_encode_decode(bytes@, spec_decode(bytes@).unwrap());
        }
    }
    if bytes.len() == 0 {
        return None;
    }
    let tag = bytes[0];
    if tag == TAG_SYNC_ACTIONS {
        if bytes.len() == 1 {
            Some(IPCMessage::SyncActions)
        } else {
            None
        }
    } else if tag == TAG_GET_HAND {
        if bytes.len() == 2 && (bytes[1] == 0 || bytes[1] == 1) {
            Some(IPCMessage::GetHand(bytes[1] == 1))
        } else {
            None
        }
    } else if tag == TAG_HAND_DATA {
        if bytes.len() != 11 {
            return None;
        }
        if !(bytes[1] == 0 || bytes[1] == 1) || !(bytes[2] == 0 || bytes[2] == 1) {
            return None;
        }
        let index_curl = u32_from_le(bytes[3], bytes[4], bytes[5], bytes[6]);
        let rest_curl = u32_from_le(bytes[7], bytes[8], bytes[9], bytes[10]);
        if index_curl > CURL_ONE || rest_curl > CURL_ONE {
            return None;
        }
        Some(IPCMessage::HandData(SkeletalInputActionStates {
            thumb_touch: bytes[1] == 1,
            index_touch: bytes[2] == 1,
            index_curl,
            rest_curl,
        }))
    } else if tag == TAG_ACK {
        if bytes.len() == 1 {
            Some(IPCMessage::Ack)
        } else {
            None
        }
    } else {
        None
    }
}

} // verus!

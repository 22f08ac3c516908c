//! Binary wire protocol for the embedding service.
//!
//! A message travels in a fixed envelope:
//!
//! - magic constant, 4 bytes `0x4F 0x56 0x4E 0x54`
//! - protocol version, 1 byte (currently 1)
//! - message type, 1 byte (4 = data)
//! - payload length, unsigned 32-bit little-endian
//! - sender id, 16 raw bytes
//! - target-id presence tag, 1 byte (1 = present), then 16 raw bytes if present
//! - message id, 16 raw bytes
//! - payload bytes, exactly as many as declared
//!
//! The 128-bit ids are carried as `u128` values in the byte order of
//! [`vstd::bytes::spec_u128_to_le_bytes`]; the envelope only ever moves the 16
//! raw bytes.  [`parse_wire`] is the specification of decoding; `encode` and
//! `decode` are proved against it, and [`lemma_decode_encode_roundtrip`]
//! states that decoding an encoded message recovers every field exactly.

pub mod http;
pub mod payload;

use vstd::bytes::lemma_auto_spec_u128_to_from_le_bytes;
use vstd::bytes::lemma_auto_spec_u32_to_from_le_bytes;
use vstd::bytes::spec_u128_from_le_bytes;
use vstd::bytes::spec_u128_to_le_bytes;
use vstd::bytes::spec_u32_from_le_bytes;
use vstd::bytes::spec_u32_to_le_bytes;
use vstd::bytes::u128_from_le_bytes;
use vstd::bytes::u128_to_le_bytes;
use vstd::bytes::u32_from_le_bytes;
use vstd::bytes::u32_to_le_bytes;
use vstd::prelude::*;
use vstd::slice::slice_subrange;

pub use payload::EmbedRequest;
pub use payload::EmbedResponse;
pub use payload::ErrorResponse;
pub use payload::deserialize_request;
pub use payload::deserialize_response;
pub use payload::serialize_error;
pub use payload::serialize_request;
pub use payload::serialize_response;

verus! {

/// Protocol version byte.
pub const VERSION: u8 = 0x01;

/// Message type byte for data messages.
pub const MSG_TYPE_DATA: u8 = 4;

/// The four magic bytes opening every frame, spelling the protocol name.
pub open spec fn spec_magic() -> Seq<u8> {
    seq![0x4Fu8, 0x56u8, 0x4Eu8, 0x54u8]
}

/// Protocol message envelope: ids plus opaque payload bytes.
#[derive(Debug)]
pub struct ProtocolMessage {
    pub sender_id: u128,
    pub target_id: Option<u128>,
    pub message_id: u128,
    pub payload: Vec<u8>,
}

/// What decoding a byte sequence yields: a complete message with the count of
/// bytes it occupies, or one of the distinct failures.  `Truncated` covers
/// every proper prefix of a well-formed frame, the empty sequence included, so
/// the caller can tell "wait for more bytes / clean end of stream" from a
/// malformed frame.
pub enum ParsedFrame {
    Message {
        sender_id: u128,
        target_id: Option<u128>,
        message_id: u128,
        payload: Seq<u8>,
        used: int,
    },
    BadMagic,
    UnsupportedVersion { version: u8 },
    Truncated,
}

/// Decode failure, mirroring the non-`Message` cases of [`ParsedFrame`].
#[derive(Debug, Clone, Copy, PartialEq, Eq, Structural)]
pub enum DecodeError {
    /// The stream does not open with the four magic bytes.
    BadMagic,
    /// The version byte differs from [`VERSION`].
    UnsupportedVersion { version: u8 },
    /// The bytes end before a whole frame is present.
    Truncated,
}

impl ProtocolMessage {
    /// The tag byte plus optional 16 target-id bytes.
    pub open spec fn spec_target_bytes(self) -> Seq<u8> {
        match self.target_id {
            Some(t) => seq![1u8] + spec_u128_to_le_bytes(t),
            None => seq![0u8],
        }
    }

    /// The exact byte sequence this message occupies on the wire.
    pub open spec fn wire_bytes(self) -> Seq<u8> {
        spec_magic() + seq![VERSION, MSG_TYPE_DATA]
            + spec_u32_to_le_bytes(self.payload@.len() as u32)
            + spec_u128_to_le_bytes(self.sender_id) + self.spec_target_bytes()
            + spec_u128_to_le_bytes(self.message_id) + self.payload@
    }
}

/// The specification of decoding: how any byte sequence is read as a frame.
///
/// The magic is checked first, then the version; the message-type byte is
/// skipped, as the service only ever carries data frames.  A tag byte other
/// than 1 means the target id is absent.
pub open spec fn parse_wire(d: Seq<u8>) -> ParsedFrame {
    if d.len() < 4 {
        ParsedFrame::Truncated
    } else if d.subrange(0, 4) != spec_magic() {
        ParsedFrame::BadMagic
    } else if d.len() < 5 {
        ParsedFrame::Truncated
    } else if d[4] != VERSION {
        ParsedFrame::UnsupportedVersion { version: d[4] }
    } else if d.len() < 27 {
        ParsedFrame::Truncated
    } else {
        let plen = spec_u32_from_le_bytes(d.subrange(6, 10)) as int;
        let sender_id = spec_u128_from_le_bytes(d.subrange(10, 26));
        if d[26] == 1 {
            if d.len() < 59 + plen {
                ParsedFrame::Truncated
            } else {
                ParsedFrame::Message {
                    sender_id,
                    target_id: Some(spec_u128_from_le_bytes(d.subrange(27, 43))),
                    message_id: spec_u128_from_le_bytes(d.subrange(43, 59)),
                    payload: d.subrange(59, 59 + plen),
                    used: 59 + plen,
                }
            }
        } else {
            if d.len() < 43 + plen {
                ParsedFrame::Truncated
            } else {
                ParsedFrame::Message {
                    sender_id,
                    target_id: None,
                    message_id: spec_u128_from_le_bytes(d.subrange(27, 43)),
                    payload: d.subrange(43, 43 + plen),
                    used: 43 + plen,
                }
            }
        }
    }
}

/// Appends the 16 little-endian bytes of `x`.
fn push_u128_le(out: &mut Vec<u8>, x: u128)
    ensures
        final(out)@ == old(out)@ + spec_u128_to_le_bytes(x),
{
    let mut bytes = u128_to_le_bytes(x);
    out.append(&mut bytes);
}

impl ProtocolMessage {
    /// Builds a message around a payload, drawing a fresh random message id.
    pub fn new(sender_id: u128, target_id: Option<u128>, payload: Vec<u8>) -> (r: ProtocolMessage)
        ensures
            r.sender_id == sender_id,
            r.target_id == target_id,
            r.payload == payload,
    {
        ProtocolMessage { sender_id, target_id, message_id: fresh_message_id(), payload }
    }

    /// Encodes the message into its exact wire bytes.
    pub fn encode(&self) -> (r: Vec<u8>)
        requires
            self.payload@.len() <= u32::MAX,
        ensures
            r@ == self.wire_bytes(),
    {
        let mut r: Vec<u8> = Vec::new();
        r.push(0x4F);
        r.push(0x56);
        r.push(0x4E);
        r.push(0x54);
        r.push(VERSION);
        r.push(MSG_TYPE_DATA);
        let mut len_bytes = u32_to_le_bytes(self.payload.len() as u32);
        r.append(&mut len_bytes);
        push_u128_le(&mut r, self.sender_id);
        match self.target_id {
            Some(t) => {
                r.push(1);
                push_u128_le(&mut r, t);
            },
            None => {
                r.push(0);
            },
        }
        push_u128_le(&mut r, self.message_id);
        assert(r@ =~= spec_magic() + seq![VERSION, MSG_TYPE_DATA]
            + spec_u32_to_le_bytes(self.payload@.len() as u32)
            + spec_u128_to_le_bytes(self.sender_id) + self.spec_target_bytes()
            + spec_u128_to_le_bytes(self.message_id) + self.payload@.subrange(0, 0));
        let mut i: usize = 0;
        while i < self.payload.len()
            invariant
                i <= self.payload@.len(),
                r@ == spec_magic() + seq![VERSION, MSG_TYPE_DATA]
                    + spec_u32_to_le_bytes(self.payload@.len() as u32)
                    + spec_u128_to_le_bytes(self.sender_id) + self.spec_target_bytes()
                    + spec_u128_to_le_bytes(self.message_id) + self.payload@.subrange(0, i as int),
            decreases self.payload@.len() - i,
        {
            r.push(self.payload[i]);
            assert(r@ =~= spec_magic() + seq![VERSION, MSG_TYPE_DATA]
                + spec_u32_to_le_bytes(self.payload@.len() as u32)
                + spec_u128_to_le_bytes(self.sender_id) + self.spec_target_bytes()
                + spec_u128_to_le_bytes(self.message_id) + self.payload@.subrange(0, i + 1));
            i += 1;
        }
        assert(r@ =~= self.wire_bytes());
        r
    }

    /// Decodes one frame from the front of `data`, returning the message and
    /// the count of bytes it occupied.  The result is exactly what
    /// [`parse_wire`] says of the bytes.
    pub fn decode(data: &[u8]) -> (r: Result<(ProtocolMessage, usize), DecodeError>)
        ensures
            match r {
                Ok(p) => parse_wire(data@) == (ParsedFrame::Message {
                    sender_id: p.0.sender_id,
                    target_id: p.0.target_id,
                    message_id: p.0.message_id,
                    payload: p.0.payload@,
                    used: p.1 as int,
                }),
                Err(DecodeError::BadMagic) => parse_wire(data@) is BadMagic,
                Err(DecodeError::UnsupportedVersion { version }) => parse_wire(data@)
                    == (ParsedFrame::UnsupportedVersion { version }),
                Err(DecodeError::Truncated) => parse_wire(data@) is Truncated,
            },
    {
        let ghost d = data@;
        if data.len() < 4 {
            return Err(DecodeError::Truncated);
        }
        if data[0] != 0x4F || data[1] != 0x56 || data[2] != 0x4E || data[3] != 0x54 {
            proof {
                assert(d.subrange(0, 4)[0] == d[0]);
                assert(d.subrange(0, 4)[1] == d[1]);
                assert(d.subrange(0, 4)[2] == d[2]);
                assert(d.subrange(0, 4)[3] == d[3]);
            }
            return Err(DecodeError::BadMagic);
        }
        proof {
            assert(d.subrange(0, 4) =~= spec_magic());
        }
        if data.len() < 5 {
            return Err(DecodeError::Truncated);
        }
        let version = data[4];
        if version != VERSION {
            return Err(DecodeError::UnsupportedVersion { version });
        }
        if data.len() < 27 {
            return Err(DecodeError::Truncated);
        }
        let plen = u32_from_le_bytes(slice_subrange(data, 6, 10)) as usize;
        let sender_id = u128_from_le_bytes(slice_subrange(data, 10, 26));
        let tag = data[26];
        let (target_id, body_start): (Option<u128>, usize) = if tag == 1 {
            if data.len() < 59 {
                return Err(DecodeError::Truncated);
            }
            (Some(u128_from_le_bytes(slice_subrange(data, 27, 43))), 43)
        } else {
            (None, 27)
        };
        let message_id_end = body_start + 16;
        if data.len() < message_id_end {
            return Err(DecodeError::Truncated);
        }
        let message_id = u128_from_le_bytes(slice_subrange(data, body_start, message_id_end));
        if data.len() - message_id_end < plen {
            return Err(DecodeError::Truncated);
        }
        let mut payload: Vec<u8> = Vec::new();
        let mut i: usize = 0;
        while i < plen
            invariant
                i <= plen,
                data@.len() <= usize::MAX,
                message_id_end + plen <= data@.len(),
                payload@ == data@.subrange(message_id_end as int, message_id_end + i),
            decreases plen - i,
        {
            payload.push(data[message_id_end + i]);
            assert(payload@ =~= data@.subrange(message_id_end as int, message_id_end + i + 1));
            i += 1;
        }
        let used = message_id_end + plen;
        Ok((ProtocolMessage { sender_id, target_id, message_id, payload }, used))
    }
}

/// Decoding the exact wire bytes of any message recovers every field:
/// sender id, presence and value of the target id, message id and payload.
pub proof fn lemma_decode_encode_roundtrip(m: ProtocolMessage)
    requires
        m.payload@.len() <= u32::MAX,
    ensures
        parse_wire(m.wire_bytes()) == (ParsedFrame::Message {
            sender_id: m.sender_id,
            target_id: m.target_id,
            message_id: m.message_id,
            payload: m.payload@,
            used: m.wire_bytes().len() as int,
        }),
{
    lemma_auto_spec_u32_to_from_le_bytes();
    lemma_auto_spec_u128_to_from_le_bytes();
    let w = m.wire_bytes();
    let plen = m.payload@.len() as int;
    assert(w.subrange(0, 4) =~= spec_magic());
    assert(w[4] == VERSION);
    assert(w.subrange(6, 10) =~= spec_u32_to_le_bytes(m.payload@.len() as u32));
    assert(w.subrange(10, 26) =~= spec_u128_to_le_bytes(m.sender_id));
    match m.target_id {
        Some(t) => {
            assert(w[26] == 1);
            assert(w.subrange(27, 43) =~= spec_u128_to_le_bytes(t));
            assert(w.subrange(43, 59) =~= spec_u128_to_le_bytes(m.message_id));
            assert(w.subrange(59, 59 + plen) =~= m.payload@);
            assert(w.len() == 59 + plen);
        },
        None => {
            assert(w[26] == 0);
            assert(w.subrange(27, 43) =~= spec_u128_to_le_bytes(m.message_id));
            assert(w.subrange(43, 43 + plen) =~= m.payload@);
            assert(w.len() == 43 + plen);
        },
    }
}

/// A stream that does not open with the four magic bytes is rejected as
/// bad magic, whatever else it holds.
pub proof fn lemma_bad_magic_rejected(d: Seq<u8>)
    requires
        d.len() >= 4,
        d.subrange(0, 4) != spec_magic(),
    ensures
        parse_wire(d) is BadMagic,
{
}

/// A stream with the right magic but a version byte other than [`VERSION`]
/// is rejected as an unsupported version carrying that byte.
pub proof fn lemma_bad_version_rejected(d: Seq<u8>)
    requires
        d.len() >= 5,
        d.subrange(0, 4) == spec_magic(),
        d[4] != VERSION,
    ensures
        parse_wire(d) == (ParsedFrame::UnsupportedVersion { version: d[4] }),
{
}

} // verus!

verus! {

/// Relies on `uuid::Uuid::new_v4` for a random 128-bit message id; nothing is
/// assumed of the value drawn.
#[verifier::external_body]
fn fresh_message_id() -> u128 {
    u128::from_le_bytes(*uuid::Uuid::new_v4().as_bytes())
}

} // verus!

//! The hypervisor synthetic-message envelope.
//!
//! Every synthetic message is a fixed 256-byte envelope: a 16-byte header
//! ([`HvMessageHeader`]) followed by 240 bytes of payload, kept as ten
//! 24-byte chunks. The header's `typ` field identifies the payload's kind;
//! only the timer-expired payload ([`TimerMessagePayload`]) is typed here,
//! and any other `typ` passes the payload through as opaque bytes. No field
//! is validated: reading an envelope is straight field extraction in
//! declared order, byte for byte.

use vstd::prelude::*;

use crate::lebytes::{
    le_byte128,
    le_byte_of,
    lemma_le_bytes_of_u16,
    lemma_le_bytes_of_u32,
    lemma_le_bytes_of_u64,
    lemma_u16_le_round_trip,
    lemma_u32_le_round_trip,
    lemma_u64_le_round_trip,
    u16_from_le,
    u16_of_le,
    u32_from_le,
    u32_of_le,
    u64_from_le,
    u64_of_le,
};

verus! {

/// The header `typ` value that marks a timer-expired message, whose payload
/// decodes as a [`TimerMessagePayload`].
pub const MESSAGE_TYPE_TIMER_EXPIRED: u32 = 0x80000010;

/// The fixed 16-byte header of every synthetic message: payload kind,
/// valid payload length, flags, reserved word, and an opaque correlation id
/// assigned by the message source.
#[derive(Debug, Copy, Clone, PartialEq, Eq, Structural)]
pub struct HvMessageHeader {
    /// Identifies the payload's semantic kind.
    pub typ: u32,
    /// The number of payload bytes, from the start, that are meaningful.
    pub len: u8,
    /// Message flags.
    pub flags: u8,
    /// Reserved, carried unchanged.
    pub rsvd: u16,
    /// Opaque correlation or connection identifier.
    pub id: u64,
}

/// The header whose fields are read, in declared order and width, out of 16
/// little-endian bytes.
pub open spec fn header_of(s: Seq<u8>) -> HvMessageHeader
    recommends
        s.len() == 16,
{
    HvMessageHeader {
        typ: u32_of_le(s[0], s[1], s[2], s[3]),
        len: s[4],
        flags: s[5],
        rsvd: u16_of_le(s[6], s[7]),
        id: u64_of_le(s[8], s[9], s[10], s[11], s[12], s[13], s[14], s[15]),
    }
}

/// The 16 bytes a header is written as: each field in declared order,
/// little-endian.
pub open spec fn header_bytes(h: HvMessageHeader) -> Seq<u8> {
    seq![
        le_byte128(h.typ as u128, 0),
        le_byte128(h.typ as u128, 8),
        le_byte128(h.typ as u128, 16),
        le_byte128(h.typ as u128, 24),
        h.len,
        h.flags,
        le_byte128(h.rsvd as u128, 0),
        le_byte128(h.rsvd as u128, 8),
        le_byte128(h.id as u128, 0),
        le_byte128(h.id as u128, 8),
        le_byte128(h.id as u128, 16),
        le_byte128(h.id as u128, 24),
        le_byte128(h.id as u128, 32),
        le_byte128(h.id as u128, 40),
        le_byte128(h.id as u128, 48),
        le_byte128(h.id as u128, 56),
    ]
}

impl HvMessageHeader {
    /// Reads a header out of an externally supplied 16-byte buffer: straight
    /// field extraction in declared order, with no validation of any field.
    pub fn from_bytes(buf: &[u8; 16]) -> (r: Self)
        ensures
            r == header_of(buf@),
    {
        HvMessageHeader {
            typ: u32_from_le(buf[0], buf[1], buf[2], buf[3]),
            len: buf[4],
            flags: buf[5],
            rsvd: u16_from_le(buf[6], buf[7]),
            id: u64_from_le(buf[8], buf[9], buf[10], buf[11], buf[12], buf[13], buf[14], buf[15]),
        }
    }

    /// Writes the header as its 16 bytes, each field in declared order,
    /// little-endian.
    pub fn to_bytes(&self) -> (r: [u8; 16])
        ensures
            r@ == header_bytes(*self),
    {
        let r = [
            le_byte_of(self.typ as u128, 0),
            le_byte_of(self.typ as u128, 8),
            le_byte_of(self.typ as u128, 16),
            le_byte_of(self.typ as u128, 24),
            self.len,
            self.flags,
            le_byte_of(self.rsvd as u128, 0),
            le_byte_of(self.rsvd as u128, 8),
            le_byte_of(self.id as u128, 0),
            le_byte_of(self.id as u128, 8),
            le_byte_of(self.id as u128, 16),
            le_byte_of(self.id as u128, 24),
            le_byte_of(self.id as u128, 32),
            le_byte_of(self.id as u128, 40),
            le_byte_of(self.id as u128, 48),
            le_byte_of(self.id as u128, 56),
        ];
        proof {
            assert(r@ =~= header_bytes(*self));
        }
        r
    }
}

/// The typed payload of a timer-expired message: the first 24 payload bytes,
/// read in declared field order.
#[derive(Debug, Copy, Clone, PartialEq, Eq, Structural)]
pub struct TimerMessagePayload {
    /// Which of the source partition's synthetic timers expired.
    pub timer_index: u32,
    /// Reserved, carried unchanged.
    pub reserved: u32,
    /// The time the timer was due to expire.
    pub expiration_time: u64,
    /// The time the message was delivered.
    pub delivery_time: u64,
}

/// The timer payload whose fields are read, in declared order and width, out
/// of 24 little-endian bytes.
pub open spec fn timer_payload_of(s: Seq<u8>) -> TimerMessagePayload
    recommends
        s.len() == 24,
{
    TimerMessagePayload {
        timer_index: u32_of_le(s[0], s[1], s[2], s[3]),
        reserved: u32_of_le(s[4], s[5], s[6], s[7]),
        expiration_time: u64_of_le(s[8], s[9], s[10], s[11], s[12], s[13], s[14], s[15]),
        delivery_time: u64_of_le(s[16], s[17], s[18], s[19], s[20], s[21], s[22], s[23]),
    }
}

/// The 24 bytes a timer payload is written as: each field in declared order,
/// little-endian.
pub open spec fn timer_payload_bytes(p: TimerMessagePayload) -> Seq<u8> {
    seq![
        le_byte128(p.timer_index as u128, 0),
        le_byte128(p.timer_index as u128, 8),
        le_byte128(p.timer_index as u128, 16),
        le_byte128(p.timer_index as u128, 24),
        le_byte128(p.reserved as u128, 0),
        le_byte128(p.reserved as u128, 8),
        le_byte128(p.reserved as u128, 16),
        le_byte128(p.reserved as u128, 24),
        le_byte128(p.expiration_time as u128, 0),
        le_byte128(p.expiration_time as u128, 8),
        le_byte128(p.expiration_time as u128, 16),
        le_byte128(p.expiration_time as u128, 24),
        le_byte128(p.expiration_time as u128, 32),
        le_byte128(p.expiration_time as u128, 40),
        le_byte128(p.expiration_time as u128, 48),
        le_byte128(p.expiration_time as u128, 56),
        le_byte128(p.delivery_time as u128, 0),
        le_byte128(p.delivery_time as u128, 8),
        le_byte128(p.delivery_time as u128, 16),
        le_byte128(p.delivery_time as u128, 24),
        le_byte128(p.delivery_time as u128, 32),
        le_byte128(p.delivery_time as u128, 40),
        le_byte128(p.delivery_time as u128, 48),
        le_byte128(p.delivery_time as u128, 56),
    ]
}

impl TimerMessagePayload {
    /// Reads a timer payload out of the first 24 bytes of a payload area:
    /// straight field extraction in declared order, with no validation.
    pub fn from_bytes(buf: &[u8; 24]) -> (r: Self)
        ensures
            r == timer_payload_of(buf@),
    {
        TimerMessagePayload {
            timer_index: u32_from_le(buf[0], buf[1], buf[2], buf[3]),
            reserved: u32_from_le(buf[4], buf[5], buf[6], buf[7]),
            expiration_time: u64_from_le(
                buf[8],
                buf[9],
                buf[10],
                buf[11],
                buf[12],
                buf[13],
                buf[14],
                buf[15],
            ),
            delivery_time: u64_from_le(
                buf[16],
                buf[17],
                buf[18],
                buf[19],
                buf[20],
                buf[21],
                buf[22],
                buf[23],
            ),
        }
    }

    /// Writes the timer payload as its 24 bytes, each field in declared
    /// order, little-endian.
    pub fn to_bytes(&self) -> (r: [u8; 24])
        ensures
            r@ == timer_payload_bytes(*self),
    {
        let r = [
            le_byte_of(self.timer_index as u128, 0),
            le_byte_of(self.timer_index as u128, 8),
            le_byte_of(self.timer_index as u128, 16),
            le_byte_of(self.timer_index as u128, 24),
            le_byte_of(self.reserved as u128, 0),
            le_byte_of(self.reserved as u128, 8),
            le_byte_of(self.reserved as u128, 16),
            le_byte_of(self.reserved as u128, 24),
            le_byte_of(self.expiration_time as u128, 0),
            le_byte_of(self.expiration_time as u128, 8),
            le_byte_of(self.expiration_time as u128, 16),
            le_byte_of(self.expiration_time as u128, 24),
            le_byte_of(self.expiration_time as u128, 32),
            le_byte_of(self.expiration_time as u128, 40),
            le_byte_of(self.expiration_time as u128, 48),
            le_byte_of(self.expiration_time as u128, 56),
            le_byte_of(self.delivery_time as u128, 0),
            le_byte_of(self.delivery_time as u128, 8),
            le_byte_of(self.delivery_time as u128, 16),
            le_byte_of(self.delivery_time as u128, 24),
            le_byte_of(self.delivery_time as u128, 32),
            le_byte_of(self.delivery_time as u128, 40),
            le_byte_of(self.delivery_time as u128, 48),
            le_byte_of(self.delivery_time as u128, 56),
        ];
        proof {
            assert(r@ =~= timer_payload_bytes(*self));
        }
        r
    }
}

/// The fixed 256-byte envelope of every synthetic message: the header, then
/// ten 24-byte payload chunks. Only `header.len` payload bytes, from the
/// start, are meaningful; the rest is unspecified filler.
#[derive(Debug, Copy, Clone, PartialEq, Eq)]
pub struct HvMessage {
    /// The message header.
    pub header: HvMessageHeader,
    /// The 240-byte payload area, as ten 24-byte chunks.
    pub payload: [[u8; 24]; 10],
}

/// Copies one 24-byte payload chunk out of a 256-byte message buffer.
fn payload_chunk(buf: &[u8; 256], off: usize) -> (r: [u8; 24])
    requires
        off + 24 <= 256,
    ensures
        r@ == buf@.subrange(off as int, off as int + 24),
{
    let r = [
        buf[off],
        buf[off + 1],
        buf[off + 2],
        buf[off + 3],
        buf[off + 4],
        buf[off + 5],
        buf[off + 6],
        buf[off + 7],
        buf[off + 8],
        buf[off + 9],
        buf[off + 10],
        buf[off + 11],
        buf[off + 12],
        buf[off + 13],
        buf[off + 14],
        buf[off + 15],
        buf[off + 16],
        buf[off + 17],
        buf[off + 18],
        buf[off + 19],
        buf[off + 20],
        buf[off + 21],
        buf[off + 22],
        buf[off + 23],
    ];
    proof {
        assert(r@ =~= buf@.subrange(off as int, off as int + 24));
    }
    r
}

impl HvMessage {
    /// Reads a whole envelope out of an externally supplied 256-byte buffer:
    /// the header from the first 16 bytes, then the ten payload chunks in
    /// order. No field is validated; in particular `len` is not checked
    /// against the buffer, which is the reader's responsibility.
    pub fn from_bytes(buf: &[u8; 256]) -> (r: Self)
        ensures
            r.header == header_of(buf@.subrange(0, 16)),
            forall|k: int|
                0 <= k < 10 ==> r.payload@[k]@ == buf@.subrange(16 + 24 * k, 40 + 24 * k),
    {
        let hdr = [
            buf[0],
            buf[1],
            buf[2],
            buf[3],
            buf[4],
            buf[5],
            buf[6],
            buf[7],
            buf[8],
            buf[9],
            buf[10],
            buf[11],
            buf[12],
            buf[13],
            buf[14],
            buf[15],
        ];
        let header = HvMessageHeader::from_bytes(&hdr);
        let payload = [
            payload_chunk(buf, 16),
            payload_chunk(buf, 40),
            payload_chunk(buf, 64),
            payload_chunk(buf, 88),
            payload_chunk(buf, 112),
            payload_chunk(buf, 136),
            payload_chunk(buf, 160),
            payload_chunk(buf, 184),
            payload_chunk(buf, 208),
            payload_chunk(buf, 232),
        ];
        let r = HvMessage { header, payload };
        proof {
            assert(hdr@ =~= buf@.subrange(0, 16));
            assert forall|k: int|
                0 <= k < 10 implies r.payload@[k]@ == buf@.subrange(
                16 + 24 * k,
                40 + 24 * k,
            ) by {
                if k == 0 {
                    assert(r.payload@[0]@ == buf@.subrange(16, 40));
                } else if k == 1 {
                    assert(r.payload@[1]@ == buf@.subrange(40, 64));
                } else if k == 2 {
                    assert(r.payload@[2]@ == buf@.subrange(64, 88));
                } else if k == 3 {
                    assert(r.payload@[3]@ == buf@.subrange(88, 112));
                } else if k == 4 {
                    assert(r.payload@[4]@ == buf@.subrange(112, 136));
                } else if k == 5 {
                    assert(r.payload@[5]@ == buf@.subrange(136, 160));
                } else if k == 6 {
                    assert(r.payload@[6]@ == buf@.subrange(160, 184));
                } else if k == 7 {
                    assert(r.payload@[7]@ == buf@.subrange(184, 208));
                } else if k == 8 {
                    assert(r.payload@[8]@ == buf@.subrange(208, 232));
                } else {
                    assert(r.payload@[9]@ == buf@.subrange(232, 256));
                }
            }
        }
        r
    }

    /// Decodes the first 24 payload bytes as a timer-expired payload. The
    /// decoding is total; it is meaningful only when `header.typ` is
    /// [`MESSAGE_TYPE_TIMER_EXPIRED`], which this crate does not check: the
    /// protocol context, not the envelope, decides the payload's kind.
    pub fn timer_payload(&self) -> (r: TimerMessagePayload)
        ensures
            r == timer_payload_of(self.payload@[0]@),
    {
        let chunk = self.payload[0];
        TimerMessagePayload::from_bytes(&chunk)
    }
}

/// Round trip for the message header: writing a header as bytes and reading
/// the bytes back yields every field unchanged.
pub proof fn lemma_header_round_trip(h: HvMessageHeader)
    ensures
        header_of(header_bytes(h)) == h,
{
    lemma_u32_le_round_trip(h.typ);
    lemma_u16_le_round_trip(h.rsvd);
    lemma_u64_le_round_trip(h.id);
}

/// The reverse direction for the message header: reading any 16 bytes as a
/// header and writing the header back out reproduces the bytes, so the
/// header conversion loses nothing.
pub proof fn lemma_header_bytes_lossless(s: Seq<u8>)
    requires
        s.len() == 16,
    ensures
        header_bytes(header_of(s)) =~= s,
{
    lemma_le_bytes_of_u32(s[0], s[1], s[2], s[3]);
    lemma_le_bytes_of_u16(s[6], s[7]);
    lemma_le_bytes_of_u64(s[8], s[9], s[10], s[11], s[12], s[13], s[14], s[15]);
}

/// Round trip for the timer payload: writing a payload as bytes and reading
/// the bytes back yields every field unchanged.
pub proof fn lemma_timer_payload_round_trip(p: TimerMessagePayload)
    ensures
        timer_payload_of(timer_payload_bytes(p)) == p,
{
    lemma_u32_le_round_trip(p.timer_index);
    lemma_u32_le_round_trip(p.reserved);
    lemma_u64_le_round_trip(p.expiration_time);
    lemma_u64_le_round_trip(p.delivery_time);
}

/// The reverse direction for the timer payload: reading any 24 bytes as a
/// timer payload and writing the payload back out reproduces the bytes, so
/// the payload conversion loses nothing.
pub proof fn lemma_timer_payload_bytes_lossless(s: Seq<u8>)
    requires
        s.len() == 24,
    ensures
        timer_payload_bytes(timer_payload_of(s)) =~= s,
{
    lemma_le_bytes_of_u32(s[0], s[1], s[2], s[3]);
    lemma_le_bytes_of_u32(s[4], s[5], s[6], s[7]);
    lemma_le_bytes_of_u64(s[8], s[9], s[10], s[11], s[12], s[13], s[14], s[15]);
    lemma_le_bytes_of_u64(s[16], s[17], s[18], s[19], s[20], s[21], s[22], s[23]);
}

} // verus!

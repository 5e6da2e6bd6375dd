//! Little-endian byte-level views of fixed-width integers.
//!
//! Every structure in this crate is specified down to its bytes. This module
//! gives the byte layout one definition: a value's little-endian bytes, the
//! value a run of little-endian bytes denotes, and the round-trip laws
//! connecting the two. All wider layouts (register shapes, message header,
//! timer payload) are stated in terms of these functions.

use vstd::prelude::*;

verus! {

/// The byte of `v` whose little-endian position is `sh / 8`: bits
/// `sh .. sh + 8` of the 128-bit value.
pub open spec fn le_byte128(v: u128, sh: u128) -> u8 {
    ((v >> sh) & 0xff) as u8
}

/// The 16 bytes of a 128-bit value, in little-endian order.
pub open spec fn le_bytes128(v: u128) -> Seq<u8> {
    seq![
        le_byte128(v, 0),
        le_byte128(v, 8),
        le_byte128(v, 16),
        le_byte128(v, 24),
        le_byte128(v, 32),
        le_byte128(v, 40),
        le_byte128(v, 48),
        le_byte128(v, 56),
        le_byte128(v, 64),
        le_byte128(v, 72),
        le_byte128(v, 80),
        le_byte128(v, 88),
        le_byte128(v, 96),
        le_byte128(v, 104),
        le_byte128(v, 112),
        le_byte128(v, 120),
    ]
}

/// The 16-bit value denoted by two little-endian bytes.
pub open spec fn u16_of_le(b0: u8, b1: u8) -> u16 {
    (b0 as u16) | ((b1 as u16) << 8u16)
}

/// The 32-bit value denoted by four little-endian bytes.
pub open spec fn u32_of_le(b0: u8, b1: u8, b2: u8, b3: u8) -> u32 {
    (b0 as u32) | ((b1 as u32) << 8u32) | ((b2 as u32) << 16u32) | ((b3 as u32) << 24u32)
}

/// The 64-bit value denoted by eight little-endian bytes.
pub open spec fn u64_of_le(b0: u8, b1: u8, b2: u8, b3: u8, b4: u8, b5: u8, b6: u8, b7: u8) -> u64 {
    (b0 as u64) | ((b1 as u64) << 8u64) | ((b2 as u64) << 16u64) | ((b3 as u64) << 24u64)
        | ((b4 as u64) << 32u64) | ((b5 as u64) << 40u64) | ((b6 as u64) << 48u64)
        | ((b7 as u64) << 56u64)
}

/// The 128-bit value denoted by sixteen little-endian bytes.
pub open spec fn u128_of_le16(
    b0: u8,
    b1: u8,
    b2: u8,
    b3: u8,
    b4: u8,
    b5: u8,
    b6: u8,
    b7: u8,
    b8: u8,
    b9: u8,
    b10: u8,
    b11: u8,
    b12: u8,
    b13: u8,
    b14: u8,
    b15: u8,
) -> u128 {
    (b0 as u128) | ((b1 as u128) << 8u128) | ((b2 as u128) << 16u128) | ((b3 as u128) << 24u128)
        | ((b4 as u128) << 32u128) | ((b5 as u128) << 40u128) | ((b6 as u128) << 48u128)
        | ((b7 as u128) << 56u128) | ((b8 as u128) << 64u128) | ((b9 as u128) << 72u128)
        | ((b10 as u128) << 80u128) | ((b11 as u128) << 88u128) | ((b12 as u128) << 96u128)
        | ((b13 as u128) << 104u128) | ((b14 as u128) << 112u128) | ((b15 as u128) << 120u128)
}

/// The 128-bit value denoted by a 16-byte little-endian sequence.
pub open spec fn u128_of_le(s: Seq<u8>) -> u128
    recommends
        s.len() == 16,
{
    u128_of_le16(
        s[0],
        s[1],
        s[2],
        s[3],
        s[4],
        s[5],
        s[6],
        s[7],
        s[8],
        s[9],
        s[10],
        s[11],
        s[12],
        s[13],
        s[14],
        s[15],
    )
}

/// Reading the bytes of a 128-bit value back as a value is the identity.
pub proof fn lemma_u128_le_round_trip(v: u128)
    ensures
        u128_of_le(le_bytes128(v)) == v,
{
    assert(u128_of_le16(
        le_byte128(v, 0),
        le_byte128(v, 8),
        le_byte128(v, 16),
        le_byte128(v, 24),
        le_byte128(v, 32),
        le_byte128(v, 40),
        le_byte128(v, 48),
        le_byte128(v, 56),
        le_byte128(v, 64),
        le_byte128(v, 72),
        le_byte128(v, 80),
        le_byte128(v, 88),
        le_byte128(v, 96),
        le_byte128(v, 104),
        le_byte128(v, 112),
        le_byte128(v, 120),
    ) == v) by (bit_vector);
}

/// Writing the value denoted by sixteen bytes back out as bytes gives the
/// same sixteen bytes.
pub proof fn lemma_le_bytes_of_u128_of_le(
    b0: u8,
    b1: u8,
    b2: u8,
    b3: u8,
    b4: u8,
    b5: u8,
    b6: u8,
    b7: u8,
    b8: u8,
    b9: u8,
    b10: u8,
    b11: u8,
    b12: u8,
    b13: u8,
    b14: u8,
    b15: u8,
)
    ensures
        le_bytes128(
            u128_of_le16(
                b0,
                b1,
                b2,
                b3,
                b4,
                b5,
                b6,
                b7,
                b8,
                b9,
                b10,
                b11,
                b12,
                b13,
                b14,
                b15,
            ),
        ) =~= seq![b0, b1, b2, b3, b4, b5, b6, b7, b8, b9, b10, b11, b12, b13, b14, b15],
{
    let v = u128_of_le16(b0, b1, b2, b3, b4, b5, b6, b7, b8, b9, b10, b11, b12, b13, b14, b15);
    assert(le_byte128(v, 0) == b0 && le_byte128(v, 8) == b1 && le_byte128(v, 16) == b2
        && le_byte128(v, 24) == b3 && le_byte128(v, 32) == b4 && le_byte128(v, 40) == b5
        && le_byte128(v, 48) == b6 && le_byte128(v, 56) == b7 && le_byte128(v, 64) == b8
        && le_byte128(v, 72) == b9 && le_byte128(v, 80) == b10 && le_byte128(v, 88) == b11
        && le_byte128(v, 96) == b12 && le_byte128(v, 104) == b13 && le_byte128(v, 112) == b14
        && le_byte128(v, 120) == b15) by (bit_vector)
        requires
            v == u128_of_le16(b0, b1, b2, b3, b4, b5, b6, b7, b8, b9, b10, b11, b12, b13, b14, b15),
    ;
}

/// Reading the two bytes of a 16-bit value back as a value is the identity.
pub proof fn lemma_u16_le_round_trip(x: u16)
    ensures
        u16_of_le(le_byte128(x as u128, 0), le_byte128(x as u128, 8)) == x,
{
    assert(u16_of_le(le_byte128(x as u128, 0), le_byte128(x as u128, 8)) == x) by (bit_vector);
}

/// Reading the four bytes of a 32-bit value back as a value is the identity.
pub proof fn lemma_u32_le_round_trip(x: u32)
    ensures
        u32_of_le(
            le_byte128(x as u128, 0),
            le_byte128(x as u128, 8),
            le_byte128(x as u128, 16),
            le_byte128(x as u128, 24),
        ) == x,
{
    assert(u32_of_le(
        le_byte128(x as u128, 0),
        le_byte128(x as u128, 8),
        le_byte128(x as u128, 16),
        le_byte128(x as u128, 24),
    ) == x) by (bit_vector);
}

/// Reading the eight bytes of a 64-bit value back as a value is the identity.
pub proof fn lemma_u64_le_round_trip(x: u64)
    ensures
        u64_of_le(
            le_byte128(x as u128, 0),
            le_byte128(x as u128, 8),
            le_byte128(x as u128, 16),
            le_byte128(x as u128, 24),
            le_byte128(x as u128, 32),
            le_byte128(x as u128, 40),
            le_byte128(x as u128, 48),
            le_byte128(x as u128, 56),
        ) == x,
{
    assert(u64_of_le(
        le_byte128(x as u128, 0),
        le_byte128(x as u128, 8),
        le_byte128(x as u128, 16),
        le_byte128(x as u128, 24),
        le_byte128(x as u128, 32),
        le_byte128(x as u128, 40),
        le_byte128(x as u128, 48),
        le_byte128(x as u128, 56),
    ) == x) by (bit_vector);
}

/// Writing the value denoted by two bytes back out as bytes gives the same
/// two bytes.
pub proof fn lemma_le_bytes_of_u16(b0: u8, b1: u8)
    ensures
        le_byte128(u16_of_le(b0, b1) as u128, 0) == b0,
        le_byte128(u16_of_le(b0, b1) as u128, 8) == b1,
{
    assert(le_byte128(u16_of_le(b0, b1) as u128, 0) == b0 && le_byte128(u16_of_le(b0, b1) as u128, 8)
        == b1) by (bit_vector);
}

/// Writing the value denoted by four bytes back out as bytes gives the same
/// four bytes.
pub proof fn lemma_le_bytes_of_u32(b0: u8, b1: u8, b2: u8, b3: u8)
    ensures
        le_byte128(u32_of_le(b0, b1, b2, b3) as u128, 0) == b0,
        le_byte128(u32_of_le(b0, b1, b2, b3) as u128, 8) == b1,
        le_byte128(u32_of_le(b0, b1, b2, b3) as u128, 16) == b2,
        le_byte128(u32_of_le(b0, b1, b2, b3) as u128, 24) == b3,
{
    assert(le_byte128(u32_of_le(b0, b1, b2, b3) as u128, 0) == b0 && le_byte128(
        u32_of_le(b0, b1, b2, b3) as u128,
        8,
    ) == b1 && le_byte128(u32_of_le(b0, b1, b2, b3) as u128, 16) == b2 && le_byte128(
        u32_of_le(b0, b1, b2, b3) as u128,
        24,
    ) == b3) by (bit_vector);
}

/// Writing the value denoted by eight bytes back out as bytes gives the same
/// eight bytes.
pub proof fn lemma_le_bytes_of_u64(b0: u8, b1: u8, b2: u8, b3: u8, b4: u8, b5: u8, b6: u8, b7: u8)
    ensures
        le_byte128(u64_of_le(b0, b1, b2, b3, b4, b5, b6, b7) as u128, 0) == b0,
        le_byte128(u64_of_le(b0, b1, b2, b3, b4, b5, b6, b7) as u128, 8) == b1,
        le_byte128(u64_of_le(b0, b1, b2, b3, b4, b5, b6, b7) as u128, 16) == b2,
        le_byte128(u64_of_le(b0, b1, b2, b3, b4, b5, b6, b7) as u128, 24) == b3,
        le_byte128(u64_of_le(b0, b1, b2, b3, b4, b5, b6, b7) as u128, 32) == b4,
        le_byte128(u64_of_le(b0, b1, b2, b3, b4, b5, b6, b7) as u128, 40) == b5,
        le_byte128(u64_of_le(b0, b1, b2, b3, b4, b5, b6, b7) as u128, 48) == b6,
        le_byte128(u64_of_le(b0, b1, b2, b3, b4, b5, b6, b7) as u128, 56) == b7,
{
    let v = u64_of_le(b0, b1, b2, b3, b4, b5, b6, b7);
    assert(le_byte128(v as u128, 0) == b0 && le_byte128(v as u128, 8) == b1 && le_byte128(
        v as u128,
        16,
    ) == b2 && le_byte128(v as u128, 24) == b3 && le_byte128(v as u128, 32) == b4 && le_byte128(
        v as u128,
        40,
    ) == b5 && le_byte128(v as u128, 48) == b6 && le_byte128(v as u128, 56) == b7) by (bit_vector)
        requires
            v == u64_of_le(b0, b1, b2, b3, b4, b5, b6, b7),
    ;
}

/// A byte-sized mask of a 128-bit value fits every unsigned width.
pub proof fn lemma_le_masks_fit(w: u128)
    by (bit_vector)
    ensures
        (w & 0xff) < 0x100,
        (w & 0xffff) < 0x1_0000,
        (w & 0xffff_ffff) < 0x1_0000_0000,
        (w & 0xffff_ffff_ffff_ffff) < 0x1_0000_0000_0000_0000,
{
}

/// Extracts the byte of `v` whose little-endian position is `sh / 8`.
pub fn le_byte_of(v: u128, sh: u128) -> (r: u8)
    requires
        sh < 128,
    ensures
        r == le_byte128(v, sh),
{
    proof {
        lemma_le_masks_fit(v >> sh);
    }
    ((v >> sh) & 0xff) as u8
}

/// Combines two little-endian bytes into a 16-bit value.
pub fn u16_from_le(b0: u8, b1: u8) -> (r: u16)
    ensures
        r == u16_of_le(b0, b1),
{
    (b0 as u16) | ((b1 as u16) << 8u16)
}

/// Combines four little-endian bytes into a 32-bit value.
pub fn u32_from_le(b0: u8, b1: u8, b2: u8, b3: u8) -> (r: u32)
    ensures
        r == u32_of_le(b0, b1, b2, b3),
{
    (b0 as u32) | ((b1 as u32) << 8u32) | ((b2 as u32) << 16u32) | ((b3 as u32) << 24u32)
}

/// Combines eight little-endian bytes into a 64-bit value.
pub fn u64_from_le(b0: u8, b1: u8, b2: u8, b3: u8, b4: u8, b5: u8, b6: u8, b7: u8) -> (r: u64)
    ensures
        r == u64_of_le(b0, b1, b2, b3, b4, b5, b6, b7),
{
    (b0 as u64) | ((b1 as u64) << 8u64) | ((b2 as u64) << 16u64) | ((b3 as u64) << 24u64)
        | ((b4 as u64) << 32u64) | ((b5 as u64) << 40u64) | ((b6 as u64) << 48u64)
        | ((b7 as u64) << 56u64)
}

/// Combines sixteen little-endian bytes into a 128-bit value.
pub fn u128_from_le(
    b0: u8,
    b1: u8,
    b2: u8,
    b3: u8,
    b4: u8,
    b5: u8,
    b6: u8,
    b7: u8,
    b8: u8,
    b9: u8,
    b10: u8,
    b11: u8,
    b12: u8,
    b13: u8,
    b14: u8,
    b15: u8,
) -> (r: u128)
    ensures
        r == u128_of_le16(b0, b1, b2, b3, b4, b5, b6, b7, b8, b9, b10, b11, b12, b13, b14, b15),
{
    (b0 as u128) | ((b1 as u128) << 8u128) | ((b2 as u128) << 16u128) | ((b3 as u128) << 24u128)
        | ((b4 as u128) << 32u128) | ((b5 as u128) << 40u128) | ((b6 as u128) << 48u128)
        | ((b7 as u128) << 56u128) | ((b8 as u128) << 64u128) | ((b9 as u128) << 72u128)
        | ((b10 as u128) << 80u128) | ((b11 as u128) << 88u128) | ((b12 as u128) << 96u128)
        | ((b13 as u128) << 104u128) | ((b14 as u128) << 112u128) | ((b15 as u128) << 120u128)
}

} // verus!

//! Virtual-processor register values and their structured views.
//!
//! A register value travels across the hypervisor boundary as one 16-byte,
//! 16-byte-aligned storage slot ([`AlignedU128`]). The typed wrapper
//! ([`HvRegisterValue`]) reinterprets the same bytes as a scalar of any
//! width (truncating to the low-order bits) or as one of two structured
//! register shapes: the descriptor-table register
//! ([`HvX64TableRegister`]) and the segment register
//! ([`HvX64SegmentRegister`]). No discriminant is stored; the protocol
//! context decides which interpretation is meaningful, and every
//! reinterpretation is total and lossless.

use vstd::prelude::*;

use crate::lebytes::{
    le_byte_of,
    le_bytes128,
    lemma_le_bytes_of_u128_of_le,
    lemma_le_masks_fit,
    lemma_u128_le_round_trip,
    u128_from_le,
    u128_of_le,
};

verus! {

/// An aligned u128 value: exactly 16 bytes of storage, 16-byte aligned,
/// with no interpretation of its own. Every bit pattern is valid.
#[derive(Debug, Copy, Clone, PartialEq, Eq, Structural)]
pub struct AlignedU128(u128);

impl View for AlignedU128 {
    type V = Seq<u8>;

    /// The 16 stored bytes, in memory order (little-endian on the supported
    /// platforms).
    closed spec fn view(&self) -> Seq<u8> {
        le_bytes128(self.0)
    }
}

/// The storage slot whose 16 bytes are the little-endian bytes of `w`.
pub closed spec fn aligned_of(w: u128) -> AlignedU128 {
    AlignedU128(w)
}

/// The bytes of [`aligned_of`] are the little-endian bytes of its argument.
pub broadcast proof fn lemma_aligned_of_bytes(w: u128)
    ensures
        (#[trigger] aligned_of(w))@ == le_bytes128(w),
{
}

/// A storage slot is determined by the value its bytes denote: rebuilding a
/// slot from the value of its own bytes gives the slot back.
pub broadcast proof fn lemma_aligned_of_value(a: AlignedU128)
    ensures
        #[trigger] aligned_of(u128_of_le(a@)) == a,
{
    lemma_u128_le_round_trip(a.0);
}

/// A storage slot always holds exactly 16 bytes.
pub broadcast proof fn lemma_aligned_len(a: AlignedU128)
    ensures
        (#[trigger] a@).len() == 16,
{
}

impl AlignedU128 {
    /// Returns the 16 stored bytes in native (little-endian) order.
    pub fn to_ne_bytes(&self) -> (r: [u8; 16])
        ensures
            r@ == self@,
    {
        let w = self.0;
        let r = [
            le_byte_of(w, 0),
            le_byte_of(w, 8),
            le_byte_of(w, 16),
            le_byte_of(w, 24),
            le_byte_of(w, 32),
            le_byte_of(w, 40),
            le_byte_of(w, 48),
            le_byte_of(w, 56),
            le_byte_of(w, 64),
            le_byte_of(w, 72),
            le_byte_of(w, 80),
            le_byte_of(w, 88),
            le_byte_of(w, 96),
            le_byte_of(w, 104),
            le_byte_of(w, 112),
            le_byte_of(w, 120),
        ];
        proof {
            assert(r@ =~= le_bytes128(w));
        }
        r
    }

    /// Builds a storage slot from 16 bytes in native (little-endian) order.
    /// Every bit pattern is accepted, and the bytes are kept unchanged.
    pub fn from_ne_bytes(val: [u8; 16]) -> (r: Self)
        ensures
            r@ == val@,
    {
        let w = u128_from_le(
            val[0],
            val[1],
            val[2],
            val[3],
            val[4],
            val[5],
            val[6],
            val[7],
            val[8],
            val[9],
            val[10],
            val[11],
            val[12],
            val[13],
            val[14],
            val[15],
        );
        let r = AlignedU128(w);
        proof {
            lemma_le_bytes_of_u128_of_le(
                val@[0],
                val@[1],
                val@[2],
                val@[3],
                val@[4],
                val@[5],
                val@[6],
                val@[7],
                val@[8],
                val@[9],
                val@[10],
                val@[11],
                val@[12],
                val@[13],
                val@[14],
                val@[15],
            );
            assert(r@ =~= val@);
        }
        r
    }
}

impl From<u128> for AlignedU128 {
    /// Stores the 128-bit value in the slot, little-endian.
    fn from(v: u128) -> (r: Self) {
        AlignedU128(v)
    }
}

impl vstd::std_specs::convert::FromSpecImpl<u128> for AlignedU128 {
    open spec fn obeys_from_spec() -> bool {
        true
    }

    open spec fn from_spec(v: u128) -> AlignedU128 {
        aligned_of(v)
    }
}

impl From<u64> for AlignedU128 {
    /// Stores the value zero-extended to 128 bits, little-endian.
    fn from(v: u64) -> (r: Self) {
        AlignedU128(v as u128)
    }
}

impl vstd::std_specs::convert::FromSpecImpl<u64> for AlignedU128 {
    open spec fn obeys_from_spec() -> bool {
        true
    }

    open spec fn from_spec(v: u64) -> AlignedU128 {
        aligned_of(v as u128)
    }
}

impl From<u32> for AlignedU128 {
    /// Stores the value zero-extended to 128 bits, little-endian.
    fn from(v: u32) -> (r: Self) {
        AlignedU128(v as u128)
    }
}

impl vstd::std_specs::convert::FromSpecImpl<u32> for AlignedU128 {
    open spec fn obeys_from_spec() -> bool {
        true
    }

    open spec fn from_spec(v: u32) -> AlignedU128 {
        aligned_of(v as u128)
    }
}

impl From<u16> for AlignedU128 {
    /// Stores the value zero-extended to 128 bits, little-endian.
    fn from(v: u16) -> (r: Self) {
        AlignedU128(v as u128)
    }
}

impl vstd::std_specs::convert::FromSpecImpl<u16> for AlignedU128 {
    open spec fn obeys_from_spec() -> bool {
        true
    }

    open spec fn from_spec(v: u16) -> AlignedU128 {
        aligned_of(v as u128)
    }
}

impl From<u8> for AlignedU128 {
    /// Stores the value zero-extended to 128 bits, little-endian.
    fn from(v: u8) -> (r: Self) {
        AlignedU128(v as u128)
    }
}

impl vstd::std_specs::convert::FromSpecImpl<u8> for AlignedU128 {
    open spec fn obeys_from_spec() -> bool {
        true
    }

    open spec fn from_spec(v: u8) -> AlignedU128 {
        aligned_of(v as u128)
    }
}

impl From<AlignedU128> for u128 {
    /// Reads the slot's 16 bytes back as the 128-bit value they denote.
    fn from(v: AlignedU128) -> (r: u128) {
        proof {
            lemma_u128_le_round_trip(v.0);
        }
        v.0
    }
}

impl vstd::std_specs::convert::FromSpecImpl<AlignedU128> for u128 {
    open spec fn obeys_from_spec() -> bool {
        true
    }

    open spec fn from_spec(v: AlignedU128) -> u128 {
        u128_of_le(v@)
    }
}

/// An `HV_REGISTER_VALUE`: the 16-byte slot a virtual-processor register is
/// carried in. The caller knows from protocol context which interpretation
/// of the bytes (scalar width or structured shape) is meaningful.
#[derive(Debug, Copy, Clone, PartialEq, Eq, Structural)]
pub struct HvRegisterValue(pub AlignedU128);

impl View for HvRegisterValue {
    type V = Seq<u8>;

    /// The 16 stored bytes, in memory order.
    open spec fn view(&self) -> Seq<u8> {
        self.0@
    }
}

/// A descriptor-table register (the GDTR/IDTR shape): `limit` is the table
/// size minus one, `base` the linear base address. The three `pad` words
/// carry no meaning but are part of the physical layout and round-trip
/// unchanged through every conversion.
#[derive(Debug, Copy, Clone, PartialEq, Eq)]
pub struct HvX64TableRegister {
    /// Padding words occupying the first six bytes of the layout.
    pub pad: [u16; 3],
    /// The table size minus one.
    pub limit: u16,
    /// The linear base address of the table.
    pub base: u64,
}

/// The 128-bit value whose little-endian bytes lay out a table register:
/// `pad[0]`, `pad[1]`, `pad[2]`, `limit`, `base`, in declared field order.
pub open spec fn table_pack(t: HvX64TableRegister) -> u128 {
    (t.pad[0] as u128) | ((t.pad[1] as u128) << 16u128) | ((t.pad[2] as u128) << 32u128) | ((
    t.limit as u128) << 48u128) | ((t.base as u128) << 64u128)
}

/// The table register whose fields are read, in declared order, out of the
/// little-endian bytes of `w`.
pub open spec fn table_of(w: u128) -> HvX64TableRegister {
    HvX64TableRegister {
        pad: [(w & 0xffff) as u16, ((w >> 16u128) & 0xffff) as u16, ((w >> 32u128) & 0xffff) as u16],
        limit: ((w >> 48u128) & 0xffff) as u16,
        base: ((w >> 64u128) & 0xffff_ffff_ffff_ffff) as u64,
    }
}

/// A segment register (the segment-descriptor-cache shape): `base` and
/// `limit` delimit the segment, `selector` is the 16-bit selector, and
/// `attributes` packs the descriptor-cache flags as one opaque 16-bit field.
#[derive(Debug, Copy, Clone, PartialEq, Eq, Structural)]
pub struct HvX64SegmentRegister {
    /// The segment's base address.
    pub base: u64,
    /// The segment's limit.
    pub limit: u32,
    /// The 16-bit segment selector.
    pub selector: u16,
    /// Descriptor-cache flags, opaque to this crate.
    pub attributes: u16,
}

/// The 128-bit value whose little-endian bytes lay out a segment register:
/// `base`, `limit`, `selector`, `attributes`, in declared field order.
pub open spec fn segment_pack(s: HvX64SegmentRegister) -> u128 {
    (s.base as u128) | ((s.limit as u128) << 64u128) | ((s.selector as u128) << 96u128) | ((
    s.attributes as u128) << 112u128)
}

/// The segment register whose fields are read, in declared order, out of
/// the little-endian bytes of `w`.
pub open spec fn segment_of(w: u128) -> HvX64SegmentRegister {
    HvX64SegmentRegister {
        base: (w & 0xffff_ffff_ffff_ffff) as u64,
        limit: ((w >> 64u128) & 0xffff_ffff) as u32,
        selector: ((w >> 96u128) & 0xffff) as u16,
        attributes: ((w >> 112u128) & 0xffff) as u16,
    }
}

impl HvRegisterValue {
    /// Reads the full 128-bit value the 16 bytes denote.
    pub fn as_u128(&self) -> (r: u128)
        ensures
            r == u128_of_le(self@),
    {
        proof {
            lemma_u128_le_round_trip((self.0).0);
        }
        (self.0).0
    }

    /// Reads the low-order 64 bits of the 128-bit value; the high-order bits
    /// are discarded.
    pub fn as_u64(&self) -> (r: u64)
        ensures
            r == (u128_of_le(self@) & 0xffff_ffff_ffff_ffff) as u64,
    {
        let w = (self.0).0;
        proof {
            lemma_u128_le_round_trip(w);
            lemma_le_masks_fit(w);
        }
        (w & 0xffff_ffff_ffff_ffff) as u64
    }

    /// Reads the low-order 32 bits of the 128-bit value; the high-order bits
    /// are discarded.
    pub fn as_u32(&self) -> (r: u32)
        ensures
            r == (u128_of_le(self@) & 0xffff_ffff) as u32,
    {
        let w = (self.0).0;
        proof {
            lemma_u128_le_round_trip(w);
            lemma_le_masks_fit(w);
        }
        (w & 0xffff_ffff) as u32
    }

    /// Reads the low-order 16 bits of the 128-bit value; the high-order bits
    /// are discarded.
    pub fn as_u16(&self) -> (r: u16)
        ensures
            r == (u128_of_le(self@) & 0xffff) as u16,
    {
        let w = (self.0).0;
        proof {
            lemma_u128_le_round_trip(w);
            lemma_le_masks_fit(w);
        }
        (w & 0xffff) as u16
    }

    /// Reads the low-order 8 bits of the 128-bit value; the high-order bits
    /// are discarded.
    pub fn as_u8(&self) -> (r: u8)
        ensures
            r == (u128_of_le(self@) & 0xff) as u8,
    {
        let w = (self.0).0;
        proof {
            lemma_u128_le_round_trip(w);
            lemma_le_masks_fit(w);
        }
        (w & 0xff) as u8
    }

    /// Reinterprets the 16 bytes as a descriptor-table register, field by
    /// field in declared order. Total: any byte pattern is a valid table
    /// register, meaningful only when the protocol context says the value
    /// holds that shape.
    pub fn as_table(&self) -> (r: HvX64TableRegister)
        ensures
            r == table_of(u128_of_le(self@)),
    {
        let w = (self.0).0;
        proof {
            lemma_u128_le_round_trip(w);
            lemma_le_masks_fit(w);
            lemma_le_masks_fit(w >> 16u128);
            lemma_le_masks_fit(w >> 32u128);
            lemma_le_masks_fit(w >> 48u128);
            lemma_le_masks_fit(w >> 64u128);
        }
        let r = HvX64TableRegister {
            pad: [
                (w & 0xffff) as u16,
                ((w >> 16u128) & 0xffff) as u16,
                ((w >> 32u128) & 0xffff) as u16,
            ],
            limit: ((w >> 48u128) & 0xffff) as u16,
            base: ((w >> 64u128) & 0xffff_ffff_ffff_ffff) as u64,
        };
        proof {
            assert(r.pad =~= table_of(w).pad);
        }
        r
    }

    /// Reinterprets the 16 bytes as a segment register, field by field in
    /// declared order. Total: any byte pattern is a valid segment register,
    /// meaningful only when the protocol context says the value holds that
    /// shape.
    pub fn as_segment(&self) -> (r: HvX64SegmentRegister)
        ensures
            r == segment_of(u128_of_le(self@)),
    {
        let w = (self.0).0;
        proof {
            lemma_u128_le_round_trip(w);
            lemma_le_masks_fit(w);
            lemma_le_masks_fit(w >> 64u128);
            lemma_le_masks_fit(w >> 96u128);
            lemma_le_masks_fit(w >> 112u128);
        }
        HvX64SegmentRegister {
            base: (w & 0xffff_ffff_ffff_ffff) as u64,
            limit: ((w >> 64u128) & 0xffff_ffff) as u32,
            selector: ((w >> 96u128) & 0xffff) as u16,
            attributes: ((w >> 112u128) & 0xffff) as u16,
        }
    }
}

impl From<u8> for HvRegisterValue {
    /// Stores the value zero-extended to 128 bits, little-endian.
    fn from(val: u8) -> (r: Self) {
        HvRegisterValue(AlignedU128(val as u128))
    }
}

impl vstd::std_specs::convert::FromSpecImpl<u8> for HvRegisterValue {
    open spec fn obeys_from_spec() -> bool {
        true
    }

    open spec fn from_spec(v: u8) -> HvRegisterValue {
        HvRegisterValue(aligned_of(v as u128))
    }
}

impl From<u16> for HvRegisterValue {
    /// Stores the value zero-extended to 128 bits, little-endian.
    fn from(val: u16) -> (r: Self) {
        HvRegisterValue(AlignedU128(val as u128))
    }
}

impl vstd::std_specs::convert::FromSpecImpl<u16> for HvRegisterValue {
    open spec fn obeys_from_spec() -> bool {
        true
    }

    open spec fn from_spec(v: u16) -> HvRegisterValue {
        HvRegisterValue(aligned_of(v as u128))
    }
}

impl From<u32> for HvRegisterValue {
    /// Stores the value zero-extended to 128 bits, little-endian.
    fn from(val: u32) -> (r: Self) {
        HvRegisterValue(AlignedU128(val as u128))
    }
}

impl vstd::std_specs::convert::FromSpecImpl<u32> for HvRegisterValue {
    open spec fn obeys_from_spec() -> bool {
        true
    }

    open spec fn from_spec(v: u32) -> HvRegisterValue {
        HvRegisterValue(aligned_of(v as u128))
    }
}

impl From<u64> for HvRegisterValue {
    /// Stores the value zero-extended to 128 bits, little-endian.
    fn from(val: u64) -> (r: Self) {
        HvRegisterValue(AlignedU128(val as u128))
    }
}

impl vstd::std_specs::convert::FromSpecImpl<u64> for HvRegisterValue {
    open spec fn obeys_from_spec() -> bool {
        true
    }

    open spec fn from_spec(v: u64) -> HvRegisterValue {
        HvRegisterValue(aligned_of(v as u128))
    }
}

impl From<u128> for HvRegisterValue {
    /// Stores the 128-bit value, little-endian.
    fn from(val: u128) -> (r: Self) {
        HvRegisterValue(AlignedU128(val))
    }
}

impl vstd::std_specs::convert::FromSpecImpl<u128> for HvRegisterValue {
    open spec fn obeys_from_spec() -> bool {
        true
    }

    open spec fn from_spec(v: u128) -> HvRegisterValue {
        HvRegisterValue(aligned_of(v))
    }
}

impl From<HvX64TableRegister> for HvRegisterValue {
    /// Reinterprets the table register's 16 bytes back into a register
    /// value, byte for byte, with no field reordering.
    fn from(val: HvX64TableRegister) -> (r: Self) {
        let w = (val.pad[0] as u128) | ((val.pad[1] as u128) << 16u128) | ((val.pad[2] as u128)
            << 32u128) | ((val.limit as u128) << 48u128) | ((val.base as u128) << 64u128);
        HvRegisterValue(AlignedU128(w))
    }
}

impl vstd::std_specs::convert::FromSpecImpl<HvX64TableRegister> for HvRegisterValue {
    open spec fn obeys_from_spec() -> bool {
        true
    }

    open spec fn from_spec(v: HvX64TableRegister) -> HvRegisterValue {
        HvRegisterValue(aligned_of(table_pack(v)))
    }
}

impl From<HvRegisterValue> for HvX64TableRegister {
    /// Reinterprets the register value's 16 bytes as a table register,
    /// field by field in declared order.
    fn from(val: HvRegisterValue) -> (r: Self) {
        val.as_table()
    }
}

impl vstd::std_specs::convert::FromSpecImpl<HvRegisterValue> for HvX64TableRegister {
    open spec fn obeys_from_spec() -> bool {
        true
    }

    open spec fn from_spec(v: HvRegisterValue) -> HvX64TableRegister {
        table_of(u128_of_le(v@))
    }
}

impl From<HvX64SegmentRegister> for HvRegisterValue {
    /// Reinterprets the segment register's 16 bytes back into a register
    /// value, byte for byte, with no field reordering.
    fn from(val: HvX64SegmentRegister) -> (r: Self) {
        let w = (val.base as u128) | ((val.limit as u128) << 64u128) | ((val.selector as u128)
            << 96u128) | ((val.attributes as u128) << 112u128);
        HvRegisterValue(AlignedU128(w))
    }
}

impl vstd::std_specs::convert::FromSpecImpl<HvX64SegmentRegister> for HvRegisterValue {
    open spec fn obeys_from_spec() -> bool {
        true
    }

    open spec fn from_spec(v: HvX64SegmentRegister) -> HvRegisterValue {
        HvRegisterValue(aligned_of(segment_pack(v)))
    }
}

impl From<HvRegisterValue> for HvX64SegmentRegister {
    /// Reinterprets the register value's 16 bytes as a segment register,
    /// field by field in declared order.
    fn from(val: HvRegisterValue) -> (r: Self) {
        val.as_segment()
    }
}

impl vstd::std_specs::convert::FromSpecImpl<HvRegisterValue> for HvX64SegmentRegister {
    open spec fn obeys_from_spec() -> bool {
        true
    }

    open spec fn from_spec(v: HvRegisterValue) -> HvX64SegmentRegister {
        segment_of(u128_of_le(v@))
    }
}

/// A register value built from any 128-bit scalar reads back as that scalar,
/// and each narrower read is the truncation to the low-order bits.
///
/// `le_bytes128(v)` is the byte content a register value built from `v`
/// holds, and `u128_of_le` composed with the width mask is what each scalar
/// accessor reads out of those bytes.
pub proof fn lemma_register_scalar_round_trip(v: u128)
    ensures
        u128_of_le(le_bytes128(v)) == v,
        (u128_of_le(le_bytes128(v)) & 0xffff_ffff_ffff_ffff) as u64 == (v
            & 0xffff_ffff_ffff_ffff) as u64,
        (u128_of_le(le_bytes128(v)) & 0xffff_ffff) as u32 == (v & 0xffff_ffff) as u32,
        (u128_of_le(le_bytes128(v)) & 0xffff) as u16 == (v & 0xffff) as u16,
        (u128_of_le(le_bytes128(v)) & 0xff) as u8 == (v & 0xff) as u8,
{
    lemma_u128_le_round_trip(v);
}

/// Round trip for the descriptor-table shape: packing a table register into
/// a register value and reading the shape back yields every field unchanged,
/// padding included.
pub proof fn lemma_table_register_round_trip(t: HvX64TableRegister)
    ensures
        table_of(u128_of_le(le_bytes128(table_pack(t)))) == t,
{
    lemma_u128_le_round_trip(table_pack(t));
    let p0 = t.pad[0];
    let p1 = t.pad[1];
    let p2 = t.pad[2];
    let l = t.limit;
    let b = t.base;
    let w = table_pack(t);
    assert((w & 0xffff) as u16 == p0 && ((w >> 16u128) & 0xffff) as u16 == p1 && ((w >> 32u128)
        & 0xffff) as u16 == p2 && ((w >> 48u128) & 0xffff) as u16 == l && ((w >> 64u128)
        & 0xffff_ffff_ffff_ffff) as u64 == b) by (bit_vector)
        requires
            w == (p0 as u128) | ((p1 as u128) << 16u128) | ((p2 as u128) << 32u128) | ((
            l as u128) << 48u128) | ((b as u128) << 64u128),
    ;
    assert(table_of(w).pad =~= t.pad);
}

/// Round trip for the segment shape: packing a segment register into a
/// register value and reading the shape back yields every field unchanged.
pub proof fn lemma_segment_register_round_trip(s: HvX64SegmentRegister)
    ensures
        segment_of(u128_of_le(le_bytes128(segment_pack(s)))) == s,
{
    lemma_u128_le_round_trip(segment_pack(s));
    let b = s.base;
    let l = s.limit;
    let sel = s.selector;
    let a = s.attributes;
    let w = segment_pack(s);
    assert((w & 0xffff_ffff_ffff_ffff) as u64 == b && ((w >> 64u128) & 0xffff_ffff) as u32 == l
        && ((w >> 96u128) & 0xffff) as u16 == sel && ((w >> 112u128) & 0xffff) as u16 == a)
        by (bit_vector)
        requires
            w == (b as u128) | ((l as u128) << 64u128) | ((sel as u128) << 96u128) | ((
            a as u128) << 112u128),
    ;
}

/// The reverse direction for the table shape: reading any register value as
/// a table register and packing the fields back reproduces the original
/// 128-bit content, so the conversion loses no byte.
pub proof fn lemma_table_view_lossless(w: u128)
    ensures
        table_pack(table_of(w)) == w,
{
    let t = table_of(w);
    let p0 = t.pad[0];
    let p1 = t.pad[1];
    let p2 = t.pad[2];
    let l = t.limit;
    let b = t.base;
    assert((p0 as u128) | ((p1 as u128) << 16u128) | ((p2 as u128) << 32u128) | ((l as u128)
        << 48u128) | ((b as u128) << 64u128) == w) by (bit_vector)
        requires
            p0 == (w & 0xffff) as u16,
            p1 == ((w >> 16u128) & 0xffff) as u16,
            p2 == ((w >> 32u128) & 0xffff) as u16,
            l == ((w >> 48u128) & 0xffff) as u16,
            b == ((w >> 64u128) & 0xffff_ffff_ffff_ffff) as u64,
    ;
}

/// Reading a register value as a table register and converting the table
/// register back gives the identical register value: the structural view
/// preserves all 16 bytes.
pub proof fn lemma_table_view_preserves_register_value(rv: HvRegisterValue)
    ensures
        HvRegisterValue(aligned_of(table_pack(table_of(u128_of_le(rv@))))) == rv,
{
    lemma_table_view_lossless(u128_of_le(rv@));
    lemma_aligned_of_value(rv.0);
}

/// Reading a register value as a segment register and converting the segment
/// register back gives the identical register value: the structural view
/// preserves all 16 bytes.
pub proof fn lemma_segment_view_preserves_register_value(rv: HvRegisterValue)
    ensures
        HvRegisterValue(aligned_of(segment_pack(segment_of(u128_of_le(rv@))))) == rv,
{
    lemma_segment_view_lossless(u128_of_le(rv@));
    lemma_aligned_of_value(rv.0);
}

/// The reverse direction for the segment shape: reading any register value
/// as a segment register and packing the fields back reproduces the
/// original 128-bit content, so the conversion loses no byte.
pub proof fn lemma_segment_view_lossless(w: u128)
    ensures
        segment_pack(segment_of(w)) == w,
{
    let s = segment_of(w);
    let b = s.base;
    let l = s.limit;
    let sel = s.selector;
    let a = s.attributes;
    assert((b as u128) | ((l as u128) << 64u128) | ((sel as u128) << 96u128) | ((a as u128)
        << 112u128) == w) by (bit_vector)
        requires
            b == (w & 0xffff_ffff_ffff_ffff) as u64,
            l == ((w >> 64u128) & 0xffff_ffff) as u32,
            sel == ((w >> 96u128) & 0xffff) as u16,
            a == ((w >> 112u128) & 0xffff) as u16,
    ;
}

} // verus!

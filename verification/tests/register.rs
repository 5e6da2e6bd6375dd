use hvdef::register::{AlignedU128, HvRegisterValue, HvX64SegmentRegister, HvX64TableRegister};

#[test]
fn aligned_byte_round_trip() {
    let bytes: [u8; 16] = [1, 2, 3, 4, 5, 6, 7, 8, 9, 10, 11, 12, 13, 14, 15, 16];
    let a = AlignedU128::from_ne_bytes(bytes);
    assert_eq!(a.to_ne_bytes(), bytes);
}

#[test]
fn aligned_value_round_trip() {
    for v in [0u128, 1, 0xff, 0x1_0000, u128::MAX, 0x0102_0304_0506_0708_090a_0b0c_0d0e_0f10] {
        let a = AlignedU128::from(v);
        assert_eq!(u128::from(a), v);
    }
}

#[test]
fn aligned_layout_is_little_endian() {
    let a = AlignedU128::from(0x0102_0304_0506_0708u64);
    assert_eq!(a.to_ne_bytes(), [8, 7, 6, 5, 4, 3, 2, 1, 0, 0, 0, 0, 0, 0, 0, 0]);
    let b = AlignedU128::from_ne_bytes([1, 0, 0, 0, 0, 0, 0, 0, 0, 0, 0, 0, 0, 0, 0, 2]);
    assert_eq!(u128::from(b), (2u128 << 120) | 1);
}

#[test]
fn aligned_zero_extends_narrow_scalars() {
    assert_eq!(u128::from(AlignedU128::from(0xabu8)), 0xab);
    assert_eq!(u128::from(AlignedU128::from(0xab_cdu16)), 0xab_cd);
    assert_eq!(u128::from(AlignedU128::from(0xab_cd_ef_01u32)), 0xab_cd_ef_01);
    assert_eq!(u128::from(AlignedU128::from(0xab_cd_ef_01_23_45_67_89u64)), 0xab_cd_ef_01_23_45_67_89);
}

#[test]
fn register_scalar_reads_truncate() {
    let v: u128 = 0x1122_3344_5566_7788_99aa_bbcc_ddee_ff00;
    let rv = HvRegisterValue::from(v);
    assert_eq!(rv.as_u128(), v);
    assert_eq!(rv.as_u64(), v as u64);
    assert_eq!(rv.as_u32(), v as u32);
    assert_eq!(rv.as_u16(), v as u16);
    assert_eq!(rv.as_u8(), v as u8);
}

#[test]
fn register_scalar_reads_on_edge_values() {
    for v in [0u128, 1, u128::MAX, 1u128 << 127, 0x1_0000_0000_0000_0000] {
        let rv = HvRegisterValue::from(v);
        assert_eq!(rv.as_u128(), v);
        assert_eq!(rv.as_u64(), v as u64);
        assert_eq!(rv.as_u32(), v as u32);
        assert_eq!(rv.as_u16(), v as u16);
        assert_eq!(rv.as_u8(), v as u8);
    }
}

#[test]
fn register_from_narrow_scalars_zero_extends() {
    assert_eq!(HvRegisterValue::from(0xabu8).as_u128(), 0xab);
    assert_eq!(HvRegisterValue::from(0xab_cdu16).as_u128(), 0xab_cd);
    assert_eq!(HvRegisterValue::from(0xdead_beefu32).as_u128(), 0xdead_beef);
    assert_eq!(HvRegisterValue::from(0xdead_beef_cafe_f00du64).as_u128(), 0xdead_beef_cafe_f00d);
}

#[test]
fn table_register_round_trip() {
    let t = HvX64TableRegister {
        pad: [0x1111, 0x2222, 0x3333],
        limit: 0xffff,
        base: 0xdead_beef_cafe_f00d,
    };
    assert_eq!(HvRegisterValue::from(t).as_table(), t);
    let back: HvX64TableRegister = HvRegisterValue::from(t).into();
    assert_eq!(back, t);
}

#[test]
fn table_register_pad_round_trips_unchanged() {
    let t = HvX64TableRegister { pad: [0xa5a5, 0x5a5a, 0xffff], limit: 0, base: 0 };
    let back = HvRegisterValue::from(t).as_table();
    assert_eq!(back.pad, [0xa5a5, 0x5a5a, 0xffff]);
}

#[test]
fn table_register_layout_is_pad_limit_base() {
    let t = HvX64TableRegister { pad: [1, 2, 3], limit: 4, base: 5 };
    let rv = HvRegisterValue::from(t);
    assert_eq!(rv.0.to_ne_bytes(), [1, 0, 2, 0, 3, 0, 4, 0, 5, 0, 0, 0, 0, 0, 0, 0]);
}

#[test]
fn segment_register_round_trip() {
    let s = HvX64SegmentRegister {
        base: 0xffff_ffff_ffff_ffff,
        limit: 0x8000_0001,
        selector: 0xbeef,
        attributes: 0xa09b,
    };
    assert_eq!(HvRegisterValue::from(s).as_segment(), s);
    let back: HvX64SegmentRegister = HvRegisterValue::from(s).into();
    assert_eq!(back, s);
}

#[test]
fn segment_register_scenario() {
    let s = HvX64SegmentRegister { base: 0x1000, limit: 0xffff, selector: 0x0008, attributes: 0x0093 };
    let rv = HvRegisterValue::from(s);
    let back = rv.as_segment();
    assert_eq!(back.base, 0x1000);
    assert_eq!(back.limit, 0xffff);
    assert_eq!(back.selector, 0x0008);
    assert_eq!(back.attributes, 0x0093);
}

#[test]
fn segment_register_layout_is_base_limit_selector_attributes() {
    let s = HvX64SegmentRegister { base: 1, limit: 2, selector: 3, attributes: 4 };
    let rv = HvRegisterValue::from(s);
    assert_eq!(rv.0.to_ne_bytes(), [1, 0, 0, 0, 0, 0, 0, 0, 2, 0, 0, 0, 3, 0, 4, 0]);
}

#[test]
fn structural_views_preserve_the_register_value() {
    let v: u128 = 0x0123_4567_89ab_cdef_fedc_ba98_7654_3210;
    let rv = HvRegisterValue::from(v);
    let via_table = HvRegisterValue::from(rv.as_table());
    assert_eq!(via_table.as_u128(), v);
    let via_segment = HvRegisterValue::from(rv.as_segment());
    assert_eq!(via_segment.as_u128(), v);
}

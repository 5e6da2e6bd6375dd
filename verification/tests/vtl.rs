use hvdef::vtl::{HvError, Vtl};

#[test]
fn decode_valid_bytes() {
    assert_eq!(Vtl::try_from(0u8), Ok(Vtl::Vtl0));
    assert_eq!(Vtl::try_from(1u8), Ok(Vtl::Vtl1));
    assert_eq!(Vtl::try_from(2u8), Ok(Vtl::Vtl2));
}

#[test]
fn decode_then_encode_is_identity() {
    for b in 0u8..=2u8 {
        let vtl = Vtl::try_from(b).unwrap();
        assert_eq!(vtl.to_u8(), b);
        assert_eq!(u8::from(vtl), b);
    }
}

#[test]
fn decode_invalid_bytes() {
    assert_eq!(Vtl::try_from(3u8), Err(HvError::InvalidParameter));
    assert_eq!(Vtl::try_from(4u8), Err(HvError::InvalidParameter));
    assert_eq!(Vtl::try_from(0x80u8), Err(HvError::InvalidParameter));
    assert_eq!(Vtl::try_from(255u8), Err(HvError::InvalidParameter));
}

#[test]
fn decode_byte_two_encode_vtl2() {
    assert_eq!(Vtl::try_from(2u8), Ok(Vtl::Vtl2));
    assert_eq!(Vtl::Vtl2.to_u8(), 2u8);
}

#[test]
fn ordering_matches_trust_levels() {
    assert!(Vtl::Vtl0 < Vtl::Vtl1);
    assert!(Vtl::Vtl1 < Vtl::Vtl2);
    assert!(Vtl::Vtl0 < Vtl::Vtl2);
}

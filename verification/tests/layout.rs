use core::mem::{align_of, size_of};

use hvdef::message::{HvMessage, HvMessageHeader, TimerMessagePayload};
use hvdef::register::{AlignedU128, HvRegisterValue, HvX64SegmentRegister, HvX64TableRegister};

#[test]
fn storage_size_and_alignment() {
    assert_eq!(size_of::<AlignedU128>(), 16);
    assert_eq!(align_of::<AlignedU128>(), 16);
}

#[test]
fn register_type_sizes() {
    assert_eq!(size_of::<HvRegisterValue>(), 16);
    assert_eq!(size_of::<HvX64TableRegister>(), 16);
    assert_eq!(size_of::<HvX64SegmentRegister>(), 16);
}

#[test]
fn message_type_sizes() {
    assert_eq!(size_of::<HvMessageHeader>(), 16);
    assert_eq!(size_of::<HvMessage>(), 256);
    assert_eq!(size_of::<TimerMessagePayload>(), 24);
}

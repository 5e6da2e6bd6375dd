//! Virtual Trust Levels (VTLs) defined by Virtual Secure Mode (VSM).
//!
//! A VTL is one of the three trust levels 0, 1 and 2, carried on the wire as
//! a single byte. Decoding validates the byte; encoding is total and is the
//! exact inverse of the successful decode direction.

use vstd::prelude::*;

verus! {

/// Error kinds mirroring the hypervisor's own status code domain.
///
/// Only the invalid-parameter status is raised by this crate: VTL decoding
/// fails with it when the input byte is outside the valid range.
#[derive(Debug, Copy, Clone, PartialEq, Eq, Structural)]
pub enum HvError {
    /// A caller-supplied value is outside the range the protocol allows.
    InvalidParameter,
}

/// A Virtual Trust Level (VTL) defined by Virtual Secure Mode (VSM).
///
/// The derived ordering is the numeric order of the encoded bytes:
/// `Vtl0 < Vtl1 < Vtl2`, so comparing trust levels compares privilege.
#[derive(Debug, Copy, Clone, PartialEq, Eq, Structural, PartialOrd, Ord)]
pub enum Vtl {
    /// VTL0.
    Vtl0,
    /// VTL1.
    Vtl1,
    /// VTL2.
    Vtl2,
}

/// The byte a VTL is encoded as: 0, 1 or 2 in trust-level order.
pub open spec fn u8_of_vtl(v: Vtl) -> u8 {
    match v {
        Vtl::Vtl0 => 0,
        Vtl::Vtl1 => 1,
        Vtl::Vtl2 => 2,
    }
}

/// The VTL a byte decodes to: bytes 0, 1 and 2 are valid, all others are
/// rejected with [`HvError::InvalidParameter`].
pub open spec fn vtl_of_u8(b: u8) -> Result<Vtl, HvError> {
    if b == 0 {
        Ok(Vtl::Vtl0)
    } else if b == 1 {
        Ok(Vtl::Vtl1)
    } else if b == 2 {
        Ok(Vtl::Vtl2)
    } else {
        Err(HvError::InvalidParameter)
    }
}

impl Vtl {
    /// Encodes this VTL as its wire byte.
    pub fn to_u8(self) -> (result: u8)
        ensures
            result == u8_of_vtl(self),
    {
        match self {
            Vtl::Vtl0 => 0,
            Vtl::Vtl1 => 1,
            Vtl::Vtl2 => 2,
        }
    }
}

impl TryFrom<u8> for Vtl {
    type Error = HvError;

    /// Decodes a wire byte: succeeds exactly on 0, 1 and 2, and fails with
    /// [`HvError::InvalidParameter`] on every other byte.
    fn try_from(value: u8) -> (result: Result<Vtl, HvError>) {
        match value {
            0 => Ok(Vtl::Vtl0),
            1 => Ok(Vtl::Vtl1),
            2 => Ok(Vtl::Vtl2),
            _ => Err(HvError::InvalidParameter),
        }
    }
}

impl vstd::std_specs::convert::TryFromSpecImpl<u8> for Vtl {
    open spec fn obeys_try_from_spec() -> bool {
        true
    }

    open spec fn try_from_spec(v: u8) -> Result<Vtl, HvError> {
        vtl_of_u8(v)
    }
}

impl From<Vtl> for u8 {
    /// Encodes a VTL as its wire byte; the total inverse of decoding.
    fn from(value: Vtl) -> (result: u8) {
        value.to_u8()
    }
}

impl vstd::std_specs::convert::FromSpecImpl<Vtl> for u8 {
    open spec fn obeys_from_spec() -> bool {
        true
    }

    open spec fn from_spec(v: Vtl) -> u8 {
        u8_of_vtl(v)
    }
}

/// Every byte in the valid range decodes, and encoding the decoded VTL gives
/// the byte back.
pub proof fn lemma_vtl_decode_then_encode(b: u8)
    requires
        b <= 2,
    ensures
        vtl_of_u8(b) is Ok,
        u8_of_vtl(vtl_of_u8(b)->Ok_0) == b,
{
}

/// Every byte outside the valid range is rejected with
/// [`HvError::InvalidParameter`].
pub proof fn lemma_vtl_decode_invalid(b: u8)
    requires
        b > 2,
    ensures
        vtl_of_u8(b) == Err::<Vtl, HvError>(HvError::InvalidParameter),
{
}

/// Encoding any VTL and decoding the byte gives the VTL back: encoding is
/// the exact inverse of the successful decode direction.
pub proof fn lemma_vtl_encode_then_decode(v: Vtl)
    ensures
        vtl_of_u8(u8_of_vtl(v)) == Ok::<Vtl, HvError>(v),
{
}

} // verus!

//! Bit-exact representations of hypervisor virtual-processor register values
//! and hypervisor-to-guest synthetic message structures.
//!
//! Register contents travel across the guest/host boundary in a fixed
//! 16-byte, 16-byte-aligned storage slot. The same slot is reinterpreted as a
//! scalar of varying width (truncating to the low-order bits) or as one of
//! two structured register shapes (descriptor-table register, segment
//! register). Synthetic messages arrive as a fixed 16-byte header followed by
//! a 240-byte payload area; one payload kind (timer expired) is fully typed.
//!
//! All layouts are little-endian, matching the hypervisor ABI on the
//! supported platforms. Every conversion is specified down to the byte, and
//! the round-trip laws (struct to register value and back, scalar to register
//! value and back) are proved.

pub mod lebytes;
pub mod message;
pub mod register;
pub mod vtl;

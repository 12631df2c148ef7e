//! Bits of the receive configuration register.

use vstd::prelude::*;

verus! {

/// Receive buffer length bits 11 and 12 set: the largest buffer.
pub const RX_BUFFER_LENGTH_MAX: u32 = 0x1800;

/// Mask that clears receive buffer length bits 11 and 12: the smallest
/// buffer.
pub const RX_BUFFER_LENGTH_MIN: u32 = !0x1800u32;

/// Let a packet run past the end of the receive buffer instead of wrapping.
pub const RX_WRAP: u32 = 0x80;

/// Accept packets with CRC errors.
pub const ACCEPT_ERR: u32 = 0x20;

/// Accept runt (<64 bytes) packets.
pub const ACCEPT_RUNT: u32 = 0x10;

/// Accept broadcast packets.
pub const ACCEPT_BROADCAST: u32 = 0x08;

/// Accept multicast packets.
pub const ACCEPT_MULTICAST: u32 = 0x04;

/// Accept packets with our MAC as destination.
pub const ACCEPT_MY_PHYS: u32 = 0x02;

/// Accept all packets with a physical destination.
pub const ACCEPT_ALL_PHYS: u32 = 0x01;

} // verus!

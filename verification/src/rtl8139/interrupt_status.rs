//! Bits of the interrupt status and interrupt mask registers.

use vstd::prelude::*;

verus! {

/// A packet was received.
pub const RX_OK: u16 = 0x1;

/// A packet was received with an error.
pub const RX_ERR: u16 = 0x2;

/// A packet was sent.
pub const TX_OK: u16 = 0x4;

/// The receive buffer overflowed.
pub const RX_OVERFLOW: u16 = 0x10;

/// A packet could not be sent.
pub const TX_ERR: u16 = 0x8;

} // verus!

//! Bits of the chip command register.

use vstd::prelude::*;

verus! {

/// Software reset; reads as set until the reset has completed.
pub const CMD_RESET: u8 = 0x10;

/// Receiver enable.
pub const CMD_RX_ENABLE: u8 = 0x08;

/// Transmitter enable.
pub const CMD_TX_ENABLE: u8 = 0x04;

/// The receive buffer is empty.
pub const RX_BUF_EMPTY: u8 = 0x01;

} // verus!

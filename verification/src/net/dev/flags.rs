//! Flags associated with a [`super::Device`].

use vstd::prelude::*;

verus! {

/// Interface is up.
pub const IFF_UP: u32 = 0x1;

/// Broadcast address valid.
pub const IFF_BROADCAST: u32 = 0x2;

/// Device on debugging.
pub const IFF_DEBUG: u32 = 0x4;

/// Loopback device.
pub const IFF_LOOPBACK: u32 = 0x8;

/// Has p-p link.
pub const IFF_POINTOPOINT: u32 = 0x10;

/// Avoids use of trailers.
pub const IFF_NOTRAILERS: u32 = 0x20;

/// Interface RFC2863 OPER_UP.
pub const IFF_RUNNING: u32 = 0x40;

/// No ARP protocol.
pub const IFF_NOARP: u32 = 0x80;

/// Receives all packets.
pub const IFF_PROMISC: u32 = 0x100;

/// Receive all multicast packets.
pub const IFF_ALLMULTI: u32 = 0x200;

/// Master of a load balancer.
pub const IFF_MASTER: u32 = 0x400;

/// Slave of a load balancer.
pub const IFF_SLAVE: u32 = 0x800;

/// Supports multicast.
pub const IFF_MULTICAST: u32 = 0x1000;

/// Capable of setting media type.
pub const IFF_PORTSEL: u32 = 0x2000;

/// Auto media select active.
pub const IFF_AUTOMEDIA: u32 = 0x4000;

/// Dialup device with changing addresses.
pub const IFF_DYNAMIC: u32 = 0x8000;

} // verus!

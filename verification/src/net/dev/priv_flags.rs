//! Private flags associated with a [`super::Device`].

use vstd::prelude::*;

verus! {

/// 802.1Q VLAN device.
pub const IFF_802_1Q_VLAN: u32 = 0x1;

/// Ethernet bridging device.
pub const IFF_EBRIDGE: u32 = 0x2;

/// Bonding master or slave device.
pub const IFF_BONDING: u32 = 0x4;

/// ISATAP interface (RFC4214).
pub const IFF_ISATAP: u32 = 0x8;

/// WAN HDLC device.
pub const IFF_WAN_HDLC: u32 = 0x10;

/// dev_hard_start_xmit() is allowed to release skb->dst.
pub const IFF_XMIT_DST_RELEASE: u32 = 0x20;

/// Disallows bridging this ether device.
pub const IFF_DONT_BRIDGE: u32 = 0x40;

/// Disables netpoll at run-time.
pub const IFF_DISABLE_NETPOLL: u32 = 0x80;

/// Device used as macvlan port.
pub const IFF_MACVLAN_PORT: u32 = 0x100;

/// Device used as bridge port.
pub const IFF_BRIDGE_PORT: u32 = 0x200;

/// Device used as Open vSwitch datapath port.
pub const IFF_OVS_DATAPATH: u32 = 0x400;

/// The interface supports sharing skbs on transmit.
pub const IFF_TX_SKB_SHARING: u32 = 0x800;

/// Supports unicast filtering.
pub const IFF_UNICAST_FLT: u32 = 0x1000;

/// Device used as team port.
pub const IFF_TEAM_PORT: u32 = 0x2000;

/// Device supports sending custom FCS.
pub const IFF_SUPP_NOFCS: u32 = 0x4000;

/// Device supports hardware address change when it's running.
pub const IFF_LIVE_ADDR_CHANGE: u32 = 0x8000;

/// Macvlan device.
pub const IFF_MACVLAN: u32 = 0x10000;

/// IFF_XMIT_DST_RELEASE not taking into account underlying stacked devices.
pub const IFF_XMIT_DST_RELEASE_PERM: u32 = 0x20000;

/// L3 master device.
pub const IFF_L3MDEV_MASTER: u32 = 0x40000;

/// Device can run without qdisc attached.
pub const IFF_NO_QUEUE: u32 = 0x80000;

/// Device is a Open vSwitch master.
pub const IFF_OPENVSWITCH: u32 = 0x100000;

/// Device is enslaved to an L3 master.
pub const IFF_L3MDEV_SLAVE: u32 = 0x200000;

/// Team device.
pub const IFF_TEAM: u32 = 0x400000;

/// Device has had Rx Flow indirection table configured.
pub const IFF_RXFH_CONFIGURED: u32 = 0x800000;

/// The headroom value is controlled by an external entity.
pub const IFF_PHONY_HEADROOM: u32 = 0x1000000;

/// MACsec device.
pub const IFF_MACSEC: u32 = 0x2000000;

/// Device doesn't support the rx_handler hook.
pub const IFF_NO_RX_HANDLER: u32 = 0x4000000;

/// Failover master device.
pub const IFF_FAILOVER: u32 = 0x8000000;

/// Lower device of a failover master device.
pub const IFF_FAILOVER_SLAVE: u32 = 0x10000000;

/// Only invokes the rx handler of L3 master device.
pub const IFF_L3MDEV_RX_HANDLER: u32 = 0x20000000;

/// Prevents ipv6 addrconf.
pub const IFF_NO_ADDRCONF: u32 = 0x40000000;

/// Capable of xmitting frames with skb_headlen(skb) == 0.
pub const IFF_TX_SKB_NO_LINEAR: u32 = 0x80000000;

} // verus!

//! Network device.
//!
//! [`Device`] holds, as plain values, the part of the kernel's
//! `struct net_device` that drivers read and change, together with the
//! driver's private data.

pub mod flags;
pub mod priv_flags;

use vstd::prelude::*;

use crate::error::{errno_of, Error, EINVAL, ENOMEM};

verus! {

/// Length of the buffer that holds a device name.
pub const IFNAMSIZ: usize = 16;

/// Length of an Ethernet hardware address.
pub const ETH_ALEN: usize = 6;

/// Length of an Ethernet header.
pub const ETH_HLEN: u32 = 14;

/// Default (and largest) MTU of an Ethernet device.
pub const ETH_DATA_LEN: u32 = 1500;

/// Smallest MTU of an Ethernet device.
pub const ETH_MIN_MTU: u32 = 68;

/// Address assignment type: address is permanent (the default).
pub const NET_ADDR_PERM: u8 = 0;

/// Address assignment type: address was randomly generated.
pub const NET_ADDR_RANDOM: u8 = 1;

/// The name an Ethernet device gets when it is allocated: the template
/// `eth%d`, padded with zero bytes to [`IFNAMSIZ`].
pub open spec fn ether_name_template() -> Seq<u8> {
    seq![0x65u8, 0x74u8, 0x68u8, 0x25u8, 0x64u8] + Seq::new(11, |i: int| 0u8)
}

/// The address that `eth_random_addr` makes of random bytes: the multicast
/// bit of the first byte cleared and the locally-administered bit set.
pub open spec fn random_ether_addr(random: Seq<u8>) -> Seq<u8> {
    random.update(0, ((random[0] & 0xfeu8) | 0x02u8) as u8)
}

/// A randomly generated address is a unicast address (multicast bit clear)
/// and a locally administered one (local bit set); the other bytes are the
/// random bytes as drawn.
pub proof fn lemma_random_ether_addr(random: Seq<u8>)
    requires
        random.len() == ETH_ALEN,
    ensures
        random_ether_addr(random).len() == ETH_ALEN,
        random_ether_addr(random)[0] & 0x01u8 == 0,
        random_ether_addr(random)[0] & 0x02u8 == 0x02u8,
        forall|i: int| 1 <= i < ETH_ALEN ==> random_ether_addr(random)[i] == random[i],
{
    let b = random[0];
    let x = random_ether_addr(random)[0];
    assert(x == ((b & 0xfeu8) | 0x02u8) as u8);
    assert(((b & 0xfeu8) | 0x02u8) & 0x01u8 == 0) by (bit_vector);
    assert(((b & 0xfeu8) | 0x02u8) & 0x02u8 == 0x02u8) by (bit_vector);
}

/// The state of a freshly allocated Ethernet device, as `ether_setup`
/// leaves it.
pub open spec fn new_ether_device() -> DeviceView {
    DeviceView {
        name: ether_name_template(),
        mtu: ETH_DATA_LEN,
        min_mtu: ETH_MIN_MTU,
        max_mtu: ETH_DATA_LEN,
        flags: flags::IFF_BROADCAST | flags::IFF_MULTICAST,
        carrier: true,
        queue_stopped: false,
        dev_addr: Seq::new(6, |i: int| 0u8),
        addr_assign_type: NET_ADDR_PERM,
        registered: false,
        received: Seq::empty(),
        freed: Seq::empty(),
    }
}

/// The state of a network device, as drivers see it.
pub ghost struct DeviceView {
    /// The device name buffer (always [`IFNAMSIZ`] bytes).
    pub name: Seq<u8>,
    /// The current MTU.
    pub mtu: u32,
    /// The smallest MTU the device accepts.
    pub min_mtu: u32,
    /// The largest MTU the device accepts.
    pub max_mtu: u32,
    /// The `IFF_*` flags of [`flags`].
    pub flags: u32,
    /// Whether the carrier (link) is up.
    pub carrier: bool,
    /// Whether the transmit queue is stopped.
    pub queue_stopped: bool,
    /// The hardware address (always [`ETH_ALEN`] bytes).
    pub dev_addr: Seq<u8>,
    /// How the hardware address was assigned (`NET_ADDR_*`).
    pub addr_assign_type: u8,
    /// Whether the device is registered with the network stack.
    pub registered: bool,
    /// The packets handed to the network stack, oldest first.
    pub received: Seq<Seq<u8>>,
    /// The packets the driver released, oldest first.
    pub freed: Seq<Seq<u8>>,
}

/// Corresponds to the kernel's `struct sk_buff`: a packet buffer.
pub struct SkBuff {
    data: Vec<u8>,
}

impl View for SkBuff {
    type V = Seq<u8>;

    /// The packet bytes.
    closed spec fn view(&self) -> Seq<u8> {
        self.data@
    }
}

impl SkBuff {
    /// The packet bytes.
    pub fn data(&self) -> (r: &[u8])
        ensures
            r@ == self@,
    {
        self.data.as_slice()
    }

    /// The length of the packet.
    pub fn len(&self) -> (r: usize)
        ensures
            r == self@.len(),
    {
        self.data.len()
    }

    /// Provides a time stamp.
    ///
    /// The packet bytes stay as they are; the time stamp itself depends on
    /// the clock and is not part of this model.
    pub fn tx_timestamp(&mut self)
        ensures
            final(self)@ == old(self)@,
    {
    }

    /// Copies the packet into `buf` at `offset`, leaving the rest of `buf` as
    /// it was.
    ///
    /// The checksum part of the kernel's `skb_copy_and_csum_dev` only acts on
    /// packets that ask for checksum offload, which a device without
    /// checksum features never receives; the copy is all there is.
    pub fn copy_to_with_checksum(&self, buf: &mut Vec<u8>, offset: usize)
        requires
            offset + self@.len() <= old(buf)@.len(),
        ensures
            final(buf)@ == old(buf)@.subrange(0, offset as int) + self@ + old(buf)@.subrange(
                offset + self@.len(),
                old(buf)@.len() as int,
            ),
    {
        let n = self.data.len();
        let blen = buf.len();
        let mut i: usize = 0;
        while i < n
            invariant
                i <= n,
                n == self@.len(),
                offset + n <= old(buf)@.len(),
                buf@.len() == old(buf)@.len(),
                blen == buf@.len(),
                forall|j: int| 0 <= j < offset ==> buf@[j] == old(buf)@[j],
                forall|j: int| 0 <= j < i ==> buf@[offset + j] == self@[j],
                forall|j: int| offset + i <= j < buf@.len() ==> buf@[j] == old(buf)@[j],
            decreases n - i,
        {
            buf.set(offset + i, self.data[i]);
            i = i + 1;
        }
        assert(buf@ =~= old(buf)@.subrange(0, offset as int) + self@ + old(buf)@.subrange(
            offset + self@.len(),
            old(buf)@.len() as int,
        ));
    }
}

/// Copies a slice into a new vector.
fn vec_from_slice(s: &[u8]) -> (r: Vec<u8>)
    ensures
        r@ == s@,
{
    let mut v: Vec<u8> = Vec::new();
    let mut i: usize = 0;
    while i < s.len()
        invariant
            i <= s@.len(),
            v@ == s@.subrange(0, i as int),
        decreases s@.len() - i,
    {
        v.push(s[i]);
        i = i + 1;
        assert(v@ =~= s@.subrange(0, i as int));
    }
    assert(v@ =~= s@);
    v
}

/// Corresponds to the kernel's `enum netdev_tx`.
pub enum TxCode {
    /// Driver took care of packet.
    Done,
    /// Driver tx path was busy.
    Busy,
}

/// C value of "driver took care of packet".
pub const NETDEV_TX_OK: i32 = 0x00;

/// C value of "driver tx path was busy".
pub const NETDEV_TX_BUSY: i32 = 0x10;

impl TxCode {
    /// The C `netdev_tx_t` value of this code.
    pub open spec fn raw(self) -> i32 {
        match self {
            TxCode::Done => NETDEV_TX_OK,
            TxCode::Busy => NETDEV_TX_BUSY,
        }
    }

    /// Converts to the C `netdev_tx_t` value.
    pub fn to_raw(self) -> (r: i32)
        ensures
            r == self.raw(),
    {
        match self {
            TxCode::Done => NETDEV_TX_OK,
            TxCode::Busy => NETDEV_TX_BUSY,
        }
    }
}

/// Corresponds to the kernel's `struct net_device`, with the driver's
/// private data.
pub struct Device<T> {
    name: Vec<u8>,
    mtu: u32,
    min_mtu: u32,
    max_mtu: u32,
    flags: u32,
    carrier: bool,
    queue_stopped: bool,
    dev_addr: Vec<u8>,
    addr_assign_type: u8,
    is_registered: bool,
    received: Vec<SkBuff>,
    freed: Ghost<Seq<Seq<u8>>>,
    data: T,
}

impl<T> View for Device<T> {
    type V = DeviceView;

    closed spec fn view(&self) -> DeviceView {
        DeviceView {
            name: self.name@,
            mtu: self.mtu,
            min_mtu: self.min_mtu,
            max_mtu: self.max_mtu,
            flags: self.flags,
            carrier: self.carrier,
            queue_stopped: self.queue_stopped,
            dev_addr: self.dev_addr@,
            addr_assign_type: self.addr_assign_type,
            registered: self.is_registered,
            received: self.received@.map_values(|skb: SkBuff| skb@),
            freed: self.freed@,
        }
    }
}

impl<T> Device<T> {
    /// The private data of the driver.
    pub closed spec fn priv_data(&self) -> T {
        self.data
    }

    /// The name buffer and the hardware address have their fixed lengths.
    pub open spec fn wf(&self) -> bool {
        &&& self@.name.len() == IFNAMSIZ
        &&& self@.dev_addr.len() == ETH_ALEN
    }

    /// Creates a new [`Device`] instance for an Ethernet device.
    ///
    /// A device driver can pass private data. The kernel refuses a device
    /// without transmit or receive queues, which gives `ENOMEM`. A new device
    /// is set up as `ether_setup` does it: named after the template `eth%d`,
    /// MTU 1500 within 68..=1500, broadcast and multicast flags, carrier on,
    /// queue running, zero permanent address, not registered.
    pub fn try_new(tx_queue_size: u32, rx_queue_size: u32, data: T) -> (r: Result<Self, Error>)
        ensures
            (tx_queue_size == 0 || rx_queue_size == 0) ==> r is Err && r->Err_0.errno() == ENOMEM,
            (tx_queue_size > 0 && rx_queue_size > 0) ==> r is Ok && r->Ok_0.wf()
                && r->Ok_0.priv_data() == data && r->Ok_0@ == new_ether_device(),
    {
        if tx_queue_size == 0 || rx_queue_size == 0 {
            return Err(Error::enomem());
        }
        let mut name: Vec<u8> = vec![0u8; IFNAMSIZ];
        name.set(0, 0x65u8);
        name.set(1, 0x74u8);
        name.set(2, 0x68u8);
        name.set(3, 0x25u8);
        name.set(4, 0x64u8);
        let dev_addr: Vec<u8> = vec![0u8; ETH_ALEN];
        let dev = Device {
            name,
            mtu: ETH_DATA_LEN,
            min_mtu: ETH_MIN_MTU,
            max_mtu: ETH_DATA_LEN,
            flags: flags::IFF_BROADCAST | flags::IFF_MULTICAST,
            carrier: true,
            queue_stopped: false,
            dev_addr,
            addr_assign_type: NET_ADDR_PERM,
            is_registered: false,
            received: Vec::new(),
            freed: Ghost(Seq::empty()),
            data,
        };
        assert(dev@.name =~= ether_name_template());
        assert(dev@.dev_addr =~= Seq::new(6, |i: int| 0u8));
        assert(dev@.received =~= Seq::<Seq<u8>>::empty());
        assert(dev@.freed =~= Seq::<Seq<u8>>::empty());
        Ok(dev)
    }

    /// Gets the private data of a device driver.
    pub fn drv_priv_data(&self) -> (r: &T)
        ensures
            *r == self.priv_data(),
    {
        &self.data
    }

    /// Gets the private data of a device driver for changing it.
    pub fn drv_priv_data_mut(&mut self) -> (r: &mut T)
        ensures
            *r == old(self).priv_data(),
            final(self).priv_data() == *final(r),
            final(self)@ == old(self)@,
    {
        &mut self.data
    }

    /// Sets the name of a device.
    ///
    /// `name` holds the name's bytes without its terminating NUL. A name
    /// that leaves no room for the NUL in the name buffer gives `EINVAL` and
    /// leaves the device as it was; otherwise the name and its NUL are copied
    /// to the front of the buffer and the rest of the buffer stays as it was.
    pub fn set_name(&mut self, name: &[u8]) -> (r: Result<(), Error>)
        requires
            old(self).wf(),
        ensures
            final(self).wf(),
            final(self).priv_data() == old(self).priv_data(),
            name@.len() >= IFNAMSIZ ==> r is Err && r->Err_0.errno() == EINVAL && final(self)@
                == old(self)@,
            name@.len() < IFNAMSIZ ==> r is Ok && final(self)@ == (DeviceView {
                name: name@ + seq![0u8] + old(self)@.name.subrange(
                    (name@.len() + 1) as int,
                    IFNAMSIZ as int,
                ),
                ..old(self)@
            }),
    {
        if name.len() >= self.name.len() {
            return Err(Error::einval());
        }
        let n = name.len();
        let mut i: usize = 0;
        while i < n
            invariant
                i <= n,
                n == name@.len(),
                n < IFNAMSIZ,
                self.name@.len() == IFNAMSIZ,
                forall|j: int| 0 <= j < i ==> self.name@[j] == name@[j],
                forall|j: int| i <= j < IFNAMSIZ ==> self.name@[j] == old(self).name@[j],
                self.dev_addr == old(self).dev_addr,
                self.mtu == old(self).mtu,
                self.min_mtu == old(self).min_mtu,
                self.max_mtu == old(self).max_mtu,
                self.flags == old(self).flags,
                self.carrier == old(self).carrier,
                self.queue_stopped == old(self).queue_stopped,
                self.addr_assign_type == old(self).addr_assign_type,
                self.is_registered == old(self).is_registered,
                self.received == old(self).received,
                self.freed == old(self).freed,
                self.data == old(self).data,
            decreases n - i,
        {
            self.name.set(i, name[i]);
            i = i + 1;
        }
        self.name.set(n, 0u8);
        assert(self.name@ =~= name@ + seq![0u8] + old(self)@.name.subrange(
            n + 1,
            IFNAMSIZ as int,
        ));
        Ok(())
    }

    /// Sets carrier.
    pub fn netif_carrier_on(&mut self)
        ensures
            final(self).priv_data() == old(self).priv_data(),
            final(self)@ == (DeviceView { carrier: true, ..old(self)@ }),
    {
        self.carrier = true;
    }

    /// Clears carrier.
    pub fn netif_carrier_off(&mut self)
        ensures
            final(self).priv_data() == old(self).priv_data(),
            final(self)@ == (DeviceView { carrier: false, ..old(self)@ }),
    {
        self.carrier = false;
    }

    /// Sets the max mtu of the device.
    pub fn set_max_mtu(&mut self, max_mtu: u32)
        ensures
            final(self).priv_data() == old(self).priv_data(),
            final(self)@ == (DeviceView { max_mtu, ..old(self)@ }),
    {
        self.max_mtu = max_mtu;
    }

    /// Sets the minimum mtu of the device.
    pub fn set_min_mtu(&mut self, min_mtu: u32)
        ensures
            final(self).priv_data() == old(self).priv_data(),
            final(self)@ == (DeviceView { min_mtu, ..old(self)@ }),
    {
        self.min_mtu = min_mtu;
    }

    /// Returns the current mtu of the device.
    pub fn get_mtu(&self) -> (r: u32)
        ensures
            r == self@.mtu,
    {
        self.mtu
    }

    /// Returns the flags of the device.
    pub fn get_flags(&self) -> (r: u32)
        ensures
            r == self@.flags,
    {
        self.flags
    }

    /// Sets the flags of the device.
    pub fn set_flags(&mut self, flags: u32)
        ensures
            final(self).priv_data() == old(self).priv_data(),
            final(self)@ == (DeviceView { flags, ..old(self)@ }),
    {
        self.flags = flags;
    }

    /// Sets a random Ethernet address (MAC) for the device and marks it as
    /// randomly assigned.
    ///
    /// `random` are the random bytes the address is made of (the kernel
    /// draws them from its random pool); the address is made unicast and
    /// locally administered, as `eth_random_addr` does.
    pub fn set_random_eth_hw_addr(&mut self, random: [u8; 6])
        requires
            old(self).wf(),
        ensures
            final(self).wf(),
            final(self).priv_data() == old(self).priv_data(),
            final(self)@ == (DeviceView {
                dev_addr: random_ether_addr(random@),
                addr_assign_type: NET_ADDR_RANDOM,
                ..old(self)@
            }),
    {
        let first: u8 = (random[0] & 0xfe) | 0x02;
        self.dev_addr.set(0, first);
        let mut i: usize = 1;
        while i < ETH_ALEN
            invariant
                1 <= i <= ETH_ALEN,
                self.dev_addr@.len() == ETH_ALEN,
                self.dev_addr@[0] == first,
                forall|j: int| 1 <= j < i ==> self.dev_addr@[j] == random@[j],
                self.name == old(self).name,
                self.mtu == old(self).mtu,
                self.min_mtu == old(self).min_mtu,
                self.max_mtu == old(self).max_mtu,
                self.flags == old(self).flags,
                self.carrier == old(self).carrier,
                self.queue_stopped == old(self).queue_stopped,
                self.addr_assign_type == old(self).addr_assign_type,
                self.is_registered == old(self).is_registered,
                self.received == old(self).received,
                self.freed == old(self).freed,
                self.data == old(self).data,
            decreases ETH_ALEN - i,
        {
            self.dev_addr.set(i, random[i]);
            i = i + 1;
        }
        self.addr_assign_type = NET_ADDR_RANDOM;
        assert(self.dev_addr@ =~= random_ether_addr(random@));
    }

    /// Sets the hardware address of the device.
    pub fn set_eth_hw_addr(&mut self, addr: &[u8])
        requires
            old(self).wf(),
            addr@.len() == ETH_ALEN,
        ensures
            final(self).wf(),
            final(self).priv_data() == old(self).priv_data(),
            final(self)@ == (DeviceView { dev_addr: addr@, ..old(self)@ }),
    {
        let mut i: usize = 0;
        while i < ETH_ALEN
            invariant
                i <= ETH_ALEN,
                addr@.len() == ETH_ALEN,
                self.dev_addr@.len() == ETH_ALEN,
                forall|j: int| 0 <= j < i ==> self.dev_addr@[j] == addr@[j],
                self.name == old(self).name,
                self.mtu == old(self).mtu,
                self.min_mtu == old(self).min_mtu,
                self.max_mtu == old(self).max_mtu,
                self.flags == old(self).flags,
                self.carrier == old(self).carrier,
                self.queue_stopped == old(self).queue_stopped,
                self.addr_assign_type == old(self).addr_assign_type,
                self.is_registered == old(self).is_registered,
                self.received == old(self).received,
                self.freed == old(self).freed,
                self.data == old(self).data,
            decreases ETH_ALEN - i,
        {
            self.dev_addr.set(i, addr[i]);
            i = i + 1;
        }
        assert(self.dev_addr@ =~= addr@);
    }

    /// The device name buffer.
    pub fn name(&self) -> (r: &[u8])
        ensures
            r@ == self@.name,
    {
        self.name.as_slice()
    }

    /// The hardware address of the device.
    pub fn dev_addr(&self) -> (r: &[u8])
        ensures
            r@ == self@.dev_addr,
    {
        self.dev_addr.as_slice()
    }

    /// How the hardware address was assigned (`NET_ADDR_*`).
    pub fn addr_assign_type(&self) -> (r: u8)
        ensures
            r == self@.addr_assign_type,
    {
        self.addr_assign_type
    }

    /// Whether the carrier (link) is up.
    pub fn netif_carrier_ok(&self) -> (r: bool)
        ensures
            r == self@.carrier,
    {
        self.carrier
    }

    /// The smallest MTU the device accepts.
    pub fn min_mtu(&self) -> (r: u32)
        ensures
            r == self@.min_mtu,
    {
        self.min_mtu
    }

    /// The largest MTU the device accepts.
    pub fn max_mtu(&self) -> (r: u32)
        ensures
            r == self@.max_mtu,
    {
        self.max_mtu
    }

    /// How many packets were handed to the network stack.
    pub fn received_count(&self) -> (r: usize)
        ensures
            r == self@.received.len(),
    {
        self.received.len()
    }

    /// The `i`-th packet handed to the network stack, oldest first.
    pub fn received_packet(&self, i: usize) -> (r: &SkBuff)
        requires
            i < self@.received.len(),
        ensures
            r@ == self@.received[i as int],
    {
        &self.received[i]
    }

    /// Whether the device is registered with the network stack.
    pub fn is_registered(&self) -> (r: bool)
        ensures
            r == self@.registered,
    {
        self.is_registered
    }

    /// Registers a network device.
    ///
    /// Registering a device twice gives `EINVAL`, and `register_netdev` is
    /// not called. Otherwise `register_netdev` makes the kernel's
    /// `register_netdev` call for the device, once: any value but zero from
    /// it is an error (see [`crate::error::errno_of`]) that leaves the device
    /// unregistered.
    pub fn register<F: FnOnce() -> i32>(&mut self, register_netdev: F) -> (r: Result<(), Error>)
        requires
            !old(self)@.registered ==> call_requires(register_netdev, ()),
        ensures
            final(self).priv_data() == old(self).priv_data(),
            old(self)@.registered ==> r is Err && r->Err_0.errno() == EINVAL && final(self)@
                == old(self)@,
            !old(self)@.registered ==> exists|ret: i32|
                {
                    &&& #[trigger] call_ensures(register_netdev, (), ret)
                    &&& ret != 0 ==> r is Err && r->Err_0.errno() == errno_of(ret) && final(self)@
                        == old(self)@
                    &&& ret == 0 ==> r is Ok && final(self)@ == (DeviceView {
                        registered: true,
                        ..old(self)@
                    })
                },
    {
        if self.is_registered {
            return Err(Error::einval());
        }
        let ret = register_netdev();
        if ret != 0 {
            let r = Err(Error::from_errno(ret));
            assert(call_ensures(register_netdev, (), ret));
            r
        } else {
            self.is_registered = true;
            assert(call_ensures(register_netdev, (), ret));
            Ok(())
        }
    }

    /// Releases the packet `skb`, which the driver is done with.
    pub fn consume_skb(&mut self, skb: SkBuff)
        ensures
            final(self).priv_data() == old(self).priv_data(),
            final(self)@ == (DeviceView { freed: old(self)@.freed.push(skb@), ..old(self)@ }),
    {
        self.freed = Ghost(self.freed@.push(skb@));
    }

    /// Takes the device apart when it goes away: gives back the driver's
    /// private data and whether the kernel's `unregister_netdev` is due
    /// before the device is freed, which it is for a registered device.
    pub fn release(self) -> (r: (T, bool))
        ensures
            r.0 == self.priv_data(),
            r.1 == self@.registered,
    {
        (self.data, self.is_registered)
    }

    /// Allows the network stack to hand packets to the driver.
    pub fn netif_start_queue(&mut self)
        ensures
            final(self).priv_data() == old(self).priv_data(),
            final(self)@ == (DeviceView { queue_stopped: false, ..old(self)@ }),
    {
        self.queue_stopped = false;
    }

    /// Stops the network stack from handing packets to the driver.
    pub fn netif_stop_queue(&mut self)
        ensures
            final(self).priv_data() == old(self).priv_data(),
            final(self)@ == (DeviceView { queue_stopped: true, ..old(self)@ }),
    {
        self.queue_stopped = true;
    }

    /// Lets the network stack hand packets to the driver again after the
    /// queue was stopped.
    pub fn netif_wake_queue(&mut self)
        ensures
            final(self).priv_data() == old(self).priv_data(),
            final(self)@ == (DeviceView { queue_stopped: false, ..old(self)@ }),
    {
        self.queue_stopped = false;
    }

    /// Whether the transmit queue is stopped.
    pub fn netif_queue_stopped(&self) -> (r: bool)
        ensures
            r == self@.queue_stopped,
    {
        self.queue_stopped
    }

    /// Allocates a packet buffer for this device holding a copy of `data`.
    pub fn new_skb_from_slice(&self, data: &[u8]) -> (r: SkBuff)
        ensures
            r@ == data@,
    {
        SkBuff { data: vec_from_slice(data) }
    }

    /// Hands a received packet to the network stack.
    pub fn netif_receive_skb(&mut self, skb: SkBuff)
        ensures
            final(self).priv_data() == old(self).priv_data(),
            final(self)@ == (DeviceView { received: old(self)@.received.push(skb@), ..old(self)@ }),
    {
        self.received.push(skb);
        assert(self@.received =~= old(self)@.received.push(skb@));
    }
}

/// Corresponds to the kernel's `struct net_device_ops`.
///
/// A device driver must implement this. Only very basic operations are
/// supported for now.
pub trait DeviceOperations: Sized {
    /// Corresponds to `ndo_init` in `struct net_device_ops`.
    fn init(_dev: &mut Device<Self>) -> (r: Result<(), Error>)
        default_ensures
            r is Ok,
            *final(_dev) == *old(_dev),
    {
        Ok(())
    }

    /// Corresponds to `ndo_uninit` in `struct net_device_ops`.
    fn uninit(_dev: &mut Device<Self>) {
    }

    /// Corresponds to `ndo_open` in `struct net_device_ops`.
    fn open(_dev: &mut Device<Self>) -> (r: Result<(), Error>)
        default_ensures
            r is Ok,
            *final(_dev) == *old(_dev),
    {
        Ok(())
    }

    /// Corresponds to `ndo_stop` in `struct net_device_ops`.
    fn stop(_dev: &mut Device<Self>) -> (r: Result<(), Error>)
        default_ensures
            r is Ok,
            *final(_dev) == *old(_dev),
    {
        Ok(())
    }

    /// Corresponds to `ndo_start_xmit` in `struct net_device_ops`.
    fn start_xmit(_dev: &mut Device<Self>, _skb: SkBuff) -> (r: TxCode)
        default_ensures
            r == TxCode::Busy,
            *final(_dev) == *old(_dev),
    {
        TxCode::Busy
    }
}

/// The C return code of an operation: zero for success, the errno of the
/// error otherwise.
pub open spec fn result_code(r: Result<(), Error>) -> i32 {
    match r {
        Ok(()) => 0,
        Err(e) => e.errno(),
    }
}

/// Converts the outcome of an operation into its C return code.
pub fn from_result(r: Result<(), Error>) -> (code: i32)
    ensures
        code == result_code(r),
        code == 0 || crate::error::is_valid_errno(code as int),
{
    match r {
        Ok(()) => 0,
        Err(e) => e.to_errno(),
    }
}

/// Runs `ndo_init` of the driver and gives its C return code.
pub fn init_callback<T: DeviceOperations>(dev: &mut Device<T>) -> (code: i32)
    ensures
        code == 0 || crate::error::is_valid_errno(code as int),
        exists|m: &mut Device<T>, res: Result<(), Error>|
            mut_ref_current(m) == *old(dev) && mut_ref_future(m) == *final(dev) && call_ensures(
                T::init,
                (m,),
                res,
            ) && code == result_code(res),
{
    from_result(T::init(dev))
}

/// Runs `ndo_uninit` of the driver.
pub fn uninit_callback<T: DeviceOperations>(dev: &mut Device<T>)
    ensures
        exists|m: &mut Device<T>|
            mut_ref_current(m) == *old(dev) && mut_ref_future(m) == *final(dev) && call_ensures(
                T::uninit,
                (m,),
                (),
            ),
{
    T::uninit(dev)
}

/// Runs `ndo_open` of the driver and gives its C return code.
pub fn open_callback<T: DeviceOperations>(dev: &mut Device<T>) -> (code: i32)
    ensures
        code == 0 || crate::error::is_valid_errno(code as int),
        exists|m: &mut Device<T>, res: Result<(), Error>|
            mut_ref_current(m) == *old(dev) && mut_ref_future(m) == *final(dev) && call_ensures(
                T::open,
                (m,),
                res,
            ) && code == result_code(res),
{
    from_result(T::open(dev))
}

/// Runs `ndo_stop` of the driver and gives its C return code.
pub fn stop_callback<T: DeviceOperations>(dev: &mut Device<T>) -> (code: i32)
    ensures
        code == 0 || crate::error::is_valid_errno(code as int),
        exists|m: &mut Device<T>, res: Result<(), Error>|
            mut_ref_current(m) == *old(dev) && mut_ref_future(m) == *final(dev) && call_ensures(
                T::stop,
                (m,),
                res,
            ) && code == result_code(res),
{
    from_result(T::stop(dev))
}

/// Runs `ndo_start_xmit` of the driver and gives its C `netdev_tx_t` value.
pub fn start_xmit_callback<T: DeviceOperations>(skb: SkBuff, dev: &mut Device<T>) -> (code: i32)
    ensures
        code == NETDEV_TX_OK || code == NETDEV_TX_BUSY,
        exists|m: &mut Device<T>, ret: TxCode|
            mut_ref_current(m) == *old(dev) && mut_ref_future(m) == *final(dev) && call_ensures(
                T::start_xmit,
                (m, skb),
                ret,
            ) && code == ret.raw(),
{
    T::start_xmit(dev, skb).to_raw()
}

} // verus!

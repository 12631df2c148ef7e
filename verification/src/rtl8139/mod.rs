//! RTL8139 Ethernet PCI driver.
//!
//! The hardware is reached through memory-mapped registers and DMA buffers.
//! This module holds what the driver decides: which values it writes to
//! which registers, how it walks its transmit ring and how it takes packets
//! out of the receive buffer. The register reads it depends on are passed in
//! as values, and the register writes it makes are handed back as
//! [`RegisterWrite`]s, in the order in which they are to be made.

pub mod chip_cmd_bits;
pub mod interrupt_status;
pub mod rx_config;

use vstd::prelude::*;

use crate::error::{errno_of, Error, ENXIO};
use crate::irq::request::IrqReturn;
use crate::net::dev::{new_ether_device, Device, DeviceView, SkBuff, TxCode, ETH_DATA_LEN, ETH_HLEN};

verus! {

/// Largest supported Ethernet frame. Must be at least `mtu + 18 + 4`.
pub const MAX_ETH_FRAME_SIZE: usize = 1792;

/// Length of one transmit buffer.
pub const TX_BUF_LEN: usize = MAX_ETH_FRAME_SIZE;

/// Number of transmit buffers (and of transmit status/address registers).
pub const NUM_TX_BUFS: usize = 4;

/// Length of the DMA area that holds all transmit buffers.
pub const ALL_TX_BUF_LEN: usize = NUM_TX_BUFS * TX_BUF_LEN;

/// Length of the receive DMA area: 8 KiB ring, 16 bytes of slack and room
/// for one full frame past the end.
pub const RX_BUF_LEN: usize = 8 * 1024 + 16 + 1536;

/// Register offsets within the device's register window.
pub struct Regs;

impl Regs {
    /// Ethernet hardware address.
    pub const MAC0: usize = 0;
    /// Multicast filter.
    pub const MAR0: usize = 8;
    /// Transmit status (four 32-bit registers).
    pub const TX_STATUS0: usize = 0x10;
    /// Transmit buffer addresses (four 32-bit registers).
    pub const TX_ADDR0: usize = 0x20;
    /// Receive buffer address.
    pub const RX_BUF: usize = 0x30;
    /// Chip command.
    pub const CHIP_CMD: usize = 0x37;
    /// Current address of packet read.
    pub const CAPR: usize = 0x38;
    /// Current receive buffer address.
    pub const RX_BUF_ADDR: usize = 0x3A;
    /// Interrupt mask.
    pub const INTR_MASK: usize = 0x3C;
    /// Interrupt status.
    pub const INTR_STATUS: usize = 0x3E;
    /// Transmit configuration.
    pub const TX_CONFIG: usize = 0x40;
    /// Receive configuration.
    pub const RX_CONFIG: usize = 0x44;
    /// A general-purpose counter.
    pub const TIMER: usize = 0x48;
    /// Missed packet counter: 24 bits valid, write clears.
    pub const RX_MISSED: usize = 0x4C;
    /// EEPROM command.
    pub const CFG9346: usize = 0x50;
    /// Configuration register 0.
    pub const CONFIG0: usize = 0x51;
    /// Configuration register 1.
    pub const CONFIG1: usize = 0x52;
    /// Timer interrupt.
    pub const TIMER_INT: usize = 0x54;
    /// Media status.
    pub const MEDIA_STATUS: usize = 0x58;
    /// Configuration register 3.
    pub const CONFIG3: usize = 0x59;
    /// Configuration register 4 (absent on RTL-8139A).
    pub const CONFIG4: usize = 0x5A;
    /// Halt clock.
    pub const HLT_CLK: usize = 0x5B;
    /// Multiple interrupt select.
    pub const MULTI_INTR: usize = 0x5C;
    /// Transmit status of all descriptors.
    pub const TX_SUMMARY: usize = 0x60;
    /// Basic mode control.
    pub const BASIC_MODE_CTRL: usize = 0x62;
    /// Basic mode status.
    pub const BASIC_MODE_STATUS: usize = 0x64;
    /// Auto-negotiation advertisement.
    pub const NWAY_ADVERT: usize = 0x66;
    /// Auto-negotiation link partner ability.
    pub const NWAY_LPAR: usize = 0x68;
    /// Auto-negotiation expansion.
    pub const NWAY_EXPANSION: usize = 0x6A;
    /// FIFO control and test (undocumented, required for proper operation).
    pub const FIFOTMS: usize = 0x70;
    /// Chip status and configuration (undocumented).
    pub const CSCR: usize = 0x74;
    /// Magic transceiver parameter register (undocumented).
    pub const PARA78: usize = 0x78;
    /// Communication with the flash ROM, four bytes.
    pub const FLASH_REG: usize = 0xD4;
    /// Magic transceiver parameter register.
    pub const PARA7C: usize = 0x7c;
    /// Configuration register 5 (absent on RTL-8139A).
    pub const CONFIG5: usize = 0xD8;
    /// End of the register window: its length.
    pub const END: usize = 0xD9;
}

/// A write to a device register.
#[derive(Clone, Copy, Debug, PartialEq, Eq, Structural)]
pub enum RegisterWrite {
    /// Writes one byte at `offset`.
    Byte { offset: usize, value: u8 },
    /// Writes a 16-bit word at `offset`.
    Word { offset: usize, value: u16 },
    /// Writes a 32-bit word at `offset`.
    Long { offset: usize, value: u32 },
}

/// Why the driver's private data could not be set up.
#[derive(Clone, Copy, Debug, PartialEq, Eq, Structural)]
pub enum InitError {
    /// The chip did not leave software reset.
    SoftwareResetStuck,
    /// The register window was revoked, or a DMA buffer could not be
    /// allocated.
    BarRevoked,
}

/// Why the MAC address could not be read.
#[derive(Clone, Copy, Debug, PartialEq, Eq, Structural)]
pub enum MacGetError {
    /// The register window was revoked.
    BarRevoked,
}

/// The writes that turn the chip on and start a software reset.
pub open spec fn reset_writes_spec() -> Seq<RegisterWrite> {
    seq![
        RegisterWrite::Byte { offset: Regs::CONFIG1, value: 0 },
        RegisterWrite::Byte { offset: Regs::CHIP_CMD, value: chip_cmd_bits::CMD_RESET },
    ]
}

/// The writes that turn the chip on and start a software reset, in order.
pub fn reset_writes() -> (r: Vec<RegisterWrite>)
    ensures
        r@ == reset_writes_spec(),
{
    let mut v: Vec<RegisterWrite> = Vec::new();
    v.push(RegisterWrite::Byte { offset: Regs::CONFIG1, value: 0 });
    v.push(RegisterWrite::Byte { offset: Regs::CHIP_CMD, value: chip_cmd_bits::CMD_RESET });
    assert(v@ =~= reset_writes_spec());
    v
}

/// How many times the chip command register is read, at most, while waiting
/// for the software reset to complete.
pub const RESET_POLL_ATTEMPTS: usize = 1000;

/// The busy-loop length of [`sleep`] between two of those reads.
pub const RESET_POLL_DELAY: usize = 1000;

/// Whether the chip command register, as read, says that the software reset
/// is still in progress.
pub fn reset_pending(chip_cmd: u8) -> (r: bool)
    ensures
        r == (chip_cmd & chip_cmd_bits::CMD_RESET != 0),
{
    chip_cmd & chip_cmd_bits::CMD_RESET != 0
}

/// `core::hint::black_box`: hands back its argument unchanged, while keeping
/// the compiler from assuming anything about it.
#[verifier::external_body]
fn black_box_i32(x: i32) -> (r: i32)
    ensures
        r == x,
{
    core::hint::black_box(x)
}

/// Busy-waits for `amount` loop iterations (the kernel crate does not expose
/// `usleep()`).
pub fn sleep(amount: usize)
    requires
        2 * amount <= i32::MAX,
{
    let mut acc: i32 = 0;
    let mut i: usize = 0;
    while i < amount
        invariant
            i <= amount,
            2 * amount <= i32::MAX,
            acc == 2 * i,
        decreases amount - i,
    {
        acc = black_box_i32(acc + 2);
        i = i + 1;
    }
    let _ = black_box_i32(acc);
}

/// Waits for the software reset to complete: reads the chip command
/// register until it no longer shows the reset in progress, at most
/// [`RESET_POLL_ATTEMPTS`] times with a [`sleep`] of [`RESET_POLL_DELAY`]
/// after each read that still shows it, then reads the register once more
/// and gives that last value (see [`DriverData::init`]).
///
/// `read_chip_cmd` reads the chip command register.
pub fn wait_for_reset<R: Fn() -> u8>(read_chip_cmd: R) -> (r: u8)
    requires
        call_requires(read_chip_cmd, ()),
    ensures
        call_ensures(read_chip_cmd, (), r),
{
    let mut attempt: usize = 0;
    while attempt < RESET_POLL_ATTEMPTS
        invariant
            call_requires(read_chip_cmd, ()),
            attempt <= RESET_POLL_ATTEMPTS,
        decreases RESET_POLL_ATTEMPTS - attempt,
    {
        let chip_cmd = read_chip_cmd();
        if !reset_pending(chip_cmd) {
            break;
        }
        sleep(RESET_POLL_DELAY);
        attempt = attempt + 1;
    }
    read_chip_cmd()
}

/// A frame of the largest MTU with its Ethernet header, a VLAN tag and the
/// CRC (`mtu + 18 + 4` bytes) fits one transmit buffer.
pub proof fn lemma_frame_fits_buffer()
    ensures
        ETH_DATA_LEN + 18 + 4 <= MAX_ETH_FRAME_SIZE,
{
}

/// The state of the driver's private data.
pub ghost struct DriverDataView {
    /// Bus address of the receive DMA buffer.
    pub rx_dma: u64,
    /// Bus address of the transmit DMA buffers.
    pub tx_dma: u64,
    /// Contents of the transmit DMA buffers.
    pub tx_buf: Seq<u8>,
    /// Next transmit buffer to fill.
    pub tx_buf_head: usize,
    /// Last transmit buffer handed back by the hardware.
    pub tx_buf_tail: usize,
}

/// Driver private data.
///
/// The transmit buffers form a ring of [`NUM_TX_BUFS`] entries: a packet goes
/// into entry `tx_buf_head`, and the ring is full when the entry after the
/// head is `tx_buf_tail`.
pub struct DriverData {
    rx_dma: u64,
    tx_dma: u64,
    tx_buf: Vec<u8>,
    tx_buf_head: usize,
    tx_buf_tail: usize,
}

impl View for DriverData {
    type V = DriverDataView;

    closed spec fn view(&self) -> DriverDataView {
        DriverDataView {
            rx_dma: self.rx_dma,
            tx_dma: self.tx_dma,
            tx_buf: self.tx_buf@,
            tx_buf_head: self.tx_buf_head,
            tx_buf_tail: self.tx_buf_tail,
        }
    }
}

impl DriverData {
    /// The ring indices are entries of the ring and the transmit buffers
    /// have their full length.
    pub open spec fn wf(&self) -> bool {
        &&& self@.tx_buf_head < NUM_TX_BUFS
        &&& self@.tx_buf_tail < NUM_TX_BUFS
        &&& self@.tx_buf.len() == ALL_TX_BUF_LEN
    }

    /// Sets up the private data after the chip was reset.
    ///
    /// The values passed in are what the steps before gave: whether the
    /// register window could be accessed, the chip command register as read
    /// after waiting for the reset (see [`reset_writes`], [`reset_pending`]),
    /// and the bus addresses of the receive ([`RX_BUF_LEN`] bytes) and
    /// transmit ([`ALL_TX_BUF_LEN`] bytes) DMA buffers, `None` where the
    /// allocation failed. The checks are made in that order. The transmit
    /// buffers start zeroed, with the head at entry 0 and the tail at the
    /// last entry.
    pub fn init(
        bar_available: bool,
        chip_cmd_after_reset: u8,
        rx_dma: Option<u64>,
        tx_dma: Option<u64>,
    ) -> (r: Result<Self, InitError>)
        ensures
            !bar_available ==> r == Err::<Self, InitError>(InitError::BarRevoked),
            bar_available && chip_cmd_after_reset & chip_cmd_bits::CMD_RESET != 0 ==> r == Err::<
                Self,
                InitError,
            >(InitError::SoftwareResetStuck),
            bar_available && chip_cmd_after_reset & chip_cmd_bits::CMD_RESET == 0 && (rx_dma is None
                || tx_dma is None) ==> r == Err::<Self, InitError>(InitError::BarRevoked),
            bar_available && chip_cmd_after_reset & chip_cmd_bits::CMD_RESET == 0 && rx_dma is Some
                && tx_dma is Some ==> r is Ok && r->Ok_0.wf() && r->Ok_0@ == (DriverDataView {
                rx_dma: rx_dma->0,
                tx_dma: tx_dma->0,
                tx_buf: Seq::new(ALL_TX_BUF_LEN as nat, |i: int| 0u8),
                tx_buf_head: 0,
                tx_buf_tail: (NUM_TX_BUFS - 1) as usize,
            }),
    {
        if !bar_available {
            return Err(InitError::BarRevoked);
        }
        if reset_pending(chip_cmd_after_reset) {
            return Err(InitError::SoftwareResetStuck);
        }
        let rx = match rx_dma {
            Some(a) => a,
            None => return Err(InitError::BarRevoked),
        };
        let tx = match tx_dma {
            Some(a) => a,
            None => return Err(InitError::BarRevoked),
        };
        let tx_buf: Vec<u8> = vec![0u8; ALL_TX_BUF_LEN];
        let d = DriverData {
            rx_dma: rx,
            tx_dma: tx,
            tx_buf,
            tx_buf_head: 0,
            tx_buf_tail: NUM_TX_BUFS - 1,
        };
        assert(d@.tx_buf =~= Seq::new(ALL_TX_BUF_LEN as nat, |i: int| 0u8));
        Ok(d)
    }

    /// Next transmit buffer to fill.
    pub fn tx_buf_head(&self) -> (r: usize)
        ensures
            r == self@.tx_buf_head,
    {
        self.tx_buf_head
    }

    /// Last transmit buffer handed back by the hardware.
    pub fn tx_buf_tail(&self) -> (r: usize)
        ensures
            r == self@.tx_buf_tail,
    {
        self.tx_buf_tail
    }

    /// Bus address of the receive DMA buffer.
    pub fn rx_dma(&self) -> (r: u64)
        ensures
            r == self@.rx_dma,
    {
        self.rx_dma
    }

    /// Bus address of the transmit DMA buffers.
    pub fn tx_dma(&self) -> (r: u64)
        ensures
            r == self@.tx_dma,
    {
        self.tx_dma
    }

    /// Contents of the transmit DMA buffers.
    pub fn tx_buffers(&self) -> (r: &[u8])
        ensures
            r@ == self@.tx_buf,
    {
        self.tx_buf.as_slice()
    }
}

/// An Ethernet hardware address.
pub struct MacAddress(pub [u8; 6]);

/// The lower-case hexadecimal digit of `n` (in `0..16`).
pub open spec fn hex_digit(n: int) -> char {
    if n < 10 {
        (n + 48) as char
    } else {
        (n + 87) as char
    }
}

/// A byte as two lower-case hexadecimal digits.
pub open spec fn byte_hex(b: u8) -> Seq<char> {
    seq![hex_digit((b / 16) as int), hex_digit((b % 16) as int)]
}

/// The text of an address: its six bytes as two lower-case hexadecimal
/// digits each, separated by colons.
pub open spec fn mac_text(a: Seq<u8>) -> Seq<char> {
    byte_hex(a[0]) + seq![':'] + byte_hex(a[1]) + seq![':'] + byte_hex(a[2]) + seq![':']
        + byte_hex(a[3]) + seq![':'] + byte_hex(a[4]) + seq![':'] + byte_hex(a[5])
}

/// `String::push`: appends a character to a string.
#[verifier::external_body]
fn push_char(s: &mut String, c: char)
    ensures
        final(s)@ == old(s)@.push(c),
{
    s.push(c);
}

/// The lower-case hexadecimal digit of `n`.
fn hex_digit_of(n: u8) -> (c: char)
    requires
        n < 16,
    ensures
        c == hex_digit(n as int),
{
    if n < 10 {
        (n + 48) as char
    } else {
        (n + 87) as char
    }
}

impl MacAddress {
    /// Formats the address as `xx:xx:xx:xx:xx:xx` in lower-case hexadecimal.
    pub fn to_string(&self) -> (r: String)
        ensures
            r@ == mac_text(self.0@),
    {
        let mut s = String::new();
        let mut i: usize = 0;
        while i < 6
            invariant
                i <= 6,
                i == 0 ==> s@ == Seq::<char>::empty(),
                i > 0 ==> s@ == mac_text(self.0@).subrange(0, 3 * i - 1),
            decreases 6 - i,
        {
            let b = self.0[i];
            if i > 0 {
                push_char(&mut s, ':');
            }
            push_char(&mut s, hex_digit_of(b / 16));
            push_char(&mut s, hex_digit_of(b % 16));
            i = i + 1;
            assert(s@ =~= mac_text(self.0@).subrange(0, 3 * i - 1));
        }
        assert(mac_text(self.0@).len() == 17);
        assert(s@ =~= mac_text(self.0@));
        s
    }
}

impl DriverData {
    /// Reads the MAC address from the register window.
    ///
    /// `bar` holds the register window's bytes as read, or `None` where the
    /// window was revoked. The address is the six bytes from [`Regs::MAC0`]
    /// on.
    pub fn mac(bar: Option<&[u8]>) -> (r: Result<MacAddress, MacGetError>)
        requires
            bar is Some ==> bar->0@.len() >= Regs::MAC0 + 6,
        ensures
            bar is None ==> r is Err && r->Err_0 == MacGetError::BarRevoked,
            bar is Some ==> r is Ok && r->Ok_0.0@ == bar->0@.subrange(
                Regs::MAC0 as int,
                Regs::MAC0 + 6,
            ),
    {
        let regs = match bar {
            Some(regs) => regs,
            None => return Err(MacGetError::BarRevoked),
        };
        let mut mac = [0u8; 6];
        let mut i: usize = 0;
        while i < 6
            invariant
                i <= 6,
                regs@.len() >= Regs::MAC0 + 6,
                forall|j: int| 0 <= j < i ==> mac@[j] == regs@[Regs::MAC0 + j],
            decreases 6 - i,
        {
            mac[i] = regs[Regs::MAC0 + i];
            i = i + 1;
        }
        assert(mac@ =~= regs@.subrange(Regs::MAC0 as int, Regs::MAC0 + 6));
        Ok(MacAddress(mac))
    }
}

/// The receive configuration the driver writes when the device is opened,
/// given the value read from the register: wrap mode, broadcast, multicast
/// and own-address packets accepted, smallest receive buffer.
pub open spec fn rx_config_for_open(read: u32) -> u32 {
    (read | rx_config::RX_WRAP | rx_config::ACCEPT_BROADCAST | rx_config::ACCEPT_MULTICAST
        | rx_config::ACCEPT_MY_PHYS) & rx_config::RX_BUFFER_LENGTH_MIN
}

/// The interrupts the driver enables when the device is opened.
pub open spec fn open_interrupt_mask() -> u16 {
    interrupt_status::RX_OVERFLOW | interrupt_status::RX_OK | interrupt_status::RX_ERR
        | interrupt_status::TX_OK
}

/// The write that gives the hardware the bus address of transmit buffer `i`.
pub open spec fn tx_addr_write(tx_dma: u64, i: int) -> RegisterWrite {
    RegisterWrite::Long {
        offset: (Regs::TX_ADDR0 + i * 4) as usize,
        value: ((tx_dma as u32) + i * TX_BUF_LEN) as u32,
    }
}

/// The writes that set the device up when it is opened, in order: receive
/// buffer address, the four transmit buffer addresses, receive configuration,
/// read pointer and interrupt mask.
pub open spec fn open_writes(rx_dma: u64, tx_dma: u64, rx_config_read: u32) -> Seq<
    RegisterWrite,
> {
    seq![
        RegisterWrite::Long { offset: Regs::RX_BUF, value: rx_dma as u32 },
        tx_addr_write(tx_dma, 0),
        tx_addr_write(tx_dma, 1),
        tx_addr_write(tx_dma, 2),
        tx_addr_write(tx_dma, 3),
        RegisterWrite::Long { offset: Regs::RX_CONFIG, value: rx_config_for_open(rx_config_read) },
        RegisterWrite::Word { offset: Regs::CAPR, value: 0xFFF0u16 },
        RegisterWrite::Word { offset: Regs::INTR_MASK, value: open_interrupt_mask() },
    ]
}

/// The write that enables receiver and transmitter, last step of opening.
pub open spec fn enable_write() -> RegisterWrite {
    RegisterWrite::Byte {
        offset: Regs::CHIP_CMD,
        value: chip_cmd_bits::CMD_RX_ENABLE | chip_cmd_bits::CMD_TX_ENABLE,
    }
}

/// The entry of the transmit ring after entry `i`.
pub open spec fn ring_next(i: int) -> int {
    (i + 1) % (NUM_TX_BUFS as int)
}

/// How many more packets the transmit ring takes before it is full.
pub open spec fn tx_free_slots(head: int, tail: int) -> int {
    (tail + NUM_TX_BUFS - head - 1) % (NUM_TX_BUFS as int)
}

/// Whether a packet of `len` bytes fits the device's MTU plus the Ethernet
/// header.
pub open spec fn fits_mtu(dev: DeviceView, len: nat) -> bool {
    len <= dev.mtu + ETH_HLEN
}

/// The transmit buffers after a packet was copied into entry `head`.
pub open spec fn tx_buf_with_packet(tx_buf: Seq<u8>, head: int, packet: Seq<u8>) -> Seq<u8> {
    tx_buf.subrange(0, head * TX_BUF_LEN) + packet + tx_buf.subrange(
        head * TX_BUF_LEN + packet.len(),
        tx_buf.len() as int,
    )
}

impl DriverData {
    /// Opens the device.
    ///
    /// `bar_available` says whether the register window could be accessed
    /// (`ENXIO` if not) and `rx_config_read` is the receive configuration
    /// register as read. On success the writes of [`open_writes`] are handed
    /// back, and the device is left as it was; opening is finished by
    /// [`DriverData::open_enable`] once these writes are made.
    pub fn open(dev: &mut Device<DriverData>, bar_available: bool, rx_config_read: u32) -> (r:
        Result<Vec<RegisterWrite>, Error>)
        requires
            bar_available ==> (old(dev).priv_data()@.tx_dma as u32) + 3 * TX_BUF_LEN <= u32::MAX,
        ensures
            final(dev).priv_data() == old(dev).priv_data(),
            !bar_available ==> r is Err && r->Err_0.errno() == ENXIO && final(dev)@ == old(dev)@,
            bar_available ==> r is Ok && r->Ok_0@ == open_writes(
                old(dev).priv_data()@.rx_dma,
                old(dev).priv_data()@.tx_dma,
                rx_config_read,
            ) && final(dev)@ == old(dev)@,
    {
        if !bar_available {
            return Err(Error::enxio());
        }
        let rx_dma = dev.drv_priv_data().rx_dma;
        let tx_dma = dev.drv_priv_data().tx_dma;
        let mut writes: Vec<RegisterWrite> = Vec::new();
        writes.push(RegisterWrite::Long { offset: Regs::RX_BUF, value: rx_dma as u32 });
        let mut i: usize = 0;
        while i < NUM_TX_BUFS
            invariant
                i <= NUM_TX_BUFS,
                (tx_dma as u32) + 3 * TX_BUF_LEN <= u32::MAX,
                writes@.len() == 1 + i,
                writes@[0] == (RegisterWrite::Long { offset: Regs::RX_BUF, value: rx_dma as u32 }),
                forall|j: int| 0 <= j < i ==> writes@[1 + j] == tx_addr_write(tx_dma, j),
            decreases NUM_TX_BUFS - i,
        {
            writes.push(
                RegisterWrite::Long {
                    offset: Regs::TX_ADDR0 + (i * 4),
                    value: tx_dma as u32 + (i * TX_BUF_LEN) as u32,
                },
            );
            i = i + 1;
        }
        let rx_config_value = (rx_config_read | rx_config::RX_WRAP | rx_config::ACCEPT_BROADCAST
            | rx_config::ACCEPT_MULTICAST | rx_config::ACCEPT_MY_PHYS)
            & rx_config::RX_BUFFER_LENGTH_MIN;
        writes.push(RegisterWrite::Long { offset: Regs::RX_CONFIG, value: rx_config_value });
        writes.push(RegisterWrite::Word { offset: Regs::CAPR, value: 0xFFF0 });
        writes.push(
            RegisterWrite::Word {
                offset: Regs::INTR_MASK,
                value: interrupt_status::RX_OVERFLOW | interrupt_status::RX_OK
                    | interrupt_status::RX_ERR | interrupt_status::TX_OK,
            },
        );
        assert(writes@ =~= open_writes(rx_dma, tx_dma, rx_config_read));
        Ok(writes)
    }

    /// Finishes opening the device, once the writes of [`DriverData::open`]
    /// are made: starts the transmit queue, then hands back the write that
    /// enables receiver and transmitter.
    pub fn open_enable(dev: &mut Device<DriverData>) -> (r: RegisterWrite)
        ensures
            r == enable_write(),
            final(dev).priv_data() == old(dev).priv_data(),
            final(dev)@ == (DeviceView { queue_stopped: false, ..old(dev)@ }),
    {
        dev.netif_start_queue();
        RegisterWrite::Byte {
            offset: Regs::CHIP_CMD,
            value: chip_cmd_bits::CMD_RX_ENABLE | chip_cmd_bits::CMD_TX_ENABLE,
        }
    }

    /// Queues a packet for transmission.
    ///
    /// A packet longer than the MTU plus the Ethernet header is released
    /// (reported as taken care of). When the ring is full, the queue is
    /// stopped and `Busy` is returned; the packet is not released, as the
    /// network stack keeps it to hand it over again. Otherwise the packet is
    /// copied into the transmit buffer at the ring's head and released; if
    /// the register window can be accessed (`bar_available`), the transmit
    /// status register of that entry is given the packet length, which starts
    /// the transmission, and the head moves on. The tail never changes, and
    /// the head only moves to the next entry, and only when that is not the
    /// tail.
    pub fn start_xmit(dev: &mut Device<DriverData>, skb: SkBuff, bar_available: bool) -> (r: (
        TxCode,
        Option<RegisterWrite>,
    ))
        requires
            old(dev).priv_data().wf(),
            old(dev)@.mtu + ETH_HLEN <= u32::MAX,
            fits_mtu(old(dev)@, skb@.len()) && ring_next(old(dev).priv_data()@.tx_buf_head as int)
                != old(dev).priv_data()@.tx_buf_tail ==> skb@.len() <= TX_BUF_LEN,
        ensures
            final(dev).priv_data().wf(),
            final(dev).priv_data()@.tx_buf_tail == old(dev).priv_data()@.tx_buf_tail,
            final(dev).priv_data()@.tx_buf_head != old(dev).priv_data()@.tx_buf_head
                ==> final(dev).priv_data()@.tx_buf_head == ring_next(
                old(dev).priv_data()@.tx_buf_head as int,
            ) && final(dev).priv_data()@.tx_buf_head != old(dev).priv_data()@.tx_buf_tail,
            r.0 == TxCode::Done ==> final(dev)@.freed == old(dev)@.freed.push(skb@),
            r.0 == TxCode::Busy ==> final(dev)@.freed == old(dev)@.freed,
            !fits_mtu(old(dev)@, skb@.len()) ==> r == (TxCode::Done, None::<RegisterWrite>)
                && final(dev)@ == (DeviceView { freed: old(dev)@.freed.push(skb@), ..old(dev)@ })
                && final(dev).priv_data() == old(dev).priv_data(),
            fits_mtu(old(dev)@, skb@.len()) && ring_next(old(dev).priv_data()@.tx_buf_head as int)
                == old(dev).priv_data()@.tx_buf_tail ==> r == (TxCode::Busy, None::<RegisterWrite>)
                && final(dev)@ == (DeviceView { queue_stopped: true, ..old(dev)@ })
                && final(dev).priv_data() == old(dev).priv_data(),
            fits_mtu(old(dev)@, skb@.len()) && ring_next(old(dev).priv_data()@.tx_buf_head as int)
                != old(dev).priv_data()@.tx_buf_tail ==> r.0 == TxCode::Done && final(dev)@ == (
            DeviceView { freed: old(dev)@.freed.push(skb@), ..old(dev)@ })
                && final(dev).priv_data()@ == (DriverDataView {
                tx_buf: tx_buf_with_packet(
                    old(dev).priv_data()@.tx_buf,
                    old(dev).priv_data()@.tx_buf_head as int,
                    skb@,
                ),
                tx_buf_head: if bar_available {
                    ring_next(old(dev).priv_data()@.tx_buf_head as int) as usize
                } else {
                    old(dev).priv_data()@.tx_buf_head
                },
                ..old(dev).priv_data()@
            }) && r.1 == if bar_available {
                Some(
                    RegisterWrite::Long {
                        offset: (Regs::TX_STATUS0 + 4 * old(dev).priv_data()@.tx_buf_head) as usize,
                        value: skb@.len() as u32,
                    },
                )
            } else {
                None::<RegisterWrite>
            },
    {
        let buf_index = dev.drv_priv_data().tx_buf_head;
        let next_buf_index = (buf_index + 1) % NUM_TX_BUFS;
        let len = skb.len();
        if len > (dev.get_mtu() + ETH_HLEN) as usize {
            dev.consume_skb(skb);
            return (TxCode::Done, None);
        }
        if next_buf_index == dev.drv_priv_data().tx_buf_tail {
            dev.netif_stop_queue();
            return (TxCode::Busy, None);
        }
        let p = dev.drv_priv_data_mut();
        skb.copy_to_with_checksum(&mut p.tx_buf, TX_BUF_LEN * buf_index);
        let mut tsd: u32 = len as u32 & 0x1FFFu32;
        tsd &= !(1u32 << 13u32);
        assert(tsd == len as u32) by (bit_vector)
            requires
                len <= 1792,
                tsd == ((len as u32) & 0x1FFFu32) & !(1u32 << 13u32),
        ;
        let write = if bar_available {
            p.tx_buf_head = next_buf_index;
            Some(RegisterWrite::Long { offset: Regs::TX_STATUS0 + buf_index * 4, value: tsd })
        } else {
            None
        };
        dev.consume_skb(skb);
        (TxCode::Done, write)
    }

    /// Stops the device. Nothing is to be done on the hardware.
    pub fn stop(dev: &mut Device<DriverData>) -> (r: Result<(), Error>)
        ensures
            r is Ok,
            final(dev)@ == old(dev)@,
            final(dev).priv_data() == old(dev).priv_data(),
    {
        Ok(())
    }

    /// Initialises the network device once it is registered. Nothing is to
    /// be done on the hardware.
    pub fn init_device(dev: &mut Device<DriverData>) -> (r: Result<(), Error>)
        ensures
            r is Ok,
            final(dev)@ == old(dev)@,
            final(dev).priv_data() == old(dev).priv_data(),
    {
        Ok(())
    }
}

/// The writes that acknowledge the interrupts of `status`: a receive (or
/// receive overflow) is acknowledged as a receive, then a transmit as a
/// transmit.
pub open spec fn irq_acknowledgements_spec(status: u16) -> Seq<RegisterWrite> {
    (if status & (interrupt_status::RX_OVERFLOW | interrupt_status::RX_OK) != 0 {
        seq![RegisterWrite::Word { offset: Regs::INTR_STATUS, value: interrupt_status::RX_OK }]
    } else {
        Seq::empty()
    }) + (if status & interrupt_status::TX_OK != 0 {
        seq![RegisterWrite::Word { offset: Regs::INTR_STATUS, value: interrupt_status::TX_OK }]
    } else {
        Seq::empty()
    })
}

/// The writes that acknowledge the interrupts of the interrupt status
/// register as read, in order.
pub fn irq_acknowledgements(status: u16) -> (r: Vec<RegisterWrite>)
    ensures
        r@ == irq_acknowledgements_spec(status),
{
    let mut v: Vec<RegisterWrite> = Vec::new();
    if status & (interrupt_status::RX_OVERFLOW | interrupt_status::RX_OK) != 0 {
        v.push(RegisterWrite::Word { offset: Regs::INTR_STATUS, value: interrupt_status::RX_OK });
    }
    if status & interrupt_status::TX_OK != 0 {
        v.push(RegisterWrite::Word { offset: Regs::INTR_STATUS, value: interrupt_status::TX_OK });
    }
    assert(v@ =~= irq_acknowledgements_spec(status));
    v
}

/// What an interrupt asks the driver to do.
#[derive(Clone, Copy, Debug, PartialEq, Eq, Structural)]
pub enum IrqWork {
    /// Take the received packets out of the receive buffer.
    Receive,
    /// Take back the transmit buffers the hardware is done with.
    TransmitComplete,
    /// A transmission failed; it is only reported.
    TransmitError,
    /// Nothing.
    Nothing,
}

/// The work for the interrupt status `status`: receiving comes first, then
/// transmit completion, then transmit errors.
pub open spec fn irq_work_spec(status: u16) -> IrqWork {
    if status & interrupt_status::RX_OK != 0 {
        IrqWork::Receive
    } else if status & interrupt_status::TX_OK != 0 {
        IrqWork::TransmitComplete
    } else if status & interrupt_status::TX_ERR != 0 {
        IrqWork::TransmitError
    } else {
        IrqWork::Nothing
    }
}

/// The work for the interrupt status register as read.
pub fn irq_work(status: u16) -> (r: IrqWork)
    ensures
        r == irq_work_spec(status),
{
    if status & interrupt_status::RX_OK != 0 {
        IrqWork::Receive
    } else if status & interrupt_status::TX_OK != 0 {
        IrqWork::TransmitComplete
    } else if status & interrupt_status::TX_ERR != 0 {
        IrqWork::TransmitError
    } else {
        IrqWork::Nothing
    }
}

/// The interrupt status bits that mark an interrupt as this device's.
pub open spec fn own_interrupts() -> u16 {
    interrupt_status::RX_OK | interrupt_status::RX_ERR | interrupt_status::TX_OK
        | interrupt_status::TX_ERR | interrupt_status::RX_OVERFLOW
}

/// What the interrupt handler reports for the interrupt status register as
/// read, or `None` where the register window could not be accessed: handled
/// when one of the device's interrupt bits is set, not handled otherwise (the
/// shared line was raised by another device).
pub fn irq_return(status: Option<u16>) -> (r: IrqReturn)
    ensures
        r == IrqReturn::Handled <==> (status is Some && status->0 & own_interrupts() != 0),
        r == IrqReturn::NotHandled <==> !(status is Some && status->0 & own_interrupts() != 0),
{
    match status {
        Some(s) => {
            if s & (interrupt_status::RX_OK | interrupt_status::RX_ERR | interrupt_status::TX_OK
                | interrupt_status::TX_ERR | interrupt_status::RX_OVERFLOW) != 0 {
                IrqReturn::Handled
            } else {
                IrqReturn::NotHandled
            }
        },
        None => IrqReturn::NotHandled,
    }
}

/// An interrupt that sets none of the device's interrupt bits is not the
/// device's: nothing is acknowledged, there is no work, and it is reported
/// as not handled.
pub proof fn lemma_foreign_interrupt(status: u16)
    requires
        status & own_interrupts() == 0,
    ensures
        irq_acknowledgements_spec(status).len() == 0,
        irq_work_spec(status) == IrqWork::Nothing,
{
    assert(status & 0x1fu16 == 0 ==> status & (0x10u16 | 0x1u16) == 0) by (bit_vector);
    assert(status & 0x1fu16 == 0 ==> status & 0x4u16 == 0) by (bit_vector);
    assert(status & 0x1fu16 == 0 ==> status & 0x1u16 == 0) by (bit_vector);
    assert(status & 0x1fu16 == 0 ==> status & 0x8u16 == 0) by (bit_vector);
    assert(own_interrupts() == 0x1fu16) by (bit_vector);
}

/// Where in the receive buffer the frame at read pointer `capr` starts: the
/// hardware keeps the read pointer 16 bytes behind.
pub open spec fn rx_frame_offset(capr: u16) -> int {
    (capr + 16) % 0x10000
}

/// The length field of the frame header at `capr` (a little-endian 16-bit
/// word after the 16-bit status), which counts the 4 CRC bytes.
pub open spec fn rx_frame_length(rx: Seq<u8>, capr: u16) -> int {
    rx[rx_frame_offset(capr) + 2] + 256 * rx[rx_frame_offset(capr) + 3]
}

/// Whether the frame at `capr` lies inside the receive buffer, is at least
/// as long as its CRC, and leaves a read pointer that fits 16 bits.
pub open spec fn rx_frame_valid(rx: Seq<u8>, capr: u16) -> bool {
    &&& rx_frame_offset(capr) + 4 <= rx.len()
    &&& 4 <= rx_frame_length(rx, capr)
    &&& rx_frame_offset(capr) + rx_frame_length(rx, capr) <= rx.len()
    &&& rx_frame_length(rx, capr) + 7 <= 0xFFFF
}

/// The packet of the frame at `capr`: the bytes after the 4-byte header, CRC
/// left out.
pub open spec fn rx_frame_packet(rx: Seq<u8>, capr: u16) -> Seq<u8> {
    rx.subrange(rx_frame_offset(capr) + 4, rx_frame_offset(capr) + rx_frame_length(rx, capr))
}

/// The read pointer after the frame at `capr`: past its header and bytes,
/// rounded up to a multiple of 4 (in 16 bits).
pub open spec fn rx_next_capr(rx: Seq<u8>, capr: u16) -> u16 {
    (((capr + rx_frame_length(rx, capr) + 7) % 0x10000) as u16) & 0xFFFCu16
}

/// Whether the frame at read pointer `capr` can be taken out of `rx_buf`
/// (see [`rx_frame_valid`]).
pub fn rx_frame_in_bounds(rx_buf: &[u8], capr: u16) -> (r: bool)
    ensures
        r == rx_frame_valid(rx_buf@, capr),
{
    let start = capr.wrapping_add(16) as usize;
    if start > rx_buf.len() || rx_buf.len() - start < 4 {
        return false;
    }
    let length = rx_buf[start + 2] as usize + 256 * (rx_buf[start + 3] as usize);
    4 <= length && length <= rx_buf.len() - start && length + 7 <= 0xFFFF
}

/// Whether the receive buffer is empty, as the driver reads it off the chip
/// command register: any value but zero counts as empty.
pub fn rx_buffer_empty(chip_cmd: u8) -> (r: bool)
    ensures
        r == (chip_cmd != 0),
{
    chip_cmd != 0
}

impl DriverData {
    /// Takes the frame at read pointer `capr` out of the receive buffer,
    /// hands its packet to the network stack, and gives the read pointer to
    /// write back, which is a multiple of 4.
    pub fn receive_frame(dev: &mut Device<DriverData>, rx_buf: &[u8], capr: u16) -> (next_capr:
        u16)
        requires
            rx_frame_valid(rx_buf@, capr),
        ensures
            final(dev).priv_data() == old(dev).priv_data(),
            final(dev)@ == (DeviceView {
                received: old(dev)@.received.push(rx_frame_packet(rx_buf@, capr)),
                ..old(dev)@
            }),
            next_capr == rx_next_capr(rx_buf@, capr),
            next_capr % 4 == 0,
    {
        let start_offset = capr.wrapping_add(16) as usize;
        let length = rx_buf[start_offset + 2] as usize + 256 * (rx_buf[start_offset + 3] as usize);
        let packet = &rx_buf[start_offset + 4..start_offset + length];
        let skb = dev.new_skb_from_slice(packet);
        dev.netif_receive_skb(skb);
        let next = capr.wrapping_add(length as u16 + 4 + 3) & 0xFFFC;
        assert(next % 4 == 0) by (bit_vector)
            requires
                next == capr.wrapping_add((length as u16 + 4 + 3) as u16) & 0xFFFC,
        ;
        next
    }

    /// Takes back the transmit buffers the hardware is done with: the tail
    /// catches up with the head. If the queue was stopped, there is room in
    /// the ring again and the queue is woken; the result says whether it was.
    pub fn transmit_complete(dev: &mut Device<DriverData>) -> (woke: bool)
        requires
            old(dev).priv_data().wf(),
        ensures
            final(dev).priv_data().wf(),
            final(dev).priv_data()@ == (DriverDataView {
                tx_buf_tail: old(dev).priv_data()@.tx_buf_head,
                ..old(dev).priv_data()@
            }),
            woke == old(dev)@.queue_stopped,
            final(dev)@ == (DeviceView { queue_stopped: false, ..old(dev)@ }),
    {
        let head = dev.drv_priv_data().tx_buf_head;
        let mut tail = dev.drv_priv_data().tx_buf_tail;
        while tail != head
            invariant
                head < NUM_TX_BUFS,
                tail < NUM_TX_BUFS,
            decreases (head + NUM_TX_BUFS - tail) % (NUM_TX_BUFS as int),
        {
            tail = (tail + 1) % NUM_TX_BUFS;
        }
        let p = dev.drv_priv_data_mut();
        p.tx_buf_tail = tail;
        if dev.netif_queue_stopped() && (head + 1) % NUM_TX_BUFS != tail {
            dev.netif_wake_queue();
            true
        } else {
            false
        }
    }
}

/// The transmit ring takes packets until it is full and a completion frees
/// it again: it is full (so `start_xmit` answers `Busy`) exactly when no slot
/// is free, each accepted packet takes one slot, a completion (tail caught up
/// with head) leaves `NUM_TX_BUFS - 1` free slots, and a freshly set up ring
/// has `NUM_TX_BUFS - 2`.
pub proof fn lemma_tx_ring_capacity(head: int, tail: int)
    requires
        0 <= head < NUM_TX_BUFS,
        0 <= tail < NUM_TX_BUFS,
    ensures
        0 <= tx_free_slots(head, tail) < NUM_TX_BUFS,
        tx_free_slots(head, tail) == 0 <==> ring_next(head) == tail,
        ring_next(head) != tail ==> tx_free_slots(ring_next(head), tail) == tx_free_slots(
            head,
            tail,
        ) - 1,
        tx_free_slots(head, head) == NUM_TX_BUFS - 1,
        tx_free_slots(0, NUM_TX_BUFS - 1) == NUM_TX_BUFS - 2,
{
}

/// The text of an address is 17 characters: colons at every third place and
/// lower-case hexadecimal digits everywhere else.
pub proof fn lemma_mac_text_shape(a: Seq<u8>)
    requires
        a.len() == 6,
    ensures
        mac_text(a).len() == 17,
        forall|i: int| 0 <= i < 17 && i % 3 == 2 ==> #[trigger] mac_text(a)[i] == ':',
        forall|i: int|
            0 <= i < 17 && i % 3 != 2 ==> {
                let c = #[trigger] mac_text(a)[i];
                ('0' <= c <= '9') || ('a' <= c <= 'f')
            },
{
    assert forall|i: int| 0 <= i < 17 && i % 3 != 2 implies {
        let c = #[trigger] mac_text(a)[i];
        ('0' <= c <= '9') || ('a' <= c <= 'f')
    } by {
        let k = i / 3;
        let b = a[k];
        assert(0 <= b / 16 < 16);
        assert(0 <= b % 16 < 16);
        if i % 3 == 0 {
            assert(mac_text(a)[i] == hex_digit((b / 16) as int));
        } else {
            assert(mac_text(a)[i] == hex_digit((b % 16) as int));
        }
    }
}

/// Sets up and registers the network device of a probed chip.
///
/// `init` is what setting up the private data gave (see
/// [`DriverData::init`]), `bar` the register window as read (see
/// [`DriverData::mac`]), and `register_netdev` makes the kernel's
/// `register_netdev` call (see [`Device::register`]). A failure to set up the
/// private data or to read the MAC address gives `ENXIO`. The device gets
/// one transmit and one receive queue and the MAC address read from the
/// chip, and is then registered.
pub fn probe_device<F: FnOnce() -> i32>(
    init: Result<DriverData, InitError>,
    bar: Option<&[u8]>,
    register_netdev: F,
) -> (r: Result<Device<DriverData>, Error>)
    requires
        bar is Some ==> bar->0@.len() >= Regs::MAC0 + 6,
        init is Ok && bar is Some ==> call_requires(register_netdev, ()),
    ensures
        (init is Err || bar is None) ==> r is Err && r->Err_0.errno() == ENXIO,
        init is Ok && bar is Some ==> exists|ret: i32|
            {
                &&& #[trigger] call_ensures(register_netdev, (), ret)
                &&& ret != 0 ==> r is Err && r->Err_0.errno() == errno_of(ret)
                &&& ret == 0 ==> r is Ok && r->Ok_0.wf() && r->Ok_0.priv_data() == init->Ok_0
                    && r->Ok_0@ == (DeviceView {
                    dev_addr: bar->0@.subrange(Regs::MAC0 as int, Regs::MAC0 + 6),
                    registered: true,
                    ..new_ether_device()
                })
            },
{
    let priv_data = match init {
        Ok(d) => d,
        Err(_) => return Err(Error::enxio()),
    };
    let mac = match DriverData::mac(bar) {
        Ok(m) => m,
        Err(_) => return Err(Error::enxio()),
    };
    let mut ndev = match Device::try_new(1, 1, priv_data) {
        Ok(d) => d,
        Err(e) => return Err(e),
    };
    ndev.set_eth_hw_addr(mac.0.as_slice());
    match ndev.register(register_netdev) {
        Ok(()) => Ok(ndev),
        Err(e) => Err(e),
    }
}

/// Whether a register write lies inside the device's register window.
pub open spec fn in_window(w: RegisterWrite) -> bool {
    match w {
        RegisterWrite::Byte { offset, .. } => offset + 1 <= Regs::END,
        RegisterWrite::Word { offset, .. } => offset + 2 <= Regs::END,
        RegisterWrite::Long { offset, .. } => offset + 4 <= Regs::END,
    }
}

/// Every register write the driver makes lies inside the device's register
/// window: those of the reset, of opening and enabling, of acknowledging
/// interrupts, and
/// the transmit status write of any ring entry.
pub proof fn lemma_writes_in_window(
    rx_dma: u64,
    tx_dma: u64,
    rx_config_read: u32,
    status: u16,
    head: usize,
    value: u32,
)
    requires
        head < NUM_TX_BUFS,
    ensures
        forall|i: int| 0 <= i < reset_writes_spec().len() ==> in_window(#[trigger] reset_writes_spec()[i]),
        forall|i: int|
            0 <= i < open_writes(rx_dma, tx_dma, rx_config_read).len() ==> in_window(
                #[trigger] open_writes(rx_dma, tx_dma, rx_config_read)[i],
            ),
        forall|i: int|
            0 <= i < irq_acknowledgements_spec(status).len() ==> in_window(
                #[trigger] irq_acknowledgements_spec(status)[i],
            ),
        in_window(enable_write()),
        in_window(RegisterWrite::Long { offset: (Regs::TX_STATUS0 + 4 * head) as usize, value }),
{
}

/// The value of a lower-case hexadecimal digit character.
pub open spec fn hex_value(c: char) -> int {
    if '0' <= c <= '9' {
        c as int - '0' as int
    } else {
        c as int - 'a' as int + 10
    }
}

/// Each hexadecimal digit is the digit of its value: `'0'..='9'` for values
/// below ten, `'a'..='f'` above; reading a digit back gives its value.
pub proof fn lemma_hex_digit(n: int)
    requires
        0 <= n < 16,
    ensures
        n < 10 ==> hex_digit(n) as int == '0' as int + n,
        n >= 10 ==> hex_digit(n) as int == 'a' as int + (n - 10),
        hex_value(hex_digit(n)) == n,
{
}

/// The text of an address reads back as the address: the two digits at
/// places `3k` and `3k + 1` are the high and low hexadecimal digits of byte
/// `k`.
pub proof fn lemma_mac_text_reads_back(a: Seq<u8>)
    requires
        a.len() == 6,
    ensures
        forall|k: int|
            0 <= k < 6 ==> 16 * hex_value(#[trigger] mac_text(a)[3 * k]) + hex_value(
                mac_text(a)[3 * k + 1],
            ) == a[k],
{
    assert forall|k: int| 0 <= k < 6 implies 16 * hex_value(#[trigger] mac_text(a)[3 * k])
        + hex_value(mac_text(a)[3 * k + 1]) == a[k] by {
        let b = a[k];
        lemma_hex_digit((b / 16) as int);
        lemma_hex_digit((b % 16) as int);
        assert(mac_text(a)[3 * k] == hex_digit((b / 16) as int));
        assert(mac_text(a)[3 * k + 1] == hex_digit((b % 16) as int));
    }
}

/// The writes of opening give the hardware the receive buffer at its bus
/// address and transmit buffer `i` at the transmit bus address plus `i`
/// buffer lengths: the four transmit buffers lie one after the other without
/// overlapping.
pub proof fn lemma_open_buffer_addresses(rx_dma: u64, tx_dma: u64, rx_config_read: u32)
    requires
        (tx_dma as u32) + 3 * TX_BUF_LEN <= u32::MAX,
    ensures
        open_writes(rx_dma, tx_dma, rx_config_read)[0] == (RegisterWrite::Long {
            offset: Regs::RX_BUF,
            value: rx_dma as u32,
        }),
        forall|i: int|
            0 <= i < NUM_TX_BUFS ==> match #[trigger] open_writes(rx_dma, tx_dma, rx_config_read)[1
                + i] {
                RegisterWrite::Long { offset, value } => offset == Regs::TX_ADDR0 + 4 * i
                    && value as int == (tx_dma as u32) as int + i * TX_BUF_LEN,
                _ => false,
            },
{
    assert forall|i: int| 0 <= i < NUM_TX_BUFS implies match #[trigger] open_writes(
        rx_dma,
        tx_dma,
        rx_config_read,
    )[1 + i] {
        RegisterWrite::Long { offset, value } => offset == Regs::TX_ADDR0 + 4 * i && value as int
            == (tx_dma as u32) as int + i * TX_BUF_LEN,
        _ => false,
    } by {
        assert(open_writes(rx_dma, tx_dma, rx_config_read)[1 + i] == tx_addr_write(tx_dma, i));
    }
}

/// Every interrupt that opening enables in the interrupt mask, and a
/// transmit error, is reported as the device's own (so as handled).
pub proof fn lemma_enabled_interrupts_are_handled(status: u16)
    ensures
        status & open_interrupt_mask() != 0 ==> status & own_interrupts() != 0,
        status & interrupt_status::RX_OK != 0 ==> status & own_interrupts() != 0,
        status & interrupt_status::RX_ERR != 0 ==> status & own_interrupts() != 0,
        status & interrupt_status::TX_OK != 0 ==> status & own_interrupts() != 0,
        status & interrupt_status::TX_ERR != 0 ==> status & own_interrupts() != 0,
        status & interrupt_status::RX_OVERFLOW != 0 ==> status & own_interrupts() != 0,
{
    let m = own_interrupts();
    let o = open_interrupt_mask();
    assert(o == 0x17u16) by (bit_vector)
        requires
            o == (0x10u16 | 0x1u16 | 0x2u16 | 0x4u16),
    ;
    assert(m == 0x1fu16) by (bit_vector)
        requires
            m == (0x1u16 | 0x2u16 | 0x4u16 | 0x8u16 | 0x10u16),
    ;
    assert(status & 0x1u16 != 0 ==> status & 0x1fu16 != 0) by (bit_vector);
    assert(status & 0x2u16 != 0 ==> status & 0x1fu16 != 0) by (bit_vector);
    assert(status & 0x4u16 != 0 ==> status & 0x1fu16 != 0) by (bit_vector);
    assert(status & 0x8u16 != 0 ==> status & 0x1fu16 != 0) by (bit_vector);
    assert(status & 0x10u16 != 0 ==> status & 0x1fu16 != 0) by (bit_vector);
    assert(status & 0x17u16 != 0 ==> status & 0x1fu16 != 0) by (bit_vector);
}

/// A received frame is read whole: its length is the full 16-bit
/// little-endian length field `L` of its header, the packet handed up is the
/// `L - 4` bytes after the header, and the read pointer written back is
/// `capr + L + 7` (in 16 bits) rounded down to a multiple of 4, so that 16
/// bytes after it lies the first 4-aligned place past the frame and its CRC.
pub proof fn lemma_rx_frame(rx: Seq<u8>, capr: u16)
    requires
        rx_frame_valid(rx, capr),
    ensures
        ({
            let o = (capr as int + 16) % 0x10000;
            let len = rx[o + 2] as int + 256 * (rx[o + 3] as int);
            &&& rx_frame_packet(rx, capr).len() == len - 4
            &&& forall|j: int|
                0 <= j < len - 4 ==> #[trigger] rx_frame_packet(rx, capr)[j] == rx[o + 4 + j]
            &&& rx_next_capr(rx, capr) as int == (capr as int + len + 7) % 0x10000 / 4 * 4
        }),
{
    let o = (capr as int + 16) % 0x10000;
    let len = rx[o + 2] as int + 256 * (rx[o + 3] as int);
    assert(o == rx_frame_offset(capr));
    assert(len == rx_frame_length(rx, capr));
    let x: u16 = ((capr + rx_frame_length(rx, capr) + 7) % 0x10000) as u16;
    assert(x & 0xFFFCu16 == x / 4 * 4) by (bit_vector);
}

/// A packet taken by the transmit ring is copied whole into the buffer of
/// its entry: every byte of the packet lands at its place in that buffer,
/// and every other byte of the transmit buffers stays as it was.
pub proof fn lemma_tx_copy(tx_buf: Seq<u8>, head: int, packet: Seq<u8>)
    requires
        tx_buf.len() == ALL_TX_BUF_LEN,
        0 <= head < NUM_TX_BUFS,
        packet.len() <= TX_BUF_LEN,
    ensures
        tx_buf_with_packet(tx_buf, head, packet).len() == tx_buf.len(),
        forall|j: int|
            0 <= j < packet.len() ==> #[trigger] tx_buf_with_packet(tx_buf, head, packet)[head
                * TX_BUF_LEN + j] == packet[j],
        forall|k: int|
            0 <= k < tx_buf.len() && !(head * TX_BUF_LEN <= k < head * TX_BUF_LEN + packet.len())
                ==> #[trigger] tx_buf_with_packet(tx_buf, head, packet)[k] == tx_buf[k],
{
    assert(head * TX_BUF_LEN + TX_BUF_LEN <= ALL_TX_BUF_LEN) by (nonlinear_arith)
        requires
            0 <= head < 4,
    ;
}

} // verus!

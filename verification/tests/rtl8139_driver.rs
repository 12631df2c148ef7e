use rust_rtl8139::irq::request::IrqReturn;
use rust_rtl8139::net::dev::{Device, TxCode};
use rust_rtl8139::rtl8139::chip_cmd_bits::{CMD_RESET, CMD_RX_ENABLE, CMD_TX_ENABLE};
use rust_rtl8139::rtl8139::interrupt_status::{RX_ERR, RX_OK, RX_OVERFLOW, TX_ERR, TX_OK};
use rust_rtl8139::rtl8139::{
    irq_acknowledgements, irq_return, irq_work, reset_pending, reset_writes, rx_buffer_empty,
    rx_frame_in_bounds, sleep, DriverData, InitError, IrqWork, MacAddress, MacGetError, Regs,
    RegisterWrite, ALL_TX_BUF_LEN, NUM_TX_BUFS, RESET_POLL_ATTEMPTS, RESET_POLL_DELAY,
    RX_BUF_LEN, TX_BUF_LEN,
};

fn driver_data() -> DriverData {
    DriverData::init(true, 0, Some(0x1000), Some(0x2000)).unwrap()
}

fn device() -> Device<DriverData> {
    Device::try_new(1, 1, driver_data()).ok().unwrap()
}

#[test]
fn constants() {
    assert_eq!(TX_BUF_LEN, 1792);
    assert_eq!(NUM_TX_BUFS, 4);
    assert_eq!(ALL_TX_BUF_LEN, 7168);
    assert_eq!(RX_BUF_LEN, 9744);
    assert_eq!(Regs::END, 0xD9);
    assert_eq!(RESET_POLL_ATTEMPTS, 1000);
    assert_eq!(RESET_POLL_DELAY, 1000);
}

#[test]
fn reset_sequence() {
    assert_eq!(
        reset_writes(),
        vec![
            RegisterWrite::Byte { offset: Regs::CONFIG1, value: 0 },
            RegisterWrite::Byte { offset: 0x37, value: 0x10 },
        ]
    );
    assert!(reset_pending(CMD_RESET));
    assert!(reset_pending(0xFF));
    assert!(!reset_pending(0x0C));
    assert!(!reset_pending(0));
    sleep(RESET_POLL_DELAY);
}

#[test]
fn init_sets_up_the_ring() {
    let d = driver_data();
    assert_eq!(d.tx_buf_head(), 0);
    assert_eq!(d.tx_buf_tail(), NUM_TX_BUFS - 1);
    assert_eq!(d.tx_buffers().len(), ALL_TX_BUF_LEN);
    assert!(d.tx_buffers().iter().all(|b| *b == 0));
}

#[test]
fn init_errors_in_order() {
    assert_eq!(DriverData::init(false, 0x10, None, None).err(), Some(InitError::BarRevoked));
    assert_eq!(
        DriverData::init(true, 0x10, Some(1), Some(2)).err(),
        Some(InitError::SoftwareResetStuck)
    );
    assert_eq!(DriverData::init(true, 0x0C, None, Some(2)).err(), Some(InitError::BarRevoked));
    assert_eq!(DriverData::init(true, 0x0C, Some(1), None).err(), Some(InitError::BarRevoked));
    assert!(DriverData::init(true, 0x0C, Some(1), Some(2)).is_ok());
}

#[test]
fn mac_is_read_from_the_first_registers() {
    let mut regs = vec![0u8; Regs::END];
    regs[..6].copy_from_slice(&[0xde, 0xad, 0xbe, 0xef, 0xca, 0xfe]);
    regs[6] = 0x77;
    let mac = DriverData::mac(Some(&regs)).ok().unwrap();
    assert_eq!(mac.0, [0xde, 0xad, 0xbe, 0xef, 0xca, 0xfe]);
    assert_eq!(mac.to_string(), "de:ad:be:ef:ca:fe");
    assert!(matches!(DriverData::mac(None), Err(MacGetError::BarRevoked)));
}

#[test]
fn mac_text() {
    assert_eq!(MacAddress([0, 1, 0x0a, 0x10, 0x9f, 0xff]).to_string(), "00:01:0a:10:9f:ff");
    assert_eq!(MacAddress([0x52, 0x54, 0, 0x12, 0x34, 0x56]).to_string(), "52:54:00:12:34:56");
}

#[test]
fn open_programs_the_chip() {
    let mut dev = device();
    dev.netif_stop_queue();
    let writes = DriverData::open(&mut dev, true, 0x1F00).unwrap();
    assert_eq!(
        writes,
        vec![
            RegisterWrite::Long { offset: 0x30, value: 0x1000 },
            RegisterWrite::Long { offset: 0x20, value: 0x2000 },
            RegisterWrite::Long { offset: 0x24, value: 0x2000 + 1792 },
            RegisterWrite::Long { offset: 0x28, value: 0x2000 + 2 * 1792 },
            RegisterWrite::Long { offset: 0x2C, value: 0x2000 + 3 * 1792 },
            RegisterWrite::Long { offset: 0x44, value: 0x078E },
            RegisterWrite::Word { offset: 0x38, value: 0xFFF0 },
            RegisterWrite::Word { offset: 0x3C, value: RX_OVERFLOW | RX_OK | RX_ERR | TX_OK },
        ]
    );
    assert!(dev.netif_queue_stopped());
    let enable = DriverData::open_enable(&mut dev);
    assert_eq!(enable, RegisterWrite::Byte { offset: 0x37, value: CMD_RX_ENABLE | CMD_TX_ENABLE });
    assert!(!dev.netif_queue_stopped());
}

#[test]
fn open_truncates_dma_addresses() {
    let data = DriverData::init(true, 0, Some(0x1_0000_0040), Some(0x2_0000_0000)).unwrap();
    let mut dev = Device::try_new(1, 1, data).ok().unwrap();
    let writes = DriverData::open(&mut dev, true, 0).unwrap();
    assert_eq!(writes[0], RegisterWrite::Long { offset: 0x30, value: 0x40 });
    assert_eq!(writes[1], RegisterWrite::Long { offset: 0x20, value: 0 });
    assert_eq!(writes[5], RegisterWrite::Long { offset: 0x44, value: 0x8E });
}

#[test]
fn open_without_registers_fails() {
    let mut dev = device();
    dev.netif_stop_queue();
    let err = DriverData::open(&mut dev, false, 0).unwrap_err();
    assert_eq!(err.to_errno(), -6);
    assert!(dev.netif_queue_stopped());
}

#[test]
fn stop_and_init_do_nothing() {
    let mut dev = device();
    assert_eq!(DriverData::stop(&mut dev), Ok(()));
    assert_eq!(DriverData::init_device(&mut dev), Ok(()));
}

fn xmit(dev: &mut Device<DriverData>, data: &[u8], bar: bool) -> (TxCode, Option<RegisterWrite>) {
    let skb = dev.new_skb_from_slice(data);
    DriverData::start_xmit(dev, skb, bar)
}

#[test]
fn start_xmit_copies_and_starts_transmission() {
    let mut dev = device();
    let (code, write) = xmit(&mut dev, &[1, 2, 3, 4], true);
    assert!(matches!(code, TxCode::Done));
    assert_eq!(write, Some(RegisterWrite::Long { offset: 0x10, value: 4 }));
    assert_eq!(dev.drv_priv_data().tx_buf_head(), 1);
    assert_eq!(&dev.drv_priv_data().tx_buffers()[..5], &[1, 2, 3, 4, 0]);

    let (code, write) = xmit(&mut dev, &[5; 60], true);
    assert!(matches!(code, TxCode::Done));
    assert_eq!(write, Some(RegisterWrite::Long { offset: 0x14, value: 60 }));
    assert_eq!(&dev.drv_priv_data().tx_buffers()[TX_BUF_LEN..TX_BUF_LEN + 61], &[[5u8; 60].as_slice(), &[0]].concat()[..]);
    assert_eq!(dev.drv_priv_data().tx_buf_head(), 2);
}

#[test]
fn start_xmit_busy_when_ring_full() {
    let mut dev = device();
    assert!(matches!(xmit(&mut dev, &[1], true).0, TxCode::Done));
    assert!(matches!(xmit(&mut dev, &[2], true).0, TxCode::Done));
    let (code, write) = xmit(&mut dev, &[3], true);
    assert!(matches!(code, TxCode::Busy));
    assert_eq!(write, None);
    assert!(dev.netif_queue_stopped());
    assert_eq!(dev.drv_priv_data().tx_buf_head(), 2);

    let woke = DriverData::transmit_complete(&mut dev);
    assert!(woke);
    assert!(!dev.netif_queue_stopped());
    assert_eq!(dev.drv_priv_data().tx_buf_tail(), 2);

    for i in 0..3 {
        let (code, write) = xmit(&mut dev, &[i; 10], true);
        assert!(matches!(code, TxCode::Done));
        assert!(write.is_some());
    }
    assert_eq!(dev.drv_priv_data().tx_buf_head(), 1);
    assert!(matches!(xmit(&mut dev, &[9], true).0, TxCode::Busy));
}

#[test]
fn start_xmit_drops_packets_over_the_mtu() {
    let mut dev = device();
    let (code, write) = xmit(&mut dev, &[0u8; 1515], true);
    assert!(matches!(code, TxCode::Done));
    assert_eq!(write, None);
    assert_eq!(dev.drv_priv_data().tx_buf_head(), 0);
    assert!(dev.drv_priv_data().tx_buffers().iter().all(|b| *b == 0));
    let (code, write) = xmit(&mut dev, &[7u8; 1514], true);
    assert!(matches!(code, TxCode::Done));
    assert_eq!(write, Some(RegisterWrite::Long { offset: 0x10, value: 1514 }));
}

#[test]
fn start_xmit_without_registers_keeps_the_head() {
    let mut dev = device();
    let (code, write) = xmit(&mut dev, &[8, 8], false);
    assert!(matches!(code, TxCode::Done));
    assert_eq!(write, None);
    assert_eq!(dev.drv_priv_data().tx_buf_head(), 0);
    assert_eq!(&dev.drv_priv_data().tx_buffers()[..3], &[8, 8, 0]);
}

#[test]
fn transmit_complete_without_stopped_queue() {
    let mut dev = device();
    assert!(!DriverData::transmit_complete(&mut dev));
    assert_eq!(dev.drv_priv_data().tx_buf_tail(), 0);
    assert!(!dev.netif_queue_stopped());
}

#[test]
fn interrupt_acknowledgements() {
    let rx_ack = RegisterWrite::Word { offset: 0x3E, value: RX_OK };
    let tx_ack = RegisterWrite::Word { offset: 0x3E, value: TX_OK };
    assert_eq!(irq_acknowledgements(RX_OK), vec![rx_ack]);
    assert_eq!(irq_acknowledgements(RX_OVERFLOW), vec![rx_ack]);
    assert_eq!(irq_acknowledgements(RX_OK | TX_OK), vec![rx_ack, tx_ack]);
    assert_eq!(irq_acknowledgements(TX_OK), vec![tx_ack]);
    assert_eq!(irq_acknowledgements(TX_ERR | RX_ERR), vec![]);
}

#[test]
fn interrupt_work() {
    assert_eq!(irq_work(RX_OK | TX_OK), IrqWork::Receive);
    assert_eq!(irq_work(TX_OK | TX_ERR), IrqWork::TransmitComplete);
    assert_eq!(irq_work(TX_ERR), IrqWork::TransmitError);
    assert_eq!(irq_work(RX_OVERFLOW), IrqWork::Nothing);
    assert_eq!(irq_work(0), IrqWork::Nothing);
    assert!(matches!(irq_return(Some(RX_OK)), IrqReturn::Handled));
    assert!(matches!(irq_return(Some(TX_ERR)), IrqReturn::Handled));
    assert!(matches!(irq_return(Some(RX_OVERFLOW)), IrqReturn::Handled));
    assert!(matches!(irq_return(Some(0)), IrqReturn::NotHandled));
    assert!(matches!(irq_return(Some(0x8000)), IrqReturn::NotHandled));
    assert!(matches!(irq_return(None), IrqReturn::NotHandled));
}

#[test]
fn receive_frames() {
    let mut dev = device();
    let mut rx = vec![0u8; RX_BUF_LEN];
    // First frame: 60 bytes of packet and 4 of CRC, at offset 0.
    rx[0] = 0x01;
    rx[2] = 64;
    for i in 0..60 {
        rx[4 + i] = i as u8;
    }
    // Second frame at offset 68: 2 bytes of packet.
    rx[68 + 2] = 6;
    rx[68 + 4] = 0xAA;
    rx[68 + 5] = 0xBB;

    assert!(rx_frame_in_bounds(&rx, 0xFFF0));
    let next = DriverData::receive_frame(&mut dev, &rx, 0xFFF0);
    assert_eq!(next, 0x34);
    assert!(rx_frame_in_bounds(&rx, next));
    let next2 = DriverData::receive_frame(&mut dev, &rx, next);
    assert_eq!(next2, (0x34 + 6 + 7) & 0xFFFC);
    assert_eq!(next2 % 4, 0);
    assert_eq!(dev.received_count(), 2);
    let expected: Vec<u8> = (0..60).collect();
    assert_eq!(dev.received_packet(0).data(), &expected[..]);
    assert_eq!(dev.received_packet(1).data(), &[0xAA, 0xBB]);
}

#[test]
fn frames_out_of_bounds_are_refused() {
    let mut rx = vec![0u8; 64];
    rx[2] = 3;
    assert!(!rx_frame_in_bounds(&rx, 0xFFF0));
    rx[2] = 65;
    assert!(!rx_frame_in_bounds(&rx, 0xFFF0));
    rx[2] = 64;
    assert!(rx_frame_in_bounds(&rx, 0xFFF0));
    assert!(!rx_frame_in_bounds(&rx, 100));
    rx[3] = 0xFF;
    rx[2] = 0xFF;
    assert!(!rx_frame_in_bounds(&rx, 0xFFF0));
}

#[test]
fn receive_buffer_empty_reading() {
    assert!(!rx_buffer_empty(0));
    assert!(rx_buffer_empty(0x0C));
    assert!(rx_buffer_empty(0x01));
}

#[test]
fn probe_sets_up_a_registered_device() {
    let mut regs = vec![0u8; Regs::END];
    regs[..6].copy_from_slice(&[0xde, 0xad, 0xbe, 0xef, 0xca, 0xfe]);
    let dev = rust_rtl8139::rtl8139::probe_device(Ok(driver_data()), Some(&regs), || 0)
        .ok()
        .unwrap();
    assert!(dev.is_registered());
    assert_eq!(dev.dev_addr(), &[0xde, 0xad, 0xbe, 0xef, 0xca, 0xfe]);
    assert_eq!(dev.get_mtu(), 1500);
    assert_eq!(dev.drv_priv_data().tx_buf_tail(), 3);
}

#[test]
fn probe_failures() {
    let regs = vec![0u8; Regs::END];
    let e = rust_rtl8139::rtl8139::probe_device(Err(InitError::SoftwareResetStuck), Some(&regs), || 0)
        .err()
        .unwrap();
    assert_eq!(e.to_errno(), -6);
    let e = rust_rtl8139::rtl8139::probe_device(Ok(driver_data()), None, || 0).err().unwrap();
    assert_eq!(e.to_errno(), -6);
    let e = rust_rtl8139::rtl8139::probe_device(Ok(driver_data()), Some(&regs), || -12)
        .err()
        .unwrap();
    assert_eq!(e.to_errno(), -12);
}

fn write_end(w: &RegisterWrite) -> usize {
    match *w {
        RegisterWrite::Byte { offset, .. } => offset + 1,
        RegisterWrite::Word { offset, .. } => offset + 2,
        RegisterWrite::Long { offset, .. } => offset + 4,
    }
}

#[test]
fn writes_stay_in_the_register_window() {
    let mut dev = device();
    let mut all = reset_writes();
    all.extend(DriverData::open(&mut dev, true, 0xFFFF_FFFF).unwrap());
    all.push(DriverData::open_enable(&mut dev));
    all.extend(irq_acknowledgements(0xFFFF));
    for _ in 0..3 {
        if let (_, Some(w)) = xmit(&mut dev, &[1], true) {
            all.push(w);
        }
        DriverData::transmit_complete(&mut dev);
    }
    assert!(all.len() > 12);
    assert!(all.iter().all(|w| write_end(w) <= Regs::END));
}

#[test]
fn foreign_interrupt_is_left_alone() {
    let status = 0x4000u16;
    assert_eq!(irq_acknowledgements(status), vec![]);
    assert_eq!(irq_work(status), IrqWork::Nothing);
    assert!(matches!(irq_return(Some(status)), IrqReturn::NotHandled));
}

#[test]
fn busy_leaves_the_ring_as_it_was() {
    let mut dev = device();
    assert!(matches!(xmit(&mut dev, &[1], true).0, TxCode::Done));
    assert!(matches!(xmit(&mut dev, &[2], true).0, TxCode::Done));
    let before = dev.drv_priv_data().tx_buffers().to_vec();
    assert!(matches!(xmit(&mut dev, &[3; 10], true).0, TxCode::Busy));
    assert_eq!(dev.drv_priv_data().tx_buf_head(), 2);
    assert_eq!(dev.drv_priv_data().tx_buf_tail(), 3);
    assert_eq!(dev.drv_priv_data().tx_buffers(), &before[..]);
}

#[test]
fn reset_wait_stops_at_the_first_clear_read() {
    let reads = std::cell::Cell::new(0u32);
    let last = rust_rtl8139::rtl8139::wait_for_reset(|| {
        reads.set(reads.get() + 1);
        if reads.get() < 3 { 0x10 } else { 0x0C }
    });
    assert_eq!(last, 0x0C);
    assert_eq!(reads.get(), 4);
}

#[test]
fn reset_wait_gives_up_after_the_poll_limit() {
    let reads = std::cell::Cell::new(0usize);
    let last = rust_rtl8139::rtl8139::wait_for_reset(|| {
        reads.set(reads.get() + 1);
        0x10
    });
    assert_eq!(last, 0x10);
    assert_eq!(reads.get(), RESET_POLL_ATTEMPTS + 1);
}

use rust_rtl8139::error::{Error, EINVAL, ENOMEM};
use rust_rtl8139::net::dev::flags::{IFF_BROADCAST, IFF_MULTICAST, IFF_UP};
use rust_rtl8139::net::dev::priv_flags::{IFF_TX_SKB_NO_LINEAR, IFF_802_1Q_VLAN};
use rust_rtl8139::net::dev::{
    from_result, init_callback, open_callback, start_xmit_callback, stop_callback,
    uninit_callback, Device, DeviceOperations, SkBuff, TxCode, ETH_DATA_LEN, ETH_MIN_MTU,
    NETDEV_TX_BUSY, NETDEV_TX_OK, NET_ADDR_PERM, NET_ADDR_RANDOM,
};

struct Data(u32);

impl DeviceOperations for Data {}

struct Failing;

impl DeviceOperations for Failing {
    fn open(_dev: &mut Device<Self>) -> Result<(), Error> {
        Err(Error::from_errno(-19))
    }

    fn start_xmit(dev: &mut Device<Self>, skb: SkBuff) -> TxCode {
        dev.consume_skb(skb);
        TxCode::Done
    }
}

fn new_dev() -> Device<Data> {
    Device::try_new(1, 1, Data(7)).ok().unwrap()
}

#[test]
fn try_new_sets_up_an_ethernet_device() {
    let dev = new_dev();
    assert_eq!(dev.drv_priv_data().0, 7);
    assert_eq!(&dev.name()[..6], b"eth%d\0");
    assert_eq!(dev.name().len(), 16);
    assert_eq!(dev.get_mtu(), ETH_DATA_LEN);
    assert_eq!(dev.get_mtu(), 1500);
    assert_eq!(dev.min_mtu(), ETH_MIN_MTU);
    assert_eq!(dev.min_mtu(), 68);
    assert_eq!(dev.max_mtu(), 1500);
    assert_eq!(dev.get_flags(), IFF_BROADCAST | IFF_MULTICAST);
    assert_eq!(dev.get_flags(), 0x1002);
    assert!(dev.netif_carrier_ok());
    assert!(!dev.netif_queue_stopped());
    assert_eq!(dev.dev_addr(), &[0u8; 6]);
    assert_eq!(dev.addr_assign_type(), NET_ADDR_PERM);
    assert!(!dev.is_registered());
    assert_eq!(dev.received_count(), 0);
}

#[test]
fn try_new_refuses_zero_queues() {
    assert_eq!(Device::try_new(0, 1, Data(1)).err().unwrap().to_errno(), ENOMEM);
    assert_eq!(Device::try_new(1, 0, Data(1)).err().unwrap().to_errno(), ENOMEM);
    assert!(Device::try_new(8, 4, Data(1)).is_ok());
}

#[test]
fn set_name_copies_the_name_to_the_front() {
    let mut dev = new_dev();
    assert_eq!(dev.set_name(b"ab"), Ok(()));
    assert_eq!(&dev.name()[..6], b"ab\0%d\0");
    assert_eq!(dev.set_name(b"rtl"), Ok(()));
    assert_eq!(&dev.name()[..6], b"rtl\0d\0");
    assert_eq!(dev.set_name(b"0123456789abcde"), Ok(()));
    assert_eq!(dev.name(), b"0123456789abcde\0");
}

#[test]
fn set_name_refuses_a_long_name() {
    let mut dev = new_dev();
    let r = dev.set_name(b"0123456789abcdefg");
    assert_eq!(r.unwrap_err().to_errno(), EINVAL);
    let r = dev.set_name(b"0123456789abcdef");
    assert_eq!(r.unwrap_err().to_errno(), EINVAL);
    assert_eq!(&dev.name()[..6], b"eth%d\0");
}

#[test]
fn carrier_mtu_and_flags() {
    let mut dev = new_dev();
    dev.netif_carrier_off();
    assert!(!dev.netif_carrier_ok());
    dev.netif_carrier_on();
    assert!(dev.netif_carrier_ok());
    dev.set_max_mtu(1778);
    dev.set_min_mtu(60);
    assert_eq!(dev.max_mtu(), 1778);
    assert_eq!(dev.min_mtu(), 60);
    assert_eq!(dev.get_mtu(), 1500);
    dev.set_flags(IFF_UP | IFF_BROADCAST);
    assert_eq!(dev.get_flags(), 3);
}

#[test]
fn private_flag_values() {
    assert_eq!(IFF_802_1Q_VLAN, 1);
    assert_eq!(IFF_TX_SKB_NO_LINEAR, 0x8000_0000);
}

#[test]
fn random_address_is_local_unicast() {
    let mut dev = new_dev();
    dev.set_random_eth_hw_addr([0xff, 1, 2, 3, 4, 5]);
    assert_eq!(dev.dev_addr(), &[0xfe, 1, 2, 3, 4, 5]);
    assert_eq!(dev.addr_assign_type(), NET_ADDR_RANDOM);
    dev.set_random_eth_hw_addr([0x00, 9, 9, 9, 9, 9]);
    assert_eq!(dev.dev_addr()[0], 0x02);
    assert_eq!(dev.dev_addr()[0] & 1, 0);
}

#[test]
fn set_eth_hw_addr_sets_the_address() {
    let mut dev = new_dev();
    dev.set_eth_hw_addr(&[0xde, 0xad, 0xbe, 0xef, 0xca, 0xfe]);
    assert_eq!(dev.dev_addr(), &[0xde, 0xad, 0xbe, 0xef, 0xca, 0xfe]);
    assert_eq!(dev.addr_assign_type(), NET_ADDR_PERM);
}

#[test]
fn register_once() {
    let mut dev = new_dev();
    assert_eq!(dev.register(|| 0), Ok(()));
    assert!(dev.is_registered());
    let mut called = false;
    assert_eq!(dev.register(|| { called = true; 0 }).unwrap_err().to_errno(), EINVAL);
    assert!(!called);
    assert!(dev.is_registered());
}

#[test]
fn register_failure_leaves_device_unregistered() {
    let mut dev = new_dev();
    assert_eq!(dev.register(|| -17).unwrap_err().to_errno(), -17);
    assert!(!dev.is_registered());
    assert_eq!(dev.register(|| 1).unwrap_err().to_errno(), EINVAL);
    assert!(!dev.is_registered());
    assert_eq!(dev.register(|| 0), Ok(()));
}

#[test]
fn queue_state() {
    let mut dev = new_dev();
    dev.netif_stop_queue();
    assert!(dev.netif_queue_stopped());
    dev.netif_wake_queue();
    assert!(!dev.netif_queue_stopped());
    dev.netif_stop_queue();
    dev.netif_start_queue();
    assert!(!dev.netif_queue_stopped());
}

#[test]
fn received_packets_keep_their_order() {
    let mut dev = new_dev();
    let a = dev.new_skb_from_slice(&[1, 2, 3]);
    let b = dev.new_skb_from_slice(&[4]);
    dev.netif_receive_skb(a);
    dev.netif_receive_skb(b);
    assert_eq!(dev.received_count(), 2);
    assert_eq!(dev.received_packet(0).data(), &[1, 2, 3]);
    assert_eq!(dev.received_packet(1).data(), &[4]);
}

#[test]
fn skb_copy_and_timestamp() {
    let mut dev = new_dev();
    let mut skb = dev.new_skb_from_slice(&[9, 8, 7]);
    skb.tx_timestamp();
    assert_eq!(skb.data(), &[9, 8, 7]);
    assert_eq!(skb.len(), 3);
    let mut buf = vec![0u8; 8];
    skb.copy_to_with_checksum(&mut buf, 2);
    assert_eq!(buf, vec![0, 0, 9, 8, 7, 0, 0, 0]);
    dev.consume_skb(skb);
}

#[test]
fn tx_code_values() {
    assert_eq!(TxCode::Done.to_raw(), NETDEV_TX_OK);
    assert_eq!(TxCode::Busy.to_raw(), NETDEV_TX_BUSY);
    assert_eq!(NETDEV_TX_OK, 0);
    assert_eq!(NETDEV_TX_BUSY, 0x10);
}

#[test]
fn default_operations_through_callbacks() {
    let mut dev = new_dev();
    assert_eq!(init_callback(&mut dev), 0);
    assert_eq!(open_callback(&mut dev), 0);
    assert_eq!(stop_callback(&mut dev), 0);
    uninit_callback(&mut dev);
    let skb = dev.new_skb_from_slice(&[1]);
    assert_eq!(start_xmit_callback(skb, &mut dev), NETDEV_TX_BUSY);
}

#[test]
fn driver_operations_through_callbacks() {
    let mut dev = Device::try_new(1, 1, Failing).ok().unwrap();
    assert_eq!(open_callback(&mut dev), -19);
    assert_eq!(init_callback(&mut dev), 0);
    let skb = dev.new_skb_from_slice(&[1]);
    assert_eq!(start_xmit_callback(skb, &mut dev), NETDEV_TX_OK);
}

#[test]
fn from_result_codes() {
    assert_eq!(from_result(Ok(())), 0);
    assert_eq!(from_result(Err(Error::einval())), EINVAL);
}

#[test]
fn release_gives_back_data_and_whether_to_unregister() {
    let dev = new_dev();
    let (data, registered) = dev.release();
    assert_eq!(data.0, 7);
    assert!(!registered);
    let mut dev = new_dev();
    dev.register(|| 0).unwrap();
    let (_, registered) = dev.release();
    assert!(registered);
}

//! Readiness, text, bytes, the memory layout, and the numbers of the outside interfaces.

use krun::balloon::device::VirtioBalloonConfig;
use krun::block::device::{BLOCK_BASE_FEATURES, BLOCK_FEATURE_FLUSH, BLOCK_FEATURE_RO};
use krun::block::request;
use krun::bytes::{
    get_be_u16, get_be_u32, get_le_u16, get_le_u32, get_le_u64, i32_to_u32, join_parts, push_all,
    put_le_u16, put_le_u32, put_le_u64, u32_to_i32,
};
use krun::epoll::{
    event_set_to_wait_event_set, wait_event_set_to_event_set, ControlOperation, Epoll, EpollEvent,
    EventSet, WaitChange, WaitEvent, WaitEventSet, IN, OUT,
};
use krun::eventfd::{read_event, EventRead, EFD_NONBLOCK, EFD_SEMAPHORE};
use krun::layout;
use krun::net::backend;
use krun::net::device::{NET_BASE_FEATURES, NET_MULTIQUEUE_FEATURES};
use krun::net::worker;
use krun::text::{
    has_prefix, holds_char, parse_decimal, push_decimal, push_hexadecimal, same_text,
};
use krun::vfio_pci::vfio as own_vfio;
use vfio_bindings::bindings::vfio;
use virtio_bindings::{virtio_blk, virtio_config, virtio_net, virtio_ring};

#[test]
fn readiness_survives_the_waiter() {
    let set = event_set_to_wait_event_set(EventSet { bits: IN | OUT });
    assert!(set.readable && set.writable && !set.error);
    let back = wait_event_set_to_event_set(set);
    assert_eq!(back.bits() & (IN | OUT), IN | OUT);
    let mut events = EventSet::empty();
    events.insert(8);
    assert!(events.contains(8));
    assert!(!events.contains(1));
}

#[test]
fn registrations_are_kept() {
    let mut epoll = Epoll::new();
    let event = EpollEvent::new(EventSet { bits: 1 }, 77);
    match epoll.ctl(ControlOperation::Add, 5, &event) {
        Ok(WaitChange::Add { handle: 5, .. }) => epoll.added(5, &event),
        _ => panic!("expected an addition"),
    }
    assert!(matches!(
        epoll.ctl(ControlOperation::Modify, 5, &event),
        Ok(WaitChange::Modify { .. })
    ));
    assert!(epoll.ctl(ControlOperation::Delete, 6, &event).is_err());
    let ready = WaitEventSet {
        readable: true,
        writable: false,
        error: false,
        hang_up: false,
        read_hang_up: false,
    };
    let mut events = vec![EpollEvent::new(EventSet::empty(), 0); 4];
    assert_eq!(Epoll::wait_capacity(4, 2), 2);
    let count = epoll.wait(&[WaitEvent { events: ready, token: 77 }], 1, &mut events);
    assert_eq!(count, 1);
    assert_eq!(events[0].data(), 77);
    assert_eq!(events[0].events(), 1);
    assert_eq!(events[0].event_set(), EventSet { bits: 1 });
}

#[test]
fn events_are_reset_when_read() {
    assert_eq!(read_event(0), EventRead::Reset);
    assert_eq!(read_event(258), EventRead::WouldBlock);
    assert_eq!(read_event(u32::MAX), EventRead::Fail);
    assert_ne!(EFD_NONBLOCK, EFD_SEMAPHORE);
}

#[test]
fn numbers_become_text_and_back() {
    let mut text = String::from("n=");
    push_decimal(&mut text, 1200);
    assert_eq!(text, "n=1200");
    push_hexadecimal(&mut text, 0xbeef);
    assert_eq!(text, "n=1200beef");
    assert_eq!(parse_decimal("+42", 100), Some(42));
    assert_eq!(parse_decimal("101", 100), None);
    assert_eq!(parse_decimal("", 100), None);
    assert_eq!(parse_decimal("4 2", 100), None);
    assert!(has_prefix("/dev/root", "/dev"));
    assert!(!has_prefix("/de", "/dev"));
    assert!(same_text("a", "a"));
    assert!(holds_char("a\"b", '"'));
}

#[test]
fn bytes_have_an_order() {
    let mut bytes = vec![0u8; 16];
    put_le_u16(&mut bytes, 0, 0x1234);
    put_le_u32(&mut bytes, 2, 0xdead_beef);
    put_le_u64(&mut bytes, 8, 0x0102_0304_0506_0708);
    assert_eq!(bytes[0], 0x34);
    assert_eq!(get_le_u16(&bytes, 0), 0x1234);
    assert_eq!(get_le_u32(&bytes, 2), 0xdead_beef);
    assert_eq!(get_le_u64(&bytes, 8), 0x0102_0304_0506_0708);
    assert_eq!(get_be_u16(&bytes, 8), 0x0807);
    assert_eq!(get_be_u32(&bytes, 8), 0x0807_0605);
    assert_eq!(i32_to_u32(-1), u32::MAX);
    assert_eq!(u32_to_i32(u32::MAX), -1);
    let mut all = join_parts(&vec![vec![1, 2], vec![], vec![3]]);
    push_all(&mut all, &[4]);
    assert_eq!(all, vec![1, 2, 3, 4]);
    assert_eq!(VirtioBalloonConfig::default().to_bytes(), vec![0u8; 16]);
}

#[test]
fn memory_layout_of_the_machine() {
    assert_eq!(layout::DRAM_MEM_START_KERNEL, 0x8000_0000);
    assert_eq!(layout::DRAM_MEM_MAX_SIZE, 0xff_0000_0000);
    assert_eq!(layout::VTIMER_IRQ, 27);
    assert_eq!(layout::PCIE_MMIO32_BASE + layout::PCIE_MMIO32_SIZE, layout::PCIE_ECAM_BASE);
}

#[test]
fn block_numbers_are_those_of_the_interface() {
    assert_eq!(request::VIRTIO_BLK_T_IN, virtio_blk::VIRTIO_BLK_T_IN);
    assert_eq!(request::VIRTIO_BLK_T_OUT, virtio_blk::VIRTIO_BLK_T_OUT);
    assert_eq!(request::VIRTIO_BLK_T_FLUSH, virtio_blk::VIRTIO_BLK_T_FLUSH);
    assert_eq!(request::VIRTIO_BLK_T_GET_ID, virtio_blk::VIRTIO_BLK_T_GET_ID);
    assert_eq!(request::VIRTIO_BLK_T_DISCARD, virtio_blk::VIRTIO_BLK_T_DISCARD);
    assert_eq!(request::VIRTIO_BLK_T_WRITE_ZEROES, virtio_blk::VIRTIO_BLK_T_WRITE_ZEROES);
    assert_eq!(
        request::VIRTIO_BLK_WRITE_ZEROES_FLAG_UNMAP,
        virtio_blk::VIRTIO_BLK_WRITE_ZEROES_FLAG_UNMAP
    );
    assert_eq!(request::VIRTIO_BLK_ID_BYTES, virtio_blk::VIRTIO_BLK_ID_BYTES as usize);
    assert_eq!(request::VIRTIO_BLK_S_OK as u32, virtio_blk::VIRTIO_BLK_S_OK);
    assert_eq!(request::VIRTIO_BLK_S_IOERR as u32, virtio_blk::VIRTIO_BLK_S_IOERR);
    assert_eq!(BLOCK_FEATURE_FLUSH, 1 << virtio_blk::VIRTIO_BLK_F_FLUSH);
    assert_eq!(BLOCK_FEATURE_RO, 1 << virtio_blk::VIRTIO_BLK_F_RO);
    assert_eq!(
        BLOCK_BASE_FEATURES,
        1 << virtio_config::VIRTIO_F_VERSION_1
            | 1 << virtio_ring::VIRTIO_RING_F_EVENT_IDX
            | 1 << virtio_blk::VIRTIO_BLK_F_SEG_MAX
            | 1 << virtio_blk::VIRTIO_BLK_F_DISCARD
            | 1 << virtio_blk::VIRTIO_BLK_F_WRITE_ZEROES
    );
}

#[test]
fn network_numbers_are_those_of_the_interface() {
    assert_eq!(backend::NET_F_CSUM, 1 << virtio_net::VIRTIO_NET_F_CSUM);
    assert_eq!(backend::NET_F_HOST_TSO4, 1 << virtio_net::VIRTIO_NET_F_HOST_TSO4);
    assert_eq!(backend::NET_F_HOST_TSO6, 1 << virtio_net::VIRTIO_NET_F_HOST_TSO6);
    assert_eq!(worker::VNET_HDR_LEN, std::mem::size_of::<virtio_net::virtio_net_hdr_v1>());
    assert_eq!(worker::VIRTIO_NET_CTRL_MQ as u32, virtio_net::VIRTIO_NET_CTRL_MQ);
    assert_eq!(
        worker::VIRTIO_NET_CTRL_MQ_VQ_PAIRS_SET as u32,
        virtio_net::VIRTIO_NET_CTRL_MQ_VQ_PAIRS_SET
    );
    assert_eq!(worker::VIRTIO_NET_OK as u32, virtio_net::VIRTIO_NET_OK);
    assert_eq!(worker::VIRTIO_NET_ERR as u32, virtio_net::VIRTIO_NET_ERR);
    assert_eq!(
        NET_MULTIQUEUE_FEATURES,
        1 << virtio_net::VIRTIO_NET_F_MQ | 1 << virtio_net::VIRTIO_NET_F_CTRL_VQ
    );
    assert_eq!(
        NET_BASE_FEATURES,
        1 << virtio_config::VIRTIO_F_VERSION_1
            | 1 << virtio_ring::VIRTIO_RING_F_EVENT_IDX
            | 1 << virtio_net::VIRTIO_NET_F_MAC
    );
}

#[test]
fn vfio_numbers_are_those_of_the_interface() {
    assert_eq!(own_vfio::VFIO_API_VERSION, vfio::VFIO_API_VERSION);
    assert_eq!(own_vfio::VFIO_GROUP_FLAGS_VIABLE, vfio::VFIO_GROUP_FLAGS_VIABLE);
    assert_eq!(own_vfio::VFIO_DEVICE_FLAGS_PCI, vfio::VFIO_DEVICE_FLAGS_PCI);
    assert_eq!(own_vfio::VFIO_PCI_CONFIG_REGION_INDEX, vfio::VFIO_PCI_CONFIG_REGION_INDEX);
    assert_eq!(own_vfio::VFIO_REGION_INFO_FLAG_READ, vfio::VFIO_REGION_INFO_FLAG_READ);
    assert_eq!(own_vfio::VFIO_REGION_INFO_FLAG_WRITE, vfio::VFIO_REGION_INFO_FLAG_WRITE);
    assert_eq!(own_vfio::VFIO_REGION_INFO_FLAG_MMAP, vfio::VFIO_REGION_INFO_FLAG_MMAP);
    assert_eq!(
        own_vfio::IRQ_SET_EVENTFDS,
        vfio::VFIO_IRQ_SET_DATA_EVENTFD | vfio::VFIO_IRQ_SET_ACTION_TRIGGER
    );
    assert_eq!(
        own_vfio::IRQ_SET_NONE,
        vfio::VFIO_IRQ_SET_DATA_NONE | vfio::VFIO_IRQ_SET_ACTION_TRIGGER
    );
    assert_eq!(own_vfio::IRQ_SET_HEADER_BYTES, std::mem::size_of::<vfio::vfio_irq_set>());
}

//! Socket packets and datagrams between guest and host.

use krun::descriptor::Descriptor;
use krun::epoll::EventSet;
use krun::host::HostOs;
use krun::vsock::backend::{cleared, WakeRead};
use krun::vsock::dgram::{
    BatchAction, BatchEvent, DatagramProxy, DatagramStep, ProxyRemoval, ReceiveBatch, SendOutcome,
};
use krun::vsock::packet::{
    parse_linux_address, parse_macos_address, plan_tx_data, TsiAddress, TsiConnectRsp, VsockError,
    VsockPacket, VSOCK_PKT_HDR_SIZE,
};
use vm_memory::{Bytes, GuestAddress, GuestMemoryMmap};

fn memory() -> GuestMemoryMmap {
    GuestMemoryMmap::from_ranges(&[(GuestAddress(0), 0x20000)]).unwrap()
}

fn fragmented_chain(tail_len: u32, tail_writable: bool) -> Vec<Descriptor> {
    vec![
        Descriptor { addr: 0x2000, len: VSOCK_PKT_HDR_SIZE as u32, write_only: false },
        Descriptor { addr: 0x3000, len: 32768, write_only: false },
        Descriptor { addr: 0x13000, len: tail_len, write_only: tail_writable },
    ]
}

fn fragmented_packet(
    mem: &GuestMemoryMmap,
    declared_len: u32,
    chain: &[Descriptor],
) -> Result<VsockPacket, VsockError> {
    let mut header = [0u8; VSOCK_PKT_HDR_SIZE];
    header[24..28].copy_from_slice(&declared_len.to_le_bytes());
    mem.write_slice(&header, GuestAddress(0x2000)).unwrap();
    mem.write_slice(&vec![b'a'; 32768], GuestAddress(0x3000)).unwrap();
    mem.write_slice(&vec![b'b'; 32768], GuestAddress(0x13000)).unwrap();
    VsockPacket::from_tx_virtq_head(mem, chain)
}

#[test]
fn gathers_fragmented_tx_without_forwarding_descriptor_padding() {
    let mem = memory();
    let packet = fragmented_packet(&mem, 65535, &fragmented_chain(32768, false)).ok().unwrap();
    let mut expected = vec![b'a'; 32768];
    expected.extend_from_slice(&vec![b'b'; 32767]);
    assert_eq!(packet.payload().unwrap(), expected);
}

#[test]
fn rejects_writable_fragment() {
    let mem = memory();
    assert!(matches!(
        fragmented_packet(&mem, 65535, &fragmented_chain(32768, true)),
        Err(VsockError::UnreadableDescriptor)
    ));
}

#[test]
fn rejects_truncated_fragment_chain() {
    let mem = memory();
    assert!(fragmented_packet(&mem, 65535, &fragmented_chain(32768, false)).is_ok());
    assert!(matches!(
        fragmented_packet(&mem, 65535, &fragmented_chain(1, false)),
        Err(VsockError::BufDescTooSmall)
    ));
}

#[test]
fn headers_are_checked() {
    let mem = memory();
    let short = [Descriptor { addr: 0x2000, len: 10, write_only: false }];
    assert!(matches!(
        VsockPacket::from_tx_virtq_head(&mem, &short),
        Err(VsockError::HdrDescTooSmall(10))
    ));
    let writable = [Descriptor { addr: 0x2000, len: 44, write_only: true }];
    assert!(matches!(
        VsockPacket::from_tx_virtq_head(&mem, &writable),
        Err(VsockError::UnreadableDescriptor)
    ));
    assert!(matches!(
        fragmented_packet(&mem, 65537, &fragmented_chain(32768, false)),
        Err(VsockError::InvalidPktLen(65537))
    ));
    let alone = [Descriptor { addr: 0x2000, len: 44, write_only: false }];
    assert!(matches!(
        fragmented_packet(&mem, 8, &alone),
        Err(VsockError::BufDescMissing)
    ));
    let outside = [Descriptor { addr: 0x40000, len: 44, write_only: false }];
    assert!(matches!(
        VsockPacket::from_tx_virtq_head(&mem, &outside),
        Err(VsockError::GuestMemoryMmap)
    ));
    let readable = [Descriptor { addr: 0x2000, len: 44, write_only: false }];
    assert!(matches!(
        VsockPacket::from_rx_virtq_head(&mem, &readable, false),
        Err(VsockError::UnwritableDescriptor)
    ));
}

fn rx_packet(mem: &GuestMemoryMmap, buf_len: u32) -> VsockPacket {
    let chain = [
        Descriptor { addr: 0x2000, len: VSOCK_PKT_HDR_SIZE as u32, write_only: true },
        Descriptor { addr: 0x3000, len: buf_len, write_only: true },
    ];
    VsockPacket::from_rx_virtq_head(mem, &chain, true).ok().unwrap()
}

#[test]
fn received_data_needs_a_writable_descriptor() {
    let mem = memory();
    let header = Descriptor { addr: 0x2000, len: VSOCK_PKT_HDR_SIZE as u32, write_only: true };
    let data = Descriptor { addr: 0x3000, len: 4096, write_only: false };
    assert!(matches!(
        VsockPacket::from_rx_virtq_head(&mem, &[header, data], true),
        Err(VsockError::UnwritableDescriptor)
    ));
    let writable = Descriptor { write_only: true, ..data };
    assert!(VsockPacket::from_rx_virtq_head(&mem, &[header, writable], true).is_ok());
    assert!(matches!(
        VsockPacket::from_rx_virtq_head(&mem, &[header], false),
        Err(VsockError::BufDescMissing)
    ));
}

#[test]
fn header_fields_do_not_touch_each_other() {
    let mem = memory();
    let mut packet = rx_packet(&mem, 64);
    packet
        .set_src_cid(2)
        .set_dst_cid(3)
        .set_src_port(0x1234)
        .set_dst_port(0x5678)
        .set_len(8)
        .set_type(1)
        .set_op(5)
        .set_flags(2)
        .set_flag(1)
        .set_buf_alloc(4096)
        .set_fwd_cnt(77);
    assert_eq!(packet.src_cid(), 2);
    assert_eq!(packet.dst_cid(), 3);
    assert_eq!(packet.src_port(), 0x1234);
    assert_eq!(packet.dst_port(), 0x5678);
    assert_eq!(packet.len(), 8);
    assert_eq!(packet.type_(), 1);
    assert_eq!(packet.op(), 5);
    assert_eq!(packet.flags(), 3);
    assert_eq!(packet.buf_alloc(), 4096);
    assert_eq!(packet.fwd_cnt(), 77);
    assert_eq!(packet.hdr().len(), VSOCK_PKT_HDR_SIZE);

    packet.buf_mut().unwrap()[..4].copy_from_slice(&[9, 8, 7, 6]);
    assert!(packet.write_back(&mem));
    let mut back = [0u8; 4];
    mem.read_slice(&mut back, GuestAddress(0x3000)).unwrap();
    assert_eq!(back, [9, 8, 7, 6]);
    let mut port = [0u8; 4];
    mem.read_slice(&mut port, GuestAddress(0x2010)).unwrap();
    assert_eq!(u32::from_le_bytes(port), 0x1234);
}

#[test]
fn packet_reaches_its_guest_memory() {
    let mem = memory();
    let mut packet = rx_packet(&mem, 64);
    packet.set_len(9);
    packet.buf_mut().unwrap()[..3].copy_from_slice(b"abc");
    let writes = packet.pending_writes();
    assert_eq!(writes.len(), 2);
    assert_eq!((writes[0].0, writes[0].1), (0x2000, packet.hdr()));
    assert_eq!((writes[1].0, writes[1].1), (0x3000, packet.buf().unwrap()));
    assert!(packet.write_back(&mem));
    let mut header = [0u8; VSOCK_PKT_HDR_SIZE];
    mem.read_slice(&mut header, GuestAddress(0x2000)).unwrap();
    assert_eq!(header.as_slice(), packet.hdr());
    assert_eq!(&header[24..28], &9u32.to_le_bytes());
    let mut data = [0u8; 3];
    mem.read_slice(&mut data, GuestAddress(0x3000)).unwrap();
    assert_eq!(&data, b"abc");
    let gathered = fragmented_packet(&mem, 65535, &fragmented_chain(32768, false)).ok().unwrap();
    assert_eq!(gathered.pending_writes().len(), 1);
}

#[test]
fn replies_are_written_into_the_buffer() {
    let mem = memory();
    let mut packet = rx_packet(&mem, 64);
    packet.write_connect_rsp(TsiConnectRsp { result: -111 });
    assert_eq!(&packet.buf().unwrap()[..4], &(-111i32).to_le_bytes());
    packet.write_time_sync(0x0102_0304_0506_0708);
    assert_eq!(&packet.buf().unwrap()[..8], &0x0102_0304_0506_0708u64.to_le_bytes());
}

#[test]
fn requests_are_read_from_the_buffer() {
    let mem = memory();
    let mut packet = rx_packet(&mem, 64);
    {
        let buf = packet.buf_mut().unwrap();
        buf[..4].copy_from_slice(&7u32.to_le_bytes());
        buf[4..6].copy_from_slice(&2u16.to_le_bytes());
        buf[6..8].copy_from_slice(&1u16.to_le_bytes());
    }
    let create = packet.read_proxy_create().unwrap();
    assert_eq!((create.peer_port, create.family, create._type), (7, 2, 1));
    let release = packet.read_release_req().unwrap();
    assert_eq!(release.peer_port, 7);
    {
        let buf = packet.buf_mut().unwrap();
        buf[..4].copy_from_slice(&9u32.to_le_bytes());
        buf[4..8].copy_from_slice(&16u32.to_le_bytes());
        buf[8..10].copy_from_slice(&2u16.to_le_bytes());
        buf[10..12].copy_from_slice(&80u16.to_be_bytes());
        buf[12..16].copy_from_slice(&[10, 0, 0, 1]);
    }
    let connect = packet.read_connect_req(HostOs::Linux).unwrap();
    assert_eq!(connect.peer_port, 9);
    assert!(!matches!(connect.addr, TsiAddress::V6 { .. }));
}

#[test]
fn local_addresses_end_at_the_first_zero() {
    let mem = memory();
    let mut packet = rx_packet(&mem, 110);
    {
        let buf = packet.buf_mut().unwrap();
        buf[..2].copy_from_slice(&1u16.to_le_bytes());
        buf[2..11].copy_from_slice(b"/tmp/sock");
    }
    assert_eq!(packet.sa_family(), Some(1));
    assert_eq!(packet.unix_path(), Some("/tmp/sock"));
    packet.buf_mut().unwrap()[3] = 0xff;
    assert_eq!(packet.unix_path(), None);
    packet.buf_mut().unwrap()[2..].fill(b'a');
    assert_eq!(packet.unix_path(), None);
    assert_eq!(rx_packet(&mem, 107).unix_path(), None);

    let mut inet = rx_packet(&mem, 8);
    inet.buf_mut().unwrap().copy_from_slice(&[2, 0, 0, 80, 10, 0, 0, 1]);
    assert_eq!(inet.inet_port(), Some(80));
    assert_eq!(inet.inet_addr(), Some([10, 0, 0, 1]));
    assert_eq!(rx_packet(&mem, 3).inet_port(), None);
}

#[test]
fn addresses_depend_on_the_family() {
    let mut inet = vec![0u8; 16];
    inet[..2].copy_from_slice(&2u16.to_le_bytes());
    inet[2..4].copy_from_slice(&443u16.to_be_bytes());
    inet[4..8].copy_from_slice(&[1, 2, 3, 4]);
    match parse_macos_address(&inet) {
        Some(TsiAddress::V4 { addr, port }) => assert_eq!((addr, port), ([1, 2, 3, 4], 443)),
        _ => panic!("expected an IPv4 address"),
    }
    assert!(parse_linux_address(&inet, 16).is_some());
    assert!(parse_linux_address(&inet, 17).is_none());
}

#[test]
fn data_is_planned_from_readable_descriptors() {
    let chain = [
        Descriptor { addr: 0x500, len: 44, write_only: false },
        Descriptor { addr: 0x1000, len: 10, write_only: false },
        Descriptor { addr: 0x2000, len: 10, write_only: false },
    ];
    let (pieces, result) = plan_tx_data(&chain, 15);
    assert!(result.is_ok());
    assert_eq!(pieces.len(), 2);
    assert_eq!(pieces[1].len, 5);
}

#[test]
fn datagrams_are_received_in_batches() {
    let (mut batch, action) = ReceiveBatch::start(false);
    assert!(matches!(action, BatchAction::Receive));
    assert!(matches!(
        batch.step(BatchEvent::Received { len: 9, truncated: false }),
        Some(BatchAction::Deliver { len: 9 })
    ));
    assert!(matches!(batch.step(BatchEvent::Delivered), Some(BatchAction::Receive)));
    assert!(matches!(
        batch.step(BatchEvent::WouldBlock),
        Some(BatchAction::Finish { delivered: true })
    ));
}

#[test]
fn datagram_proxy_uses_its_notifier_without_a_descriptor() {
    let proxy = DatagramProxy::new(1, 3, 1024, 2048, None, 42);
    assert!(proxy.uses_notifier());
    assert_eq!(proxy.pollable(), 42);
    let direct = DatagramProxy::new(1, 3, 1024, 2048, Some(7), 42);
    assert_eq!(direct.pollable(), 7);
    assert_eq!(direct.id(), 1);
    assert_eq!(proxy.release().remove_proxy, ProxyRemoval::Immediate);
    assert_eq!(proxy.sendmsg(SendOutcome::Sent).remove_proxy, ProxyRemoval::Keep);
    assert!(proxy.batch_done(Some(true)).signal_queue);
    assert!(matches!(proxy.process_event(EventSet { bits: 1 }), DatagramStep::ReceiveBatch));
    assert_eq!(cleared(WakeRead::WouldBlock), Ok(()));
    assert_eq!(cleared(WakeRead::Failed(9)), Err(9));
}

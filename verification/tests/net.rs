//! The network device, its worker and its backends.

use krun::descriptor::Descriptor;
use krun::epoll::EventSet;
use krun::net::backend::{NetBackend, ReadError, WriteError};
use krun::net::device::Net;
use krun::net::flow::flow_queue_index;
use krun::net::namedpipe::{
    frame_to_write, frame_written, is_pipe_closed, operation_pending, NamedPipe, OpenAction,
    PipeFault, PipeOpening, PipeReadError, PipeWriteError, ReaderStep, ERROR_BROKEN_PIPE,
    ERROR_IO_PENDING, ERROR_MORE_DATA, ERROR_PIPE_BUSY, MAX_FRAME_LEN, PIPE_BUSY_RETRIES,
};
use krun::net::worker::{
    control_signals, control_used_len, dispatch, finish_frame, frame_part, gather_tx_frame,
    is_rx_queue_event,
    is_tx_queue_event, plan_frame_writes, plan_tx_reads, write_frame_to_guest_impl, Delivery,
    DeliveryStep, FrontendError, NetStep, NetWorker, RxAction, RxEvent, RxPass, RxResult, TxAction,
    TxEvent, TxPass, TxResult, CONTROL_QUEUE_EVENT, TX_QUEUE_EVENT_BASE, VNET_HDR_LEN,
};
use vm_memory::{Bytes, GuestAddress, GuestMemoryMmap};

fn ipv4_tcp_frame(source_port: u16, destination_port: u16, payload: &[u8]) -> Vec<u8> {
    let mut frame = vec![0u8; 14 + 20 + 20];
    frame.extend_from_slice(payload);
    frame[12..14].copy_from_slice(&0x0800u16.to_be_bytes());
    frame[14] = 0x45;
    frame[23] = 6;
    frame[26..30].copy_from_slice(&[192, 0, 2, 1]);
    frame[30..34].copy_from_slice(&[198, 51, 100, 2]);
    frame[34..36].copy_from_slice(&source_port.to_be_bytes());
    frame[36..38].copy_from_slice(&destination_port.to_be_bytes());
    frame
}

#[test]
fn flow_queue_hash_ignores_tcp_payload_changes() {
    let mut first = ipv4_tcp_frame(1234, 443, &[1, 2, 3]);
    let mut second = ipv4_tcp_frame(1234, 443, &[9, 8, 7, 6]);

    assert_eq!(flow_queue_index(&first, 2), flow_queue_index(&second, 2));
    first[34 + 4..34 + 8].copy_from_slice(&100u32.to_be_bytes());
    second[34 + 4..34 + 8].copy_from_slice(&200u32.to_be_bytes());
    assert_eq!(flow_queue_index(&first, 2), flow_queue_index(&second, 2));
}

#[test]
fn event_tokens_do_not_overlap_queue_classes() {
    assert!(is_rx_queue_event(0, 2));
    assert!(is_rx_queue_event(1, 2));
    assert!(!is_rx_queue_event(TX_QUEUE_EVENT_BASE, 2));
    assert!(is_tx_queue_event(TX_QUEUE_EVENT_BASE + 1, 2));
    assert!(!is_tx_queue_event(CONTROL_QUEUE_EVENT, 2));
}

#[test]
fn ipv6_flow_ignores_the_payload() {
    let frame = |payload: &[u8], hop_limit: u8| {
        let mut frame = vec![0u8; 14 + 40 + 8];
        frame.extend_from_slice(payload);
        frame[12..14].copy_from_slice(&0x86ddu16.to_be_bytes());
        frame[20] = 17;
        frame[21] = hop_limit;
        frame[22..54].copy_from_slice(&[7u8; 32]);
        frame[54..56].copy_from_slice(&53u16.to_be_bytes());
        frame[56..58].copy_from_slice(&5353u16.to_be_bytes());
        frame
    };
    for pairs in 1..9 {
        assert_eq!(
            flow_queue_index(&frame(&[1, 2, 3], 64), pairs),
            flow_queue_index(&frame(&[9], 1), pairs)
        );
    }
    assert_eq!(flow_queue_index(&[1, 2, 3], 1), 0);
    assert_eq!(flow_queue_index(b"", 7), 2);
    assert_eq!(flow_queue_index(b"a", 1_000_003), 783_675);
}

struct TestBackend {
    queue_pairs: u16,
}

impl NetBackend for TestBackend {
    fn max_queue_pairs(&self) -> u16 {
        self.queue_pairs
    }

    fn read_frame(&mut self, _buf: &mut [u8]) -> Result<usize, ReadError> {
        Err(ReadError::NothingRead)
    }

    fn write_frame(&mut self, _hdr_len: usize, _buf: &mut [u8]) -> Result<(), WriteError> {
        Ok(())
    }

    fn has_unfinished_write(&self) -> bool {
        false
    }

    fn try_finish_write(&mut self, _hdr_len: usize, _buf: &[u8]) -> Result<(), WriteError> {
        Ok(())
    }
}

struct PlainBackend;

impl NetBackend for PlainBackend {
    fn read_frame(&mut self, _buf: &mut [u8]) -> Result<usize, ReadError> {
        Err(ReadError::NothingRead)
    }

    fn write_frame(&mut self, _hdr_len: usize, _buf: &mut [u8]) -> Result<(), WriteError> {
        Ok(())
    }

    fn has_unfinished_write(&self) -> bool {
        false
    }

    fn try_finish_write(&mut self, _hdr_len: usize, _buf: &[u8]) -> Result<(), WriteError> {
        Ok(())
    }
}

#[test]
fn plain_backend_has_one_pair_and_no_features() {
    assert_eq!(PlainBackend.max_queue_pairs(), 1);
    assert_eq!(PlainBackend.supported_features(), 0);
}

#[test]
fn backend_multiqueue_capability_adds_pairs_control_queue_and_features() {
    let backend = TestBackend { queue_pairs: 2 };
    let device = Net::new(
        "net".to_string(),
        Some((backend.supported_features(), backend.max_queue_pairs())),
        [0x02, 0, 0, 0, 0, 1],
        0,
        8,
    );

    assert_eq!(device.queue_count(), 5);
    assert_ne!(
        device.avail_features() & (1 << virtio_bindings::virtio_net::VIRTIO_NET_F_MQ),
        0
    );
    assert_ne!(
        device.avail_features() & (1 << virtio_bindings::virtio_net::VIRTIO_NET_F_CTRL_VQ),
        0
    );
    let mut max_pairs = [0u8; 2];
    device.read_config(8, &mut max_pairs);
    assert_eq!(u16::from_le_bytes(max_pairs), 2);
}

#[test]
fn queue_pairs_are_limited() {
    let mut device = Net::new("net".to_string(), Some((0, 64)), [2, 0, 0, 0, 0, 1], 0, 8);
    assert_eq!(device.queue_count(), 17);
    let plain = Net::new("eth".to_string(), None, [2, 0, 0, 0, 0, 1], 0, 8);
    assert_eq!(plain.queue_count(), 2);
    assert_eq!(plain.id(), "eth");
    assert!(device.activate(3).is_err());
    let queues = device.activate(17).ok().unwrap();
    assert_eq!(queues.rx.len(), 8);
    assert_eq!(queues.control, Some(16));
    assert!(device.worker_started(true).is_ok());
    assert!(device.is_activated());
}

#[test]
fn events_are_dispatched() {
    let readable = EventSet { bits: 1 };
    assert_eq!(dispatch(1, readable, 2), NetStep::Receive { queue_index: 1 });
    assert_eq!(
        dispatch(TX_QUEUE_EVENT_BASE, readable, 2),
        NetStep::Transmit { queue_index: 0 }
    );
    assert_eq!(dispatch(CONTROL_QUEUE_EVENT, readable, 2), NetStep::Control);
    assert_eq!(dispatch(0, EventSet { bits: 4 }, 2), NetStep::Ignore);
}

#[test]
fn control_sets_active_pairs() {
    let mut worker = NetWorker::new(4);
    let mut request = vec![4u8, 0];
    request.extend_from_slice(&3u16.to_le_bytes());
    assert_eq!(worker.control(Some(&request)), 0);
    assert_eq!(worker.active_queue_pairs, 3);
    request[2] = 5;
    assert_eq!(worker.control(Some(&request)), 1);
    assert_eq!(worker.active_queue_pairs, 3);
    assert_eq!(worker.control(None), 1);
    assert!(worker.serves_tx(2));
    assert!(!worker.serves_tx(3));
    assert_eq!(control_used_len(true, true), 1);
    assert!(control_signals(true, Some(true)));
    assert!(!control_signals(false, Some(true)));
}

#[test]
fn frames_are_written_to_guest_memory() {
    let mem = GuestMemoryMmap::from_ranges(&[(GuestAddress(0), 0x10000)]).unwrap();
    let chain = [
        Descriptor { addr: 0x1000, len: 4, write_only: true },
        Descriptor { addr: 0x2000, len: 8, write_only: true },
    ];
    let frame = [1u8, 2, 3, 4, 5, 6];
    let (result, used) = write_frame_to_guest_impl(&mem, &chain, &frame);
    assert_eq!(result, Ok(()));
    assert_eq!(used, 6);
    let mut head = [0u8; 4];
    mem.read_slice(&mut head, GuestAddress(0x1000)).unwrap();
    assert_eq!(head, [1, 2, 3, 4]);
    let mut tail = [0u8; 2];
    mem.read_slice(&mut tail, GuestAddress(0x2000)).unwrap();
    assert_eq!(tail, [5, 6]);

    let (writes, _) = plan_frame_writes(&chain, 6);
    assert_eq!(frame_part(&frame, writes[0]), &[1, 2, 3, 4]);
    assert_eq!(frame_part(&frame, writes[1]), &[5, 6]);

    let (writes, result) = plan_frame_writes(&chain, 13);
    assert_eq!(result, Err(FrontendError::DescriptorChainTooSmall));
    assert_eq!(writes.len(), 2);
    let readable = [Descriptor { addr: 0x1000, len: 4, write_only: false }];
    let (result, used) = write_frame_to_guest_impl(&mem, &readable, &frame);
    assert_eq!(result, Err(FrontendError::ReadOnlyDescriptor));
    assert_eq!(used, 0);
    let outside = [Descriptor { addr: 0x20000, len: 64, write_only: true }];
    let (result, _) = write_frame_to_guest_impl(&mem, &outside, &frame);
    assert_eq!(result, Err(FrontendError::GuestMemory));
    assert_eq!(finish_frame(6, Ok(()), false), (Ok(()), 6));
}

#[test]
fn transmitted_frames_are_gathered() {
    let mem = GuestMemoryMmap::from_ranges(&[(GuestAddress(0), 0x10000)]).unwrap();
    mem.write_slice(&[7u8; 16], GuestAddress(0x1000)).unwrap();
    mem.write_slice(&[9u8; 16], GuestAddress(0x2000)).unwrap();
    let chain = [
        Descriptor { addr: 0x1000, len: 3, write_only: false },
        Descriptor { addr: 0x2000, len: 2, write_only: false },
    ];
    assert_eq!(plan_tx_reads(&chain).len(), 2);
    assert_eq!(gather_tx_frame(&mem, &chain), vec![7, 7, 7, 9, 9]);
}

#[test]
fn receive_pass_defers_what_cannot_be_delivered() {
    let (mut pass, action) = RxPass::start(false);
    assert!(matches!(action, RxAction::ReadFrame));
    assert!(matches!(pass.step(RxEvent::FrameRead), Some(RxAction::DeliverFrame)));
    assert!(matches!(
        pass.step(RxEvent::Delivered { delivered: false }),
        Some(RxAction::Finish(RxResult::Done))
    ));
    assert!(pass.deferred);

    let (mut pass, action) = RxPass::start(true);
    assert!(matches!(action, RxAction::DeliverFrame));
    assert!(matches!(
        pass.step(RxEvent::Delivered { delivered: true }),
        Some(RxAction::ReadFrame)
    ));
    assert!(!pass.deferred);
    assert!(matches!(
        pass.step(RxEvent::NothingRead),
        Some(RxAction::Finish(RxResult::Done))
    ));
}

#[test]
fn delivery_tries_every_descriptor_once() {
    let (mut delivery, step) = Delivery::new(1);
    assert!(matches!(step, DeliveryStep::Attempt));
    assert!(matches!(
        delivery.attempted(Err(FrontendError::DescriptorChainTooSmall)),
        DeliveryStep::Finished { delivered: false }
    ));
}

#[test]
fn transmit_pass_keeps_a_partial_frame() {
    let (mut pass, action) = TxPass::start(0, false);
    assert!(matches!(action, TxAction::Pop));
    assert!(matches!(pass.step(TxEvent::Gathered { len: 60 }), Some(TxAction::WriteFrame)));
    let action = pass.step(TxEvent::Written(Err(WriteError::PartialWrite)));
    assert!(matches!(action, Some(TxAction::AddUsed)));
    assert_eq!(pass.frame_len, 60);

    let (mut pass, _) = TxPass::start(0, false);
    pass.step(TxEvent::Gathered { len: 60 });
    let action = pass.step(TxEvent::Written(Err(WriteError::NothingWritten)));
    assert!(matches!(action, Some(TxAction::UndoPop)));
    let mut ended = pass.step(TxEvent::Undone);
    while let Some(action) = ended {
        ended = match action {
            TxAction::Ask => pass.step(TxEvent::Answered { needed: false }),
            TxAction::Finish(result) => {
                assert!(matches!(result, TxResult::Done | TxResult::Backend(_)));
                None
            }
            _ => panic!("expected the pass to end"),
        };
    }
}

#[test]
fn pipe_frames_come_behind_an_empty_header() {
    let mut pipe = NamedPipe::new();
    let mut buf = vec![0xffu8; 64];
    assert_eq!(pipe.read_frame(&mut buf), (Err(PipeReadError::NothingRead), true));

    let mut message = vec![0u8; MAX_FRAME_LEN];
    message[..4].copy_from_slice(&[0xca, 0xfe, 0xba, 0xbe]);
    assert_eq!(pipe.message_read(message, Ok(4)), ReaderStep::Read { wake: true });
    assert_eq!(pipe.message_read(vec![0u8; 4], Ok(0)), ReaderStep::Read { wake: false });
    assert_eq!(pipe.read_frame(&mut buf), (Ok(VNET_HDR_LEN + 4), true));
    assert_eq!(&buf[..VNET_HDR_LEN], &[0u8; VNET_HDR_LEN]);
    assert_eq!(&buf[VNET_HDR_LEN..VNET_HDR_LEN + 4], &[0xca, 0xfe, 0xba, 0xbe]);
    assert_eq!(buf[VNET_HDR_LEN + 4], 0xff);

    pipe.message_read(vec![1u8; 100], Ok(100));
    assert_eq!(
        pipe.read_frame(&mut buf),
        (Err(PipeReadError::Internal(PipeFault::FrameTooLarge)), true)
    );
}

#[test]
fn pipe_faults_are_reported_once() {
    let mut pipe = NamedPipe::default();
    let mut buf = vec![0u8; 64];
    assert_eq!(pipe.message_read(Vec::new(), Err(Some(ERROR_BROKEN_PIPE))), ReaderStep::Stop);
    assert_eq!(pipe.read_frame(&mut buf).0, Err(PipeReadError::NothingRead));
    pipe.message_read(Vec::new(), Err(Some(ERROR_MORE_DATA)));
    assert_eq!(
        pipe.read_frame(&mut buf).0,
        Err(PipeReadError::Internal(PipeFault::FrameExceedsBuffer))
    );
    assert_eq!(pipe.read_frame(&mut buf).0, Err(PipeReadError::NothingRead));
    pipe.message_read(Vec::new(), Err(Some(5)));
    assert_eq!(
        pipe.read_frame(&mut buf).0,
        Err(PipeReadError::Internal(PipeFault::Os(Some(5))))
    );
}

#[test]
fn pipe_writes_have_to_be_whole() {
    assert_eq!(frame_to_write(12, 12), Err(PipeWriteError::NothingWritten));
    assert_eq!(frame_to_write(12, 16), Ok(4));
    assert_eq!(frame_written(4, Ok(4)), Ok(()));
    assert_eq!(frame_written(4, Ok(3)), Err(PipeWriteError::Internal(PipeFault::ShortWrite)));
    assert_eq!(
        frame_written(4, Err(Some(ERROR_BROKEN_PIPE))),
        Err(PipeWriteError::ProcessNotRunning)
    );
    assert_eq!(frame_written(4, Err(None)), Err(PipeWriteError::Internal(PipeFault::Os(None))));
    assert!(!is_pipe_closed(None));
    assert!(operation_pending(Some(ERROR_IO_PENDING)));
}

#[test]
fn busy_pipe_is_tried_a_few_times() {
    let mut opening = PipeOpening::start();
    assert_eq!(opening.next(), OpenAction::Open);
    let mut tries = 1;
    loop {
        assert_eq!(PipeOpening::opened(Err(Some(ERROR_PIPE_BUSY))), OpenAction::Wait);
        match opening.waited(true) {
            OpenAction::Open => tries += 1,
            action => {
                assert_eq!(action, OpenAction::TimedOut);
                break;
            }
        }
    }
    assert_eq!(tries, PIPE_BUSY_RETRIES);
    assert_eq!(PipeOpening::opened(Ok(())), OpenAction::SetMode);
    assert_eq!(PipeOpening::opened(Err(Some(2))), OpenAction::Fail);
    assert_eq!(PipeOpening::start().waited(false), OpenAction::Fail);
}

//! The block device: requests, the ring, buffers and write-back.

use krun::block::buffers::{BufferError, LinuxRawFileBuffer, SpanList};
use krun::block::device::{
    build_device_id, build_disk_image_id, plan_open, storage_path, Block, BlockError, CacheType,
    DiskProperties, ImageType, OpenPlan, SyncMode,
};
use krun::block::pending::{
    advance_spans, LinuxRawDirection, LinuxRawRequestData, PendingLinuxRawRequest,
    PendingLinuxRawRequests,
};
use krun::block::raw::{
    leading_spans, plan_bounce_copies, push_or_merge_linux_raw_buffer, snapshot_linux_raw_buffers,
    span_bytes, LinuxRawBouncePool,
};
use krun::block::request::{
    block_request_kind, bytes_moved, completion_of, duration_ns, finish_request, plan_request,
    plan_segment, request_data_scratch_vectors, sector_count_bytes, sector_offset, status_position,
    DiscardWriteData, RequestError, RequestHeader, RequestPlan,
};
use krun::block::ring::{
    classify_ring_request, linux_raw_request_is_aligned, ring_entry, LinuxRawCompletionPolicy,
    LinuxRawGeometry, RingTarget, BLOCK_CQ_WATERMARK_LOW,
};
use krun::block::ring_worker::{
    batch_queues, mark_completed, signal_after_synchronous, ChainAction, LinuxRawRing, ReapAction,
    RequestChain,
};
use krun::block::windows::{
    collect_windows_raw_chunks, complete_windows_raw_request, push_or_merge_windows_raw_buffer,
    single_direct_windows_raw_buffer, try_submit_windows_raw_request, windows_completion_write,
    windows_operation_outcome, ChunkError, CompletionWrite, FallbackStep,
    PendingWindowsBlockDirection, PendingWindowsBlockRequest, WindowsRawQueue,
    WindowsRawSubmission,
};
use krun::block::worker::{
    dispatch, dispatch_linux, local_drain_step, LocalDrainStep, QueueAction, QueueEvent, QueuePass,
    WorkerStep,
};
use krun::block::writeback::{
    sync_range_arguments, BufferedWritebackController, DirtyRange, PrepareStep, RangeError,
    WritebackAction, WritebackWindow, HARD_LIMIT_MULTIPLIER, MINIMUM_RANGE_BYTES,
};
use krun::descriptor::{Descriptor, GuestChunk};
use krun::epoll::EventSet;
use krun::host::HostOs;
use krun::metrics::BlockRequestKind;

fn span(ptr: usize, len: usize) -> LinuxRawFileBuffer {
    LinuxRawFileBuffer::new(ptr, len)
}

fn list(spans: &[LinuxRawFileBuffer]) -> SpanList {
    let mut list = SpanList::new();
    for span in spans {
        list.push(*span);
    }
    list
}

fn pending_guest_request(buffers: SpanList, data_len: usize) -> PendingLinuxRawRequest {
    PendingLinuxRawRequest {
        queue_index: 0,
        head_index: 0,
        direction: LinuxRawDirection::Read,
        data: LinuxRawRequestData::Guest { iovecs: SpanList::new(), buffers },
        status_ptr: 0,
        data_len,
        offset: 0,
        completed: 0,
    }
}

fn iovecs(request: &PendingLinuxRawRequest) -> &[LinuxRawFileBuffer] {
    match &request.data {
        LinuxRawRequestData::Guest { iovecs, .. } => iovecs.as_slice(),
        LinuxRawRequestData::Bounce { .. } => unreachable!(),
    }
}

#[test]
fn writable_vmdk_is_rejected() {
    let result = Block::new(
        "vmdk".to_string(),
        None,
        CacheType::Unsafe,
        ImageType::Vmdk,
        false,
        SyncMode::Off,
        0,
        512,
        None,
    );
    let error = match result {
        Ok(_) => panic!("writable VMDK should be rejected"),
        Err(error) => error,
    };
    assert!(matches!(error, BlockError::WritableVmdk));
    assert!(error.message().contains("VMDK write support"));
}

#[test]
fn sector_offset_rejects_overflow() {
    assert!(matches!(sector_offset(u64::MAX), Err(RequestError::InvalidDataLength)));
    assert!(matches!(sector_offset(3), Ok(1536)));
}

#[test]
fn sector_count_bytes_converts_to_bytes() {
    assert_eq!(sector_count_bytes(8).unwrap(), 4096);
}

#[test]
fn direct_linux_raw_requests_require_file_alignment() {
    assert!(linux_raw_request_is_aligned(true, 4096, 8192, 4096));
    assert!(!linux_raw_request_is_aligned(true, 4096, 512, 4096));
    assert!(!linux_raw_request_is_aligned(true, 4096, 8192, 512));
}

#[test]
fn buffered_linux_raw_requests_do_not_require_direct_alignment() {
    assert!(linux_raw_request_is_aligned(false, 4096, 512, 512));
}

#[test]
fn guest_iovec_cursor_advances_across_segments() {
    let buffers = list(&[span(0x1000, 4), span(0x2000, 8)]);
    let mut request = pending_guest_request(buffers, 12);

    request.rebuild_iovecs().unwrap();
    assert_eq!(iovecs(&request).len(), 2);
    assert_eq!(iovecs(&request)[0].ptr, 0x1000);
    assert_eq!(iovecs(&request)[0].len, 4);

    request.completed = 6;
    request.rebuild_iovecs().unwrap();
    assert_eq!(iovecs(&request).len(), 1);
    assert_eq!(iovecs(&request)[0].ptr, 0x2000 + 2);
    assert_eq!(iovecs(&request)[0].len, 6);
    assert_eq!(request.remaining(), 6);

    request.completed = 13;
    assert_eq!(request.rebuild_iovecs(), Err(BufferError::CursorExceeded));
}

#[test]
fn request_table_rejects_stale_generation_ids() {
    let buffer = span(0x4000, 512);
    let mut pending = PendingLinuxRawRequests::new();
    assert!(pending.is_empty());
    let first_id = pending.insert(pending_guest_request(list(&[buffer]), 512)).ok().unwrap();
    pending.remove(first_id).unwrap();
    let second_id = pending.insert(pending_guest_request(list(&[buffer]), 512)).ok().unwrap();

    assert_ne!(first_id, second_id);
    assert!(pending.get_mut(first_id).is_none());
    assert!(pending.get_mut(second_id).is_some());
    assert_eq!(pending.len(), 1);
}

#[test]
fn last_freed_slot_is_taken_first() {
    let buffer = span(0x4000, 512);
    let mut pending = PendingLinuxRawRequests::new();
    let ids: Vec<u64> = (0..3)
        .map(|_| pending.insert(pending_guest_request(list(&[buffer]), 512)).ok().unwrap())
        .collect();
    assert_eq!(ids, vec![1 << 32, (1 << 32) + 1, (1 << 32) + 2]);
    pending.remove(ids[0]).unwrap();
    pending.remove(ids[2]).unwrap();
    assert!(pending.get_mut(ids[1]).is_some());
    let next = |pending: &mut PendingLinuxRawRequests| {
        pending.insert(pending_guest_request(list(&[buffer]), 512)).ok().unwrap()
    };
    assert_eq!(next(&mut pending), (2 << 32) + 2);
    assert_eq!(next(&mut pending), 2 << 32);
    assert_eq!(next(&mut pending), (1 << 32) + 3);
}

#[test]
fn request_table_holds_a_bounded_number() {
    let mut pending = PendingLinuxRawRequests::new();
    let mut held = 0usize;
    while !pending.is_full() {
        assert!(pending.insert(pending_guest_request(list(&[]), 0)).is_ok());
        held += 1;
    }
    assert_eq!(pending.len(), held);
    assert!(pending.insert(pending_guest_request(list(&[]), 0)).is_err());
}

#[test]
fn bounce_pool_reuses_matching_allocations() {
    let mut pool = LinuxRawBouncePool::new();
    let mut first = pool.acquire(4096, 4096).unwrap();
    let first_ptr = first.as_mut().as_ptr() as usize;
    pool.release(first);
    let mut second = pool.acquire(4096, 4096).unwrap();

    assert_eq!(second.as_mut().as_ptr() as usize, first_ptr);
    assert_eq!(second.len(), 4096);

    pool.release(second);
    let other = pool.acquire(512, 512).unwrap();
    assert_eq!(other.len(), 512);
}

#[test]
fn completion_policy_parses_development_modes() {
    assert_eq!(
        LinuxRawCompletionPolicy::parse(None),
        Some(LinuxRawCompletionPolicy::WaitAll)
    );
    assert_eq!(
        LinuxRawCompletionPolicy::parse(Some("watermark-8")),
        Some(LinuxRawCompletionPolicy::WatermarkLow)
    );
    assert_eq!(
        LinuxRawCompletionPolicy::parse(Some("watermark-16")),
        Some(LinuxRawCompletionPolicy::WatermarkHigh)
    );
    assert_eq!(
        LinuxRawCompletionPolicy::parse(Some("local-drain")),
        Some(LinuxRawCompletionPolicy::LocalDrain)
    );
    assert_eq!(LinuxRawCompletionPolicy::parse(Some("unknown")), None);
    assert_eq!(
        LinuxRawCompletionPolicy::parse(Some("  immediate\t")),
        Some(LinuxRawCompletionPolicy::Immediate)
    );
    assert_eq!(
        LinuxRawCompletionPolicy::from_setting(Some("unknown")),
        LinuxRawCompletionPolicy::WaitAll
    );
}

#[test]
fn completion_policy_targets_are_bounded_by_pending_work() {
    assert_eq!(LinuxRawCompletionPolicy::WaitAll.completion_target(64), 64);
    assert_eq!(
        LinuxRawCompletionPolicy::WatermarkLow.completion_target(64),
        BLOCK_CQ_WATERMARK_LOW
    );
    assert_eq!(LinuxRawCompletionPolicy::WatermarkHigh.completion_target(4), 4);
    assert_eq!(LinuxRawCompletionPolicy::Immediate.completion_target(64), 0);
}

#[test]
fn dirty_range_merges_out_of_order_writes() {
    let first = DirtyRange::new(128, 64).unwrap();
    let second = DirtyRange::new(32, 48).unwrap();
    assert_eq!(first.merge(second), DirtyRange { start: 32, end: 192 });
    assert_eq!(DirtyRange::new(128, 0), None);
}

#[test]
fn rolling_window_rearms_without_a_guest_flush() {
    let trigger = MINIMUM_RANGE_BYTES;
    let mut window = WritebackWindow::new(trigger);

    assert_eq!(
        window.record_write(0, trigger),
        Some(WritebackAction::Advisory(DirtyRange { start: 0, end: trigger }))
    );
    window.complete_advisory();

    assert_eq!(
        window.record_write(trigger, trigger),
        Some(WritebackAction::Drain(DirtyRange { start: 0, end: trigger * 2 }))
    );
    window.complete_drain();

    assert_eq!(
        window.record_write(trigger * 2, trigger),
        Some(WritebackAction::Advisory(DirtyRange { start: trigger * 2, end: trigger * 3 }))
    );
}

#[test]
fn projected_hard_limit_drains_before_another_write() {
    let trigger = MINIMUM_RANGE_BYTES;
    let mut window = WritebackWindow::new(trigger);
    assert!(matches!(window.record_write(0, trigger), Some(WritebackAction::Advisory(_))));
    window.complete_advisory();

    assert_eq!(window.prepare_write(trigger + 1), Some(DirtyRange { start: 0, end: trigger }));
}

#[test]
fn successful_guest_flush_resets_both_watermarks() {
    let trigger = MINIMUM_RANGE_BYTES;
    let mut window = WritebackWindow::new(trigger);
    assert!(window.record_write(0, trigger).is_some());

    window.complete_flush();

    assert_eq!(window.batch_logical_bytes, 0);
    assert_eq!(window.batch_range, None);
    assert_eq!(window.outstanding_logical_bytes, 0);
    assert_eq!(window.outstanding_range, None);
    assert_eq!(window.prepare_write(trigger * 2), None);
}

#[test]
fn empty_write_does_not_change_the_window() {
    let mut window = WritebackWindow::new(MINIMUM_RANGE_BYTES);
    assert_eq!(window.record_write(1024, 0), None);
    assert_eq!(window.batch_range, None);
    assert_eq!(window.outstanding_range, None);
}

#[test]
fn oversized_request_is_refused_before_it_is_written() {
    let controller = BufferedWritebackController::new(MINIMUM_RANGE_BYTES);
    let limit = MINIMUM_RANGE_BYTES * HARD_LIMIT_MULTIPLIER;
    assert_eq!(controller.hard_limit_bytes(), limit);
    assert!(matches!(controller.prepare_write(limit + 1), PrepareStep::Refuse));
    assert!(matches!(controller.prepare_write(limit), PrepareStep::Proceed));
}

#[test]
fn controller_drains_what_it_has_recorded() {
    let mut controller = BufferedWritebackController::new(MINIMUM_RANGE_BYTES);
    let action = controller.record_write(0, MINIMUM_RANGE_BYTES);
    assert!(matches!(action, Some(WritebackAction::Advisory(_))));
    controller.advised(true);
    match controller.prepare_write(MINIMUM_RANGE_BYTES + 1) {
        PrepareStep::Drain(range) => {
            assert_eq!(range, DirtyRange { start: 0, end: MINIMUM_RANGE_BYTES })
        }
        _ => panic!("expected a drain"),
    }
    controller.drained(true);
    assert!(matches!(controller.prepare_write(MINIMUM_RANGE_BYTES + 1), PrepareStep::Proceed));
    controller.complete_flush();
    assert_eq!(controller.window.outstanding_range, None);
}

#[test]
fn sync_ranges_have_to_be_signed() {
    assert_eq!(sync_range_arguments(DirtyRange { start: 4096, end: 8192 }), Ok((4096, 4096)));
    assert_eq!(
        sync_range_arguments(DirtyRange { start: 1 << 63, end: (1 << 63) + 1 }),
        Err(RangeError::Offset)
    );
    assert_eq!(
        sync_range_arguments(DirtyRange { start: 0, end: 1 << 63 }),
        Err(RangeError::Length)
    );
}

#[test]
fn adjacent_buffers_merge() {
    let mut spans = SpanList::new();
    push_or_merge_linux_raw_buffer(&mut spans, span(0x1000, 0x100));
    push_or_merge_linux_raw_buffer(&mut spans, span(0x1100, 0x80));
    push_or_merge_linux_raw_buffer(&mut spans, span(0x3000, 0x10));
    assert_eq!(spans.as_slice(), &[span(0x1000, 0x180), span(0x3000, 0x10)]);
    assert_eq!(spans.len(), 2);
}

#[test]
fn snapshots_need_the_expected_length() {
    let slices = [span(0x1000, 8), span(0x1008, 8)];
    let spans = snapshot_linux_raw_buffers(&slices, 16).ok().unwrap();
    assert_eq!(spans.as_slice(), &[span(0x1000, 16)]);
    assert!(matches!(
        snapshot_linux_raw_buffers(&slices, 15),
        Err(BufferError::UnexpectedLength { total: 16, expected: 15 })
    ));
    assert!(matches!(
        snapshot_linux_raw_buffers(&[span(0, usize::MAX), span(0, 2)], 1),
        Err(BufferError::LengthOverflow)
    ));
}

#[test]
fn spans_are_cut_to_length() {
    let spans = [span(0x1000, 8), span(0x2000, 8)];
    assert_eq!(leading_spans(&spans, 10), vec![span(0x1000, 8), span(0x2000, 2)]);
    assert_eq!(span_bytes(&spans), 16);
    let (rest, exact) = advance_spans(&spans, 10);
    assert_eq!(rest.as_slice(), &[span(0x2002, 6)]);
    assert!(exact);
}

#[test]
fn bounce_copies_cover_the_buffer() {
    let (copies, result) = plan_bounce_copies(&[span(0x1000, 8), span(0x2000, 8)], 16, 16);
    assert_eq!(result, Ok(()));
    assert_eq!(copies.len(), 2);
    assert_eq!((copies[1].guest_ptr, copies[1].offset, copies[1].len), (0x2000, 8, 8));
    let (_, result) = plan_bounce_copies(&[span(0x1000, 8)], 4, 4);
    assert!(result == Ok(()) || result == Err(BufferError::BounceExceeded));
    let (_, result) = plan_bounce_copies(&[span(0x1000, 8)], 16, 16);
    assert_eq!(result, Err(BufferError::BounceNotCovered));
}

#[test]
fn requests_are_planned_by_type() {
    let read = RequestHeader { request_type: 0, reserved: 0, sector: 2 };
    match plan_request(read, 0, 513, CacheType::Writeback) {
        Ok(RequestPlan::Read { len, offset }) => assert_eq!((len, offset), (512, 1024)),
        _ => panic!("expected a read"),
    }
    let write = RequestHeader { request_type: 1, reserved: 0, sector: 1 };
    match plan_request(write, 512, 1, CacheType::Writeback) {
        Ok(RequestPlan::Write { len, offset }) => assert_eq!((len, offset), (512, 512)),
        _ => panic!("expected a write"),
    }
    assert!(matches!(
        plan_request(write, 511, 1, CacheType::Writeback),
        Err(RequestError::InvalidDataLength)
    ));
    let flush = RequestHeader { request_type: 4, reserved: 0, sector: 0 };
    assert!(matches!(plan_request(flush, 0, 1, CacheType::Writeback), Ok(RequestPlan::Flush)));
    assert!(matches!(plan_request(flush, 0, 1, CacheType::Unsafe), Ok(RequestPlan::IgnoreFlush)));
    let unknown = RequestHeader { request_type: 99, reserved: 0, sector: 0 };
    assert!(matches!(
        plan_request(unknown, 0, 1, CacheType::Unsafe),
        Err(RequestError::UnknownRequest)
    ));
}

#[test]
fn segments_discard_or_zero() {
    let discard = RequestHeader { request_type: 11, reserved: 0, sector: 0 };
    let segment = DiscardWriteData { sector: 4, num_sectors: 8, flags: 0 };
    match plan_segment(discard, Ok(segment)) {
        Ok(RequestPlan::Discard { offset, bytes }) => assert_eq!((offset, bytes), (2048, 4096)),
        _ => panic!("expected a discard"),
    }
    let zeroes = RequestHeader { request_type: 13, reserved: 0, sector: 0 };
    match plan_segment(zeroes, Ok(segment)) {
        Ok(RequestPlan::WriteZeroes { offset, bytes }) => assert_eq!((offset, bytes), (2048, 4096)),
        _ => panic!("expected zeroes"),
    }
    let unmap = DiscardWriteData { sector: 4, num_sectors: 8, flags: 1 };
    match plan_segment(zeroes, Ok(unmap)) {
        Ok(RequestPlan::DiscardToZero { offset, bytes }) => {
            assert_eq!((offset, bytes), (2048, 4096))
        }
        _ => panic!("expected a discard to zero"),
    }
    assert!(matches!(
        plan_segment(discard, Err(std::io::Error::other("gone"))),
        Err(RequestError::ReadingFromDescriptor(_))
    ));
}

#[test]
fn outcomes_become_status_bytes() {
    let read = RequestPlan::Read { len: 512, offset: 0 };
    let done = finish_request(read, Ok(512));
    assert!(matches!(done, Ok(_)));
    assert_eq!(completion_of(&done).0, 0);
    let failed = finish_request(read, Err(std::io::Error::other("bad sector")));
    assert!(matches!(failed, Err(RequestError::WritingToDescriptor(_))));
    assert_eq!(completion_of(&failed).0, 1);
    let unknown: Result<usize, RequestError> = Err(RequestError::UnknownRequest);
    assert_eq!(completion_of(&unknown), (1, 0));
}

#[test]
fn moved_bytes_are_counted_once_done() {
    let read = RequestPlan::Read { len: 512, offset: 0 };
    let write = RequestPlan::Write { len: 512, offset: 0 };
    let done: Result<usize, RequestError> = Ok(512);
    let failed: Result<usize, RequestError> = Err(RequestError::UnknownRequest);
    assert_eq!(bytes_moved(read, &done), (512, 0));
    assert_eq!(bytes_moved(write, &done), (0, 512));
    assert_eq!(bytes_moved(read, &failed), (0, 0));
    assert_eq!(bytes_moved(write, &failed), (0, 0));
    assert_eq!(bytes_moved(RequestPlan::WriteId, &Ok(20)), (0, 0));
    assert_eq!(bytes_moved(RequestPlan::Flush, &Ok(0)), (0, 0));
    assert_eq!(status_position(read, &done), 512);
    assert_eq!(status_position(RequestPlan::WriteId, &Ok(20)), 20);
    assert_eq!(status_position(write, &done), 0);
    assert_eq!(status_position(read, &failed), 0);
}

#[test]
fn request_kinds_and_durations() {
    assert_eq!(block_request_kind(0), BlockRequestKind::Read);
    assert_eq!(block_request_kind(1), BlockRequestKind::Write);
    assert_eq!(block_request_kind(4), BlockRequestKind::Flush);
    assert_eq!(block_request_kind(8), BlockRequestKind::Other);
    assert_eq!(duration_ns(1u128 << 70), u64::MAX);
    assert_eq!(duration_ns(12), 12);
    assert_eq!(request_data_scratch_vectors(4), 0);
}

#[test]
fn headers_are_little_endian() {
    let mut bytes = [0u8; 16];
    bytes[0] = 1;
    bytes[8] = 0x34;
    bytes[9] = 0x12;
    let header = RequestHeader::from_bytes(&bytes).unwrap();
    assert_eq!(header, RequestHeader { request_type: 1, reserved: 0, sector: 0x1234 });
    assert_eq!(RequestHeader::from_bytes(&bytes[..15]), None);
}

fn ring(policy: LinuxRawCompletionPolicy) -> LinuxRawRing {
    LinuxRawRing::new(
        LinuxRawGeometry { direct_io: false, req_align: 1, mem_align: 1 },
        false,
        policy,
    )
}

fn write_chain(ptr: usize, len: usize) -> RequestChain {
    RequestChain {
        head_index: 7,
        header: RequestHeader { request_type: 1, reserved: 0, sector: 0 },
        readable: vec![span(ptr, len)],
        writable: vec![span(0x900, 1)],
    }
}

#[test]
fn ring_request_is_submitted_and_completed() {
    let mut ring = ring(LinuxRawCompletionPolicy::WaitAll);
    assert!(ring.drained());
    let (entry, copies) = match ring.process_linux_raw_chain(2, &write_chain(0x1000, 512)) {
        ChainAction::Submit { entry, copies } => (entry, copies),
        _ => panic!("expected a submission"),
    };
    assert_eq!(entry.direction, LinuxRawDirection::Write);
    assert!(matches!(entry.target, RingTarget::Buffer { start: 0, len: 512 }));
    assert_eq!(copies.len(), 1);
    assert_eq!((copies[0].guest_ptr, copies[0].offset, copies[0].len), (0x1000, 0, 512));
    assert_eq!(ring.pending.len(), 1);
    assert!(!ring.drained());
    assert_eq!(ring.completion_target(), 0);

    match ring.reap(entry.request_id, 512) {
        ReapAction::Complete { completion } => {
            assert_eq!(completion.status, 0);
            assert_eq!(completion.queue_index, 2);
            assert_eq!(completion.head_index, 7);
            assert_eq!(completion.write_bytes, 512);
        }
        _ => panic!("expected a completion"),
    }
    assert!(matches!(ring.reap(entry.request_id, 512), ReapAction::Unknown));
}

#[test]
fn large_requests_use_guest_memory() {
    let mut ring = ring(LinuxRawCompletionPolicy::WaitAll);
    match ring.process_linux_raw_chain(0, &write_chain(0x10_0000, 128 * 1024)) {
        ChainAction::Submit { entry, copies } => {
            assert!(matches!(entry.target, RingTarget::Iovecs { count: 1 }));
            assert!(copies.is_empty());
        }
        _ => panic!("expected a submission"),
    }
}

#[test]
fn short_service_is_resubmitted_and_errors_fail() {
    let mut ring = ring(LinuxRawCompletionPolicy::WaitAll);
    let entry = match ring.process_linux_raw_chain(0, &write_chain(0x1000, 1024)) {
        ChainAction::Submit { entry, .. } => entry,
        _ => panic!("expected a submission"),
    };
    match ring.reap(entry.request_id, 512) {
        ReapAction::Resubmit { entry } => assert_eq!(entry.offset, 512),
        _ => panic!("expected the rest to be submitted"),
    }
    match ring.reap(entry.request_id, -5) {
        ReapAction::Complete { completion } => assert_eq!(completion.status, 1),
        _ => panic!("expected a failed completion"),
    }
}

#[test]
fn flushes_are_not_for_the_ring() {
    let mut ring = ring(LinuxRawCompletionPolicy::WaitAll);
    let chain = RequestChain {
        head_index: 0,
        header: RequestHeader { request_type: 4, reserved: 0, sector: 0 },
        readable: vec![],
        writable: vec![span(0x900, 1)],
    };
    assert!(matches!(ring.process_linux_raw_chain(0, &chain), ChainAction::Synchronous));
    let geometry = LinuxRawGeometry { direct_io: true, req_align: 4096, mem_align: 512 };
    assert_eq!(
        classify_ring_request(
            geometry,
            RequestHeader { request_type: 0, reserved: 0, sector: 8 },
            0,
            4097,
        ),
        Some((LinuxRawDirection::Read, 4096, 4096))
    );
    let request = pending_guest_request(list(&[span(0x1000, 4)]), 4);
    assert!(ring_entry(9, &request).is_ok());
}

#[test]
fn flushes_wait_for_the_requests_before_them() {
    let mut ring = ring(LinuxRawCompletionPolicy::WaitAll);
    let entry = match ring.process_linux_raw_chain(0, &write_chain(0x1000, 512)) {
        ChainAction::Submit { entry, .. } => entry,
        _ => panic!("expected a submission"),
    };
    let flush = RequestChain {
        head_index: 8,
        header: RequestHeader { request_type: 4, reserved: 0, sector: 0 },
        readable: vec![],
        writable: vec![span(0x900, 1)],
    };
    assert!(matches!(ring.process_linux_raw_chain(0, &flush), ChainAction::Drain));
    assert_eq!(ring.pending.len(), 1);
    assert!(matches!(ring.reap(entry.request_id, 512), ReapAction::Complete { .. }));
    assert!(matches!(ring.process_linux_raw_chain(0, &flush), ChainAction::Synchronous));
    assert_eq!(signal_after_synchronous(true, 3), Some(8));
    assert_eq!(signal_after_synchronous(false, 3), None);
    assert_eq!(signal_after_synchronous(false, 64), None);
    assert_eq!(batch_queues(8, 5), vec![3]);
}

#[test]
fn completed_queues_are_signalled_once() {
    let mask = mark_completed(mark_completed(0, 3), 1);
    assert_eq!(mask, 0b1010);
    assert_eq!(mark_completed(mask, 3), mask);
    assert_eq!(batch_queues(mask, 8), vec![1, 3]);
}

#[test]
fn worker_dispatches_by_token() {
    let readable = EventSet { bits: 1 };
    assert_eq!(dispatch(0, readable, 2), WorkerStep::ProcessQueue { queue_index: 0 });
    assert_eq!(dispatch(0, EventSet { bits: 4 }, 2), WorkerStep::Ignore);
    assert_eq!(
        dispatch_linux(1, readable, 2, true, LinuxRawCompletionPolicy::WaitAll),
        WorkerStep::ProcessRing { queue_index: 1 }
    );
    assert_eq!(
        dispatch_linux(1, readable, 2, true, LinuxRawCompletionPolicy::LocalDrain),
        WorkerStep::DrainLocally { queue_index: 1 }
    );
    assert_eq!(
        dispatch_linux(1, readable, 2, false, LinuxRawCompletionPolicy::WaitAll),
        WorkerStep::ProcessQueue { queue_index: 1 }
    );
    assert_eq!(local_drain_step(false, true, 0), LocalDrainStep::SubmitAndDrain);
}

#[test]
fn queue_pass_publishes_every_chain() {
    let mut pass = QueuePass::new(false);
    match pass.step(QueueEvent::Processed { outcome: Ok(512) }) {
        Some(QueueAction::Publish { status: 0, .. }) => {}
        _ => panic!("expected the chain to be published"),
    }
    assert!(matches!(
        pass.step(QueueEvent::Published { added: true }),
        Some(QueueAction::Ask)
    ));
    assert!(matches!(
        pass.step(QueueEvent::Answered { needed: true }),
        Some(QueueAction::Signal)
    ));
    assert!(matches!(pass.step(QueueEvent::Signalled), Some(QueueAction::Pop)));
    assert!(matches!(pass.step(QueueEvent::Empty), Some(QueueAction::Finish)));
}

#[test]
fn windows_chunks_follow_the_chain() {
    let chain = [
        Descriptor { addr: 0x1000, len: 16, write_only: false },
        Descriptor { addr: 0x2000, len: 512, write_only: false },
        Descriptor { addr: 0x3000, len: 1, write_only: true },
    ];
    let (chunks, result) = collect_windows_raw_chunks(&chain, false, 16, 512);
    assert_eq!(result, Ok(()));
    assert_eq!(chunks, vec![GuestChunk { addr: 0x2000, len: 512 }]);
    let (_, result) = collect_windows_raw_chunks(&chain, false, 16, 513);
    assert_eq!(result, Err(ChunkError::NotEnoughData));
}

#[test]
fn windows_requests_are_submitted_and_completed() {
    let read = RequestHeader { request_type: 0, reserved: 0, sector: 1 };
    match try_submit_windows_raw_request(true, read, 0, 513) {
        Ok(WindowsRawSubmission::Submit { direction, offset, data_len, .. }) => {
            assert_eq!(direction, PendingWindowsBlockDirection::Read);
            assert_eq!((offset, data_len), (512, 512));
        }
        _ => panic!("expected a submission"),
    }
    assert!(matches!(
        try_submit_windows_raw_request(false, read, 0, 513),
        Ok(WindowsRawSubmission::Fallback)
    ));

    let request = PendingWindowsBlockRequest {
        queue_index: 0,
        head_index: 3,
        direction: PendingWindowsBlockDirection::Read,
        data_len: 512,
    };
    assert!(matches!(
        windows_completion_write(&request, 0, true),
        CompletionWrite::DataAndStatus { status: 0 }
    ));
    assert!(matches!(
        windows_completion_write(&request, 0, false),
        CompletionWrite::StatusAt { offset: 512, status: 0 }
    ));
    assert_eq!(windows_operation_outcome(None).0, 1);
    let done = complete_windows_raw_request(&request, 0, 512, true);
    assert_eq!((done.status, done.read_bytes, done.write_bytes), (0, 512, 0));

    let mut queue = WindowsRawQueue::new();
    assert!(queue.is_empty());
    assert_eq!(queue.fallback_step(None), FallbackStep::Serve);
    queue.queue_windows_raw_request(5, request);
    assert_eq!(queue.fallback_step(None), FallbackStep::CompleteOne { in_flight: 1 });
    assert_eq!(queue.fallback_step(Some(2)), FallbackStep::CompleteOne { in_flight: 1 });
    assert_eq!(queue.fallback_step(Some(1)), FallbackStep::Serve);
    assert!(queue.complete_one(6).is_none());
    assert_eq!(queue.complete_one(5).unwrap().head_index, 3);
    assert!(queue.is_empty());
}

#[test]
fn windows_buffers_merge() {
    let mut buffers = Vec::new();
    push_or_merge_windows_raw_buffer(
        &mut buffers,
        krun::block::windows::WindowsRawFileBuffer { ptr: 0x1000, len: 8 },
    );
    push_or_merge_windows_raw_buffer(
        &mut buffers,
        krun::block::windows::WindowsRawFileBuffer { ptr: 0x1008, len: 8 },
    );
    assert_eq!(buffers.len(), 1);
    assert_eq!(buffers[0].len, 16);
    let _ = single_direct_windows_raw_buffer(&buffers);
}

#[test]
fn block_device_shows_its_configuration() {
    let mut block = Block::new(
        "vda".to_string(),
        None,
        CacheType::Writeback,
        ImageType::Raw,
        true,
        SyncMode::Full,
        4096 + 100,
        512,
        Some("a-device-id"),
    )
    .ok()
    .unwrap();
    assert_eq!(block.id(), "vda");
    assert!(block.is_read_only());
    let mut capacity = [0u8; 8];
    block.read_config(0, &mut capacity);
    assert_eq!(u64::from_le_bytes(capacity), 8);
    let mut past = [7u8; 4];
    block.read_config(1 << 20, &mut past);
    assert_eq!(past, [7u8; 4]);
    assert!(!block.is_activated());
    block.set_acked_features(3);
    assert_eq!(block.acked_features(), 3);
    assert!(!block.is_working());
    assert!(block.reset());
    assert!(!block.is_activated());
}

#[test]
fn disks_are_opened_as_their_settings_say() {
    assert_eq!(
        plan_open(ImageType::Raw, false, true, CacheType::Writeback, SyncMode::Full).ok(),
        Some(OpenPlan { write: true, direct: true, relaxed_sync: false, paced: false })
    );
    assert!(plan_open(ImageType::Vmdk, false, false, CacheType::Writeback, SyncMode::Full).is_err());
    assert_eq!(storage_path("/disk.img", false, 9), "/disk.img");
    assert_eq!(CacheType::auto("/tmp/disk.img", HostOs::Linux), CacheType::Writeback);
}

#[test]
fn disk_ids_are_cut_to_their_field() {
    assert_eq!(build_device_id(1, 2, 3), "123");
    let id = build_disk_image_id(Some("0123456789012345678901234"));
    assert_eq!(id, b"01234567890123456789".to_vec());
    let disk = DiskProperties::new(1536 + 7, id.clone(), CacheType::Writeback);
    assert_eq!(disk.nsectors(), 3);
    assert_eq!(disk.image_id(), id.as_slice());
}

//! Raw disk images on hosts that complete file operations out of order.

use crate::block::buffers::LinuxRawFileBuffer;
use crate::block::raw::push_or_merge;
use crate::block::request::{
    RequestError, RequestHeader, REQUEST_HEADER_BYTES, SECTOR_BYTES, VIRTIO_BLK_S_IOERR,
    VIRTIO_BLK_S_OK, VIRTIO_BLK_T_IN, VIRTIO_BLK_T_OUT,
};
use crate::descriptor::{Descriptor, GuestChunk};
use std::collections::HashMap;
use vstd::prelude::*;

verus! {

/// Requests that may be in flight at one time.
pub const MAX_PENDING_WINDOWS_RAW_REQUESTS: usize = 64;

/// One contiguous span of host memory that backs guest memory.
pub type WindowsRawFileBuffer = LinuxRawFileBuffer;

/// Which way the data of a request moves, seen from the guest.
#[derive(Clone, Copy, Debug, PartialEq, Eq, Structural)]
pub enum PendingWindowsBlockDirection {
    Read,
    Write,
}

/// Why a chain does not hold the data that a request names.
#[derive(Clone, Copy, Debug, PartialEq, Eq, Structural)]
pub enum ChunkError {
    /// A descriptor reaches past the last guest address.
    AddressOverflow,
    /// The descriptors end before the data does.
    NotEnoughData,
}

/// The guest memory that `remaining` bytes of a chain take, behind the first `skip` bytes of its
/// descriptors of one kind: the pieces in order, and whether they are all there.
pub open spec fn chunks(
    descriptors: Seq<Descriptor>,
    writable: bool,
    skip: nat,
    remaining: nat,
) -> (Seq<GuestChunk>, Result<(), ChunkError>)
    decreases descriptors.len(),
{
    if descriptors.len() == 0 {
        (
            Seq::empty(),
            if remaining == 0 && skip == 0 {
                Ok(())
            } else {
                Err(ChunkError::NotEnoughData)
            },
        )
    } else {
        let first = descriptors[0];
        let rest = descriptors.skip(1);
        let skipped = if skip < first.len {
            skip
        } else {
            first.len as nat
        };
        let left = (first.len - skipped) as nat;
        if first.write_only != writable {
            chunks(rest, writable, skip, remaining)
        } else if first.addr + skipped > u64::MAX {
            (Seq::empty(), Err(ChunkError::AddressOverflow))
        } else if left == 0 {
            chunks(rest, writable, (skip - skipped) as nat, remaining)
        } else {
            let taken = if left < remaining {
                left
            } else {
                remaining
            };
            let chunk = GuestChunk { addr: (first.addr + skipped) as u64, len: taken as usize };
            if taken == remaining {
                (seq![chunk], Ok(()))
            } else {
                let (more, result) = chunks(
                    rest,
                    writable,
                    (skip - skipped) as nat,
                    (remaining - taken) as nat,
                );
                (seq![chunk] + more, result)
            }
        }
    }
}

/// The guest memory that `remaining` bytes of a chain take, behind the first `skip` bytes of its
/// descriptors of one kind. On an error the pieces before it still stand.
pub fn collect_windows_raw_chunks(
    descriptors: &[Descriptor],
    writable: bool,
    skip: usize,
    remaining: usize,
) -> (r: (Vec<GuestChunk>, Result<(), ChunkError>))
    ensures
        (r.0@, r.1) == chunks(descriptors@, writable, skip as nat, remaining as nat),
{
    let mut pieces: Vec<GuestChunk> = Vec::new();
    let mut skip_left: usize = skip;
    let mut left: usize = remaining;
    let mut i: usize = 0;
    let ghost whole = chunks(descriptors@, writable, skip as nat, remaining as nat);
    assert(descriptors@.skip(0) =~= descriptors@);
    assert(pieces@ + whole.0 =~= whole.0);
    while i < descriptors.len()
        invariant
            i <= descriptors@.len(),
            whole == ({
                let tail = chunks(
                    descriptors@.skip(i as int),
                    writable,
                    skip_left as nat,
                    left as nat,
                );
                (pieces@ + tail.0, tail.1)
            }),
            whole == chunks(descriptors@, writable, skip as nat, remaining as nat),
        decreases descriptors@.len() - i,
    {
        let descriptor: Descriptor = descriptors[i];
        let ghost rest = descriptors@.skip(i as int);
        assert(rest[0] == descriptor);
        assert(rest.skip(1) =~= descriptors@.skip(i + 1));
        i = i + 1;
        if descriptor.write_only != writable {
            continue;
        }
        let len: usize = descriptor.len as usize;
        let skipped: usize = if skip_left < len {
            skip_left
        } else {
            len
        };
        let addr: u64 = match descriptor.addr.checked_add(skipped as u64) {
            None => {
                assert(pieces@ + Seq::<GuestChunk>::empty() =~= pieces@);
                return (pieces, Err(ChunkError::AddressOverflow));
            },
            Some(addr) => addr,
        };
        skip_left = skip_left - skipped;
        if len - skipped == 0 {
            continue;
        }
        let taken: usize = if len - skipped < left {
            len - skipped
        } else {
            left
        };
        let chunk = GuestChunk { addr, len: taken };
        let ghost before = pieces@;
        pieces.push(chunk);
        left = left - taken;
        if left == 0 {
            assert(before + seq![chunk] =~= pieces@);
            return (pieces, Ok(()));
        }
        proof {
            let tail = chunks(descriptors@.skip(i as int), writable, skip_left as nat, left as nat);
            assert(before + (seq![chunk] + tail.0) =~= pieces@ + tail.0);
        }
    }
    assert(pieces@ + Seq::<GuestChunk>::empty() =~= pieces@);
    if left != 0 || skip_left != 0 {
        (pieces, Err(ChunkError::NotEnoughData))
    } else {
        (pieces, Ok(()))
    }
}

/// Guest addresses of the bytes of a chain's descriptors of one kind, in order.
pub open spec fn stream(descriptors: Seq<Descriptor>, writable: bool) -> Seq<int>
    decreases descriptors.len(),
{
    if descriptors.len() == 0 {
        Seq::empty()
    } else {
        let first = descriptors[0];
        let rest = stream(descriptors.skip(1), writable);
        if first.write_only == writable {
            Seq::new(first.len as nat, |i: int| first.addr + i) + rest
        } else {
            rest
        }
    }
}

/// Guest addresses of the bytes of a list of pieces, in order.
pub open spec fn chunk_addresses(pieces: Seq<GuestChunk>) -> Seq<int>
    decreases pieces.len(),
{
    if pieces.len() == 0 {
        Seq::empty()
    } else {
        Seq::new(pieces[0].len as nat, |i: int| pieces[0].addr + i) + chunk_addresses(
            pieces.skip(1),
        )
    }
}

/// Where the pieces are all there, they name the bytes of the chain behind the skipped ones, in
/// order; and they are all there exactly where the chain is long enough.
pub proof fn chunks_follow_the_chain(
    descriptors: Seq<Descriptor>,
    writable: bool,
    skip: nat,
    remaining: nat,
)
    requires
        remaining > 0,
        remaining <= usize::MAX,
        forall|i: int|
            0 <= i < descriptors.len() ==> (#[trigger] descriptors[i]).addr + descriptors[i].len
                <= u64::MAX,
    ensures
        chunks(descriptors, writable, skip, remaining).1 is Ok <==> skip + remaining <= stream(
            descriptors,
            writable,
        ).len(),
        chunks(descriptors, writable, skip, remaining).1 is Ok ==> chunk_addresses(
            chunks(descriptors, writable, skip, remaining).0,
        ) == stream(descriptors, writable).subrange(skip as int, (skip + remaining) as int),
    decreases descriptors.len(),
{
    if descriptors.len() > 0 {
        let first = descriptors[0];
        let rest = descriptors.skip(1);
        assert(first.addr + first.len <= u64::MAX);
        assert forall|i: int| 0 <= i < rest.len() implies (#[trigger] rest[i]).addr + rest[i].len
            <= u64::MAX by {
            assert(rest[i] == descriptors[i + 1]);
        }
        let skipped = if skip < first.len {
            skip
        } else {
            first.len as nat
        };
        let left = (first.len - skipped) as nat;
        let all = stream(descriptors, writable);
        let tail = stream(rest, writable);
        if first.write_only != writable {
            chunks_follow_the_chain(rest, writable, skip, remaining);
        } else if left == 0 {
            chunks_follow_the_chain(rest, writable, (skip - skipped) as nat, remaining);
            if skip + remaining <= all.len() {
                assert(all.subrange(skip as int, (skip + remaining) as int) =~= tail.subrange(
                    skip - skipped,
                    skip - skipped + remaining,
                ));
            }
        } else {
            let taken = if left < remaining {
                left
            } else {
                remaining
            };
            let chunk = GuestChunk { addr: (first.addr + skipped) as u64, len: taken as usize };
            let addresses = Seq::new(chunk.len as nat, |i: int| chunk.addr + i);
            if taken == remaining {
                assert(seq![chunk].skip(1) =~= Seq::empty());
                assert(chunk_addresses(seq![chunk].skip(1)) =~= Seq::<int>::empty());
                assert(chunk_addresses(seq![chunk]) =~= addresses);
                assert(all.subrange(skip as int, (skip + remaining) as int) =~= addresses);
            } else {
                chunks_follow_the_chain(rest, writable, 0, (remaining - taken) as nat);
                let more = chunks(rest, writable, 0, (remaining - taken) as nat).0;
                assert((seq![chunk] + more).skip(1) =~= more);
                if skip + remaining <= all.len() {
                    assert(all.subrange(skip as int, (skip + remaining) as int) =~= addresses
                        + tail.subrange(0, remaining - taken));
                }
            }
        }
    }
}

/// Adds a span to a list, and grows the last one where the two touch.
pub fn push_or_merge_windows_raw_buffer(
    buffers: &mut Vec<WindowsRawFileBuffer>,
    buffer: WindowsRawFileBuffer,
)
    requires
        crate::block::buffers::all_in_bounds(old(buffers)@),
        buffer.in_bounds(),
    ensures
        final(buffers)@ == push_or_merge(old(buffers)@, buffer),
{
    let len: usize = buffers.len();
    if len > 0 {
        let last: WindowsRawFileBuffer = buffers[len - 1];
        assert(old(buffers)@[len - 1].in_bounds());
        if last.ptr + last.len == buffer.ptr {
            let _ = buffers.pop();
            buffers.push(WindowsRawFileBuffer { ptr: last.ptr, len: last.len + buffer.len });
            return;
        }
    }
    buffers.push(buffer);
}

/// The one span of a list that has no other.
pub fn single_direct_windows_raw_buffer(buffers: &[WindowsRawFileBuffer]) -> (r: Option<
    WindowsRawFileBuffer,
>)
    ensures
        r == if buffers@.len() == 1 {
            Some(buffers@[0])
        } else {
            None
        },
{
    if buffers.len() == 1 {
        Some(buffers[0])
    } else {
        None
    }
}

/// What the worker does with a request.
#[derive(Clone, Copy, Debug, PartialEq, Eq, Structural)]
pub enum WindowsRawSubmission {
    /// Hand the bytes of the chain behind the first `skip` to the file.
    Submit {
        direction: PendingWindowsBlockDirection,
        offset: u64,
        data_len: usize,
        skip: usize,
    },
    /// Serve the request synchronously.
    Fallback,
}

/// What the worker does with a request.
pub open spec fn windows_submission(
    has_raw_file: bool,
    header: RequestHeader,
    readable: usize,
    writable: usize,
) -> Result<WindowsRawSubmission, RequestError> {
    let reading = header.request_type == VIRTIO_BLK_T_IN;
    let data_len = if reading {
        writable - 1
    } else {
        readable as int
    };
    let offset = header.sector * SECTOR_BYTES;
    if !has_raw_file || !(reading || header.request_type == VIRTIO_BLK_T_OUT) {
        Ok(WindowsRawSubmission::Fallback)
    } else if data_len == 0 {
        Ok(WindowsRawSubmission::Fallback)
    } else if data_len < 0 || data_len % 512 != 0 || offset > u64::MAX {
        Err(RequestError::InvalidDataLength)
    } else {
        Ok(
            WindowsRawSubmission::Submit {
                direction: if reading {
                    PendingWindowsBlockDirection::Read
                } else {
                    PendingWindowsBlockDirection::Write
                },
                offset: offset as u64,
                data_len: data_len as usize,
                skip: if reading {
                    0
                } else {
                    REQUEST_HEADER_BYTES
                },
            },
        )
    }
}

/// What the worker does with a request: reads and writes of a raw image are handed to the file,
/// everything else is served synchronously.
pub fn try_submit_windows_raw_request(
    has_raw_file: bool,
    header: RequestHeader,
    readable: usize,
    writable: usize,
) -> (r: Result<WindowsRawSubmission, RequestError>)
    ensures
        r == windows_submission(has_raw_file, header, readable, writable),
{
    if !has_raw_file {
        return Ok(WindowsRawSubmission::Fallback);
    }
    let (direction, data_len, skip): (PendingWindowsBlockDirection, usize, usize) =
        if header.request_type == VIRTIO_BLK_T_IN {
        if writable == 0 {
            return Err(RequestError::InvalidDataLength);
        }
        (PendingWindowsBlockDirection::Read, writable - 1, 0)
    } else if header.request_type == VIRTIO_BLK_T_OUT {
        (PendingWindowsBlockDirection::Write, readable, REQUEST_HEADER_BYTES)
    } else {
        return Ok(WindowsRawSubmission::Fallback);
    };
    if data_len == 0 {
        return Ok(WindowsRawSubmission::Fallback);
    }
    if data_len % 512 != 0 {
        return Err(RequestError::InvalidDataLength);
    }
    match header.sector.checked_mul(SECTOR_BYTES) {
        None => Err(RequestError::InvalidDataLength),
        Some(offset) => Ok(WindowsRawSubmission::Submit { direction, offset, data_len, skip }),
    }
}

/// A request that the file is working on.
#[derive(Clone, Copy, Debug, PartialEq, Eq, Structural)]
pub struct PendingWindowsBlockRequest {
    pub queue_index: usize,
    pub head_index: u16,
    pub direction: PendingWindowsBlockDirection,
    pub data_len: usize,
}

/// The requests that the file is working on, by completion key.
pub struct WindowsRawQueue {
    pending: HashMap<usize, PendingWindowsBlockRequest>,
}

impl View for WindowsRawQueue {
    type V = Map<usize, PendingWindowsBlockRequest>;

    /// The requests by key.
    closed spec fn view(&self) -> Map<usize, PendingWindowsBlockRequest> {
        self.pending@
    }
}

/// How a request that is not handed to the file goes on.
#[derive(Clone, Copy, Debug, PartialEq, Eq, Structural)]
pub enum FallbackStep {
    /// Wait for one completion, then ask again with this count.
    CompleteOne { in_flight: usize },
    /// Serve the request synchronously.
    Serve,
}

/// What is written to the guest when a request ends.
#[derive(Clone, Copy, Debug, PartialEq, Eq, Structural)]
pub enum CompletionWrite {
    /// The data of the bounce buffer, then the status.
    DataAndStatus { status: u8 },
    /// The status alone, behind the data.
    StatusAt { offset: usize, status: u8 },
    /// The status alone, first.
    Status { status: u8 },
}

/// What is reported once the guest's memory was written.
#[derive(Clone, Copy, Debug, PartialEq, Eq, Structural)]
pub struct WindowsCompletion {
    /// The status that stands in the end.
    pub status: u8,
    /// Bytes that the used ring is told.
    pub used_len: usize,
    /// Writing failed: write the error status behind the data instead.
    pub retry_at: Option<usize>,
    /// Bytes that the guest read.
    pub read_bytes: u64,
    /// Bytes that the guest wrote.
    pub write_bytes: u64,
}

impl WindowsRawQueue {
    /// A queue with nothing in flight.
    pub fn new() -> (r: WindowsRawQueue)
        ensures
            r@ == Map::<usize, PendingWindowsBlockRequest>::empty(),
    {
        WindowsRawQueue { pending: HashMap::new() }
    }

    /// Whether the worker takes completions before it waits for events.
    pub fn is_empty(&self) -> (r: bool)
        ensures
            r == (self@.len() == 0),
    {
        broadcast use vstd::std_specs::hash::group_hash_axioms;

        self.pending.len() == 0
    }

    /// Whether no further request is taken.
    pub fn is_full(&self) -> (r: bool)
        ensures
            r == (self@.len() >= MAX_PENDING_WINDOWS_RAW_REQUESTS),
    {
        broadcast use vstd::std_specs::hash::group_hash_axioms;

        self.pending.len() >= MAX_PENDING_WINDOWS_RAW_REQUESTS
    }

    /// Whether a queue is served once more after its notifications were turned on again.
    pub fn continue_queue(&self, more: bool) -> (r: bool)
        ensures
            r == (more && self@.len() < MAX_PENDING_WINDOWS_RAW_REQUESTS),
    {
        !self.is_full() && more
    }

    /// Decides how a request that is not handed to the file goes on. The requests in flight are
    /// completed first, one after the other, until none is left or the last wait completed none.
    /// `before` is how many were in flight ahead of that wait.
    pub fn fallback_step(&self, before: Option<usize>) -> (r: FallbackStep)
        ensures
            r == if self@.len() == 0 || before == Some(self@.len() as usize) {
                FallbackStep::Serve
            } else {
                FallbackStep::CompleteOne { in_flight: self@.len() as usize }
            },
            r matches FallbackStep::CompleteOne { in_flight } ==> in_flight == self@.len(),
            before is None ==> (r is Serve <==> self@.len() == 0),
    {
        broadcast use vstd::std_specs::hash::group_hash_axioms;

        let in_flight: usize = self.pending.len();
        if in_flight == 0 || before == Some(in_flight) {
            FallbackStep::Serve
        } else {
            FallbackStep::CompleteOne { in_flight }
        }
    }

    /// Keeps a request that was handed to the file.
    pub fn queue_windows_raw_request(&mut self, key: usize, request: PendingWindowsBlockRequest)
        ensures
            final(self)@ == old(self)@.insert(key, request),
    {
        broadcast use vstd::std_specs::hash::group_hash_axioms;

        let _ = self.pending.insert(key, request);
    }

    /// Takes the request out that a completion belongs to.
    pub fn complete_one(&mut self, key: usize) -> (r: Option<PendingWindowsBlockRequest>)
        ensures
            r == if old(self)@.contains_key(key) {
                Some(old(self)@[key])
            } else {
                None
            },
            final(self)@ == old(self)@.remove(key),
    {
        broadcast use vstd::std_specs::hash::group_hash_axioms;

        let request = self.pending.remove(&key);
        assert(!old(self)@.contains_key(key) ==> old(self)@.remove(key) =~= old(self)@);
        request
    }
}

/// What is written to the guest for a request that ended: `bounced` tells whether its data stands
/// in a bounce buffer.
pub fn windows_completion_write(
    request: &PendingWindowsBlockRequest,
    status: u8,
    bounced: bool,
) -> (r: CompletionWrite)
    ensures
        r == match request.direction {
            PendingWindowsBlockDirection::Read => if bounced {
                CompletionWrite::DataAndStatus { status }
            } else {
                CompletionWrite::StatusAt { offset: request.data_len, status }
            },
            PendingWindowsBlockDirection::Write => CompletionWrite::Status { status },
        },
{
    match request.direction {
        PendingWindowsBlockDirection::Read => if bounced {
            CompletionWrite::DataAndStatus { status }
        } else {
            CompletionWrite::StatusAt { offset: request.data_len, status }
        },
        PendingWindowsBlockDirection::Write => CompletionWrite::Status { status },
    }
}

/// The status and the length that a request ends with: `bytes` is what the file moved, or `None`
/// where it failed.
pub fn windows_operation_outcome(bytes: Option<usize>) -> (r: (u8, usize))
    ensures
        r == match bytes {
            Some(len) => (VIRTIO_BLK_S_OK, len),
            None => (VIRTIO_BLK_S_IOERR, 0usize),
        },
{
    match bytes {
        Some(len) => (VIRTIO_BLK_S_OK, len),
        None => (VIRTIO_BLK_S_IOERR, 0),
    }
}

/// What is reported once the guest's memory was written, or could not be.
pub fn complete_windows_raw_request(
    request: &PendingWindowsBlockRequest,
    status: u8,
    used_len: usize,
    written: bool,
) -> (r: WindowsCompletion)
    ensures
        ({
            let ok = written && status == VIRTIO_BLK_S_OK;
            r == WindowsCompletion {
                status: if written {
                    status
                } else {
                    VIRTIO_BLK_S_IOERR
                },
                used_len: if ok {
                    used_len
                } else {
                    0
                },
                retry_at: if written {
                    None
                } else {
                    Some(request.data_len)
                },
                read_bytes: if ok && request.direction == PendingWindowsBlockDirection::Read {
                    used_len as u64
                } else {
                    0
                },
                write_bytes: if ok && request.direction == PendingWindowsBlockDirection::Write {
                    used_len as u64
                } else {
                    0
                },
            }
        }),
{
    let ok: bool = written && status == VIRTIO_BLK_S_OK;
    let reading: bool = request.direction == PendingWindowsBlockDirection::Read;
    WindowsCompletion {
        status: if written {
            status
        } else {
            VIRTIO_BLK_S_IOERR
        },
        used_len: if ok {
            used_len
        } else {
            0
        },
        retry_at: if written {
            None
        } else {
            Some(request.data_len)
        },
        read_bytes: if ok && reading {
            used_len as u64
        } else {
            0
        },
        write_bytes: if ok && !reading {
            used_len as u64
        } else {
            0
        },
    }
}

/// A request that is handed to the file moves the same bytes of the disk, in the same direction, as
/// it would if it were served without it; the data of a write stands behind the header.
pub proof fn file_serves_what_the_disk_would(
    header: RequestHeader,
    readable: usize,
    writable: usize,
    cache: crate::block::device::CacheType,
    file: Result<WindowsRawSubmission, RequestError>,
    plan: Result<crate::block::request::RequestPlan, RequestError>,
)
    requires
        call_ensures(try_submit_windows_raw_request, (true, header, readable, writable), file),
        call_ensures(
            crate::block::request::plan_request,
            (header, readable, writable, cache),
            plan,
        ),
        header.request_type <= 1,
    ensures
        file is Ok && file->Ok_0 is Submit ==> plan is Ok && file->Ok_0->data_len > 0
            && match plan->Ok_0 {
            crate::block::request::RequestPlan::Read { len, offset } => {
                &&& file->Ok_0->direction is Read
                &&& file->Ok_0->data_len == len
                &&& file->Ok_0->offset == offset
                &&& file->Ok_0->skip == 0
            },
            crate::block::request::RequestPlan::Write { len, offset } => {
                &&& file->Ok_0->direction is Write
                &&& file->Ok_0->data_len == len
                &&& file->Ok_0->offset == offset
                &&& file->Ok_0->skip == 16
            },
            _ => false,
        },
        file is Err ==> plan is Err,
        file is Ok && file->Ok_0 is Fallback && plan is Ok ==> match plan->Ok_0 {
            crate::block::request::RequestPlan::Read { len, .. } => len == 0,
            crate::block::request::RequestPlan::Write { len, .. } => len == 0,
            _ => false,
        },
{
}

/// Without a raw file, and for requests that move no data, everything is served synchronously.
pub proof fn other_requests_are_not_for_the_file(
    has_raw_file: bool,
    header: RequestHeader,
    readable: usize,
    writable: usize,
    r: Result<WindowsRawSubmission, RequestError>,
)
    requires
        call_ensures(try_submit_windows_raw_request, (has_raw_file, header, readable, writable), r),
        !has_raw_file || header.request_type > 1,
    ensures
        r is Ok,
        r->Ok_0 is Fallback,
{
}

/// What the guest is told of a request that the file is done with: the bytes that were moved, in
/// their direction, where all went well, and an error behind the data where the guest could not be
/// written to.
pub proof fn file_completions_reach_the_guest(
    request: PendingWindowsBlockRequest,
    bytes: Option<usize>,
    outcome: (u8, usize),
    bounced: bool,
    write: CompletionWrite,
    written: bool,
    r: WindowsCompletion,
)
    requires
        call_ensures(windows_operation_outcome, (bytes,), outcome),
        call_ensures(windows_completion_write, (&request, outcome.0, bounced), write),
        call_ensures(complete_windows_raw_request, (&request, outcome.0, outcome.1, written), r),
    ensures
        bytes is Some && written ==> r.status == 0 && r.used_len == bytes->Some_0 && r.retry_at
            is None,
        bytes is Some && written && request.direction is Read ==> r.read_bytes == bytes->Some_0
            && r.write_bytes == 0,
        bytes is Some && written && request.direction is Write ==> r.write_bytes == bytes->Some_0
            && r.read_bytes == 0,
        bytes is None || !written ==> r.status == 1 && r.used_len == 0 && r.read_bytes == 0
            && r.write_bytes == 0,
        !written ==> r.retry_at == Some(request.data_len),
        request.direction is Write ==> write is Status && write->Status_status == outcome.0,
        request.direction is Read && bounced ==> write is DataAndStatus
            && write->DataAndStatus_status == outcome.0,
        request.direction is Read && !bounced ==> write is StatusAt && write->StatusAt_status
            == outcome.0 && write->StatusAt_offset == request.data_len,
{
}

/// The pieces of a request are the bytes of its chain from where it starts on, as many as it
/// wants, where the chain has them.
pub proof fn pieces_are_the_bytes_of_the_chain(
    descriptors: &[Descriptor],
    writable: bool,
    skip: usize,
    remaining: usize,
    r: (Vec<GuestChunk>, Result<(), ChunkError>),
)
    requires
        remaining > 0,
        forall|i: int|
            0 <= i < descriptors@.len() ==> (#[trigger] descriptors@[i]).addr + descriptors@[i].len
                <= u64::MAX,
        call_ensures(collect_windows_raw_chunks, (descriptors, writable, skip, remaining), r),
    ensures
        r.1 is Ok <==> skip + remaining <= stream(descriptors@, writable).len(),
        r.1 is Ok ==> chunk_addresses(r.0@) == stream(descriptors@, writable).subrange(
            skip as int,
            skip + remaining,
        ),
        r.1 is Err ==> r.1 == Err::<(), ChunkError>(ChunkError::NotEnoughData),
{
    chunks_follow_the_chain(descriptors@, writable, skip as nat, remaining as nat);
    lemma_chunks_reach_no_edge(descriptors@, writable, skip as nat, remaining as nat);
}

proof fn lemma_chunks_reach_no_edge(
    descriptors: Seq<Descriptor>,
    writable: bool,
    skip: nat,
    remaining: nat,
)
    requires
        forall|i: int|
            0 <= i < descriptors.len() ==> (#[trigger] descriptors[i]).addr + descriptors[i].len
                <= u64::MAX,
    ensures
        chunks(descriptors, writable, skip, remaining).1 is Ok || chunks(
            descriptors,
            writable,
            skip,
            remaining,
        ).1 == Err::<(), ChunkError>(ChunkError::NotEnoughData),
    decreases descriptors.len(),
{
    if descriptors.len() > 0 {
        let first = descriptors[0];
        let rest = descriptors.skip(1);
        let skipped = if skip < first.len {
            skip
        } else {
            first.len as nat
        };
        let left = (first.len - skipped) as nat;
        assert forall|i: int| 0 <= i < rest.len() implies (#[trigger] rest[i]).addr + rest[i].len
            <= u64::MAX by {
            assert(rest[i] == descriptors[i + 1]);
        }
        lemma_chunks_reach_no_edge(rest, writable, skip, remaining);
        lemma_chunks_reach_no_edge(rest, writable, (skip - skipped) as nat, remaining);
        if left < remaining {
            lemma_chunks_reach_no_edge(
                rest,
                writable,
                (skip - skipped) as nat,
                (remaining - left) as nat,
            );
        }
    }
}

/// A request that was queued is the one that completes under its key, and no other is touched. The
/// queue is full at sixty-four requests.
pub proof fn queued_requests_complete_under_their_key(
    queue: &mut WindowsRawQueue,
    key: usize,
    request: PendingWindowsBlockRequest,
    later: &mut WindowsRawQueue,
    taken: Option<PendingWindowsBlockRequest>,
    other: usize,
    full: bool,
    goes_on: bool,
)
    requires
        call_ensures(WindowsRawQueue::queue_windows_raw_request, (queue, key, request), ()),
        *later == *final(queue),
        call_ensures(WindowsRawQueue::complete_one, (later, key), taken),
        call_ensures(WindowsRawQueue::is_full, (&*queue,), full),
        call_ensures(WindowsRawQueue::continue_queue, (&*queue, true), goes_on),
        other != key,
    ensures
        taken == Some(request),
        !final(later)@.contains_key(key),
        final(later)@.contains_key(other) == old(queue)@.contains_key(other),
        old(queue)@.contains_key(other) ==> final(later)@[other] == old(queue)@[other],
        full <==> old(queue)@.len() >= 64,
        goes_on <==> !full,
{
}

/// A request that the file cannot serve waits for those in flight, as long as some complete.
pub proof fn fallback_waits_for_those_in_flight(
    queue: WindowsRawQueue,
    before: Option<usize>,
    r: FallbackStep,
    buffers: &[WindowsRawFileBuffer],
    single: Option<WindowsRawFileBuffer>,
)
    requires
        call_ensures(WindowsRawQueue::fallback_step, (&queue, before), r),
        call_ensures(single_direct_windows_raw_buffer, (buffers,), single),
    ensures
        queue@.len() == 0 ==> r is Serve,
        before is None && queue@.len() > 0 ==> r is CompleteOne && r->in_flight == queue@.len(),
        before is Some && before->Some_0 < queue@.len() <= usize::MAX ==> r is CompleteOne,
        before == Some(queue@.len() as usize) ==> r is Serve,
        single is Some <==> buffers@.len() == 1,
        single is Some ==> single->Some_0 == buffers@[0],
{
}

} // verus!

//! The state of the worker that serves block requests through an I/O ring.

use crate::block::buffers::{
    all_addresses, all_in_bounds, direct_io_aligned, io_buffer_len, io_buffer_size, total_len,
    LinuxRawFileBuffer, SpanList, MAX_LINUX_RAW_BOUNCE_FAST_PATH_BYTES, MAX_LINUX_RAW_REQUEST_BYTES,
    MAX_PENDING_LINUX_RAW_REQUESTS,
};
use crate::block::pending::{
    advance_spans, advanced, advanced_skips_finished_bytes, empty_table_holds_nothing,
    lemma_addresses_len, rebuilt, same_but_iovecs, LinuxRawDirection, LinuxRawRequestData,
    PendingLinuxRawRequest, PendingLinuxRawRequests,
};
use crate::block::raw::{
    bounce_copies, bounce_result, fitting, leading, leading_spans, leading_takes_first_bytes,
    merged, merging_keeps_every_address, none_of_size, plan_bounce_copies,
    snapshot_linux_raw_buffers, span_bytes, BounceCopy, LinuxRawBouncePool,
};
use crate::block::request::{RequestHeader, VIRTIO_BLK_S_IOERR, VIRTIO_BLK_S_OK};
use crate::block::ring::{
    classify_ring_request, entry_at, entry_of, linux_raw_remainder_is_aligned, remainder_aligned_at,
    ring_entry, ring_request, LinuxRawCompletionPolicy, LinuxRawGeometry, RingEntry,
};
use imago::io_buffers::IoBuffer;
use vstd::prelude::*;

verus! {

/// The ring's requests in flight, its spare buffers and its settings.
pub struct LinuxRawRing {
    pub geometry: LinuxRawGeometry,
    pub pending: PendingLinuxRawRequests,
    pub bounce_pool: LinuxRawBouncePool,
    pub batch_completions: bool,
    pub completion_policy: LinuxRawCompletionPolicy,
}

/// One chain of descriptors that the guest made available, its header already read.
pub struct RequestChain {
    pub head_index: u16,
    pub header: RequestHeader,
    /// What the guest wrote behind the header.
    pub readable: Vec<LinuxRawFileBuffer>,
    /// Where the host may write, the status byte last.
    pub writable: Vec<LinuxRawFileBuffer>,
}

impl RequestChain {
    /// The slices lie inside the address space, and their lengths add up.
    pub open spec fn valid(self) -> bool {
        &&& all_in_bounds(self.readable@)
        &&& all_in_bounds(self.writable@)
        &&& total_len(self.readable@) <= usize::MAX
        &&& total_len(self.writable@) <= usize::MAX
    }

    /// The slices that the data of the request goes to or comes from.
    pub open spec fn data_slices(self, direction: LinuxRawDirection, length: nat) -> Seq<
        LinuxRawFileBuffer,
    > {
        match direction {
            LinuxRawDirection::Read => leading(self.writable@, length),
            LinuxRawDirection::Write => self.readable@,
        }
    }
}

/// A request whose buffers hold as many bytes as it names, some of which are not done yet.
pub open spec fn sound(request: PendingLinuxRawRequest) -> bool {
    &&& request.completed < request.data_len <= MAX_LINUX_RAW_REQUEST_BYTES
    &&& match request.data {
        LinuxRawRequestData::Guest { buffers, .. } => all_in_bounds(buffers@) && total_len(buffers@)
            == request.data_len,
        LinuxRawRequestData::Bounce { buffer, guest_buffers } => all_in_bounds(guest_buffers@)
            && total_len(guest_buffers@) == request.data_len && io_buffer_size(buffer)
            == request.data_len,
    }
}

/// What the worker does with a chain.
pub enum ChainAction {
    /// The request is not for the ring, and others are still in flight: reap those, then ask again.
    Drain,
    /// The request is not for the ring, which is empty: serve it synchronously.
    Synchronous,
    /// Write the error status at the end of the chain and publish no data.
    FailChain,
    /// Write the error status at this address and publish no data.
    FailAt { status_ptr: usize },
    /// Make the copies from guest memory to the bounce buffer, then hand the entry to the ring.
    Submit { entry: RingEntry, copies: Vec<BounceCopy> },
}

/// A request that is over: what the guest is told and what else is left to do.
pub struct LinuxRawCompletion {
    pub queue_index: usize,
    pub head_index: u16,
    pub status_ptr: usize,
    pub status: u8,
    pub used_len: usize,
    /// Copies from the bounce buffer to guest memory, made before the status is written.
    pub copies: Vec<BounceCopy>,
    /// The bounce buffer, to be released once the copies are made.
    pub release: Option<IoBuffer>,
    /// Bytes that the guest read.
    pub read_bytes: u64,
    /// Bytes that the guest wrote.
    pub write_bytes: u64,
}

/// What the worker does with a completion of the ring.
pub enum ReapAction {
    /// No request in flight has this id.
    Unknown,
    /// Part of the request was done: hand the rest to the ring.
    Resubmit { entry: RingEntry },
    /// The request is over.
    Complete { completion: LinuxRawCompletion },
}

/// The guest spans and the size of the buffer of a bounced read that went well.
pub open spec fn read_back(request: PendingLinuxRawRequest, success: bool) -> bool {
    success && request.direction == LinuxRawDirection::Read && request.data is Bounce
}

/// `completion` is what the end of `request` comes to.
pub open spec fn completes(
    request: PendingLinuxRawRequest,
    success: bool,
    completion: LinuxRawCompletion,
) -> bool {
    let count = completion.copies@.len() as int;
    let ok = success && (read_back(request, success) ==> bounce_result(
        request.data->guest_buffers@,
        count,
        request.data_len as nat,
    ) is Ok);
    &&& completion.queue_index == request.queue_index
    &&& completion.head_index == request.head_index
    &&& completion.status_ptr == request.status_ptr
    &&& completion.status == if ok {
        VIRTIO_BLK_S_OK
    } else {
        VIRTIO_BLK_S_IOERR
    }
    &&& completion.used_len == if ok {
        request.data_len
    } else {
        0
    }
    &&& completion.read_bytes == if ok && request.direction == LinuxRawDirection::Read {
        request.data_len as u64
    } else {
        0
    }
    &&& completion.write_bytes == if ok && request.direction == LinuxRawDirection::Write {
        request.data_len as u64
    } else {
        0
    }
    &&& completion.release == match request.data {
        LinuxRawRequestData::Guest { .. } => None,
        LinuxRawRequestData::Bounce { buffer, .. } => Some(buffer),
    }
    &&& !read_back(request, success) ==> completion.copies@ == Seq::<BounceCopy>::empty()
    &&& read_back(request, success) ==> fitting(
        request.data->guest_buffers@,
        io_buffer_size(request.data->buffer),
        count,
    ) && completion.copies@ == bounce_copies(request.data->guest_buffers@, count)
}

/// The end of a request: its status, its copies and what it adds to the counters.
pub fn complete_linux_raw_request(request: PendingLinuxRawRequest, success: bool) -> (r:
    LinuxRawCompletion)
    ensures
        completes(request, success, r),
{
    let reading: bool = request.direction == LinuxRawDirection::Read;
    let (release, copies, copied): (Option<IoBuffer>, Vec<BounceCopy>, bool) = match request.data {
        LinuxRawRequestData::Guest { .. } => (None, Vec::new(), true),
        LinuxRawRequestData::Bounce { buffer, guest_buffers } => {
            if success && reading {
                let (copies, result) = plan_bounce_copies(
                    guest_buffers.as_slice(),
                    io_buffer_len(&buffer),
                    request.data_len,
                );
                (Some(buffer), copies, result.is_ok())
            } else {
                (Some(buffer), Vec::new(), true)
            }
        },
    };
    let ok: bool = success && copied;
    LinuxRawCompletion {
        queue_index: request.queue_index,
        head_index: request.head_index,
        status_ptr: request.status_ptr,
        status: if ok {
            VIRTIO_BLK_S_OK
        } else {
            VIRTIO_BLK_S_IOERR
        },
        used_len: if ok {
            request.data_len
        } else {
            0
        },
        copies,
        release,
        read_bytes: if ok && reading {
            request.data_len as u64
        } else {
            0
        },
        write_bytes: if ok && !reading {
            request.data_len as u64
        } else {
            0
        },
    }
}

proof fn lemma_fitting_total(spans: Seq<LinuxRawFileBuffer>, count: int)
    requires
        fitting(spans, total_len(spans), count),
    ensures
        count == spans.len(),
{
    if count < spans.len() {
        crate::block::raw::lemma_total_prefix(spans, count + 1);
    }
}

/// A sound request that the ring served in full ends with success, its whole length, and for a
/// bounced read a copy for every guest span.
pub proof fn full_service_is_success(
    request: PendingLinuxRawRequest,
    completion: LinuxRawCompletion,
)
    requires
        sound(request),
        completes(request, true, completion),
    ensures
        completion.status == VIRTIO_BLK_S_OK,
        completion.used_len == request.data_len,
        completion.read_bytes + completion.write_bytes == request.data_len,
        read_back(request, true) ==> completion.copies@ == bounce_copies(
            request.data->guest_buffers@,
            request.data->guest_buffers@.len() as int,
        ),
{
    if read_back(request, true) {
        lemma_fitting_total(request.data->guest_buffers@, completion.copies@.len() as int);
    }
}

proof fn lemma_one_byte(spans: Seq<LinuxRawFileBuffer>)
    requires
        total_len(spans) == 1,
        forall|i: int| 0 <= i < spans.len() ==> (#[trigger] spans[i]).len > 0,
    ensures
        spans.len() == 1,
        spans[0].len == 1,
        all_addresses(spans)[0] == spans[0].ptr,
{
    assert(spans[spans.len() - 1].len > 0);
    let front = spans.drop_last();
    assert(total_len(front) == 0);
    if front.len() > 0 {
        assert(front.last() == spans[front.len() - 1]);
        assert(spans[front.len() - 1].len > 0);
        assert(total_len(front) >= front.last().len);
    }
    assert(all_addresses(front) =~= Seq::<int>::empty());
    assert(all_addresses(spans)[0] == spans.last().addresses()[0]);
}

proof fn lemma_count_within_total(spans: Seq<LinuxRawFileBuffer>)
    requires
        forall|i: int| 0 <= i < spans.len() ==> (#[trigger] spans[i]).len > 0,
    ensures
        spans.len() <= total_len(spans),
    decreases spans.len(),
{
    if spans.len() > 0 {
        assert(spans[spans.len() - 1].len > 0);
        lemma_count_within_total(spans.drop_last());
    }
}

proof fn lemma_advanced_by_zero(spans: Seq<LinuxRawFileBuffer>)
    requires
        forall|i: int| 0 <= i < spans.len() ==> (#[trigger] spans[i]).len > 0,
    ensures
        advanced(spans, 0) == spans,
    decreases spans.len(),
{
    if spans.len() > 0 {
        assert(spans[spans.len() - 1].len > 0);
        lemma_advanced_by_zero(spans.drop_last());
        assert(advanced(spans, 0) =~= spans);
    }
}

/// Every span suits direct I/O with this alignment.
pub open spec fn all_direct_io_aligned(spans: Seq<LinuxRawFileBuffer>, align: usize) -> bool {
    forall|i: int| 0 <= i < spans.len() ==> direct_io_aligned(#[trigger] spans[i], align)
}

/// Whether the ring may use guest memory itself: direct I/O needs aligned spans, and buffered I/O
/// does it for large requests only.
pub open spec fn uses_guest_memory(
    geometry: LinuxRawGeometry,
    spans: Seq<LinuxRawFileBuffer>,
    length: nat,
) -> bool {
    if geometry.direct_io {
        all_direct_io_aligned(spans, geometry.mem_align)
    } else {
        length > MAX_LINUX_RAW_BOUNCE_FAST_PATH_BYTES
    }
}

fn can_use_guest_memory(
    geometry: LinuxRawGeometry,
    spans: &[LinuxRawFileBuffer],
    length: usize,
) -> (r: bool)
    ensures
        r == uses_guest_memory(geometry, spans@, length as nat),
{
    if !geometry.direct_io {
        return length > MAX_LINUX_RAW_BOUNCE_FAST_PATH_BYTES;
    }
    let mut i: usize = 0;
    while i < spans.len()
        invariant
            geometry.direct_io,
            i <= spans@.len(),
            forall|j: int|
                0 <= j < i ==> direct_io_aligned(#[trigger] spans@[j], geometry.mem_align),
        decreases spans@.len() - i,
    {
        if !spans[i].is_direct_io_aligned(geometry.mem_align) {
            assert(!direct_io_aligned(spans@[i as int], geometry.mem_align));
            return false;
        }
        i = i + 1;
    }
    true
}

impl LinuxRawRing {
    /// The table is in order and holds sound requests.
    pub open spec fn wf(self) -> bool {
        &&& self.pending.wf()
        &&& forall|id: u64| #[trigger]
            self.pending@.contains_key(id) ==> sound(self.pending@[id])
    }

    /// Everything but the requests and the spare buffers.
    pub open spec fn same_settings(self, other: LinuxRawRing) -> bool {
        &&& self.geometry == other.geometry
        &&& self.batch_completions == other.batch_completions
        &&& self.completion_policy == other.completion_policy
    }

    /// A ring with nothing in flight.
    pub fn new(
        geometry: LinuxRawGeometry,
        batch_completions: bool,
        completion_policy: LinuxRawCompletionPolicy,
    ) -> (r: LinuxRawRing)
        ensures
            r.wf(),
            r.geometry == geometry,
            r.batch_completions == batch_completions,
            r.completion_policy == completion_policy,
            r.pending.count() == 0,
            r.pending@ == Map::<u64, PendingLinuxRawRequest>::empty(),
            r.bounce_pool@ == Seq::<IoBuffer>::empty(),
    {
        LinuxRawRing {
            geometry,
            pending: PendingLinuxRawRequests::new(),
            bounce_pool: LinuxRawBouncePool::new(),
            batch_completions,
            completion_policy,
        }
    }

    /// `process_linux_raw_chain` handed the chain to the ring: `after` holds its request.
    pub open spec fn submitted(
        self,
        queue_index: usize,
        chain: RequestChain,
        entry: RingEntry,
        copies: Seq<BounceCopy>,
        after: LinuxRawRing,
    ) -> bool {
        let (direction, length, offset) = ring_request(
            self.geometry,
            chain.header,
            total_len(chain.readable@),
            total_len(chain.writable@),
        )->Some_0;
        let spans = merged(chain.data_slices(direction, length as nat));
        let request = after.pending@[entry.request_id];
        &&& self.pending.inserted(entry.request_id, request, after.pending)
        &&& entry_of(entry.request_id, request) == Ok::<RingEntry, crate::block::ring::EntryError>(
            entry,
        )
        &&& request.queue_index == queue_index
        &&& request.head_index == chain.head_index
        &&& request.direction == direction
        &&& request.status_ptr == all_addresses(chain.writable@).last()
        &&& request.data_len == length
        &&& request.offset == offset
        &&& request.completed == 0
        &&& match request.data {
            LinuxRawRequestData::Guest { buffers, iovecs } => {
                &&& uses_guest_memory(self.geometry, spans, length as nat)
                &&& buffers@ == spans
                &&& iovecs@ == spans
                &&& copies == Seq::<BounceCopy>::empty()
                &&& after.bounce_pool == self.bounce_pool
            },
            LinuxRawRequestData::Bounce { buffer, guest_buffers } => {
                &&& !uses_guest_memory(self.geometry, spans, length as nat)
                &&& guest_buffers@ == spans
                &&& copies == if direction == LinuxRawDirection::Write {
                    bounce_copies(spans, spans.len() as int)
                } else {
                    Seq::<BounceCopy>::empty()
                }
                &&& self.bounce_pool.acquired(
                    length,
                    self.geometry.mem_align,
                    Ok(buffer),
                    after.bounce_pool,
                )
            },
        }
    }

    /// Decides what becomes of a chain, and takes its request in where it goes through the ring. A
    /// request that does not go through the ring waits for all that do before it.
    pub fn process_linux_raw_chain(&mut self, queue_index: usize, chain: &RequestChain) -> (r: ChainAction)
        requires
            old(self).wf(),
            old(self).pending.count() < MAX_PENDING_LINUX_RAW_REQUESTS,
            chain.valid(),
        ensures
            final(self).wf(),
            final(self).same_settings(*old(self)),
            r is Synchronous || r is Drain <==> ring_request(
                old(self).geometry,
                chain.header,
                total_len(chain.readable@),
                total_len(chain.writable@),
            ) is None,
            r is Synchronous ==> old(self).pending.count() == 0,
            r is Drain ==> old(self).pending.count() != 0,
            r is FailChain <==> !(r is Synchronous) && !(r is Drain) && total_len(chain.writable@)
                == 0,
            r is Synchronous || r is Drain || r is FailChain ==> *final(self) == *old(self),
            ring_step(*old(self), RingStep::Kept, *final(self)),
            r matches ChainAction::FailAt { status_ptr } ==> {
                let (direction, length, offset) = ring_request(
                    old(self).geometry,
                    chain.header,
                    total_len(chain.readable@),
                    total_len(chain.writable@),
                )->Some_0;
                let spans = merged(chain.data_slices(direction, length as nat));
                &&& status_ptr == all_addresses(chain.writable@).last()
                &&& !uses_guest_memory(old(self).geometry, spans, length as nat)
                &&& none_of_size(old(self).bounce_pool@, length)
                &&& final(self).pending == old(self).pending
                &&& final(self).bounce_pool@ == old(self).bounce_pool@
            },
            r matches ChainAction::Submit { entry, copies } ==> old(self).submitted(
                queue_index,
                *chain,
                entry,
                copies@,
                *final(self),
            ),
    {
        let readable: usize = span_bytes(chain.readable.as_slice());
        let writable: usize = span_bytes(chain.writable.as_slice());
        let (direction, length, offset): (LinuxRawDirection, usize, u64) =
            match classify_ring_request(self.geometry, chain.header, readable, writable) {
            None => {
                if self.pending.is_empty() {
                    return ChainAction::Synchronous;
                }
                return ChainAction::Drain;
            },
            Some(request) => request,
        };
        if writable == 0 {
            return ChainAction::FailChain;
        }
        let (status_spans, _) = advance_spans(chain.writable.as_slice(), writable - 1);
        proof {
            advanced_skips_finished_bytes(chain.writable@, (writable - 1) as nat);
            lemma_addresses_len(chain.writable@);
            crate::block::raw::lemma_advanced_in_bounds(chain.writable@, (writable - 1) as nat);
            merging_keeps_every_address(advanced(chain.writable@, (writable - 1) as nat));
        }
        let status_ptr: usize = match snapshot_linux_raw_buffers(status_spans.as_slice(), 1) {
            Err(_) => {
                return ChainAction::FailChain;
            },
            Ok(list) => {
                proof {
                    lemma_one_byte(list@);
                }
                list.as_slice()[0].ptr
            },
        };
        proof {
            leading_takes_first_bytes(chain.writable@, length as nat);
            merging_keeps_every_address(chain.data_slices(direction, length as nat));
        }
        let snapshot = match direction {
            LinuxRawDirection::Read => {
                let slices: Vec<LinuxRawFileBuffer> = leading_spans(
                    chain.writable.as_slice(),
                    length,
                );
                snapshot_linux_raw_buffers(slices.as_slice(), length)
            },
            LinuxRawDirection::Write => snapshot_linux_raw_buffers(
                chain.readable.as_slice(),
                length,
            ),
        };
        let spans: SpanList = match snapshot {
            Err(_) => {
                return ChainAction::FailAt { status_ptr };
            },
            Ok(list) => list,
        };
        let mut copies: Vec<BounceCopy> = Vec::new();
        let data: LinuxRawRequestData = if can_use_guest_memory(
            self.geometry,
            spans.as_slice(),
            length,
        ) {
            LinuxRawRequestData::Guest { buffers: spans, iovecs: SpanList::new() }
        } else {
            let acquired = self.bounce_pool.acquire(length, self.geometry.mem_align);
            match acquired {
                Err(_) => {
                    return ChainAction::FailAt { status_ptr };
                },
                Ok(buffer) => {
                    if direction == LinuxRawDirection::Write {
                        let (planned, result) = plan_bounce_copies(
                            spans.as_slice(),
                            io_buffer_len(&buffer),
                            io_buffer_len(&buffer),
                        );
                        proof {
                            lemma_fitting_total(spans@, planned@.len() as int);
                        }
                        if result.is_err() {
                            self.bounce_pool.release(buffer);
                            return ChainAction::FailAt { status_ptr };
                        }
                        copies = planned;
                    }
                    LinuxRawRequestData::Bounce { buffer, guest_buffers: spans }
                },
            }
        };
        let mut request = PendingLinuxRawRequest {
            queue_index,
            head_index: chain.head_index,
            direction,
            data,
            status_ptr,
            data_len: length,
            offset,
            completed: 0,
        };
        proof {
            lemma_count_within_total(spans@);
            lemma_advanced_by_zero(spans@);
        }
        match request.rebuild_iovecs() {
            Err(_) => {
                return ChainAction::FailAt { status_ptr };
            },
            Ok(()) => {},
        }
        let ghost kept = request;
        let request_id: u64 = match self.pending.insert(request) {
            Err(_) => {
                return ChainAction::FailAt { status_ptr };
            },
            Ok(id) => id,
        };
        let ghost inserted = self.pending;
        let entry = match self.pending.get_mut(request_id) {
            None => {
                return ChainAction::FailAt { status_ptr };
            },
            Some(request) => ring_entry(request_id, request),
        };
        assert(self.pending@ =~= inserted@);
        match entry {
            Err(_) => ChainAction::FailAt { status_ptr },
            Ok(entry) => ChainAction::Submit { entry, copies },
        }
    }

    /// Takes a request back that the ring did not accept. Its chain, and where its error status
    /// goes, are handed out; a bounce buffer is given up.
    pub fn submission_refused(&mut self, request_id: u64) -> (r: Option<(usize, u16, usize)>)
        requires
            old(self).wf(),
        ensures
            final(self).wf(),
            final(self).same_settings(*old(self)),
            final(self).bounce_pool == old(self).bounce_pool,
            r is Some <==> old(self).pending@.contains_key(request_id),
            r is None ==> *final(self) == *old(self),
            r matches Some(chain) ==> {
                let request = old(self).pending@[request_id];
                &&& chain == (request.queue_index, request.head_index, request.status_ptr)
                &&& old(self).pending.removed(request_id, final(self).pending)
            },
            ring_step(*old(self), over_if(r is Some, request_id), *final(self)),
    {
        match self.pending.remove(request_id) {
            None => None,
            Some(request) => Some((request.queue_index, request.head_index, request.status_ptr)),
        }
    }

    /// The rest of a request after `done` more bytes can go to the ring again.
    pub open spec fn resumable(self, request_id: u64, done: int) -> bool {
        let request = self.pending@[request_id];
        let completed = request.completed + done;
        let iovecs = match request.data {
            LinuxRawRequestData::Guest { buffers, .. } => advanced(buffers@, completed as nat),
            LinuxRawRequestData::Bounce { .. } => Seq::empty(),
        };
        &&& remainder_aligned_at(self.geometry, request, completed, iovecs)
        &&& entry_at(request_id, request, completed, iovecs) is Ok
    }

    /// A completion that leaves part of a request to be done, which the ring can take.
    pub open spec fn continues(self, request_id: u64, result: int) -> bool {
        let request = self.pending@[request_id];
        &&& self.pending@.contains_key(request_id)
        &&& 0 < result < request.data_len - request.completed
        &&& self.resumable(request_id, result)
    }

    /// A request after `done` more bytes: its cursor moved and its iovecs follow it.
    pub open spec fn progressed(
        before: PendingLinuxRawRequest,
        done: int,
        after: PendingLinuxRawRequest,
    ) -> bool {
        &&& after.completed == before.completed + done
        &&& after == (PendingLinuxRawRequest {
            completed: after.completed,
            data: after.data,
            ..before
        })
        &&& same_but_iovecs(before.data, after.data)
        &&& rebuilt(after.data, after.completed as nat)
    }

    /// Decides what one completion of the ring means, and keeps the request's progress.
    pub fn reap(&mut self, request_id: u64, result: i32) -> (r: ReapAction)
        requires
            old(self).wf(),
        ensures
            final(self).wf(),
            final(self).same_settings(*old(self)),
            final(self).bounce_pool == old(self).bounce_pool,
            r is Unknown <==> !old(self).pending@.contains_key(request_id),
            r is Unknown ==> *final(self) == *old(self),
            r is Resubmit <==> old(self).continues(request_id, result as int),
            r matches ReapAction::Resubmit { entry } ==> {
                let request = final(self).pending@[request_id];
                &&& Self::progressed(old(self).pending@[request_id], result as int, request)
                &&& final(self).pending@ == old(self).pending@.insert(request_id, request)
                &&& final(self).pending.count() == old(self).pending.count()
                &&& final(self).pending.generations() == old(self).pending.generations()
                &&& final(self).pending.free_slots() == old(self).pending.free_slots()
                &&& entry_of(request_id, request) == Ok::<
                    RingEntry,
                    crate::block::ring::EntryError,
                >(entry)
            },
            r matches ReapAction::Complete { completion } ==> {
                let request = old(self).pending@[request_id];
                &&& completes(
                    request,
                    result == request.data_len - request.completed,
                    completion,
                )
                &&& old(self).pending.removed(request_id, final(self).pending)
            },
            ring_step(*old(self), over_if(r is Complete, request_id), *final(self)),
    {
        let ghost before = self.pending;
        let geometry = self.geometry;
        let success: bool = match self.pending.get_mut(request_id) {
            None => {
                return ReapAction::Unknown;
            },
            Some(request) => {
                let remaining: usize = request.remaining();
                if result > 0 && (result as usize) < remaining {
                    request.completed = request.completed + result as usize;
                    match request.rebuild_iovecs() {
                        Ok(()) => {
                            if linux_raw_remainder_is_aligned(geometry, request) {
                                match ring_entry(request_id, request) {
                                    Ok(entry) => {
                                        return ReapAction::Resubmit { entry };
                                    },
                                    Err(_) => {},
                                }
                            }
                        },
                        Err(_) => {},
                    }
                }
                result >= 0 && result as usize == remaining
            },
        };
        let removed = self.pending.remove(request_id);
        assert(self.pending@ =~= before@.remove(request_id));
        match removed {
            None => ReapAction::Unknown,
            Some(request) => ReapAction::Complete {
                completion: complete_linux_raw_request(request, success),
            },
        }
    }

    /// Ends a request whose rest the ring did not accept.
    pub fn resubmission_refused(&mut self, request_id: u64) -> (r: Option<LinuxRawCompletion>)
        requires
            old(self).wf(),
        ensures
            final(self).wf(),
            final(self).same_settings(*old(self)),
            final(self).bounce_pool == old(self).bounce_pool,
            r is Some <==> old(self).pending@.contains_key(request_id),
            r is None ==> *final(self) == *old(self),
            r matches Some(completion) ==> completes(
                old(self).pending@[request_id],
                false,
                completion,
            ) && old(self).pending.removed(request_id, final(self).pending),
            ring_step(*old(self), over_if(r is Some, request_id), *final(self)),
    {
        match self.pending.remove(request_id) {
            None => None,
            Some(request) => Some(complete_linux_raw_request(request, false)),
        }
    }

    /// Takes back the bounce buffer of a request that is over, its copies made.
    pub fn release_buffer(&mut self, buffer: IoBuffer)
        requires
            old(self).wf(),
        ensures
            final(self).wf(),
            final(self).same_settings(*old(self)),
            final(self).pending == old(self).pending,
            ring_step(*old(self), RingStep::Kept, *final(self)),
            final(self).bounce_pool@ == if old(self).bounce_pool@.len()
                < MAX_PENDING_LINUX_RAW_REQUESTS {
                old(self).bounce_pool@.push(buffer)
            } else {
                old(self).bounce_pool@
            },
    {
        self.bounce_pool.release(buffer);
    }

    /// Whether a request that is not for the ring may be served: every request that was taken
    /// before it is over.
    pub fn drained(&self) -> (r: bool)
        requires
            self.wf(),
        ensures
            r == (self.pending.count() == 0),
            r ==> self.pending@ == Map::<u64, PendingLinuxRawRequest>::empty(),
    {
        let drained: bool = self.pending.is_empty();
        proof {
            if drained {
                empty_table_holds_nothing(self.pending);
            }
        }
        drained
    }

    /// Whether the queue is worked on further: it has more to give and the table has room.
    pub fn continue_queue(&self, more: bool) -> (r: bool)
        ensures
            r == (more && self.pending.count() != MAX_PENDING_LINUX_RAW_REQUESTS),
    {
        more && !self.pending.is_full()
    }

    /// Completions to wait for before the ring is read: none where completions are not batched.
    pub fn completion_target(&self) -> (r: usize)
        ensures
            r == if self.batch_completions {
                self.completion_policy.target(self.pending.count())
            } else {
                0
            },
            r <= self.pending.count(),
    {
        if self.batch_completions {
            self.completion_policy.completion_target(self.pending.len())
        } else {
            0
        }
    }

    /// Whether the guest is interrupted for one completion: where the used ring took it and
    /// completions are not batched.
    pub fn signal_after_publish(&self, added: bool) -> (r: bool)
        ensures
            r == (added && !self.batch_completions),
    {
        added && !self.batch_completions
    }

    /// Whether the queues that a reading of the ring completed are signalled at once.
    pub fn signal_after_reap(&self, completed_queues: u64) -> (r: bool)
        ensures
            r == (self.batch_completions && completed_queues != 0 && self.completion_policy
                != LinuxRawCompletionPolicy::LocalDrain),
    {
        self.batch_completions && completed_queues != 0
            && !self.completion_policy.uses_local_drain()
    }

    /// Whether a batch interrupts the guest, given what its queues said about notifications.
    pub fn batch_interrupts(&self, answers: &[bool]) -> (r: bool)
        ensures
            r == (!self.completion_policy.conditional() || answers@.contains(true)),
    {
        if !self.completion_policy.uses_conditional_interrupts() {
            return true;
        }
        let mut i: usize = 0;
        while i < answers.len()
            invariant
                i <= answers@.len(),
                forall|j: int| 0 <= j < i ==> !#[trigger] answers@[j],
            decreases answers@.len() - i,
        {
            if answers[i] {
                assert(answers@[i as int] == true);
                return true;
            }
            i = i + 1;
        }
        false
    }
}

/// What one call makes of the requests in flight.
pub enum RingStep {
    /// All of them are still in flight.
    Kept,
    /// This one is over, and no other changed places.
    Over { id: u64 },
}

/// A request is over where `over` holds.
pub open spec fn over_if(over: bool, id: u64) -> RingStep {
    if over {
        RingStep::Over { id }
    } else {
        RingStep::Kept
    }
}

/// `after` is the ring after a call that made `step` of the requests in flight.
pub open spec fn ring_step(before: LinuxRawRing, step: RingStep, after: LinuxRawRing) -> bool {
    match step {
        RingStep::Kept => before.pending@.dom().subset_of(after.pending@.dom()),
        RingStep::Over { id } => before.pending@.contains_key(id) && after.pending@.dom()
            == before.pending@.dom().remove(id),
    }
}

/// The rings that a run of calls goes through, with what each call makes of the requests.
pub open spec fn ring_run(rings: Seq<LinuxRawRing>, steps: Seq<RingStep>) -> bool {
    &&& rings.len() == steps.len() + 1
    &&& forall|i: int|
        #![trigger steps[i]]
        0 <= i < steps.len() ==> ring_step(rings[i], steps[i], rings[i + 1])
}

/// Call `k` of a run is the one that ends the request that is in flight at ring `taken`.
pub open spec fn ends_at(
    rings: Seq<LinuxRawRing>,
    steps: Seq<RingStep>,
    taken: int,
    id: u64,
    k: int,
) -> bool {
    &&& taken <= k < steps.len()
    &&& steps[k] == RingStep::Over { id }
    &&& forall|j: int| taken <= j <= k ==> (#[trigger] rings[j]).pending@.contains_key(id)
}

/// Where a run of calls comes to a chain that is served synchronously, every request that was in
/// flight at any time before stayed in flight until a call ended it: none is overtaken.
pub proof fn synchronous_request_overtakes_none(
    rings: Seq<LinuxRawRing>,
    steps: Seq<RingStep>,
    taken: int,
    id: u64,
)
    requires
        ring_run(rings, steps),
        rings.last().wf(),
        rings.last().pending.count() == 0,
        0 <= taken < rings.len(),
        rings[taken].pending@.contains_key(id),
    ensures
        exists|k: int| ends_at(rings, steps, taken, id, k),
{
    empty_table_holds_nothing(rings.last().pending);
    lemma_ends_or_stays(rings, steps, taken, id, rings.len() - 1);
}

proof fn lemma_ends_or_stays(
    rings: Seq<LinuxRawRing>,
    steps: Seq<RingStep>,
    taken: int,
    id: u64,
    at: int,
)
    requires
        ring_run(rings, steps),
        0 <= taken <= at < rings.len(),
        rings[taken].pending@.contains_key(id),
    ensures
        (exists|k: int| ends_at(rings, steps, taken, id, k)) || (forall|j: int|
            taken <= j <= at ==> (#[trigger] rings[j]).pending@.contains_key(id)),
    decreases at - taken,
{
    if taken < at {
        lemma_ends_or_stays(rings, steps, taken, id, at - 1);
        if !(exists|k: int| ends_at(rings, steps, taken, id, k)) {
            assert(rings[at - 1].pending@.contains_key(id));
            if steps[at - 1] == (RingStep::Over { id }) {
                assert(ends_at(rings, steps, taken, id, at - 1));
            }
            assert(ring_step(rings[at - 1], steps[at - 1], rings[at]));
        }
    }
}

/// The queues that are signalled at once after a request that was served synchronously. With
/// batched completions it gets an interrupt of its own; else publishing it has sent one.
pub fn signal_after_synchronous(batch: bool, queue_index: usize) -> (r: Option<u64>)
    requires
        batch ==> queue_index < 64,
    ensures
        r == if batch {
            Some(1u64 << (queue_index as u64))
        } else {
            None
        },
{
    if batch {
        Some(1u64 << (queue_index as u64))
    } else {
        None
    }
}

/// A batch of one request served synchronously asks its queue alone about notifications.
pub proof fn synchronous_signal_is_for_one_queue(queue_index: u64, queue: u64)
    requires
        queue_index < 64,
        queue < 64,
    ensures
        queue_marked(1u64 << queue_index, queue) == (queue == queue_index),
{
    assert((1u64 << queue_index) & (1u64 << queue) != 0 <==> queue == queue_index) by (bit_vector)
        requires
            queue_index < 64,
            queue < 64,
    ;
}

/// The queue is marked in the mask.
pub open spec fn queue_marked(mask: u64, queue_index: u64) -> bool {
    mask & (1u64 << queue_index) != 0
}

/// The mask with a queue marked; queues past the last bit are left out.
pub open spec fn mask_with(mask: u64, queue_index: usize) -> u64 {
    if queue_index < 64 {
        mask | (1u64 << (queue_index as u64))
    } else {
        mask
    }
}

/// Marks the queue of a completed request.
pub fn mark_completed(mask: u64, queue_index: usize) -> (r: u64)
    ensures
        r == mask_with(mask, queue_index),
{
    if queue_index < 64 {
        mask | (1u64 << (queue_index as u64))
    } else {
        mask
    }
}

/// Marking a queue adds it and changes no other.
pub proof fn marking_adds_one_queue(mask: u64, marked: u64, queue: u64)
    requires
        marked < 64,
        queue < 64,
    ensures
        queue_marked(mask_with(mask, marked as usize), queue) == (queue_marked(mask, queue) || queue
            == marked),
{
    assert((mask | (1u64 << marked)) & (1u64 << queue) != 0 <==> (mask & (1u64 << queue) != 0
        || queue == marked)) by (bit_vector)
        requires
            marked < 64,
            queue < 64,
    ;
}

/// The marked queues below `count`, in order: those that a batch asks about notifications.
pub open spec fn marked_queues(mask: u64, count: nat) -> Seq<usize>
    decreases count,
{
    if count == 0 {
        Seq::empty()
    } else {
        let front = marked_queues(mask, (count - 1) as nat);
        if queue_marked(mask, (count - 1) as u64) {
            front.push((count - 1) as usize)
        } else {
            front
        }
    }
}

/// The queues that a batch asks about notifications.
pub fn batch_queues(completed_queues: u64, queue_count: usize) -> (r: Vec<usize>)
    ensures
        r@ == marked_queues(
            completed_queues,
            if queue_count < 64 {
                queue_count as nat
            } else {
                64
            },
        ),
{
    let limit: usize = if queue_count < 64 {
        queue_count
    } else {
        64
    };
    let mut queues: Vec<usize> = Vec::new();
    let mut i: usize = 0;
    while i < limit
        invariant
            i <= limit <= 64,
            queues@ == marked_queues(completed_queues, i as nat),
        decreases limit - i,
    {
        if completed_queues & (1u64 << (i as u64)) != 0 {
            queues.push(i);
        }
        i = i + 1;
    }
    queues
}

/// What is handed to the ring for a chain is the chain's request: its direction by its type, the
/// bytes of the disk from its sector on, the queue and the chain that it came from, and the last
/// byte that the host may write for its status. The data is the guest's own, byte for byte.
pub proof fn submitted_request_is_the_chains(
    ring: &mut LinuxRawRing,
    queue_index: usize,
    chain: &RequestChain,
    r: ChainAction,
)
    requires
        ring.wf(),
        ring.pending.count() < MAX_PENDING_LINUX_RAW_REQUESTS,
        chain.valid(),
        call_ensures(LinuxRawRing::process_linux_raw_chain, (ring, queue_index, chain), r),
        r is Submit,
    ensures
        ({
            let entry = r->entry;
            let request = final(ring).pending@[entry.request_id];
            let reading = chain.header.request_type == 0;
            let spans = match request.data {
                LinuxRawRequestData::Guest { buffers, .. } => buffers@,
                LinuxRawRequestData::Bounce { guest_buffers, .. } => guest_buffers@,
            };
            &&& chain.header.request_type <= 1
            &&& final(ring).pending@.contains_key(entry.request_id)
            &&& !old(ring).pending@.contains_key(entry.request_id)
            &&& final(ring).pending@.remove(entry.request_id) == old(ring).pending@
            &&& entry.offset == chain.header.sector * 512
            &&& request.offset == chain.header.sector * 512
            &&& request.completed == 0
            &&& request.queue_index == queue_index
            &&& request.head_index == chain.head_index
            &&& request.status_ptr == all_addresses(chain.writable@).last()
            &&& reading ==> entry.direction is Read && request.direction is Read && request.data_len
                == total_len(chain.writable@) - 1 && all_addresses(spans) == all_addresses(
                chain.writable@,
            ).drop_last()
            &&& !reading ==> entry.direction is Write && request.direction is Write
                && request.data_len == total_len(chain.readable@) && all_addresses(spans)
                == all_addresses(chain.readable@)
        }),
{
    let entry = r->entry;
    let before = old(ring).pending@;
    let request = final(ring).pending@[entry.request_id];
    lemma_addresses_len(chain.writable@);
    lemma_addresses_len(chain.readable@);
    leading_takes_first_bytes(chain.writable@, request.data_len as nat);
    merging_keeps_every_address(chain.data_slices(request.direction, request.data_len as nat));
    assert(before.insert(entry.request_id, request).remove(entry.request_id) =~= before);
    assert(all_addresses(chain.writable@).take(total_len(chain.writable@) - 1) =~= all_addresses(
        chain.writable@,
    ).drop_last());
}

/// The copies of a bounced write take each guest byte to the byte of the buffer that goes to its
/// place on the disk.
pub proof fn bounced_write_carries_the_guests_bytes(
    ring: &mut LinuxRawRing,
    queue_index: usize,
    chain: &RequestChain,
    r: ChainAction,
    i: int,
    b: int,
)
    requires
        ring.wf(),
        ring.pending.count() < MAX_PENDING_LINUX_RAW_REQUESTS,
        chain.valid(),
        call_ensures(LinuxRawRing::process_linux_raw_chain, (ring, queue_index, chain), r),
        r is Submit,
        0 <= i < r->copies@.len(),
        0 <= b < r->copies@[i].len,
    ensures
        chain.header.request_type == 1,
        r->copies@[i].offset + b < total_len(chain.readable@),
        r->copies@[i].guest_ptr + b == all_addresses(chain.readable@)[r->copies@[i].offset + b],
{
    let entry = r->entry;
    let request = final(ring).pending@[entry.request_id];
    let spans = merged(chain.data_slices(request.direction, request.data_len as nat));
    merging_keeps_every_address(chain.data_slices(request.direction, request.data_len as nat));
    crate::block::raw::bounce_copies_follow_addresses(spans, i, b);
}

/// A completion of the ring ends its request with success exactly where it moved all that was left.
/// Where it moved a part of it and the file is buffered, the rest is asked for, from the byte behind
/// that part on. Anything else ends the request with an error.
pub proof fn completions_move_a_request_on(
    ring: &mut LinuxRawRing,
    id: u64,
    result: i32,
    r: ReapAction,
)
    requires
        ring.wf(),
        ring.pending@.contains_key(id),
        call_ensures(LinuxRawRing::reap, (ring, id, result), r),
    ensures
        ({
            let before = old(ring).pending@[id];
            let left = before.data_len - before.completed;
            &&& !(r is Unknown)
            &&& result == left ==> r is Complete && r->completion.status == 0
                && r->completion.used_len == before.data_len
            &&& result <= 0 || result > left ==> r is Complete && r->completion.status == 1
                && r->completion.used_len == 0 && r->completion.read_bytes == 0
                && r->completion.write_bytes == 0
            &&& r is Resubmit ==> 0 < result < left && r->Resubmit_entry.offset == before.offset
                + before.completed + result && r->Resubmit_entry.request_id == id
                && r->Resubmit_entry.direction == before.direction
            &&& r is Resubmit ==> final(ring).pending@[id].completed == before.completed + result
                && final(ring).pending@[id].data_len == before.data_len
                    && final(ring).pending@[id].status_ptr == before.status_ptr
            &&& r is Complete ==> r->completion.queue_index == before.queue_index
                && r->completion.head_index == before.head_index && r->completion.status_ptr
                == before.status_ptr && !final(ring).pending@.contains_key(id)
        }),
{
    let before = old(ring).pending@[id];
    assert(sound(before));
    if r is Complete && result == before.data_len - before.completed {
        full_service_is_success(before, r->completion);
    }
}

/// Bytes are counted in the direction that the guest moved them, and only where the request went
/// well.
pub proof fn completed_bytes_are_counted_once(
    request: PendingLinuxRawRequest,
    success: bool,
    r: LinuxRawCompletion,
)
    requires
        call_ensures(complete_linux_raw_request, (request, success), r),
    ensures
        r.status == 0 || r.status == 1,
        r.status == 1 ==> r.used_len == 0 && r.read_bytes == 0 && r.write_bytes == 0,
        r.status == 0 ==> success && r.used_len == request.data_len,
        r.status == 0 && request.direction is Read ==> r.read_bytes == request.data_len
            && r.write_bytes == 0,
        r.status == 0 && request.direction is Write ==> r.write_bytes == request.data_len
            && r.read_bytes == 0,
        !success ==> r.status == 1,
        r.queue_index == request.queue_index,
        r.head_index == request.head_index,
        r.status_ptr == request.status_ptr,
{
}

/// When the guest is interrupted: for each completion where completions are not batched, for the
/// queues of a reading where they are, and for a batch unless its policy leaves that to the guest.
pub proof fn interrupts_follow_the_batching(
    ring: LinuxRawRing,
    added: bool,
    queues: u64,
    answers: &[bool],
    published: bool,
    reaped: bool,
    batch: bool,
    at: int,
)
    requires
        call_ensures(LinuxRawRing::signal_after_publish, (&ring, added), published),
        call_ensures(LinuxRawRing::signal_after_reap, (&ring, queues), reaped),
        call_ensures(LinuxRawRing::batch_interrupts, (&ring, answers), batch),
    ensures
        !ring.batch_completions ==> published == added && !reaped,
        ring.batch_completions ==> !published,
        ring.batch_completions && queues > 0 && !(ring.completion_policy is LocalDrain) ==> reaped,
        reaped ==> queues > 0,
        0 <= at < answers@.len() && answers@[at] == true ==> batch,
        ring.completion_policy is WaitAll || ring.completion_policy is Immediate ==> batch,
        ring.completion_policy is EventIdx && (forall|i: int|
            0 <= i < answers@.len() ==> !#[trigger] answers@[i]) ==> !batch,
{
    assert(0 <= at < answers@.len() && answers@[at] == true ==> answers@.contains(true));
}

/// The queues of a batch are those that were marked, each once and in order, and marking a queue
/// adds it alone.
pub proof fn marked_queues_are_asked_in_order(
    mask: u64,
    count: usize,
    r: Vec<usize>,
    queue: usize,
    marked: u64,
    i: int,
    j: int,
)
    requires
        call_ensures(batch_queues, (mask, count), r),
        call_ensures(mark_completed, (mask, queue), marked),
    ensures
        r@.contains(queue) <==> queue < 64 && queue < count && mask >> (queue as u64) & 1 == 1,
        0 <= i < j < r@.len() ==> r@[i] < r@[j],
        queue < 64 ==> marked == mask | (1u64 << (queue as u64)),
        queue >= 64 ==> marked == mask,
{
    let n = if count < 64 {
        count as nat
    } else {
        64
    };
    lemma_marked_queues(mask, n, queue);
    let q = queue as u64;
    if q < 64 {
        assert(mask & (1u64 << q) != 0 <==> mask >> q & 1 == 1) by (bit_vector)
            requires
                q < 64,
        ;
    }
    lemma_marked_in_order(mask, n, i, j);
}

proof fn lemma_marked_queues(mask: u64, count: nat, queue: usize)
    requires
        count <= 64,
    ensures
        marked_queues(mask, count).contains(queue) <==> queue < count && queue_marked(
            mask,
            queue as u64,
        ),
    decreases count,
{
    if count > 0 {
        let front = marked_queues(mask, (count - 1) as nat);
        lemma_marked_queues(mask, (count - 1) as nat, queue);
        let last = (count - 1) as usize;
        if queue_marked(mask, (count - 1) as u64) {
            let all = front.push(last);
            assert(all[front.len() as int] == last);
            if front.contains(queue) {
                let k = choose|k: int| 0 <= k < front.len() && front[k] == queue;
                assert(all[k] == queue);
            }
            if all.contains(queue) && queue != last {
                let k = choose|k: int| 0 <= k < all.len() && all[k] == queue;
                assert(front[k] == queue);
            }
        }
    }
}

proof fn lemma_marked_in_order(mask: u64, count: nat, i: int, j: int)
    requires
        count <= 64,
    ensures
        0 <= i < marked_queues(mask, count).len() ==> marked_queues(mask, count)[i] < count,
        0 <= j < marked_queues(mask, count).len() ==> marked_queues(mask, count)[j] < count,
        0 <= i < j < marked_queues(mask, count).len() ==> marked_queues(mask, count)[i]
            < marked_queues(mask, count)[j],
    decreases count,
{
    if count > 0 {
        lemma_marked_in_order(mask, (count - 1) as nat, i, j);
    }
}

} // verus!

//! The decisions of the worker that serves block requests through an I/O ring.

use crate::block::buffers::{LinuxRawFileBuffer, MAX_LINUX_RAW_REQUEST_BYTES};
use crate::block::pending::{LinuxRawDirection, LinuxRawRequestData, PendingLinuxRawRequest};
use crate::block::request::{
    plan_request, RequestError, RequestHeader, RequestPlan, SECTOR_BYTES, VIRTIO_BLK_T_IN,
    VIRTIO_BLK_T_OUT,
};
use crate::block::device::CacheType;
use crate::text::{same_text, str_trim, trimmed};
use vstd::prelude::*;

verus! {

/// Completions that the low watermark waits for.
pub const BLOCK_CQ_WATERMARK_LOW: usize = 8;

/// Completions that the high watermark waits for.
pub const BLOCK_CQ_WATERMARK_HIGH: usize = 16;

/// When completions are taken off the ring and shown to the guest.
#[derive(Clone, Copy, Debug, PartialEq, Eq, Structural)]
pub enum LinuxRawCompletionPolicy {
    /// Wait for every request in flight.
    WaitAll,
    /// Take what is there when the ring becomes readable.
    Immediate,
    /// Wait for up to eight completions.
    WatermarkLow,
    /// Wait for up to sixteen completions.
    WatermarkHigh,
    /// Take what is there and interrupt only where the guest asks for it.
    EventIdx,
    /// Finish one batch of the queue before the next event.
    LocalDrain,
}

/// The policy that a setting names; no setting and an empty one name the default.
pub open spec fn policy_named(setting: Seq<char>) -> Option<LinuxRawCompletionPolicy> {
    if setting.len() == 0 || setting == "wait-all"@ {
        Some(LinuxRawCompletionPolicy::WaitAll)
    } else if setting == "immediate"@ {
        Some(LinuxRawCompletionPolicy::Immediate)
    } else if setting == "watermark-8"@ {
        Some(LinuxRawCompletionPolicy::WatermarkLow)
    } else if setting == "watermark-16"@ {
        Some(LinuxRawCompletionPolicy::WatermarkHigh)
    } else if setting == "event-idx"@ {
        Some(LinuxRawCompletionPolicy::EventIdx)
    } else if setting == "local-drain"@ {
        Some(LinuxRawCompletionPolicy::LocalDrain)
    } else {
        None
    }
}

impl Default for LinuxRawCompletionPolicy {
    fn default() -> (r: LinuxRawCompletionPolicy)
        ensures
            r == LinuxRawCompletionPolicy::WaitAll,
    {
        LinuxRawCompletionPolicy::WaitAll
    }
}

impl LinuxRawCompletionPolicy {
    /// The policy that a setting names, white space at its ends aside.
    pub fn parse(raw: Option<&str>) -> (r: Option<LinuxRawCompletionPolicy>)
        ensures
            r == match raw {
                None => Some(LinuxRawCompletionPolicy::WaitAll),
                Some(text) => policy_named(trimmed(text@)),
            },
    {
        let name: &str = match raw {
            None => {
                return Some(LinuxRawCompletionPolicy::WaitAll);
            },
            Some(text) => str_trim(text),
        };
        if name.is_empty() || same_text(name, "wait-all") {
            Some(LinuxRawCompletionPolicy::WaitAll)
        } else if same_text(name, "immediate") {
            Some(LinuxRawCompletionPolicy::Immediate)
        } else if same_text(name, "watermark-8") {
            Some(LinuxRawCompletionPolicy::WatermarkLow)
        } else if same_text(name, "watermark-16") {
            Some(LinuxRawCompletionPolicy::WatermarkHigh)
        } else if same_text(name, "event-idx") {
            Some(LinuxRawCompletionPolicy::EventIdx)
        } else if same_text(name, "local-drain") {
            Some(LinuxRawCompletionPolicy::LocalDrain)
        } else {
            None
        }
    }

    /// The policy for the value of the environment setting: an unknown one means the default.
    pub fn from_setting(raw: Option<&str>) -> (r: LinuxRawCompletionPolicy)
        ensures
            r == match raw {
                None => LinuxRawCompletionPolicy::WaitAll,
                Some(text) => match policy_named(trimmed(text@)) {
                    Some(policy) => policy,
                    None => LinuxRawCompletionPolicy::WaitAll,
                },
            },
    {
        match LinuxRawCompletionPolicy::parse(raw) {
            Some(policy) => policy,
            None => LinuxRawCompletionPolicy::WaitAll,
        }
    }

    /// Completions that a batch waits for.
    pub open spec fn target(self, pending: nat) -> nat {
        match self {
            LinuxRawCompletionPolicy::WaitAll => pending,
            LinuxRawCompletionPolicy::WatermarkLow => if pending < BLOCK_CQ_WATERMARK_LOW {
                pending
            } else {
                BLOCK_CQ_WATERMARK_LOW as nat
            },
            LinuxRawCompletionPolicy::WatermarkHigh => if pending < BLOCK_CQ_WATERMARK_HIGH {
                pending
            } else {
                BLOCK_CQ_WATERMARK_HIGH as nat
            },
            _ => 0,
        }
    }

    /// Completions that a batch waits for, never more than are in flight.
    pub fn completion_target(self, pending: usize) -> (r: usize)
        ensures
            r == self.target(pending as nat),
            r <= pending,
    {
        match self {
            LinuxRawCompletionPolicy::WaitAll => pending,
            LinuxRawCompletionPolicy::WatermarkLow => if pending < BLOCK_CQ_WATERMARK_LOW {
                pending
            } else {
                BLOCK_CQ_WATERMARK_LOW
            },
            LinuxRawCompletionPolicy::WatermarkHigh => if pending < BLOCK_CQ_WATERMARK_HIGH {
                pending
            } else {
                BLOCK_CQ_WATERMARK_HIGH
            },
            _ => 0,
        }
    }

    /// Whether the guest's own notification setting decides about interrupts.
    pub open spec fn conditional(self) -> bool {
        self == LinuxRawCompletionPolicy::EventIdx || self == LinuxRawCompletionPolicy::LocalDrain
    }

    /// Whether the guest's own notification setting decides about interrupts.
    pub fn uses_conditional_interrupts(self) -> (r: bool)
        ensures
            r == self.conditional(),
    {
        self == LinuxRawCompletionPolicy::EventIdx || self == LinuxRawCompletionPolicy::LocalDrain
    }

    /// Whether a batch is finished before the next event is looked at.
    pub fn uses_local_drain(self) -> (r: bool)
        ensures
            r == (self == LinuxRawCompletionPolicy::LocalDrain),
    {
        self == LinuxRawCompletionPolicy::LocalDrain
    }
}

/// What the file behind a disk asks of ring requests.
#[derive(Clone, Copy, Debug, PartialEq, Eq, Structural)]
pub struct LinuxRawGeometry {
    /// The file bypasses the page cache.
    pub direct_io: bool,
    /// Offsets and lengths are multiples of this where the page cache is bypassed.
    pub req_align: usize,
    /// Memory is aligned to this where the page cache is bypassed.
    pub mem_align: usize,
}

/// `x` is a multiple of `m`; only zero is a multiple of zero.
pub open spec fn multiple_of(x: int, m: int) -> bool {
    if m == 0 {
        x == 0
    } else {
        x % m == 0
    }
}

/// A request that the file takes as far as its offset and length go.
pub open spec fn request_aligned(
    direct_io: bool,
    req_align: usize,
    offset: int,
    length: int,
) -> bool {
    !direct_io || (req_align > 0 && offset % req_align as int == 0 && length % req_align as int
        == 0)
}

/// Whether the offset and the length of a request suit the file.
pub fn linux_raw_request_is_aligned(
    direct_io: bool,
    req_align: usize,
    offset: u64,
    length: usize,
) -> (r: bool)
    ensures
        r == request_aligned(direct_io, req_align, offset as int, length as int),
{
    if !direct_io {
        return true;
    }
    req_align > 0 && offset % (req_align as u64) == 0 && length % req_align == 0
}

/// The direction, length and offset of a request that goes through the ring. Every other request
/// is served synchronously.
pub open spec fn ring_request(
    geometry: LinuxRawGeometry,
    header: RequestHeader,
    readable: nat,
    writable: nat,
) -> Option<(LinuxRawDirection, usize, u64)> {
    let length = if header.request_type == VIRTIO_BLK_T_IN {
        writable - 1
    } else {
        readable as int
    };
    let offset = header.sector * SECTOR_BYTES;
    if (header.request_type == VIRTIO_BLK_T_IN || header.request_type == VIRTIO_BLK_T_OUT) && length
        > 0 && length % 512 == 0 && length <= MAX_LINUX_RAW_REQUEST_BYTES && offset <= u64::MAX
        && request_aligned(geometry.direct_io, geometry.req_align, offset, length) {
        let direction = if header.request_type == VIRTIO_BLK_T_IN {
            LinuxRawDirection::Read
        } else {
            LinuxRawDirection::Write
        };
        Some((direction, length as usize, offset as u64))
    } else {
        None
    }
}

/// Whether a request goes through the ring, and with which direction, length and offset.
pub fn classify_ring_request(
    geometry: LinuxRawGeometry,
    header: RequestHeader,
    readable: usize,
    writable: usize,
) -> (r: Option<(LinuxRawDirection, usize, u64)>)
    ensures
        r == ring_request(geometry, header, readable as nat, writable as nat),
{
    let (direction, length): (LinuxRawDirection, usize) = if header.request_type
        == VIRTIO_BLK_T_IN {
        if writable == 0 {
            return None;
        }
        (LinuxRawDirection::Read, writable - 1)
    } else if header.request_type == VIRTIO_BLK_T_OUT {
        (LinuxRawDirection::Write, readable)
    } else {
        return None;
    };
    if length == 0 || length % 512 != 0 || length > MAX_LINUX_RAW_REQUEST_BYTES {
        return None;
    }
    match header.sector.checked_mul(SECTOR_BYTES) {
        None => None,
        Some(offset) => {
            if linux_raw_request_is_aligned(
                geometry.direct_io,
                geometry.req_align,
                offset,
                length,
            ) {
                Some((direction, length, offset))
            } else {
                None
            }
        },
    }
}

/// What an entry of the ring points at.
#[derive(Clone, Copy, Debug, PartialEq, Eq, Structural)]
pub enum RingTarget {
    /// The iovecs of the request.
    Iovecs { count: u32 },
    /// The bounce buffer from `start` on.
    Buffer { start: usize, len: u32 },
}

/// One submission to the ring.
#[derive(Clone, Copy, Debug, PartialEq, Eq, Structural)]
pub struct RingEntry {
    pub request_id: u64,
    pub direction: LinuxRawDirection,
    pub offset: u64,
    pub target: RingTarget,
}

/// Why a request has no ring entry.
#[derive(Clone, Copy, Debug, PartialEq, Eq, Structural)]
pub enum EntryError {
    /// More than a 32-bit number of bytes is left.
    TooLarge,
    /// The offset of the bytes that are left is past the last 64-bit offset.
    OffsetOverflow,
    /// There are more iovecs than a 32-bit number counts.
    TooManyIovecs,
}

/// The iovecs of a request; a bounced request has none.
pub open spec fn iovecs_of(data: LinuxRawRequestData) -> Seq<LinuxRawFileBuffer> {
    match data {
        LinuxRawRequestData::Guest { iovecs, .. } => iovecs@,
        LinuxRawRequestData::Bounce { .. } => Seq::empty(),
    }
}

/// The ring entry for what is left of a request after `completed` bytes, with these iovecs.
pub open spec fn entry_at(
    request_id: u64,
    request: PendingLinuxRawRequest,
    completed: int,
    iovecs: Seq<LinuxRawFileBuffer>,
) -> Result<RingEntry, EntryError> {
    let remaining = request.data_len - completed;
    let offset = request.offset + completed;
    if remaining > u32::MAX {
        Err(EntryError::TooLarge)
    } else if offset > u64::MAX {
        Err(EntryError::OffsetOverflow)
    } else if request.data is Guest && iovecs.len() > u32::MAX {
        Err(EntryError::TooManyIovecs)
    } else {
        let target = match request.data {
            LinuxRawRequestData::Guest { .. } => RingTarget::Iovecs { count: iovecs.len() as u32 },
            LinuxRawRequestData::Bounce { .. } => RingTarget::Buffer {
                start: completed as usize,
                len: remaining as u32,
            },
        };
        Ok(RingEntry { request_id, direction: request.direction, offset: offset as u64, target })
    }
}

/// The ring entry for the bytes of a request that are left.
pub open spec fn entry_of(request_id: u64, request: PendingLinuxRawRequest) -> Result<
    RingEntry,
    EntryError,
> {
    entry_at(request_id, request, request.completed as int, iovecs_of(request.data))
}

/// The ring entry for the bytes of a request that are left.
pub fn ring_entry(request_id: u64, request: &PendingLinuxRawRequest) -> (r: Result<
    RingEntry,
    EntryError,
>)
    requires
        request.completed <= request.data_len,
    ensures
        r == entry_of(request_id, *request),
{
    let remaining: usize = request.remaining();
    if remaining as u64 > u32::MAX as u64 {
        return Err(EntryError::TooLarge);
    }
    let offset: u64 = match request.offset.checked_add(request.completed as u64) {
        None => {
            return Err(EntryError::OffsetOverflow);
        },
        Some(offset) => offset,
    };
    let target: RingTarget = match &request.data {
        LinuxRawRequestData::Guest { iovecs, .. } => {
            let count: usize = iovecs.len();
            if count as u64 > u32::MAX as u64 {
                return Err(EntryError::TooManyIovecs);
            }
            RingTarget::Iovecs { count: count as u32 }
        },
        LinuxRawRequestData::Bounce { .. } => RingTarget::Buffer {
            start: request.completed,
            len: remaining as u32,
        },
    };
    Ok(RingEntry { request_id, direction: request.direction, offset, target })
}

/// Every span of the list suits direct I/O on the memory side.
pub open spec fn all_multiples(spans: Seq<LinuxRawFileBuffer>, align: int) -> bool {
    forall|i: int|
        0 <= i < spans.len() ==> multiple_of((#[trigger] spans[i]).ptr as int, align)
            && multiple_of(spans[i].len as int, align)
}

/// What is left of a request after `completed` bytes, with these iovecs, suits the file.
pub open spec fn remainder_aligned_at(
    geometry: LinuxRawGeometry,
    request: PendingLinuxRawRequest,
    completed: int,
    iovecs: Seq<LinuxRawFileBuffer>,
) -> bool {
    !geometry.direct_io || {
        &&& request.offset + completed <= u64::MAX
        &&& request_aligned(
            true,
            geometry.req_align,
            request.offset + completed,
            request.data_len - completed,
        )
        &&& match request.data {
            LinuxRawRequestData::Guest { .. } => all_multiples(iovecs, geometry.mem_align as int),
            LinuxRawRequestData::Bounce { .. } => multiple_of(
                completed,
                geometry.mem_align as int,
            ),
        }
    }
}

/// The bytes that are left of a request suit the file.
pub open spec fn remainder_aligned(
    geometry: LinuxRawGeometry,
    request: PendingLinuxRawRequest,
) -> bool {
    remainder_aligned_at(geometry, request, request.completed as int, iovecs_of(request.data))
}

fn is_multiple(x: usize, m: usize) -> (r: bool)
    ensures
        r == multiple_of(x as int, m as int),
{
    if m == 0 {
        x == 0
    } else {
        x % m == 0
    }
}

fn spans_are_multiples(spans: &[LinuxRawFileBuffer], align: usize) -> (r: bool)
    ensures
        r == all_multiples(spans@, align as int),
{
    let mut i: usize = 0;
    while i < spans.len()
        invariant
            i <= spans@.len(),
            all_multiples(spans@.take(i as int), align as int),
        decreases spans@.len() - i,
    {
        if !is_multiple(spans[i].ptr, align) || !is_multiple(spans[i].len, align) {
            let ghost k = i as int;
            assert(!(multiple_of(spans@[k].ptr as int, align as int) && multiple_of(
                spans@[k].len as int,
                align as int,
            )));
            return false;
        }
        assert forall|j: int| 0 <= j < i + 1 implies multiple_of(
            (#[trigger] spans@.take(i + 1)[j]).ptr as int,
            align as int,
        ) && multiple_of(spans@.take(i + 1)[j].len as int, align as int) by {
            if j < i {
                assert(spans@.take(i as int)[j] == spans@[j]);
            }
        }
        i = i + 1;
    }
    assert(spans@.take(i as int) =~= spans@);
    true
}

/// Whether the bytes that are left of a request can go to the ring again.
pub fn linux_raw_remainder_is_aligned(
    geometry: LinuxRawGeometry,
    request: &PendingLinuxRawRequest,
) -> (r: bool)
    requires
        request.completed <= request.data_len,
    ensures
        r == remainder_aligned(geometry, *request),
{
    if !geometry.direct_io {
        return true;
    }
    let offset: u64 = match request.offset.checked_add(request.completed as u64) {
        None => {
            return false;
        },
        Some(offset) => offset,
    };
    if !linux_raw_request_is_aligned(true, geometry.req_align, offset, request.remaining()) {
        return false;
    }
    match &request.data {
        LinuxRawRequestData::Guest { iovecs, .. } => {
            spans_are_multiples(iovecs.as_slice(), geometry.mem_align)
        },
        LinuxRawRequestData::Bounce { .. } => is_multiple(request.completed, geometry.mem_align),
    }
}

/// A request that goes through the ring moves the same bytes of the disk, in the same direction, as
/// it would if it were served without it. A buffered request that moves some bytes, and not too many,
/// always goes through the ring.
pub proof fn ring_serves_what_the_disk_would(
    geometry: LinuxRawGeometry,
    header: RequestHeader,
    readable: usize,
    writable: usize,
    cache: CacheType,
    ring: Option<(LinuxRawDirection, usize, u64)>,
    plan: Result<RequestPlan, RequestError>,
)
    requires
        call_ensures(classify_ring_request, (geometry, header, readable, writable), ring),
        call_ensures(plan_request, (header, readable, writable, cache), plan),
    ensures
        ring is Some ==> plan is Ok && 0 < ring->Some_0.1 <= 1048576 && match ring->Some_0.0 {
            LinuxRawDirection::Read => plan->Ok_0 == (RequestPlan::Read {
                len: ring->Some_0.1,
                offset: ring->Some_0.2,
            }),
            LinuxRawDirection::Write => plan->Ok_0 == (RequestPlan::Write {
                len: ring->Some_0.1,
                offset: ring->Some_0.2,
            }),
        },
        !geometry.direct_io && plan is Ok && plan->Ok_0 is Read && 0 < plan->Ok_0->Read_len
            <= 1048576 ==> ring is Some,
        !geometry.direct_io && plan is Ok && plan->Ok_0 is Write && 0 < plan->Ok_0->Write_len
            <= 1048576 ==> ring is Some,
        geometry.direct_io && ring is Some ==> geometry.req_align > 0 && exists|a: int, b: int|
            ring->Some_0.2 == #[trigger] (a * geometry.req_align) && ring->Some_0.1
                == #[trigger] (b * geometry.req_align),
{
    if geometry.direct_io && ring is Some {
        let align = geometry.req_align as int;
        let (_, length, offset) = ring->Some_0;
        vstd::arithmetic::div_mod::lemma_fundamental_div_mod(offset as int, align);
        vstd::arithmetic::div_mod::lemma_fundamental_div_mod(length as int, align);
        assert(offset == (offset as int / align) * align) by (nonlinear_arith)
            requires
                offset as int == align * (offset as int / align) + offset as int % align,
                offset as int % align == 0,
        ;
        assert(length == (length as int / align) * align) by (nonlinear_arith)
            requires
                length as int == align * (length as int / align) + length as int % align,
                length as int % align == 0,
        ;
    }
}

/// The ring is asked for exactly what is left of a request: from the byte of the disk behind those
/// that are done on, and as many bytes as are left.
pub proof fn ring_entry_is_for_what_is_left(
    id: u64,
    request: PendingLinuxRawRequest,
    r: Result<RingEntry, EntryError>,
)
    requires
        request.completed <= request.data_len,
        call_ensures(ring_entry, (id, &request), r),
    ensures
        r is Ok ==> {
            let entry = r->Ok_0;
            &&& entry.request_id == id
            &&& entry.direction == request.direction
            &&& entry.offset == request.offset + request.completed
            &&& match request.data {
                LinuxRawRequestData::Bounce { .. } => entry.target is Buffer
                    && entry.target->start == request.completed && entry.target->start
                    + entry.target->Buffer_len == request.data_len,
                LinuxRawRequestData::Guest { iovecs, .. } => entry.target is Iovecs
                    && entry.target->count == iovecs@.len(),
            }
        },
        r is Err <==> request.data_len - request.completed > u32::MAX || request.offset
            + request.completed > u64::MAX || (request.data is Guest && iovecs_of(
            request.data,
        ).len() > u32::MAX),
{
}

/// A batch never waits for more than is in flight. Waiting for all waits for every request, the
/// watermarks for eight and sixteen at most, and the other policies for none.
pub proof fn batches_wait_as_their_policy_says(
    policy: LinuxRawCompletionPolicy,
    pending: usize,
    r: usize,
)
    requires
        call_ensures(LinuxRawCompletionPolicy::completion_target, (policy, pending), r),
    ensures
        r <= pending,
        policy is WaitAll ==> r == pending,
        policy is WatermarkLow ==> r <= 8 && (r < 8 ==> r == pending),
        policy is WatermarkHigh ==> r <= 16 && (r < 16 ==> r == pending),
        policy is Immediate || policy is EventIdx || policy is LocalDrain ==> r == 0,
{
}

/// What is left of a request can go to the ring again where the file is buffered, and else only
/// where its offset, its length and its memory keep to the file's alignments.
pub proof fn remainder_keeps_the_alignments(
    geometry: LinuxRawGeometry,
    request: PendingLinuxRawRequest,
    r: bool,
)
    requires
        request.completed <= request.data_len,
        call_ensures(linux_raw_remainder_is_aligned, (geometry, &request), r),
    ensures
        !geometry.direct_io ==> r,
        geometry.direct_io && r ==> geometry.req_align > 0 && (request.offset + request.completed)
            % geometry.req_align as int == 0 && (request.data_len - request.completed)
            % geometry.req_align as int == 0,
        geometry.direct_io && r && geometry.mem_align > 0 && request.data is Bounce
            ==> request.completed % geometry.mem_align == 0,
        geometry.direct_io && r && geometry.mem_align > 0 ==> forall|i: int|
            0 <= i < iovecs_of(request.data).len() ==> (#[trigger] iovecs_of(request.data)[i]).ptr
                % geometry.mem_align == 0 && iovecs_of(request.data)[i].len % geometry.mem_align
                == 0,
{
}

/// A request suits a file that is opened past the cache where whole multiples of its alignment reach
/// where it starts and its length. Any request suits another file.
pub proof fn direct_requests_are_whole_multiples(
    direct_io: bool,
    align: usize,
    offset: u64,
    length: usize,
    r: bool,
    start: int,
    count: int,
)
    requires
        call_ensures(linux_raw_request_is_aligned, (direct_io, align, offset, length), r),
    ensures
        !direct_io ==> r,
        align > 0 && offset == start * align && length == count * align ==> r,
        direct_io && r ==> align > 0 && offset as int % align as int == 0 && length as int
            % align as int == 0,
{
    if align > 0 {
        vstd::arithmetic::div_mod::lemma_mod_multiples_basic(start, align as int);
        vstd::arithmetic::div_mod::lemma_mod_multiples_basic(count, align as int);
    }
}

/// A policy is told by its name, whatever the space round it, and without one everything is waited
/// for.
pub proof fn policies_are_told_by_their_names(text: &str, none: LinuxRawCompletionPolicy, r: LinuxRawCompletionPolicy)
    requires
        call_ensures(LinuxRawCompletionPolicy::from_setting, (None::<&str>,), none),
        call_ensures(LinuxRawCompletionPolicy::from_setting, (Some(text),), r),
    ensures
        none is WaitAll,
        r is Immediate <==> trimmed(text@) == "immediate"@,
        r is WatermarkLow <==> trimmed(text@) == "watermark-8"@,
        r is WatermarkHigh <==> trimmed(text@) == "watermark-16"@,
        r is EventIdx <==> trimmed(text@) == "event-idx"@,
        r is LocalDrain <==> trimmed(text@) == "local-drain"@,
{
    reveal_strlit("wait-all");
    reveal_strlit("immediate");
    reveal_strlit("watermark-8");
    reveal_strlit("watermark-16");
    reveal_strlit("event-idx");
    reveal_strlit("local-drain");
    let s = trimmed(text@);
    assert(s == "immediate"@ ==> s.len() == 9 && s[0] == 'i');
    assert(s == "event-idx"@ ==> s.len() == 9 && s[0] == 'e');
    assert(s == "watermark-8"@ ==> s.len() == 11 && s[0] == 'w');
    assert(s == "local-drain"@ ==> s.len() == 11 && s[0] == 'l');
    assert(s == "watermark-16"@ ==> s.len() == 12);
    assert(s == "wait-all"@ ==> s.len() == 8);
}

} // verus!

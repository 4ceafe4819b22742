//! What the balloon does with the events that it is told of.

use crate::balloon::device::{DFQ_INDEX, IFQ_INDEX, PHQ_INDEX};
use crate::bytes::{get_le_u16, get_le_u64, le_u16, le_u64};
use crate::descriptor::Descriptor;
use crate::epoll::{EpollEvent, EventSet, ALL_EVENTS, IN};
use vstd::prelude::*;

verus! {

/// The tag of available memory in the guest's statistics.
pub const VIRTIO_BALLOON_S_AVAIL: u16 = 6;

/// Bytes in one statistic: a tag of two bytes and a value of eight.
pub const BALLOON_STAT_BYTES: usize = 10;

/// The sources of the balloon's events.
#[derive(Clone, Copy, Debug, PartialEq, Eq, Structural)]
pub struct BalloonSources {
    pub inflate: u64,
    pub deflate: u64,
    pub stats: u64,
    pub page_hinting: u64,
    pub free_page_reporting: u64,
    pub activate: u64,
    pub stats_timer: u64,
}

/// What an event is for.
#[derive(Clone, Copy, Debug, PartialEq, Eq, Structural)]
pub enum BalloonStep {
    /// A queue that the device does not serve.
    UnsupportedQueue { index: usize },
    /// The statistics queue.
    Stats,
    /// The statistics timer.
    StatsTimer,
    /// The free page reporting queue.
    FreePages,
    /// The device was set up: register its queues.
    Activate,
    /// Nothing is known of the source.
    Unexpected,
    /// The device was not set up yet.
    Inactive,
}

/// The step for an event of a source.
pub open spec fn balloon_step(
    sources: BalloonSources,
    source: u64,
    active: bool,
    stats_enabled: bool,
) -> BalloonStep {
    if !active {
        BalloonStep::Inactive
    } else if source == sources.inflate {
        BalloonStep::UnsupportedQueue { index: IFQ_INDEX }
    } else if source == sources.deflate {
        BalloonStep::UnsupportedQueue { index: DFQ_INDEX }
    } else if source == sources.stats {
        BalloonStep::Stats
    } else if stats_enabled && source == sources.stats_timer {
        BalloonStep::StatsTimer
    } else if source == sources.page_hinting {
        BalloonStep::UnsupportedQueue { index: PHQ_INDEX }
    } else if source == sources.free_page_reporting {
        BalloonStep::FreePages
    } else if source == sources.activate {
        BalloonStep::Activate
    } else {
        BalloonStep::Unexpected
    }
}

/// What an event of a source is for.
pub fn process(sources: &BalloonSources, source: u64, active: bool, stats_enabled: bool) -> (r:
    BalloonStep)
    ensures
        r == balloon_step(*sources, source, active, stats_enabled),
{
    if !active {
        BalloonStep::Inactive
    } else if source == sources.inflate {
        BalloonStep::UnsupportedQueue { index: IFQ_INDEX }
    } else if source == sources.deflate {
        BalloonStep::UnsupportedQueue { index: DFQ_INDEX }
    } else if source == sources.stats {
        BalloonStep::Stats
    } else if stats_enabled && source == sources.stats_timer {
        BalloonStep::StatsTimer
    } else if source == sources.page_hinting {
        BalloonStep::UnsupportedQueue { index: PHQ_INDEX }
    } else if source == sources.free_page_reporting {
        BalloonStep::FreePages
    } else if source == sources.activate {
        BalloonStep::Activate
    } else {
        BalloonStep::Unexpected
    }
}

/// The sources that are registered once the device is set up. Statistics only where they are
/// wanted.
pub open spec fn registered(sources: BalloonSources, stats_enabled: bool) -> Seq<u64> {
    let queues = seq![sources.inflate, sources.deflate];
    let stats = if stats_enabled {
        seq![sources.stats, sources.stats_timer]
    } else {
        Seq::empty()
    };
    queues + stats + seq![sources.page_hinting, sources.free_page_reporting]
}

/// The sources that are registered, in order, once the device is set up.
pub fn sources_to_register(sources: &BalloonSources, stats_enabled: bool) -> (r: Vec<u64>)
    ensures
        r@ == registered(*sources, stats_enabled),
{
    let mut list: Vec<u64> = Vec::new();
    list.push(sources.inflate);
    list.push(sources.deflate);
    if stats_enabled {
        list.push(sources.stats);
        list.push(sources.stats_timer);
    }
    list.push(sources.page_hinting);
    list.push(sources.free_page_reporting);
    assert(list@ =~= registered(*sources, stats_enabled));
    list
}

/// Whether an event says that data can be read, and nothing else.
pub fn is_plain_readable(event: &EpollEvent) -> (r: bool)
    ensures
        r == (event.events & ALL_EVENTS == IN),
{
    event.event_set() == (EventSet { bits: IN })
}

/// What the host can see of a queue.
#[derive(Clone, Copy, Debug, PartialEq, Eq, Structural)]
pub struct QueueView {
    /// The guest has set the queue up.
    pub ready: bool,
    /// Chains that the device has taken, counted around.
    pub consumed: u16,
    /// Chains that the guest has made available, counted around.
    pub available: u16,
}

/// Whether a queue that the device does not serve holds a request. A wakeup alone is none, and a
/// queue that was not set up has none.
pub fn unsupported_queue_has_work(queue: &QueueView, active: bool) -> (r: bool)
    ensures
        r == (queue.ready && active && queue.consumed != queue.available),
{
    queue.ready && active && queue.consumed != queue.available
}

/// What is reported of an event of a queue that the device does not serve.
#[derive(Clone, Copy, Debug, PartialEq, Eq, Structural)]
pub enum QueueReport {
    /// The event is not one for reading.
    UnexpectedEvent,
    /// The wakeup could not be taken.
    ReadFailed,
    /// The guest made a request that is not served.
    Unsupported,
    /// Nothing is to be said.
    Quiet,
}

/// What is reported of an event of a queue that the device does not serve. `wakeup_taken` tells
/// whether its wakeup could be read; that is tried for a readable event only.
pub fn handle_unsupported_queue(
    event: &EpollEvent,
    wakeup_taken: bool,
    queue: &QueueView,
    active: bool,
) -> (r: QueueReport)
    ensures
        r == if event.events & ALL_EVENTS != IN {
            QueueReport::UnexpectedEvent
        } else if !wakeup_taken {
            QueueReport::ReadFailed
        } else if queue.ready && active && queue.consumed != queue.available {
            QueueReport::Unsupported
        } else {
            QueueReport::Quiet
        },
{
    if !is_plain_readable(event) {
        QueueReport::UnexpectedEvent
    } else if !wakeup_taken {
        QueueReport::ReadFailed
    } else if unsupported_queue_has_work(queue, active) {
        QueueReport::Unsupported
    } else {
        QueueReport::Quiet
    }
}

/// Bytes of a chain that the guest wrote.
pub open spec fn readable_len(descriptors: Seq<Descriptor>) -> nat
    decreases descriptors.len(),
{
    if descriptors.len() == 0 {
        0
    } else {
        let front = readable_len(descriptors.drop_last());
        if descriptors.last().write_only {
            front
        } else {
            front + descriptors.last().len as nat
        }
    }
}

proof fn lemma_readable_len_prefix(descriptors: Seq<Descriptor>, i: int)
    requires
        0 <= i <= descriptors.len(),
    ensures
        readable_len(descriptors.take(i)) <= readable_len(descriptors),
    decreases descriptors.len(),
{
    if i == descriptors.len() {
        assert(descriptors.take(i) =~= descriptors);
    } else {
        lemma_readable_len_prefix(descriptors.drop_last(), i);
        assert(descriptors.drop_last().take(i) =~= descriptors.take(i));
    }
}

/// Bytes of a chain that the guest wrote, if a 32-bit number counts them.
pub fn stats_descriptor_len(descriptors: &[Descriptor]) -> (r: Option<u32>)
    ensures
        r == if readable_len(descriptors@) <= u32::MAX {
            Some(readable_len(descriptors@) as u32)
        } else {
            None
        },
{
    let mut len: u32 = 0;
    let mut i: usize = 0;
    assert(descriptors@.take(0) =~= Seq::empty());
    while i < descriptors.len()
        invariant
            i <= descriptors@.len(),
            len == readable_len(descriptors@.take(i as int)),
        decreases descriptors@.len() - i,
    {
        assert(descriptors@.take(i + 1).drop_last() =~= descriptors@.take(i as int));
        proof {
            lemma_readable_len_prefix(descriptors@, i + 1);
        }
        if !descriptors[i].write_only {
            match len.checked_add(descriptors[i].len) {
                None => {
                    return None;
                },
                Some(sum) => {
                    len = sum;
                },
            }
        }
        i = i + 1;
    }
    assert(descriptors@.take(i as int) =~= descriptors@);
    Some(len)
}

/// The last value of available memory among the first `count` statistics.
pub open spec fn last_available(bytes: Seq<u8>, count: nat) -> Option<u64>
    decreases count,
{
    if count == 0 {
        None
    } else if le_u16(bytes, 10 * (count - 1)) == VIRTIO_BALLOON_S_AVAIL {
        Some(le_u64(bytes, 10 * (count - 1) + 2) as u64)
    } else {
        last_available(bytes, (count - 1) as nat)
    }
}

/// The memory that a guest's statistics report as available: the last such statistic counts, and
/// bytes that make no whole statistic do not.
pub fn available_memory(bytes: &[u8]) -> (r: Option<u64>)
    ensures
        r == last_available(bytes@, bytes@.len() / 10),
{
    let count: usize = bytes.len() / BALLOON_STAT_BYTES;
    let mut found: Option<u64> = None;
    let mut i: usize = 0;
    while i < count
        invariant
            i <= count,
            count == bytes@.len() / 10,
            found == last_available(bytes@, i as nat),
        decreases count - i,
    {
        assert(10 * count <= bytes.len());
        let at: usize = i * BALLOON_STAT_BYTES;
        if get_le_u16(bytes, at) == VIRTIO_BALLOON_S_AVAIL {
            found = Some(get_le_u64(bytes, at + 2));
        }
        i = i + 1;
    }
    found
}

/// The statistics buffer that the device holds, and whether it polls for statistics.
#[derive(Clone, Copy, Debug, PartialEq, Eq, Structural)]
pub struct StatsQueue {
    /// The chain that the guest waits to get back.
    pub desc_index: Option<u16>,
    /// Statistics are polled by a timer.
    pub polling: bool,
    /// Longest chain that is read.
    pub max_desc_len: u32,
}

/// What the device does with a statistics buffer.
#[derive(Clone, Copy, Debug, PartialEq, Eq, Structural)]
pub struct StatsStep {
    /// A buffer that the guest should not have replaced: give it back and signal.
    pub stale: Option<u16>,
    /// Read the buffer's statistics.
    pub read: bool,
    /// Start the timer.
    pub arm_timer: bool,
}

impl StatsQueue {
    /// Takes a statistics buffer, which is held until the timer asks for the next.
    pub fn process_stq(&mut self, index: u16, descriptors: &[Descriptor]) -> (r: StatsStep)
        ensures
            *final(self) == (StatsQueue { desc_index: Some(index), ..*old(self) }),
            r == (StatsStep {
                stale: old(self).desc_index,
                read: readable_len(descriptors@) <= old(self).max_desc_len,
                arm_timer: old(self).polling,
            }),
    {
        let stale: Option<u16> = self.desc_index;
        let read: bool = match stats_descriptor_len(descriptors) {
            Some(len) => len <= self.max_desc_len,
            None => false,
        };
        self.desc_index = Some(index);
        StatsStep { stale, read, arm_timer: self.polling }
    }

    /// The timer fired: the buffer to give back and signal, if one is held.
    pub fn trigger_stats_update(&mut self) -> (r: Option<u16>)
        ensures
            r == old(self).desc_index,
            *final(self) == (StatsQueue { desc_index: None, ..*old(self) }),
    {
        let index: Option<u16> = self.desc_index;
        self.desc_index = None;
        index
    }
}

/// An event leads to the queue of its source, and to nothing before the device was set up.
pub proof fn balloon_events_lead_to_their_queue(
    sources: BalloonSources,
    source: u64,
    active: bool,
    stats_enabled: bool,
    r: BalloonStep,
)
    requires
        call_ensures(process, (&sources, source, active, stats_enabled), r),
    ensures
        !active <==> r is Inactive,
        r == (BalloonStep::UnsupportedQueue { index: 0 }) ==> source == sources.inflate,
        r == (BalloonStep::UnsupportedQueue { index: 1 }) ==> source == sources.deflate,
        r == (BalloonStep::UnsupportedQueue { index: 3 }) ==> source == sources.page_hinting,
        r is UnsupportedQueue ==> r->index == 0 || r->index == 1 || r->index == 3,
        r is Stats ==> source == sources.stats,
        r is StatsTimer ==> stats_enabled && source == sources.stats_timer,
        r is FreePages ==> source == sources.free_page_reporting,
        r is Activate ==> source == sources.activate,
        r is Unexpected ==> source != sources.inflate && source != sources.deflate && source
            != sources.stats && source != sources.page_hinting && source
            != sources.free_page_reporting && source != sources.activate && (stats_enabled
                ==> source
            != sources.stats_timer),
{
}

/// The statistics buffer that the guest sends is held until the timer asks for the next one; one
/// that it sends before that makes the held one stale. Each is read where it is not too long.
pub proof fn statistics_buffer_goes_back_once(
    queue: &mut StatsQueue,
    index: u16,
    descriptors: &[Descriptor],
    step: StatsStep,
    later: &mut StatsQueue,
    returned: Option<u16>,
)
    requires
        call_ensures(StatsQueue::process_stq, (queue, index, descriptors), step),
        *later == *final(queue),
        call_ensures(StatsQueue::trigger_stats_update, (later,), returned),
    ensures
        returned == Some(index),
        final(later).desc_index is None,
        step.stale == old(queue).desc_index,
        step.arm_timer == old(queue).polling,
        step.read ==> readable_len(descriptors@) <= old(queue).max_desc_len,
        readable_len(descriptors@) <= old(queue).max_desc_len ==> step.read,
        final(later).polling == old(queue).polling
            && final(later).max_desc_len == old(queue).max_desc_len,
{
}

/// A statistic that says how much memory is available is found wherever it stands, the last one
/// where there are several, and statistics of other kinds say nothing.
pub proof fn available_memory_is_the_last_reported(b: &[u8], r: Option<u64>, i: int)
    requires
        call_ensures(available_memory, (b,), r),
        0 <= i < b@.len() / 10,
    ensures
        b@[10 * i] + 256 * b@[10 * i + 1] == 6 && (forall|j: int|
            i < j < b@.len() / 10 ==> b@[#[trigger] (10 * j)] + 256 * b@[10 * j + 1] != 6) ==> r
            is Some && r->Some_0 == b@[10 * i + 2] + 256 * b@[10 * i + 3] + 65536 * b@[10 * i + 4]
            + 16777216 * b@[10 * i + 5] + 4294967296 * (b@[10 * i + 6] + 256 * b@[10 * i + 7] + 65536
            * b@[10 * i + 8] + 16777216 * b@[10 * i + 9]),
        (forall|j: int|
            0 <= j < b@.len() / 10 ==> b@[#[trigger] (10 * j)] + 256 * b@[10 * j + 1] != 6) ==> r
            is None,
{
    let n = b@.len() / 10;
    if b@[10 * i] + 256 * b@[10 * i + 1] == 6 && (forall|j: int|
        i < j < n ==> b@[#[trigger] (10 * j)] + 256 * b@[10 * j + 1] != 6) {
        lemma_last_available(b@, n, i);
    }
    if forall|j: int| 0 <= j < n ==> b@[#[trigger] (10 * j)] + 256 * b@[10 * j + 1] != 6 {
        lemma_none_available(b@, n);
    }
}

proof fn lemma_last_available(b: Seq<u8>, n: nat, i: int)
    requires
        0 <= i < n,
        le_u16(b, 10 * i) == VIRTIO_BALLOON_S_AVAIL,
        forall|j: int| i < j < n ==> b[#[trigger] (10 * j)] + 256 * b[10 * j + 1] != 6,
    ensures
        last_available(b, n) == Some(le_u64(b, 10 * i + 2) as u64),
    decreases n,
{
    if n > i + 1 {
        assert(b[10 * (n - 1)] + 256 * b[10 * (n - 1) + 1] != 6);
        lemma_last_available(b, (n - 1) as nat, i);
    }
}

proof fn lemma_none_available(b: Seq<u8>, n: nat)
    requires
        forall|j: int| 0 <= j < n ==> b[#[trigger] (10 * j)] + 256 * b[10 * j + 1] != 6,
    ensures
        last_available(b, n) is None,
    decreases n,
{
    if n > 0 {
        assert(b[10 * (n - 1)] + 256 * b[10 * (n - 1) + 1] != 6);
        lemma_none_available(b, (n - 1) as nat);
    }
}

/// Sources are registered each once, those of statistics only where they are wanted.
pub proof fn wanted_sources_are_registered(
    sources: BalloonSources,
    stats_enabled: bool,
    r: Vec<u64>,
)
    requires
        call_ensures(sources_to_register, (&sources, stats_enabled), r),
    ensures
        r@.len() == if stats_enabled {
            6int
        } else {
            4int
        },
        r@.contains(sources.inflate) && r@.contains(sources.deflate) && r@.contains(
            sources.page_hinting,
        ) && r@.contains(sources.free_page_reporting),
        stats_enabled ==> r@.contains(sources.stats) && r@.contains(sources.stats_timer),
{
    assert(r@[0] == sources.inflate);
    assert(r@[1] == sources.deflate);
    let n = r@.len() as int;
    assert(r@[n - 2] == sources.page_hinting);
    assert(r@[n - 1] == sources.free_page_reporting);
    if stats_enabled {
        assert(r@[2] == sources.stats);
        assert(r@[3] == sources.stats_timer);
    }
}

/// The statistics of a chain are as long as its readable descriptors together.
pub proof fn statistics_are_as_long_as_their_chain(
    front: &[Descriptor],
    whole: &[Descriptor],
    last: Descriptor,
    before: Option<u32>,
    r: Option<u32>,
)
    requires
        whole@ == front@.push(last),
        call_ensures(stats_descriptor_len, (front,), before),
        call_ensures(stats_descriptor_len, (whole,), r),
    ensures
        last.write_only ==> r == before,
        !last.write_only && before is Some && before->Some_0 + last.len <= u32::MAX ==> r == Some(
            (before->Some_0 + last.len) as u32,
        ),
        !last.write_only && (before is None || before->Some_0 + last.len > u32::MAX) ==> r is None,
        front@.len() == 0 ==> before == Some(0u32),
{
    assert(whole@.drop_last() =~= front@);
}

/// A queue that is not served says so where the guest put something into it.
pub proof fn unserved_queues_are_reported(
    event: EpollEvent,
    taken: bool,
    queue: QueueView,
    active: bool,
    r: QueueReport,
)
    requires
        call_ensures(handle_unsupported_queue, (&event, taken, &queue, active), r),
    ensures
        r is UnexpectedEvent <==> event.events % 1024 != 1,
        r is ReadFailed <==> event.events % 1024 == 1 && !taken,
        r is Unsupported <==> event.events % 1024 == 1 && taken && queue.ready && active
            && queue.consumed != queue.available,
{
    let e = event.events;
    assert(e & 0b0011_1111_1111u32 == e % 1024) by (bit_vector);
}

} // verus!

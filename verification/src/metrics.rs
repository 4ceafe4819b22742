//! Counters and latency histograms of a running VM.

use std::time::{Duration, SystemTime, UNIX_EPOCH};
use vstd::arithmetic::power2::{lemma_pow2_pos, lemma_pow2_unfold, pow2};
use vstd::prelude::*;

verus! {

/// Buckets of a latency histogram: one for zero, and one for every power of two.
pub const BLOCK_IO_LATENCY_BUCKETS: usize = 65;

/// The class under which a block request is counted.
#[derive(Clone, Copy, Debug, PartialEq, Eq, Structural)]
pub enum BlockRequestKind {
    /// Guest read request.
    Read,
    /// Guest write request.
    Write,
    /// Guest flush request.
    Flush,
    /// Any other block request.
    Other,
}

/// Log2 nanosecond latency histogram.
///
/// Bucket zero contains exact zeroes. Bucket `n > 0` contains values from `2^(n - 1)` through
/// `2^n - 1` nanoseconds.
#[derive(Clone, Copy, Debug, PartialEq, Eq)]
pub struct LatencyHistogram {
    /// Number of recorded samples.
    pub count: u64,
    /// Sum of recorded nanoseconds.
    pub total_ns: u64,
    /// Largest recorded sample in nanoseconds.
    pub max_ns: u64,
    /// Log2 nanosecond buckets.
    pub buckets: [u64; 65],
}

/// A number that is held at the largest 64-bit one.
pub open spec fn capped(x: int) -> u64 {
    if x > u64::MAX {
        u64::MAX
    } else {
        x as u64
    }
}

/// A number that starts again at zero behind the largest 64-bit one.
pub open spec fn wrapped(x: int) -> u64 {
    (x % 0x1_0000_0000_0000_0000) as u64
}

/// The larger of two numbers.
pub open spec fn larger(a: u64, b: u64) -> u64 {
    if a > b {
        a
    } else {
        b
    }
}

/// Binary digits of a number.
pub open spec fn bit_length(n: nat) -> nat
    decreases n,
{
    if n == 0 {
        0
    } else {
        1 + bit_length(n / 2)
    }
}

/// A number lies between the powers of two that its binary digits name.
pub proof fn bit_length_bounds(n: nat)
    ensures
        n < pow2(bit_length(n)),
        n > 0 ==> pow2((bit_length(n) - 1) as nat) <= n,
    decreases n,
{
    if n == 0 {
        lemma_pow2_pos(0);
    } else {
        bit_length_bounds(n / 2);
        lemma_pow2_unfold(bit_length(n));
        if n / 2 > 0 {
            lemma_pow2_unfold((bit_length(n) - 1) as nat);
        } else {
            assert(n == 1);
            assert(bit_length(0) == 0);
            assert(bit_length(1) == 1 + bit_length(0));
            vstd::arithmetic::power2::lemma2_to64();
        }
    }
}

proof fn lemma_pow2_monotonic(a: nat, b: nat)
    requires
        a <= b,
    ensures
        pow2(a) <= pow2(b),
    decreases b - a,
{
    if a < b {
        lemma_pow2_monotonic(a, (b - 1) as nat);
        lemma_pow2_unfold(b);
        lemma_pow2_pos((b - 1) as nat);
    }
}

/// A 64-bit number has at most as many binary digits.
pub proof fn bit_length_of_u64(n: u64)
    ensures
        bit_length(n as nat) <= 64,
{
    bit_length_bounds(n as nat);
    vstd::arithmetic::power2::lemma2_to64();
    if bit_length(n as nat) > 64 {
        lemma_pow2_monotonic(64, (bit_length(n as nat) - 1) as nat);
    }
}

/// The bucket that a latency belongs to.
pub fn latency_bucket(ns: u64) -> (r: usize)
    ensures
        r == bit_length(ns as nat),
        r <= 64,
{
    proof {
        bit_length_of_u64(ns);
    }
    let mut rest: u64 = ns;
    let mut digits: usize = 0;
    while rest > 0
        invariant
            digits + bit_length(rest as nat) == bit_length(ns as nat),
            bit_length(ns as nat) <= 64,
        decreases rest,
    {
        rest = rest / 2;
        digits = digits + 1;
    }
    digits
}

/// The largest latency of a bucket.
pub fn latency_bucket_upper_bound(index: usize) -> (r: u64)
    requires
        index <= 64,
    ensures
        r == pow2(index as nat) - 1,
{
    if index == 0 {
        proof {
            vstd::arithmetic::power2::lemma2_to64();
        }
        0
    } else if index == 64 {
        proof {
            vstd::arithmetic::power2::lemma2_to64();
        }
        u64::MAX
    } else {
        let mut bound: u64 = 1;
        let mut i: usize = 0;
        proof {
            vstd::arithmetic::power2::lemma2_to64();
        }
        while i < index
            invariant
                i <= index < 64,
                bound == pow2(i as nat),
            decreases index - i,
        {
            proof {
                lemma_pow2_unfold((i + 1) as nat);
                lemma_pow2_monotonic((i + 1) as nat, 63);
                vstd::arithmetic::power2::lemma2_to64();
                assert(pow2(63) == 0x8000_0000_0000_0000) by {
                    lemma_pow2_unfold(64);
                }
            }
            bound = bound * 2;
            i = i + 1;
        }
        proof {
            lemma_pow2_pos(index as nat);
        }
        bound - 1
    }
}

/// Samples in the first `n` buckets.
pub open spec fn bucket_sum(buckets: Seq<u64>, n: nat) -> nat
    decreases n,
{
    if n == 0 {
        0
    } else {
        bucket_sum(buckets, (n - 1) as nat) + buckets[n - 1] as nat
    }
}

/// The first bucket from `from` on with which `rank` samples have been seen.
pub open spec fn rank_bucket(buckets: Seq<u64>, rank: int, from: nat) -> Option<nat>
    decreases BLOCK_IO_LATENCY_BUCKETS - from,
{
    if from >= BLOCK_IO_LATENCY_BUCKETS {
        None
    } else if capped(bucket_sum(buckets, from + 1) as int) >= rank {
        Some(from)
    } else {
        rank_bucket(buckets, rank, from + 1)
    }
}

/// How many samples a percentile spans: that share of all of them, rounded up, and at least one.
pub open spec fn percentile_rank(count: u64, percentile: u8) -> int {
    let rank = capped(capped(count * percentile) + 99) / 100;
    if rank < 1 {
        1
    } else {
        rank as int
    }
}

impl Default for LatencyHistogram {
    fn default() -> (r: LatencyHistogram)
        ensures
            r.is_empty(),
    {
        LatencyHistogram { count: 0, total_ns: 0, max_ns: 0, buckets: [0u64; 65] }
    }
}

impl LatencyHistogram {
    /// Nothing was recorded.
    pub open spec fn is_empty(self) -> bool {
        &&& self.count == 0
        &&& self.total_ns == 0
        &&& self.max_ns == 0
        &&& forall|i: int| 0 <= i < 65 ==> #[trigger] self.buckets@[i] == 0
    }

    /// The histogram with one more sample.
    pub open spec fn recorded(self, ns: u64, after: LatencyHistogram) -> bool {
        let bucket = bit_length(ns as nat) as int;
        &&& after.count == wrapped(self.count + 1)
        &&& after.total_ns == wrapped(self.total_ns + ns)
        &&& after.max_ns == larger(self.max_ns, ns)
        &&& after.buckets@ == self.buckets@.update(bucket, wrapped(self.buckets@[bucket] + 1))
    }

    /// The samples of two histograms together.
    pub open spec fn merged(self, other: LatencyHistogram, after: LatencyHistogram) -> bool {
        &&& after.count == capped(self.count + other.count)
        &&& after.total_ns == capped(self.total_ns + other.total_ns)
        &&& after.max_ns == larger(self.max_ns, other.max_ns)
        &&& forall|i: int|
            0 <= i < 65 ==> #[trigger] after.buckets@[i] == capped(
                self.buckets@[i] + other.buckets@[i],
            )
    }

    /// Adds a sample.
    pub fn record(&mut self, ns: u64)
        ensures
            old(self).recorded(ns, *final(self)),
    {
        self.count = self.count.wrapping_add(1);
        self.total_ns = self.total_ns.wrapping_add(ns);
        if ns > self.max_ns {
            self.max_ns = ns;
        }
        let bucket: usize = latency_bucket(ns);
        self.buckets[bucket] = self.buckets[bucket].wrapping_add(1);
    }

    /// Returns the arithmetic mean in nanoseconds, if any sample exists.
    pub fn mean_ns(&self) -> (r: Option<u64>)
        ensures
            r == if self.count == 0 {
                None
            } else {
                Some((self.total_ns / self.count) as u64)
            },
    {
        if self.count == 0 {
            None
        } else {
            Some(self.total_ns / self.count)
        }
    }

    /// The upper bound that a percentile comes to.
    pub open spec fn percentile_bound(self, percentile: u8) -> Option<u64> {
        if self.count == 0 || percentile > 100 {
            None
        } else {
            match rank_bucket(self.buckets@, percentile_rank(self.count, percentile), 0) {
                Some(bucket) => Some((pow2(bucket) - 1) as u64),
                None => Some(self.max_ns),
            }
        }
    }

    /// Returns a conservative upper bound for percentile `percentile` in `0..=100`.
    pub fn percentile_upper_bound_ns(&self, percentile: u8) -> (r: Option<u64>)
        ensures
            r == self.percentile_bound(percentile),
    {
        if self.count == 0 || percentile > 100 {
            return None;
        }
        let share: u64 = match self.count.checked_mul(percentile as u64) {
            Some(share) => share,
            None => u64::MAX,
        };
        let rounded: u64 = share.saturating_add(99) / 100;
        let rank: u64 = if rounded < 1 {
            1
        } else {
            rounded
        };
        let mut seen: u64 = 0;
        let mut i: usize = 0;
        while i < BLOCK_IO_LATENCY_BUCKETS
            invariant
                self.count != 0,
                percentile <= 100,
                i <= BLOCK_IO_LATENCY_BUCKETS,
                rank == percentile_rank(self.count, percentile),
                seen == capped(bucket_sum(self.buckets@, i as nat) as int),
                rank_bucket(self.buckets@, rank as int, 0) == rank_bucket(
                    self.buckets@,
                    rank as int,
                    i as nat,
                ),
            decreases BLOCK_IO_LATENCY_BUCKETS - i,
        {
            seen = seen.saturating_add(self.buckets[i]);
            if seen >= rank {
                return Some(latency_bucket_upper_bound(i));
            }
            i = i + 1;
        }
        Some(self.max_ns)
    }

    /// Adds the samples of another histogram.
    pub fn merge(&mut self, other: &LatencyHistogram)
        ensures
            old(self).merged(*other, *final(self)),
    {
        self.count = self.count.saturating_add(other.count);
        self.total_ns = self.total_ns.saturating_add(other.total_ns);
        if other.max_ns > self.max_ns {
            self.max_ns = other.max_ns;
        }
        let mut i: usize = 0;
        while i < BLOCK_IO_LATENCY_BUCKETS
            invariant
                i <= BLOCK_IO_LATENCY_BUCKETS,
                self.count == capped(old(self).count + other.count),
                self.total_ns == capped(old(self).total_ns + other.total_ns),
                self.max_ns == larger(old(self).max_ns, other.max_ns),
                forall|j: int|
                    0 <= j < i ==> #[trigger] self.buckets@[j] == capped(
                        old(self).buckets@[j] + other.buckets@[j],
                    ),
                forall|j: int| i <= j < 65 ==> #[trigger] self.buckets@[j] == old(self).buckets@[j],
            decreases BLOCK_IO_LATENCY_BUCKETS - i,
        {
            self.buckets[i] = self.buckets[i].saturating_add(other.buckets[i]);
            i = i + 1;
        }
    }
}

/// Samples of a bucket.
pub open spec fn samples_in_bucket(samples: Seq<u64>, bucket: nat) -> nat
    decreases samples.len(),
{
    if samples.len() == 0 {
        0
    } else {
        samples_in_bucket(samples.drop_last(), bucket) + if bit_length(samples.last() as nat)
            == bucket {
            1nat
        } else {
            0nat
        }
    }
}

/// Samples that are no larger than a bound.
pub open spec fn samples_within(samples: Seq<u64>, bound: int) -> nat
    decreases samples.len(),
{
    if samples.len() == 0 {
        0
    } else {
        samples_within(samples.drop_last(), bound) + if samples.last() <= bound {
            1nat
        } else {
            0nat
        }
    }
}

/// The histogram counts exactly these samples.
pub open spec fn counts_samples(histogram: LatencyHistogram, samples: Seq<u64>) -> bool {
    &&& samples.len() <= u64::MAX
    &&& histogram.count == samples.len()
    &&& forall|i: int|
        0 <= i < 65 ==> #[trigger] histogram.buckets@[i] == samples_in_bucket(samples, i as nat)
}

proof fn lemma_samples_in_bucket_bounded(samples: Seq<u64>, bucket: nat)
    ensures
        samples_in_bucket(samples, bucket) <= samples.len(),
    decreases samples.len(),
{
    if samples.len() > 0 {
        lemma_samples_in_bucket_bounded(samples.drop_last(), bucket);
    }
}

/// Recording a sample adds it to the samples that a histogram counts.
pub proof fn recording_adds_the_sample(
    before: LatencyHistogram,
    ns: u64,
    after: LatencyHistogram,
    samples: Seq<u64>,
)
    requires
        counts_samples(before, samples),
        samples.len() < u64::MAX,
        before.recorded(ns, after),
    ensures
        counts_samples(after, samples.push(ns)),
{
    let all = samples.push(ns);
    assert(all.drop_last() =~= samples);
    bit_length_of_u64(ns);
    assert forall|i: int| 0 <= i < 65 implies #[trigger] after.buckets@[i] == samples_in_bucket(
        all,
        i as nat,
    ) by {
        lemma_samples_in_bucket_bounded(samples, i as nat);
        assert(before.buckets@[i] == samples_in_bucket(samples, i as nat));
    }
}

proof fn lemma_first_buckets(histogram: LatencyHistogram, samples: Seq<u64>, n: nat)
    requires
        counts_samples(histogram, samples),
        n <= 64,
    ensures
        bucket_sum(histogram.buckets@, n + 1) <= samples_within(samples, pow2(n) - 1),
        n == 64 ==> bucket_sum(histogram.buckets@, n + 1) == samples.len(),
{
    lemma_bucket_sum_is_count(histogram.buckets@, samples, n + 1);
    lemma_low_buckets_within(samples, n);
    if n == 64 {
        lemma_all_samples_bucketed(samples);
    }
}

/// Samples of the first `n` buckets.
spec fn samples_below(samples: Seq<u64>, n: nat) -> nat
    decreases samples.len(),
{
    if samples.len() == 0 {
        0
    } else {
        samples_below(samples.drop_last(), n) + if bit_length(samples.last() as nat) < n {
            1nat
        } else {
            0nat
        }
    }
}

proof fn lemma_samples_below_step(samples: Seq<u64>, n: nat)
    ensures
        samples_below(samples, n + 1) == samples_below(samples, n) + samples_in_bucket(samples, n),
        samples_below(samples, 0) == 0,
    decreases samples.len(),
{
    if samples.len() > 0 {
        lemma_samples_below_step(samples.drop_last(), n);
    }
}

proof fn lemma_bucket_sum_is_count(buckets: Seq<u64>, samples: Seq<u64>, n: nat)
    requires
        n <= 65,
        forall|i: int|
            0 <= i < 65 ==> #[trigger] buckets[i] == samples_in_bucket(samples, i as nat),
    ensures
        bucket_sum(buckets, n) == samples_below(samples, n),
    decreases n,
{
    if n == 0 {
        lemma_samples_below_step(samples, 0);
    } else {
        lemma_bucket_sum_is_count(buckets, samples, (n - 1) as nat);
        lemma_samples_below_step(samples, (n - 1) as nat);
    }
}

proof fn lemma_low_buckets_within(samples: Seq<u64>, n: nat)
    ensures
        samples_below(samples, n + 1) <= samples_within(samples, pow2(n) - 1),
    decreases samples.len(),
{
    if samples.len() > 0 {
        lemma_low_buckets_within(samples.drop_last(), n);
        let last = samples.last();
        if bit_length(last as nat) < n + 1 {
            bit_length_bounds(last as nat);
            lemma_pow2_monotonic(bit_length(last as nat), n);
        }
    }
}

proof fn lemma_all_samples_bucketed(samples: Seq<u64>)
    ensures
        samples_below(samples, 65) == samples.len(),
    decreases samples.len(),
{
    if samples.len() > 0 {
        lemma_all_samples_bucketed(samples.drop_last());
        bit_length_of_u64(samples.last());
    }
}

proof fn lemma_rank_bucket(buckets: Seq<u64>, rank: int, from: nat)
    requires
        from <= 65,
    ensures
        rank_bucket(buckets, rank, from) matches Some(bucket) ==> from <= bucket <= 64 && capped(
            bucket_sum(buckets, bucket + 1) as int,
        ) >= rank,
        rank_bucket(buckets, rank, from) is None && from <= 64 ==> capped(
            bucket_sum(buckets, 65) as int,
        ) < rank,
    decreases 65 - from,
{
    if from < 65 {
        lemma_rank_bucket(buckets, rank, from + 1);
    }
}

/// The bound of a percentile is a bound: at least that share of the samples is no larger.
pub proof fn percentile_bound_covers_its_share(
    histogram: LatencyHistogram,
    samples: Seq<u64>,
    percentile: u8,
)
    requires
        counts_samples(histogram, samples),
        samples.len() > 0,
        percentile <= 100,
        samples.len() * 100 + 99 <= u64::MAX,
    ensures
        histogram.percentile_bound(percentile) is Some,
        samples_within(samples, histogram.percentile_bound(percentile)->Some_0 as int) * 100
            >= percentile * samples.len(),
{
    let rank = percentile_rank(histogram.count, percentile);
    let count = histogram.count as int;
    assert(count * percentile <= count * 100) by (nonlinear_arith)
        requires
            0 <= percentile <= 100,
            count >= 0,
    ;
    assert(rank * 100 >= count * percentile);
    lemma_rank_bucket(histogram.buckets@, rank, 0);
    lemma_first_buckets(histogram, samples, 64);
    match rank_bucket(histogram.buckets@, rank, 0) {
        Some(bucket) => {
            lemma_first_buckets(histogram, samples, bucket);
            lemma_pow2_pos(bucket);
            lemma_pow2_monotonic(bucket, 64);
            vstd::arithmetic::power2::lemma2_to64();
        },
        None => {
            assert(rank <= count) by {
                assert(count * percentile <= count * 100);
            }
        },
    }
    assert(count * percentile == percentile * samples.len()) by (nonlinear_arith)
        requires
            count == samples.len(),
    ;
}

/// A counter of a block profile.
#[derive(Clone, Copy, Debug, PartialEq, Eq, Structural)]
pub enum BlockCounter {
    ReadRequests,
    WriteRequests,
    FlushRequests,
    OtherRequests,
    FailedRequests,
    Completions,
    Interrupts,
    ScratchVectors,
}

/// A timed stage of the block request path.
#[derive(Clone, Copy, Debug, PartialEq, Eq, Structural)]
pub enum BlockStage {
    WorkerBacklog,
    DescriptorParse,
    Request,
    IovecPrepare,
    FormatRead,
    FormatWrite,
    StorageRead,
    StorageWrite,
    Flush,
    StorageFlush,
    Sync,
    Completion,
}

/// The diagnostic counters of one block device.
#[derive(Clone, Copy, Debug, PartialEq, Eq)]
pub struct BlockIoProfileState {
    /// Guest read requests observed.
    pub read_requests: u64,
    /// Guest write requests observed.
    pub write_requests: u64,
    /// Guest flush requests observed.
    pub flush_requests: u64,
    /// Other guest block requests observed.
    pub other_requests: u64,
    /// Requests that failed.
    pub failed_requests: u64,
    /// Used-ring completions published.
    pub completions: u64,
    /// Used-queue interrupts signalled.
    pub interrupts: u64,
    /// Scratch vectors built in the request path.
    pub scratch_vectors: u64,
    /// Time requests spent behind earlier work after the worker began draining the queue.
    pub worker_backlog: LatencyHistogram,
    /// Time spent reading descriptors and the request header.
    pub descriptor_parse: LatencyHistogram,
    /// End-to-end host-side request handling time.
    pub request: LatencyHistogram,
    /// Time spent preparing guest-memory iovecs.
    pub iovec_prepare: LatencyHistogram,
    /// Time spent in format access for reads.
    pub format_read: LatencyHistogram,
    /// Time spent in format access for writes.
    pub format_write: LatencyHistogram,
    /// Time spent in the underlying storage for reads.
    pub storage_read: LatencyHistogram,
    /// Time spent in the underlying storage for writes.
    pub storage_write: LatencyHistogram,
    /// End-to-end guest flush-request latency.
    pub flush: LatencyHistogram,
    /// Time spent flushing the underlying storage.
    pub storage_flush: LatencyHistogram,
    /// Time spent syncing the underlying storage to durable media.
    pub sync: LatencyHistogram,
    /// Time spent publishing status, used-ring state and any interrupt.
    pub completion: LatencyHistogram,
}

/// Diagnostic profile of one block device.
#[derive(Clone, Debug, PartialEq, Eq)]
pub struct BlockDeviceIoProfile {
    /// VMM block device id.
    pub id: String,
    /// Guest read requests observed.
    pub read_requests: u64,
    /// Guest write requests observed.
    pub write_requests: u64,
    /// Guest flush requests observed.
    pub flush_requests: u64,
    /// Other guest block requests observed.
    pub other_requests: u64,
    /// Requests that failed.
    pub failed_requests: u64,
    /// Used-ring completions published.
    pub completions: u64,
    /// Used-queue interrupts signalled.
    pub interrupts: u64,
    /// Scratch vectors built in the request path.
    pub scratch_vectors: u64,
    /// Time requests spent behind earlier work after the worker began draining the queue.
    pub worker_backlog: LatencyHistogram,
    /// Time spent reading descriptors and the request header.
    pub descriptor_parse: LatencyHistogram,
    /// End-to-end host-side request handling time.
    pub request: LatencyHistogram,
    /// Time spent preparing guest-memory iovecs.
    pub iovec_prepare: LatencyHistogram,
    /// Time spent in format access for reads.
    pub format_read: LatencyHistogram,
    /// Time spent in format access for writes.
    pub format_write: LatencyHistogram,
    /// Time spent in the underlying storage for reads.
    pub storage_read: LatencyHistogram,
    /// Time spent in the underlying storage for writes.
    pub storage_write: LatencyHistogram,
    /// End-to-end guest flush-request latency.
    pub flush: LatencyHistogram,
    /// Time spent flushing the underlying storage.
    pub storage_flush: LatencyHistogram,
    /// Time spent syncing the underlying storage to durable media.
    pub sync: LatencyHistogram,
    /// Time spent publishing status, used-ring state and any interrupt.
    pub completion: LatencyHistogram,
}

/// Diagnostic profile of all block devices.
#[derive(Clone, Debug, PartialEq, Eq)]
pub struct BlockIoProfile {
    /// Guest read requests observed.
    pub read_requests: u64,
    /// Guest write requests observed.
    pub write_requests: u64,
    /// Guest flush requests observed.
    pub flush_requests: u64,
    /// Other guest block requests observed.
    pub other_requests: u64,
    /// Requests that failed.
    pub failed_requests: u64,
    /// Used-ring completions published.
    pub completions: u64,
    /// Used-queue interrupts signalled.
    pub interrupts: u64,
    /// Scratch vectors built in the request path.
    pub scratch_vectors: u64,
    /// Time requests spent behind earlier work after the worker began draining the queue.
    pub worker_backlog: LatencyHistogram,
    /// Time spent reading descriptors and the request header.
    pub descriptor_parse: LatencyHistogram,
    /// End-to-end host-side request handling time.
    pub request: LatencyHistogram,
    /// Time spent preparing guest-memory iovecs.
    pub iovec_prepare: LatencyHistogram,
    /// Time spent in format access for reads.
    pub format_read: LatencyHistogram,
    /// Time spent in format access for writes.
    pub format_write: LatencyHistogram,
    /// Time spent in the underlying storage for reads.
    pub storage_read: LatencyHistogram,
    /// Time spent in the underlying storage for writes.
    pub storage_write: LatencyHistogram,
    /// End-to-end guest flush-request latency.
    pub flush: LatencyHistogram,
    /// Time spent flushing the underlying storage.
    pub storage_flush: LatencyHistogram,
    /// Time spent syncing the underlying storage to durable media.
    pub sync: LatencyHistogram,
    /// Time spent publishing status, used-ring state and any interrupt.
    pub completion: LatencyHistogram,
    /// Per-device diagnostic profiles.
    pub devices: Vec<BlockDeviceIoProfile>,
}

impl BlockIoProfileState {
    /// The value of a counter.
    pub open spec fn counter(self, counter: BlockCounter) -> u64 {
        match counter {
            BlockCounter::ReadRequests => self.read_requests,
            BlockCounter::WriteRequests => self.write_requests,
            BlockCounter::FlushRequests => self.flush_requests,
            BlockCounter::OtherRequests => self.other_requests,
            BlockCounter::FailedRequests => self.failed_requests,
            BlockCounter::Completions => self.completions,
            BlockCounter::Interrupts => self.interrupts,
            BlockCounter::ScratchVectors => self.scratch_vectors,
        }
    }

    /// The latencies of a stage.
    pub open spec fn stage(self, stage: BlockStage) -> LatencyHistogram {
        match stage {
            BlockStage::WorkerBacklog => self.worker_backlog,
            BlockStage::DescriptorParse => self.descriptor_parse,
            BlockStage::Request => self.request,
            BlockStage::IovecPrepare => self.iovec_prepare,
            BlockStage::FormatRead => self.format_read,
            BlockStage::FormatWrite => self.format_write,
            BlockStage::StorageRead => self.storage_read,
            BlockStage::StorageWrite => self.storage_write,
            BlockStage::Flush => self.flush,
            BlockStage::StorageFlush => self.storage_flush,
            BlockStage::Sync => self.sync,
            BlockStage::Completion => self.completion,
        }
    }
}

impl BlockDeviceIoProfile {
    /// The value of a counter.
    pub open spec fn counter(self, counter: BlockCounter) -> u64 {
        match counter {
            BlockCounter::ReadRequests => self.read_requests,
            BlockCounter::WriteRequests => self.write_requests,
            BlockCounter::FlushRequests => self.flush_requests,
            BlockCounter::OtherRequests => self.other_requests,
            BlockCounter::FailedRequests => self.failed_requests,
            BlockCounter::Completions => self.completions,
            BlockCounter::Interrupts => self.interrupts,
            BlockCounter::ScratchVectors => self.scratch_vectors,
        }
    }

    /// The latencies of a stage.
    pub open spec fn stage(self, stage: BlockStage) -> LatencyHistogram {
        match stage {
            BlockStage::WorkerBacklog => self.worker_backlog,
            BlockStage::DescriptorParse => self.descriptor_parse,
            BlockStage::Request => self.request,
            BlockStage::IovecPrepare => self.iovec_prepare,
            BlockStage::FormatRead => self.format_read,
            BlockStage::FormatWrite => self.format_write,
            BlockStage::StorageRead => self.storage_read,
            BlockStage::StorageWrite => self.storage_write,
            BlockStage::Flush => self.flush,
            BlockStage::StorageFlush => self.storage_flush,
            BlockStage::Sync => self.sync,
            BlockStage::Completion => self.completion,
        }
    }
}

impl BlockIoProfile {
    /// The value of a counter.
    pub open spec fn counter(self, counter: BlockCounter) -> u64 {
        match counter {
            BlockCounter::ReadRequests => self.read_requests,
            BlockCounter::WriteRequests => self.write_requests,
            BlockCounter::FlushRequests => self.flush_requests,
            BlockCounter::OtherRequests => self.other_requests,
            BlockCounter::FailedRequests => self.failed_requests,
            BlockCounter::Completions => self.completions,
            BlockCounter::Interrupts => self.interrupts,
            BlockCounter::ScratchVectors => self.scratch_vectors,
        }
    }

    /// The latencies of a stage.
    pub open spec fn stage(self, stage: BlockStage) -> LatencyHistogram {
        match stage {
            BlockStage::WorkerBacklog => self.worker_backlog,
            BlockStage::DescriptorParse => self.descriptor_parse,
            BlockStage::Request => self.request,
            BlockStage::IovecPrepare => self.iovec_prepare,
            BlockStage::FormatRead => self.format_read,
            BlockStage::FormatWrite => self.format_write,
            BlockStage::StorageRead => self.storage_read,
            BlockStage::StorageWrite => self.storage_write,
            BlockStage::Flush => self.flush,
            BlockStage::StorageFlush => self.storage_flush,
            BlockStage::Sync => self.sync,
            BlockStage::Completion => self.completion,
        }
    }
}

/// A profile shows the counters of a device.
pub open spec fn shows(profile: BlockDeviceIoProfile, state: BlockIoProfileState) -> bool {
    &&& forall|c: BlockCounter| #[trigger] profile.counter(c) == state.counter(c)
    &&& forall|s: BlockStage| #[trigger] profile.stage(s) == state.stage(s)
}

/// The profile with nothing counted.
pub open spec fn blank(state: BlockIoProfileState) -> bool {
    &&& forall|c: BlockCounter| #[trigger] state.counter(c) == 0
    &&& forall|s: BlockStage| (#[trigger] state.stage(s)).is_empty()
}

impl Default for BlockIoProfileState {
    fn default() -> (r: BlockIoProfileState)
        ensures
            blank(r),
    {
        BlockIoProfileState {
            read_requests: 0,
            write_requests: 0,
            flush_requests: 0,
            other_requests: 0,
            failed_requests: 0,
            completions: 0,
            interrupts: 0,
            scratch_vectors: 0,
            worker_backlog: LatencyHistogram::default(),
            descriptor_parse: LatencyHistogram::default(),
            request: LatencyHistogram::default(),
            iovec_prepare: LatencyHistogram::default(),
            format_read: LatencyHistogram::default(),
            format_write: LatencyHistogram::default(),
            storage_read: LatencyHistogram::default(),
            storage_write: LatencyHistogram::default(),
            flush: LatencyHistogram::default(),
            storage_flush: LatencyHistogram::default(),
            sync: LatencyHistogram::default(),
            completion: LatencyHistogram::default(),
        }
    }
}

impl BlockIoProfileState {
    /// The counters under the name of their device.
    pub fn snapshot(&self, id: String) -> (r: BlockDeviceIoProfile)
        ensures
            r.id == id,
            shows(r, *self),
    {
        BlockDeviceIoProfile {
            id,
            read_requests: self.read_requests,
            write_requests: self.write_requests,
            flush_requests: self.flush_requests,
            other_requests: self.other_requests,
            failed_requests: self.failed_requests,
            completions: self.completions,
            interrupts: self.interrupts,
            scratch_vectors: self.scratch_vectors,
            worker_backlog: self.worker_backlog,
            descriptor_parse: self.descriptor_parse,
            request: self.request,
            iovec_prepare: self.iovec_prepare,
            format_read: self.format_read,
            format_write: self.format_write,
            storage_read: self.storage_read,
            storage_write: self.storage_write,
            flush: self.flush,
            storage_flush: self.storage_flush,
            sync: self.sync,
            completion: self.completion,
        }
    }
}

/// What a counter comes to over a list of devices.
pub open spec fn counter_total(devices: Seq<BlockDeviceIoProfile>, counter: BlockCounter) -> nat
    decreases devices.len(),
{
    if devices.len() == 0 {
        0
    } else {
        counter_total(devices.drop_last(), counter) + devices.last().counter(counter) as nat
    }
}

/// A number of a histogram.
#[derive(Clone, Copy, Debug, PartialEq, Eq, Structural)]
pub enum HistogramPart {
    Count,
    TotalNs,
    Bucket(usize),
}

/// The value of a number of a histogram.
pub open spec fn part_of(histogram: LatencyHistogram, part: HistogramPart) -> u64 {
    match part {
        HistogramPart::Count => histogram.count,
        HistogramPart::TotalNs => histogram.total_ns,
        HistogramPart::Bucket(i) => histogram.buckets@[i as int],
    }
}

/// A number that every histogram has.
pub open spec fn part_exists(part: HistogramPart) -> bool {
    part matches HistogramPart::Bucket(i) ==> i < 65
}

/// What a number of a stage comes to over a list of devices.
pub open spec fn stage_total(
    devices: Seq<BlockDeviceIoProfile>,
    stage: BlockStage,
    part: HistogramPart,
) -> nat
    decreases devices.len(),
{
    if devices.len() == 0 {
        0
    } else {
        stage_total(devices.drop_last(), stage, part) + part_of(
            devices.last().stage(stage),
            part,
        ) as nat
    }
}

/// The largest latency of a stage over a list of devices.
pub open spec fn stage_max(devices: Seq<BlockDeviceIoProfile>, stage: BlockStage) -> u64
    decreases devices.len(),
{
    if devices.len() == 0 {
        0
    } else {
        larger(stage_max(devices.drop_last(), stage), devices.last().stage(stage).max_ns)
    }
}

/// The profile sums a list of devices up: every counter and every bucket, held at the largest
/// number, and the largest of the latencies.
pub open spec fn sums_up(profile: BlockIoProfile, devices: Seq<BlockDeviceIoProfile>) -> bool {
    &&& forall|c: BlockCounter| #[trigger]
        profile.counter(c) == capped(counter_total(devices, c) as int)
    &&& forall|s: BlockStage, part: HistogramPart|
        part_exists(part) ==> #[trigger] part_of(profile.stage(s), part) == capped(
            stage_total(devices, s, part) as int,
        )
    &&& forall|s: BlockStage| (#[trigger] profile.stage(s)).max_ns == stage_max(devices, s)
}

impl Default for BlockIoProfile {
    fn default() -> (r: BlockIoProfile)
        ensures
            sums_up(r, Seq::empty()),
            r.devices@ == Seq::<BlockDeviceIoProfile>::empty(),
    {
        let r = BlockIoProfile {
            read_requests: 0,
            write_requests: 0,
            flush_requests: 0,
            other_requests: 0,
            failed_requests: 0,
            completions: 0,
            interrupts: 0,
            scratch_vectors: 0,
            worker_backlog: LatencyHistogram::default(),
            descriptor_parse: LatencyHistogram::default(),
            request: LatencyHistogram::default(),
            iovec_prepare: LatencyHistogram::default(),
            format_read: LatencyHistogram::default(),
            format_write: LatencyHistogram::default(),
            storage_read: LatencyHistogram::default(),
            storage_write: LatencyHistogram::default(),
            flush: LatencyHistogram::default(),
            storage_flush: LatencyHistogram::default(),
            sync: LatencyHistogram::default(),
            completion: LatencyHistogram::default(),
            devices: Vec::new(),
        };
        assert forall|s: BlockStage, part: HistogramPart| part_exists(
            part,
        ) implies #[trigger] part_of(r.stage(s), part) == capped(
            stage_total(Seq::empty(), s, part) as int,
        ) by {
            assert(r.stage(s).is_empty());
        }
        assert forall|s: BlockStage| (#[trigger] r.stage(s)).max_ns == stage_max(
            Seq::empty(),
            s,
        ) by {
            assert(r.stage(s).is_empty());
        }
        r
    }
}

impl BlockIoProfile {
    /// Every counter and every stage with those of a device added.
    pub open spec fn device_merged(
        self,
        device: BlockDeviceIoProfile,
        after: BlockIoProfile,
    ) -> bool {
        &&& forall|c: BlockCounter| #[trigger]
            after.counter(c) == capped(self.counter(c) + device.counter(c))
        &&& forall|s: BlockStage|
            self.stage(s).merged(device.stage(s), #[trigger] after.stage(s))
        &&& after.devices == self.devices
    }

    /// Adds the counters and latencies of a device.
    pub fn merge_device(&mut self, device: &BlockDeviceIoProfile)
        ensures
            old(self).device_merged(*device, *final(self)),
    {
        self.read_requests = self.read_requests.saturating_add(device.read_requests);
        self.write_requests = self.write_requests.saturating_add(device.write_requests);
        self.flush_requests = self.flush_requests.saturating_add(device.flush_requests);
        self.other_requests = self.other_requests.saturating_add(device.other_requests);
        self.failed_requests = self.failed_requests.saturating_add(device.failed_requests);
        self.completions = self.completions.saturating_add(device.completions);
        self.interrupts = self.interrupts.saturating_add(device.interrupts);
        self.scratch_vectors = self.scratch_vectors.saturating_add(device.scratch_vectors);
        self.worker_backlog.merge(&device.worker_backlog);
        self.descriptor_parse.merge(&device.descriptor_parse);
        self.request.merge(&device.request);
        self.iovec_prepare.merge(&device.iovec_prepare);
        self.format_read.merge(&device.format_read);
        self.format_write.merge(&device.format_write);
        self.storage_read.merge(&device.storage_read);
        self.storage_write.merge(&device.storage_write);
        self.flush.merge(&device.flush);
        self.storage_flush.merge(&device.storage_flush);
        self.sync.merge(&device.sync);
        self.completion.merge(&device.completion);
    }
}

proof fn lemma_merge_extends_sum(
    before: BlockIoProfile,
    device: BlockDeviceIoProfile,
    after: BlockIoProfile,
    devices: Seq<BlockDeviceIoProfile>,
)
    requires
        sums_up(before, devices),
        before.device_merged(device, after),
    ensures
        sums_up(after, devices.push(device)),
{
    let all = devices.push(device);
    assert(all.drop_last() =~= devices);
    assert forall|c: BlockCounter| #[trigger] after.counter(c) == capped(
        counter_total(all, c) as int,
    ) by {
        assert(before.counter(c) == capped(counter_total(devices, c) as int));
    }
    assert forall|s: BlockStage, part: HistogramPart| part_exists(part) implies #[trigger] part_of(
        after.stage(s),
        part,
    ) == capped(stage_total(all, s, part) as int) by {
        assert(before.stage(s).merged(device.stage(s), after.stage(s)));
        assert(part_of(before.stage(s), part) == capped(stage_total(devices, s, part) as int));
    }
    assert forall|s: BlockStage| (#[trigger] after.stage(s)).max_ns == stage_max(all, s) by {
        assert(before.stage(s).merged(device.stage(s), after.stage(s)));
        assert(before.stage(s).max_ns == stage_max(devices, s));
    }
}

/// Point-in-time VM metrics.
#[derive(Clone, Debug, PartialEq, Eq)]
pub struct VmMetrics {
    /// CPU metrics.
    pub cpu: CpuMetrics,
    /// Memory metrics.
    pub memory: MemoryMetrics,
    /// Block device metrics.
    pub block: BlockMetrics,
    /// Filesystem metrics.
    pub filesystem: FilesystemMetrics,
}

/// CPU metrics.
#[derive(Clone, Copy, Debug, PartialEq, Eq, Structural)]
pub struct CpuMetrics {
    /// Cumulative guest vCPU execution time across all vCPUs when available.
    pub vcpu_time_ns: Option<u64>,
}

/// Memory metrics.
#[derive(Clone, Copy, Debug, PartialEq, Eq, Structural)]
pub struct MemoryMetrics {
    /// Configured guest physical memory.
    pub total_bytes: u64,
    /// Guest-available memory when reported by the guest.
    pub available_bytes: Option<u64>,
    /// Derived guest-used memory when available.
    pub used_bytes: Option<u64>,
    /// Host-resident guest memory pages when they can be reported.
    pub host_resident_bytes: Option<u64>,
}

/// Aggregate block metrics.
#[derive(Clone, Debug, PartialEq, Eq)]
pub struct BlockMetrics {
    /// Successful guest logical bytes read from block devices.
    pub read_bytes: u64,
    /// Successful guest logical bytes written to block devices.
    pub write_bytes: u64,
    /// Per-device block metrics.
    pub devices: Vec<BlockDeviceMetrics>,
}

/// Per-device block metrics.
#[derive(Clone, Debug, PartialEq, Eq)]
pub struct BlockDeviceMetrics {
    /// VMM block device id.
    pub id: String,
    /// Successful guest logical bytes read from this block device.
    pub read_bytes: u64,
    /// Successful guest logical bytes written to this block device.
    pub write_bytes: u64,
}

/// Filesystem metrics.
#[derive(Clone, Copy, Debug, PartialEq, Eq, Structural)]
pub struct FilesystemMetrics {
    /// Guest-visible used bytes on the upper filesystem.
    pub upper_used_bytes: Option<u64>,
    /// Guest-visible bytes available on the upper filesystem.
    pub upper_free_bytes: Option<u64>,
    /// Unix milliseconds when the sample was received by the host.
    pub upper_sampled_at_unix_ms: Option<u64>,
}

impl Default for FilesystemMetrics {
    fn default() -> (r: FilesystemMetrics)
        ensures
            r == (FilesystemMetrics {
                upper_used_bytes: None,
                upper_free_bytes: None,
                upper_sampled_at_unix_ms: None,
            }),
    {
        FilesystemMetrics {
            upper_used_bytes: None,
            upper_free_bytes: None,
            upper_sampled_at_unix_ms: None,
        }
    }
}

/// What is kept of one block device.
#[derive(Debug)]
pub struct BlockDeviceState {
    pub id: String,
    pub read_bytes: u64,
    pub write_bytes: u64,
    pub io_profile_enabled: bool,
    pub io_profile: BlockIoProfileState,
}

/// Everything that is counted of a VM.
#[derive(Debug)]
pub struct MetricsState {
    pub vcpu_time_ns: u64,
    pub vcpu_time_valid: bool,
    pub memory_total_bytes: u64,
    pub memory_available_bytes: u64,
    pub memory_available_valid: bool,
    pub memory_host_resident_bytes: u64,
    pub memory_host_resident_valid: bool,
    pub block_read_bytes: u64,
    pub block_write_bytes: u64,
    pub block_devices: Vec<BlockDeviceState>,
    pub filesystem_upper_used_bytes: u64,
    pub filesystem_upper_used_valid: bool,
    pub filesystem_upper_free_bytes: u64,
    pub filesystem_upper_free_valid: bool,
    pub filesystem_upper_sampled_at_unix_ms: u64,
}

/// Bytes read from a list of devices.
pub open spec fn read_sum(devices: Seq<BlockDeviceState>) -> nat
    decreases devices.len(),
{
    if devices.len() == 0 {
        0
    } else {
        read_sum(devices.drop_last()) + devices.last().read_bytes as nat
    }
}

/// Bytes written to a list of devices.
pub open spec fn write_sum(devices: Seq<BlockDeviceState>) -> nat
    decreases devices.len(),
{
    if devices.len() == 0 {
        0
    } else {
        write_sum(devices.drop_last()) + devices.last().write_bytes as nat
    }
}

proof fn lemma_sums_update(devices: Seq<BlockDeviceState>, i: int, device: BlockDeviceState)
    requires
        0 <= i < devices.len(),
    ensures
        read_sum(devices.update(i, device)) == read_sum(devices) - devices[i].read_bytes
            + device.read_bytes,
        write_sum(devices.update(i, device)) == write_sum(devices) - devices[i].write_bytes
            + device.write_bytes,
    decreases devices.len(),
{
    let updated = devices.update(i, device);
    if i == devices.len() - 1 {
        assert(updated.drop_last() =~= devices.drop_last());
    } else {
        lemma_sums_update(devices.drop_last(), i, device);
        assert(updated.drop_last() =~= devices.drop_last().update(i, device));
    }
}

impl Default for MetricsState {
    fn default() -> (r: MetricsState)
        ensures
            r.wf(),
            r.block_devices@ == Seq::<BlockDeviceState>::empty(),
            r.block_read_bytes == 0,
            r.block_write_bytes == 0,
            r.memory_total_bytes == 0,
            r.vcpu_time_ns == 0,
            !r.vcpu_time_valid,
            !r.memory_available_valid,
            !r.memory_host_resident_valid,
            !r.filesystem_upper_used_valid,
            !r.filesystem_upper_free_valid,
    {
        MetricsState {
            vcpu_time_ns: 0,
            vcpu_time_valid: false,
            memory_total_bytes: 0,
            memory_available_bytes: 0,
            memory_available_valid: false,
            memory_host_resident_bytes: 0,
            memory_host_resident_valid: false,
            block_read_bytes: 0,
            block_write_bytes: 0,
            block_devices: Vec::new(),
            filesystem_upper_used_bytes: 0,
            filesystem_upper_used_valid: false,
            filesystem_upper_free_bytes: 0,
            filesystem_upper_free_valid: false,
            filesystem_upper_sampled_at_unix_ms: 0,
        }
    }
}

impl MetricsState {
    /// The aggregate byte counters are the sums over the devices.
    pub open spec fn wf(self) -> bool {
        &&& self.block_read_bytes == wrapped(read_sum(self.block_devices@) as int)
        &&& self.block_write_bytes == wrapped(write_sum(self.block_devices@) as int)
    }

    /// Only device `i` changed.
    pub open spec fn with_device(self, i: int, device: BlockDeviceState, after: MetricsState) -> bool {
        &&& after.block_devices@ == self.block_devices@.update(i, device)
        &&& after == (MetricsState { block_devices: after.block_devices, ..self })
    }
}

#[verifier::external_type_specification]
#[verifier::external_body]
pub struct ExSystemTime(SystemTime);

/// `SystemTime::now`: the time of the host's clock.
#[verifier::external_body]
fn system_now() -> (r: SystemTime)
{
    SystemTime::now()
}

/// What `SystemTime::duration_since` gives for a time and the Unix epoch.
pub uninterp spec fn span_since_epoch(time: SystemTime) -> Option<Duration>;

/// What `Duration::as_millis` gives for a span of time.
pub uninterp spec fn millis_of(elapsed: Duration) -> u128;

/// `SystemTime::duration_since` with the Unix epoch, which depends on the time alone. There is none
/// where the clock stands before it.
#[verifier::external_body]
fn since_epoch(time: SystemTime) -> (r: Option<Duration>)
    ensures
        r == span_since_epoch(time),
{
    time.duration_since(UNIX_EPOCH).ok()
}

/// `Duration::as_millis`: the whole milliseconds of a span of time, which depend on it alone.
#[verifier::external_body]
fn whole_millis(elapsed: Duration) -> (r: u128)
    ensures
        r == millis_of(elapsed),
{
    elapsed.as_millis()
}

/// A 64-bit timestamp: the low bits of the milliseconds, and zero where there are none.
pub fn timestamp_from_millis(millis: Option<u128>) -> (r: u64)
    ensures
        r == match millis {
            None => 0,
            Some(ms) => wrapped(ms as int),
        },
{
    match millis {
        None => 0,
        Some(ms) => (ms % 0x1_0000_0000_0000_0000) as u64,
    }
}

/// The timestamp of a time: zero before the Unix epoch, and else the low bits of the milliseconds
/// since then.
pub open spec fn stamp_of(time: SystemTime) -> u64 {
    match span_since_epoch(time) {
        None => 0,
        Some(elapsed) => wrapped(millis_of(elapsed) as int),
    }
}

/// The timestamp of a time.
fn timestamp_of(time: SystemTime) -> (r: u64)
    ensures
        r == stamp_of(time),
{
    let millis: Option<u128> = match since_epoch(time) {
        None => None,
        Some(elapsed) => Some(whole_millis(elapsed)),
    };
    timestamp_from_millis(millis)
}

/// The host's clock has shown the time.
pub closed spec fn clock_showed(time: SystemTime) -> bool {
    call_ensures(system_now, (), time)
}

/// The time of the host's clock in milliseconds since the Unix epoch. Which time the clock shows is
/// not stated.
pub fn unix_timestamp_ms() -> (r: u64)
    ensures
        exists|time: SystemTime| clock_showed(time) && r == #[trigger] stamp_of(time),
{
    let time: SystemTime = system_now();
    assert(clock_showed(time));
    timestamp_of(time)
}

/// A value that counts only where it was set.
pub fn valid_value(valid: bool, value: u64) -> (r: Option<u64>)
    ensures
        r == valid_or_none(valid, value),
{
    if valid {
        Some(value)
    } else {
        None
    }
}

/// A value that counts only where it was set.
pub open spec fn valid_or_none(valid: bool, value: u64) -> Option<u64> {
    if valid {
        Some(value)
    } else {
        None
    }
}

/// The writer for VMM and device metrics. `F` is the sampler of host-resident memory.
#[derive(Debug)]
pub struct MetricsWriter<F> {
    pub state: MetricsState,
    pub memory_host_resident_sampler: Option<F>,
}

/// The handle for point-in-time VM metrics.
#[derive(Debug)]
pub struct MetricsHandle<'a, F> {
    pub writer: &'a MetricsWriter<F>,
}

impl<F> Default for MetricsWriter<F> {
    fn default() -> (r: MetricsWriter<F>)
        ensures
            r.state.wf(),
            r.memory_host_resident_sampler is None,
            r.state.block_devices@ == Seq::<BlockDeviceState>::empty(),
            r.state.block_read_bytes == 0,
            r.state.block_write_bytes == 0,
            r.state.memory_total_bytes == 0,
            r.state.vcpu_time_ns == 0,
            !r.state.vcpu_time_valid,
            !r.state.memory_available_valid,
            !r.state.memory_host_resident_valid,
            !r.state.filesystem_upper_used_valid,
            !r.state.filesystem_upper_free_valid,
    {
        MetricsWriter { state: MetricsState::default(), memory_host_resident_sampler: None }
    }
}

/// The per-device metrics show a list of devices.
pub open spec fn shows_devices(
    metrics: Seq<BlockDeviceMetrics>,
    devices: Seq<BlockDeviceState>,
) -> bool {
    &&& metrics.len() == devices.len()
    &&& forall|i: int|
        0 <= i < devices.len() ==> (#[trigger] metrics[i]).id@ == devices[i].id@
            && metrics[i].read_bytes == devices[i].read_bytes && metrics[i].write_bytes
            == devices[i].write_bytes
}

/// `metrics` is what a state shows, but for host-resident memory.
pub open spec fn shows_state(metrics: VmMetrics, state: MetricsState) -> bool {
    let available = valid_or_none(state.memory_available_valid, state.memory_available_bytes);
    &&& metrics.cpu.vcpu_time_ns == valid_or_none(state.vcpu_time_valid, state.vcpu_time_ns)
    &&& metrics.memory.total_bytes == state.memory_total_bytes
    &&& metrics.memory.available_bytes == available
    &&& metrics.memory.used_bytes == match available {
        None => None,
        Some(bytes) => if bytes <= state.memory_total_bytes {
            Some((state.memory_total_bytes - bytes) as u64)
        } else {
            None
        },
    }
    &&& metrics.block.read_bytes == state.block_read_bytes
    &&& metrics.block.write_bytes == state.block_write_bytes
    &&& metrics.filesystem.upper_used_bytes == valid_or_none(
        state.filesystem_upper_used_valid,
        state.filesystem_upper_used_bytes,
    )
    &&& metrics.filesystem.upper_free_bytes == valid_or_none(
        state.filesystem_upper_free_valid,
        state.filesystem_upper_free_bytes,
    )
    &&& metrics.filesystem.upper_sampled_at_unix_ms == valid_or_none(
        state.filesystem_upper_used_valid,
        state.filesystem_upper_sampled_at_unix_ms,
    )
}

/// The devices whose profile is enabled, in order.
pub open spec fn profiled(devices: Seq<BlockDeviceState>) -> Seq<BlockDeviceState>
    decreases devices.len(),
{
    if devices.len() == 0 {
        Seq::empty()
    } else if devices.last().io_profile_enabled {
        profiled(devices.drop_last()).push(devices.last())
    } else {
        profiled(devices.drop_last())
    }
}

/// The profiles show a list of devices under their names.
pub open spec fn shows_profiles(
    profiles: Seq<BlockDeviceIoProfile>,
    devices: Seq<BlockDeviceState>,
) -> bool {
    &&& profiles.len() == devices.len()
    &&& forall|i: int|
        0 <= i < devices.len() ==> (#[trigger] profiles[i]).id@ == devices[i].id@ && shows(
            profiles[i],
            devices[i].io_profile,
        )
}

impl<'a, F: Fn() -> Option<u64>> MetricsHandle<'a, F> {
    /// The sampler can be asked at any time.
    pub open spec fn ready(self) -> bool {
        self.writer.memory_host_resident_sampler matches Some(sampler) ==> sampler.requires(())
    }

    /// Host-resident memory: what the sampler says where there is one, and else what was set.
    pub open spec fn resident(self, bytes: Option<u64>) -> bool {
        match self.writer.memory_host_resident_sampler {
            Some(sampler) => sampler.ensures((), bytes),
            None => bytes == valid_or_none(
                self.writer.state.memory_host_resident_valid,
                self.writer.state.memory_host_resident_bytes,
            ),
        }
    }

    /// Returns a snapshot of current VM metrics.
    pub fn snapshot(&self) -> (r: VmMetrics)
        requires
            self.ready(),
        ensures
            shows_state(r, self.writer.state),
            self.resident(r.memory.host_resident_bytes),
            shows_devices(r.block.devices@, self.writer.state.block_devices@),
    {
        self.snapshot_inner(true)
    }

    /// Returns aggregate VM metrics without per-device block details.
    pub fn aggregate_snapshot(&self) -> (r: VmMetrics)
        requires
            self.ready(),
        ensures
            shows_state(r, self.writer.state),
            self.resident(r.memory.host_resident_bytes),
            r.block.devices@.len() == 0,
    {
        self.snapshot_inner(false)
    }

    fn host_resident_bytes(&self) -> (r: Option<u64>)
        requires
            self.ready(),
        ensures
            self.resident(r),
    {
        match &self.writer.memory_host_resident_sampler {
            Some(sampler) => sampler(),
            None => valid_value(
                self.writer.state.memory_host_resident_valid,
                self.writer.state.memory_host_resident_bytes,
            ),
        }
    }

    fn snapshot_inner(&self, with_block_devices: bool) -> (r: VmMetrics)
        requires
            self.ready(),
        ensures
            shows_state(r, self.writer.state),
            self.resident(r.memory.host_resident_bytes),
            with_block_devices ==> shows_devices(
                r.block.devices@,
                self.writer.state.block_devices@,
            ),
            !with_block_devices ==> r.block.devices@.len() == 0,
    {
        let state: &MetricsState = &self.writer.state;
        let total_bytes: u64 = state.memory_total_bytes;
        let available_bytes: Option<u64> = valid_value(
            state.memory_available_valid,
            state.memory_available_bytes,
        );
        let used_bytes: Option<u64> = match available_bytes {
            None => None,
            Some(available) => total_bytes.checked_sub(available),
        };
        let host_resident_bytes: Option<u64> = self.host_resident_bytes();
        let mut devices: Vec<BlockDeviceMetrics> = Vec::new();
        if with_block_devices {
            let mut i: usize = 0;
            while i < state.block_devices.len()
                invariant
                    i <= state.block_devices@.len(),
                    shows_devices(devices@, state.block_devices@.take(i as int)),
                decreases state.block_devices@.len() - i,
            {
                let device = &state.block_devices[i];
                devices.push(
                    BlockDeviceMetrics {
                        id: device.id.clone(),
                        read_bytes: device.read_bytes,
                        write_bytes: device.write_bytes,
                    },
                );
                i = i + 1;
            }
            assert(state.block_devices@.take(i as int) =~= state.block_devices@);
        }
        VmMetrics {
            cpu: CpuMetrics {
                vcpu_time_ns: valid_value(state.vcpu_time_valid, state.vcpu_time_ns),
            },
            memory: MemoryMetrics { total_bytes, available_bytes, used_bytes, host_resident_bytes },
            block: BlockMetrics {
                read_bytes: state.block_read_bytes,
                write_bytes: state.block_write_bytes,
                devices,
            },
            filesystem: FilesystemMetrics {
                upper_used_bytes: valid_value(
                    state.filesystem_upper_used_valid,
                    state.filesystem_upper_used_bytes,
                ),
                upper_free_bytes: valid_value(
                    state.filesystem_upper_free_valid,
                    state.filesystem_upper_free_bytes,
                ),
                upper_sampled_at_unix_ms: valid_value(
                    state.filesystem_upper_used_valid,
                    state.filesystem_upper_sampled_at_unix_ms,
                ),
            },
        }
    }

    /// Returns block-path diagnostics when a profiled block device exists: each such device, and
    /// their sum.
    pub fn block_io_profile(&self) -> (r: Option<BlockIoProfile>)
        ensures
            r is None <==> profiled(self.writer.state.block_devices@).len() == 0,
            r matches Some(profile) ==> {
                &&& shows_profiles(
                    profile.devices@,
                    profiled(self.writer.state.block_devices@),
                )
                &&& sums_up(profile, profile.devices@)
            },
    {
        let devices = &self.writer.state.block_devices;
        let mut profiles: Vec<BlockDeviceIoProfile> = Vec::new();
        let mut aggregate = BlockIoProfile::default();
        let mut i: usize = 0;
        assert(devices@.take(0) =~= Seq::empty());
        while i < devices.len()
            invariant
                devices == &self.writer.state.block_devices,
                i <= devices@.len(),
                shows_profiles(profiles@, profiled(devices@.take(i as int))),
                sums_up(aggregate, profiles@),
                aggregate.devices@.len() == 0,
            decreases devices@.len() - i,
        {
            assert(devices@.take(i + 1).drop_last() =~= devices@.take(i as int));
            let device = &devices[i];
            if device.io_profile_enabled {
                let profile: BlockDeviceIoProfile = device.io_profile.snapshot(device.id.clone());
                let ghost before = aggregate;
                let ghost list = profiles@;
                aggregate.merge_device(&profile);
                proof {
                    lemma_merge_extends_sum(before, profile, aggregate, list);
                }
                profiles.push(profile);
            }
            i = i + 1;
        }
        assert(devices@.take(i as int) =~= devices@);
        if profiles.len() == 0 {
            return None;
        }
        let ghost summed = aggregate;
        aggregate.devices = profiles;
        proof {
            assert forall|c: BlockCounter| #[trigger] aggregate.counter(c) == capped(
                counter_total(profiles@, c) as int,
            ) by {
                assert(aggregate.counter(c) == summed.counter(c));
            }
            assert forall|s: BlockStage| aggregate.stage(s) == summed.stage(s) by {}
            assert forall|s: BlockStage, part: HistogramPart| part_exists(
                part,
            ) implies #[trigger] part_of(aggregate.stage(s), part) == capped(
                stage_total(profiles@, s, part) as int,
            ) by {
                assert(part_of(summed.stage(s), part) == capped(
                    stage_total(profiles@, s, part) as int,
                ));
            }
            assert forall|s: BlockStage| (#[trigger] aggregate.stage(s)).max_ns == stage_max(
                profiles@,
                s,
            ) by {
                assert(summed.stage(s).max_ns == stage_max(profiles@, s));
            }
        }
        Some(aggregate)
    }
}

/// The writer for one block device's metrics.
#[derive(Clone, Copy, Debug, PartialEq, Eq, Structural)]
pub struct BlockMetricsWriter {
    device: usize,
}

impl<F> MetricsWriter<F> {
    /// Returns a read handle for this metrics state.
    pub fn handle(&self) -> (r: MetricsHandle<'_, F>)
        ensures
            r.writer == self,
    {
        MetricsHandle { writer: self }
    }

    /// Sets configured guest memory.
    pub fn set_memory_total_bytes(&mut self, bytes: u64)
        ensures
            *final(self) == (MetricsWriter {
                state: MetricsState { memory_total_bytes: bytes, ..old(self).state },
                ..*old(self)
            }),
    {
        self.state.memory_total_bytes = bytes;
    }

    /// Sets guest-available memory.
    pub fn set_memory_available_bytes(&mut self, bytes: u64)
        ensures
            *final(self) == (MetricsWriter {
                state: MetricsState {
                    memory_available_bytes: bytes,
                    memory_available_valid: true,
                    ..old(self).state
                },
                ..*old(self)
            }),
    {
        self.state.memory_available_bytes = bytes;
        self.state.memory_available_valid = true;
    }

    /// Sets host-resident guest memory.
    pub fn set_memory_host_resident_bytes(&mut self, bytes: u64)
        ensures
            *final(self) == (MetricsWriter {
                state: MetricsState {
                    memory_host_resident_bytes: bytes,
                    memory_host_resident_valid: true,
                    ..old(self).state
                },
                ..*old(self)
            }),
    {
        self.state.memory_host_resident_bytes = bytes;
        self.state.memory_host_resident_valid = true;
    }

    /// Registers a sampler that is asked for host-resident guest memory during snapshots.
    pub fn set_memory_host_resident_sampler(&mut self, sampler: F)
        ensures
            *final(self) == (MetricsWriter {
                memory_host_resident_sampler: Some(sampler),
                ..*old(self)
            }),
    {
        self.memory_host_resident_sampler = Some(sampler);
    }

    /// Sets guest-visible upper filesystem bytes that were sampled at a given time.
    pub fn set_upper_filesystem_sample(&mut self, used_bytes: u64, free_bytes: u64, at: u64)
        ensures
            *final(self) == (MetricsWriter {
                state: MetricsState {
                    filesystem_upper_used_bytes: used_bytes,
                    filesystem_upper_used_valid: true,
                    filesystem_upper_free_bytes: free_bytes,
                    filesystem_upper_free_valid: true,
                    filesystem_upper_sampled_at_unix_ms: at,
                    ..old(self).state
                },
                ..*old(self)
            }),
    {
        self.state.filesystem_upper_used_bytes = used_bytes;
        self.state.filesystem_upper_free_bytes = free_bytes;
        self.state.filesystem_upper_sampled_at_unix_ms = at;
        self.state.filesystem_upper_used_valid = true;
        self.state.filesystem_upper_free_valid = true;
    }

    /// Sets guest-visible upper filesystem used/free bytes, sampled at what the clock shows.
    pub fn set_upper_filesystem_bytes(&mut self, used_bytes: u64, free_bytes: u64)
        ensures
            *final(self) == (MetricsWriter {
                state: MetricsState {
                    filesystem_upper_used_bytes: used_bytes,
                    filesystem_upper_used_valid: true,
                    filesystem_upper_free_bytes: free_bytes,
                    filesystem_upper_free_valid: true,
                    filesystem_upper_sampled_at_unix_ms: final(self).state.filesystem_upper_sampled_at_unix_ms,
                    ..old(self).state
                },
                ..*old(self)
            }),
            exists|time: SystemTime|
                clock_showed(time) && final(self).state.filesystem_upper_sampled_at_unix_ms
                    == #[trigger] stamp_of(time),
    {
        let at: u64 = unix_timestamp_ms();
        self.set_upper_filesystem_sample(used_bytes, free_bytes, at);
    }

    /// Clears guest-visible upper filesystem metrics.
    pub fn clear_upper_filesystem_bytes(&mut self)
        ensures
            *final(self) == (MetricsWriter {
                state: MetricsState {
                    filesystem_upper_used_valid: false,
                    filesystem_upper_free_valid: false,
                    ..old(self).state
                },
                ..*old(self)
            }),
    {
        self.state.filesystem_upper_used_valid = false;
        self.state.filesystem_upper_free_valid = false;
    }

    /// Adds guest vCPU execution time.
    pub fn add_vcpu_time_ns(&mut self, ns: u64)
        ensures
            *final(self) == (MetricsWriter {
                state: MetricsState {
                    vcpu_time_ns: wrapped(old(self).state.vcpu_time_ns + ns),
                    vcpu_time_valid: true,
                    ..old(self).state
                },
                ..*old(self)
            }),
    {
        self.state.vcpu_time_ns = self.state.vcpu_time_ns.wrapping_add(ns);
        self.state.vcpu_time_valid = true;
    }

    /// Registers one block device and returns a device-scoped metrics writer.
    pub fn register_block_device(&mut self, id: String) -> (r: BlockMetricsWriter)
        requires
            old(self).state.wf(),
        ensures
            final(self).state.wf(),
            r.index() == old(self).state.block_devices@.len(),
            final(self).memory_host_resident_sampler == old(self).memory_host_resident_sampler,
            final(self).state == (MetricsState {
                block_devices: final(self).state.block_devices,
                ..old(self).state
            }),
            final(self).state.block_devices@.len() == old(self).state.block_devices@.len() + 1,
            final(self).state.block_devices@.drop_last() == old(self).state.block_devices@,
            ({
                let device = final(self).state.block_devices@.last();
                &&& device.id == id
                &&& device.read_bytes == 0
                &&& device.write_bytes == 0
                &&& !device.io_profile_enabled
                &&& blank(device.io_profile)
            }),
    {
        let index: usize = self.state.block_devices.len();
        self.state.block_devices.push(
            BlockDeviceState {
                id,
                read_bytes: 0,
                write_bytes: 0,
                io_profile_enabled: false,
                io_profile: BlockIoProfileState::default(),
            },
        );
        assert(self.state.block_devices@.drop_last() =~= old(self).state.block_devices@);
        BlockMetricsWriter { device: index }
    }
}

impl BlockMetricsWriter {
    /// Which device this is the writer of.
    pub closed spec fn index(self) -> int {
        self.device as int
    }

    /// The device is registered.
    pub open spec fn registered(self, state: MetricsState) -> bool {
        0 <= self.index() < state.block_devices@.len()
    }

    /// The device in a state.
    pub open spec fn device(self, state: MetricsState) -> BlockDeviceState {
        state.block_devices@[self.index()]
    }

    /// Adds successful guest logical block read bytes, to the device and to the aggregate.
    pub fn add_read_bytes(&self, state: &mut MetricsState, bytes: u64)
        requires
            old(state).wf(),
            self.registered(*old(state)),
        ensures
            final(state).wf(),
            (MetricsState {
                block_read_bytes: wrapped(old(state).block_read_bytes + bytes),
                ..*old(state)
            }).with_device(
                self.index(),
                BlockDeviceState {
                    read_bytes: wrapped(self.device(*old(state)).read_bytes + bytes),
                    ..self.device(*old(state))
                },
                *final(state),
            ),
    {
        state.block_read_bytes = state.block_read_bytes.wrapping_add(bytes);
        let device_bytes: u64 = state.block_devices[self.device].read_bytes.wrapping_add(bytes);
        state.block_devices[self.device].read_bytes = device_bytes;
        proof {
            let device = BlockDeviceState {
                read_bytes: device_bytes,
                ..self.device(*old(state))
            };
            lemma_sums_update(old(state).block_devices@, self.index(), device);
            assert(state.block_devices@ =~= old(state).block_devices@.update(
                self.index(),
                device,
            ));
        }
    }

    /// Adds successful guest logical block write bytes, to the device and to the aggregate.
    pub fn add_write_bytes(&self, state: &mut MetricsState, bytes: u64)
        requires
            old(state).wf(),
            self.registered(*old(state)),
        ensures
            final(state).wf(),
            (MetricsState {
                block_write_bytes: wrapped(old(state).block_write_bytes + bytes),
                ..*old(state)
            }).with_device(
                self.index(),
                BlockDeviceState {
                    write_bytes: wrapped(self.device(*old(state)).write_bytes + bytes),
                    ..self.device(*old(state))
                },
                *final(state),
            ),
    {
        state.block_write_bytes = state.block_write_bytes.wrapping_add(bytes);
        let device_bytes: u64 = state.block_devices[self.device].write_bytes.wrapping_add(bytes);
        state.block_devices[self.device].write_bytes = device_bytes;
        proof {
            let device = BlockDeviceState {
                write_bytes: device_bytes,
                ..self.device(*old(state))
            };
            lemma_sums_update(old(state).block_devices@, self.index(), device);
            assert(state.block_devices@ =~= old(state).block_devices@.update(
                self.index(),
                device,
            ));
        }
    }

    /// Marks this device as profiled.
    pub fn enable_io_profile(&self, state: &mut MetricsState)
        requires
            old(state).wf(),
            self.registered(*old(state)),
        ensures
            final(state).wf(),
            old(state).with_device(
                self.index(),
                BlockDeviceState { io_profile_enabled: true, ..self.device(*old(state)) },
                *final(state),
            ),
    {
        state.block_devices[self.device].io_profile_enabled = true;
        proof {
            let device = BlockDeviceState {
                io_profile_enabled: true,
                ..self.device(*old(state))
            };
            lemma_sums_update(old(state).block_devices@, self.index(), device);
            assert(state.block_devices@ =~= old(state).block_devices@.update(
                self.index(),
                device,
            ));
        }
    }

    /// Only the profile of the device changed.
    pub open spec fn profile_changed(self, before: MetricsState, after: MetricsState) -> bool {
        &&& self.registered(after)
        &&& before.with_device(
            self.index(),
            BlockDeviceState {
                io_profile: self.device(after).io_profile,
                ..self.device(before)
            },
            after,
        )
    }

    /// The profile of the device with one counter changed.
    pub open spec fn counter_set(
        self,
        before: MetricsState,
        counter: BlockCounter,
        value: u64,
        after: MetricsState,
    ) -> bool {
        let old_profile = self.device(before).io_profile;
        let new_profile = self.device(after).io_profile;
        &&& self.profile_changed(before, after)
        &&& forall|c: BlockCounter| #[trigger]
            new_profile.counter(c) == if c == counter {
                value
            } else {
                old_profile.counter(c)
            }
        &&& forall|s: BlockStage| #[trigger] new_profile.stage(s) == old_profile.stage(s)
    }

    /// The profile of the device with one sample recorded for a stage.
    pub open spec fn stage_recorded(
        self,
        before: MetricsState,
        stage: BlockStage,
        ns: u64,
        after: MetricsState,
    ) -> bool {
        let old_profile = self.device(before).io_profile;
        let new_profile = self.device(after).io_profile;
        &&& self.profile_changed(before, after)
        &&& forall|c: BlockCounter| #[trigger] new_profile.counter(c) == old_profile.counter(c)
        &&& forall|s: BlockStage|
            s != stage ==> #[trigger] new_profile.stage(s) == old_profile.stage(s)
        &&& old_profile.stage(stage).recorded(ns, new_profile.stage(stage))
    }

    fn set_profile(&self, state: &mut MetricsState, profile: BlockIoProfileState)
        requires
            old(state).wf(),
            self.registered(*old(state)),
        ensures
            final(state).wf(),
            self.profile_changed(*old(state), *final(state)),
            self.device(*final(state)).io_profile == profile,
    {
        state.block_devices[self.device].io_profile = profile;
        proof {
            let device = BlockDeviceState { io_profile: profile, ..self.device(*old(state)) };
            lemma_sums_update(old(state).block_devices@, self.index(), device);
            assert(state.block_devices@ =~= old(state).block_devices@.update(
                self.index(),
                device,
            ));
        }
    }

    /// The counter of a class of requests.
    pub open spec fn kind_counter(kind: BlockRequestKind) -> BlockCounter {
        match kind {
            BlockRequestKind::Read => BlockCounter::ReadRequests,
            BlockRequestKind::Write => BlockCounter::WriteRequests,
            BlockRequestKind::Flush => BlockCounter::FlushRequests,
            BlockRequestKind::Other => BlockCounter::OtherRequests,
        }
    }

    /// Records a guest request by operation class.
    pub fn record_request_kind(&self, state: &mut MetricsState, kind: BlockRequestKind)
        requires
            old(state).wf(),
            self.registered(*old(state)),
        ensures
            final(state).wf(),
            self.counter_set(
                *old(state),
                Self::kind_counter(kind),
                wrapped(
                    self.device(*old(state)).io_profile.counter(Self::kind_counter(kind)) + 1,
                ),
                *final(state),
            ),
    {
        let mut profile: BlockIoProfileState = state.block_devices[self.device].io_profile;
        match kind {
            BlockRequestKind::Read => {
                profile.read_requests = profile.read_requests.wrapping_add(1);
            },
            BlockRequestKind::Write => {
                profile.write_requests = profile.write_requests.wrapping_add(1);
            },
            BlockRequestKind::Flush => {
                profile.flush_requests = profile.flush_requests.wrapping_add(1);
            },
            BlockRequestKind::Other => {
                profile.other_requests = profile.other_requests.wrapping_add(1);
            },
        }
        self.set_profile(state, profile);
    }

    /// Records a failed guest request.
    pub fn record_failed_request(&self, state: &mut MetricsState)
        requires
            old(state).wf(),
            self.registered(*old(state)),
        ensures
            final(state).wf(),
            self.counter_set(
                *old(state),
                BlockCounter::FailedRequests,
                wrapped(self.device(*old(state)).io_profile.failed_requests + 1),
                *final(state),
            ),
    {
        let mut profile: BlockIoProfileState = state.block_devices[self.device].io_profile;
        profile.failed_requests = profile.failed_requests.wrapping_add(1);
        self.set_profile(state, profile);
    }

    /// Records one used-ring completion and whether it signalled an interrupt.
    pub fn record_completion(&self, state: &mut MetricsState, interrupted: bool)
        requires
            old(state).wf(),
            self.registered(*old(state)),
        ensures
            final(state).wf(),
            self.profile_changed(*old(state), *final(state)),
            ({
                let old_profile = self.device(*old(state)).io_profile;
                let new_profile = self.device(*final(state)).io_profile;
                &&& new_profile == (BlockIoProfileState {
                    completions: wrapped(old_profile.completions + 1),
                    interrupts: if interrupted {
                        wrapped(old_profile.interrupts + 1)
                    } else {
                        old_profile.interrupts
                    },
                    ..old_profile
                })
            }),
    {
        let mut profile: BlockIoProfileState = state.block_devices[self.device].io_profile;
        profile.completions = profile.completions.wrapping_add(1);
        if interrupted {
            profile.interrupts = profile.interrupts.wrapping_add(1);
        }
        self.set_profile(state, profile);
    }

    /// Adds scratch vectors that were built.
    pub fn add_scratch_vectors(&self, state: &mut MetricsState, count: u64)
        requires
            old(state).wf(),
            self.registered(*old(state)),
        ensures
            final(state).wf(),
            self.counter_set(
                *old(state),
                BlockCounter::ScratchVectors,
                wrapped(self.device(*old(state)).io_profile.scratch_vectors + count),
                *final(state),
            ),
    {
        let mut profile: BlockIoProfileState = state.block_devices[self.device].io_profile;
        profile.scratch_vectors = profile.scratch_vectors.wrapping_add(count);
        self.set_profile(state, profile);
    }

    /// Records worker queue-drain backlog latency.
    pub fn record_worker_backlog_ns(&self, state: &mut MetricsState, ns: u64)
        requires
            old(state).wf(),
            self.registered(*old(state)),
        ensures
            final(state).wf(),
            self.stage_recorded(*old(state), BlockStage::WorkerBacklog, ns, *final(state)),
    {
        let mut profile: BlockIoProfileState = state.block_devices[self.device].io_profile;
        profile.worker_backlog.record(ns);
        self.set_profile(state, profile);
    }

    /// Records descriptor parsing latency.
    pub fn record_descriptor_parse_ns(&self, state: &mut MetricsState, ns: u64)
        requires
            old(state).wf(),
            self.registered(*old(state)),
        ensures
            final(state).wf(),
            self.stage_recorded(*old(state), BlockStage::DescriptorParse, ns, *final(state)),
    {
        let mut profile: BlockIoProfileState = state.block_devices[self.device].io_profile;
        profile.descriptor_parse.record(ns);
        self.set_profile(state, profile);
    }

    /// Records end-to-end request handling latency.
    pub fn record_request_ns(&self, state: &mut MetricsState, ns: u64)
        requires
            old(state).wf(),
            self.registered(*old(state)),
        ensures
            final(state).wf(),
            self.stage_recorded(*old(state), BlockStage::Request, ns, *final(state)),
    {
        let mut profile: BlockIoProfileState = state.block_devices[self.device].io_profile;
        profile.request.record(ns);
        self.set_profile(state, profile);
    }

    /// Records guest iovec preparation latency.
    pub fn record_iovec_prepare_ns(&self, state: &mut MetricsState, ns: u64)
        requires
            old(state).wf(),
            self.registered(*old(state)),
        ensures
            final(state).wf(),
            self.stage_recorded(*old(state), BlockStage::IovecPrepare, ns, *final(state)),
    {
        let mut profile: BlockIoProfileState = state.block_devices[self.device].io_profile;
        profile.iovec_prepare.record(ns);
        self.set_profile(state, profile);
    }

    /// Records format-access read latency.
    pub fn record_format_read_ns(&self, state: &mut MetricsState, ns: u64)
        requires
            old(state).wf(),
            self.registered(*old(state)),
        ensures
            final(state).wf(),
            self.stage_recorded(*old(state), BlockStage::FormatRead, ns, *final(state)),
    {
        let mut profile: BlockIoProfileState = state.block_devices[self.device].io_profile;
        profile.format_read.record(ns);
        self.set_profile(state, profile);
    }

    /// Records format-access write latency.
    pub fn record_format_write_ns(&self, state: &mut MetricsState, ns: u64)
        requires
            old(state).wf(),
            self.registered(*old(state)),
        ensures
            final(state).wf(),
            self.stage_recorded(*old(state), BlockStage::FormatWrite, ns, *final(state)),
    {
        let mut profile: BlockIoProfileState = state.block_devices[self.device].io_profile;
        profile.format_write.record(ns);
        self.set_profile(state, profile);
    }

    /// Records underlying storage read latency.
    pub fn record_storage_read_ns(&self, state: &mut MetricsState, ns: u64)
        requires
            old(state).wf(),
            self.registered(*old(state)),
        ensures
            final(state).wf(),
            self.stage_recorded(*old(state), BlockStage::StorageRead, ns, *final(state)),
    {
        let mut profile: BlockIoProfileState = state.block_devices[self.device].io_profile;
        profile.storage_read.record(ns);
        self.set_profile(state, profile);
    }

    /// Records underlying storage write latency.
    pub fn record_storage_write_ns(&self, state: &mut MetricsState, ns: u64)
        requires
            old(state).wf(),
            self.registered(*old(state)),
        ensures
            final(state).wf(),
            self.stage_recorded(*old(state), BlockStage::StorageWrite, ns, *final(state)),
    {
        let mut profile: BlockIoProfileState = state.block_devices[self.device].io_profile;
        profile.storage_write.record(ns);
        self.set_profile(state, profile);
    }

    /// Records flush latency.
    pub fn record_flush_ns(&self, state: &mut MetricsState, ns: u64)
        requires
            old(state).wf(),
            self.registered(*old(state)),
        ensures
            final(state).wf(),
            self.stage_recorded(*old(state), BlockStage::Flush, ns, *final(state)),
    {
        let mut profile: BlockIoProfileState = state.block_devices[self.device].io_profile;
        profile.flush.record(ns);
        self.set_profile(state, profile);
    }

    /// Records underlying storage flush latency.
    pub fn record_storage_flush_ns(&self, state: &mut MetricsState, ns: u64)
        requires
            old(state).wf(),
            self.registered(*old(state)),
        ensures
            final(state).wf(),
            self.stage_recorded(*old(state), BlockStage::StorageFlush, ns, *final(state)),
    {
        let mut profile: BlockIoProfileState = state.block_devices[self.device].io_profile;
        profile.storage_flush.record(ns);
        self.set_profile(state, profile);
    }

    /// Records durable-storage sync latency.
    pub fn record_sync_ns(&self, state: &mut MetricsState, ns: u64)
        requires
            old(state).wf(),
            self.registered(*old(state)),
        ensures
            final(state).wf(),
            self.stage_recorded(*old(state), BlockStage::Sync, ns, *final(state)),
    {
        let mut profile: BlockIoProfileState = state.block_devices[self.device].io_profile;
        profile.sync.record(ns);
        self.set_profile(state, profile);
    }

    /// Records completion-publication latency.
    pub fn record_completion_ns(&self, state: &mut MetricsState, ns: u64)
        requires
            old(state).wf(),
            self.registered(*old(state)),
        ensures
            final(state).wf(),
            self.stage_recorded(*old(state), BlockStage::Completion, ns, *final(state)),
    {
        let mut profile: BlockIoProfileState = state.block_devices[self.device].io_profile;
        profile.completion.record(ns);
        self.set_profile(state, profile);
    }
}

/// Every byte that was read or written is in the aggregate: with no more devices than one, the
/// aggregate is that device's counter, and a further device adds its own.
pub proof fn aggregate_is_the_sum_over_devices(
    state: MetricsState,
    devices: Seq<BlockDeviceState>,
    device: BlockDeviceState,
)
    requires
        state.wf(),
        state.block_devices@ == devices.push(device),
    ensures
        state.block_read_bytes == wrapped(read_sum(devices) + device.read_bytes),
        state.block_write_bytes == wrapped(write_sum(devices) + device.write_bytes),
{
    assert(devices.push(device).drop_last() =~= devices);
}

/// Memory in use is the rest of the configured memory, and unknown where the guest reports more
/// than that as available.
pub proof fn used_memory_complements_available(metrics: VmMetrics, state: MetricsState)
    requires
        shows_state(metrics, state),
    ensures
        metrics.memory.used_bytes matches Some(used) ==> used
            + metrics.memory.available_bytes->Some_0 == metrics.memory.total_bytes,
        metrics.memory.available_bytes is None ==> metrics.memory.used_bytes is None,
{
}

/// Bytes that a guest moved are added to its device and to the sum over all devices, in their own
/// direction, and nowhere else.
pub proof fn moved_bytes_are_added_once(
    writer: BlockMetricsWriter,
    read: &mut MetricsState,
    written: &mut MetricsState,
    bytes: u64,
    other: int,
)
    requires
        read.wf(),
        written.wf(),
        writer.registered(*read),
        writer.registered(*written),
        call_ensures(BlockMetricsWriter::add_read_bytes, (&writer, read, bytes), ()),
        call_ensures(BlockMetricsWriter::add_write_bytes, (&writer, written, bytes), ()),
        read.block_read_bytes + bytes <= u64::MAX,
        written.block_write_bytes + bytes <= u64::MAX,
        writer.device(*read).read_bytes + bytes <= u64::MAX,
        writer.device(*written).write_bytes + bytes <= u64::MAX,
        0 <= other < read.block_devices@.len(),
        0 <= other < written.block_devices@.len(),
        other != writer.index(),
    ensures
        final(read).block_read_bytes == old(read).block_read_bytes + bytes,
        final(read).block_write_bytes == old(read).block_write_bytes,
        writer.device(*final(read)).read_bytes == writer.device(*old(read)).read_bytes + bytes,
        writer.device(*final(read)).write_bytes == writer.device(*old(read)).write_bytes,
        writer.device(*final(read)).id == writer.device(*old(read)).id,
        final(read).block_devices@[other] == old(read).block_devices@[other],
        final(written).block_write_bytes == old(written).block_write_bytes + bytes,
        final(written).block_read_bytes == old(written).block_read_bytes,
        writer.device(*final(written)).write_bytes == writer.device(*old(written)).write_bytes
            + bytes,
        writer.device(*final(written)).read_bytes == writer.device(*old(written)).read_bytes,
        final(written).block_devices@[other] == old(written).block_devices@[other],
{
}

/// What observers see is what was set: each value of the state under its own name, and none where it
/// was never set.
pub proof fn snapshots_show_the_state<F: Fn() -> Option<u64>>(
    handle: MetricsHandle<'_, F>,
    r: VmMetrics,
    i: int,
)
    requires
        handle.ready(),
        call_ensures(MetricsHandle::<F>::snapshot, (&handle,), r),
        0 <= i < handle.writer.state.block_devices@.len(),
    ensures
        ({
            let state = handle.writer.state;
            &&& r.memory.total_bytes == state.memory_total_bytes
            &&& state.memory_available_valid ==> r.memory.available_bytes == Some(
                state.memory_available_bytes,
            )
            &&& !state.memory_available_valid ==> r.memory.available_bytes is None
            &&& state.memory_available_valid && state.memory_available_bytes
                <= state.memory_total_bytes ==> r.memory.used_bytes == Some(
                (state.memory_total_bytes - state.memory_available_bytes) as u64,
            )
            &&& state.memory_available_valid && state.memory_available_bytes
                > state.memory_total_bytes ==> r.memory.used_bytes is None
            &&& state.vcpu_time_valid ==> r.cpu.vcpu_time_ns == Some(state.vcpu_time_ns)
            &&& !state.vcpu_time_valid ==> r.cpu.vcpu_time_ns is None
            &&& r.block.read_bytes == state.block_read_bytes
            &&& r.block.write_bytes == state.block_write_bytes
            &&& r.block.devices@.len() == state.block_devices@.len()
            &&& r.block.devices@[i].id@ == state.block_devices@[i].id@
            &&& r.block.devices@[i].read_bytes == state.block_devices@[i].read_bytes
            &&& r.block.devices@[i].write_bytes == state.block_devices@[i].write_bytes
            &&& state.filesystem_upper_used_valid ==> r.filesystem.upper_used_bytes == Some(
                state.filesystem_upper_used_bytes,
            ) && r.filesystem.upper_sampled_at_unix_ms == Some(
                state.filesystem_upper_sampled_at_unix_ms,
            )
            &&& state.filesystem_upper_free_valid ==> r.filesystem.upper_free_bytes == Some(
                state.filesystem_upper_free_bytes,
            )
            &&& !state.filesystem_upper_used_valid ==> r.filesystem.upper_used_bytes is None
                && r.filesystem.upper_sampled_at_unix_ms is None
            &&& !state.filesystem_upper_free_valid ==> r.filesystem.upper_free_bytes is None
            &&& handle.writer.memory_host_resident_sampler is None
                && state.memory_host_resident_valid ==> r.memory.host_resident_bytes == Some(
                state.memory_host_resident_bytes,
            )
        }),
{
}

/// A latency falls into the bucket that its bound says: the bound of a bucket is its largest
/// latency, and the next larger one belongs to the next bucket.
pub proof fn buckets_end_at_their_bounds(
    index: usize,
    bound: u64,
    last: usize,
    next: usize,
)
    requires
        index < 64,
        call_ensures(latency_bucket_upper_bound, (index,), bound),
        bound < u64::MAX,
        call_ensures(latency_bucket, (bound,), last),
        call_ensures(latency_bucket, ((bound + 1) as u64,), next),
    ensures
        last == index,
        next == index + 1,
        index == 0 ==> bound == 0,
{
    vstd::arithmetic::power2::lemma2_to64();
    let b = bound as nat;
    bit_length_bounds(b);
    bit_length_bounds(b + 1);
    bit_length_of_u64(bound);
    bit_length_of_u64((bound + 1) as u64);
    let l = bit_length(b);
    let n = bit_length(b + 1);
    assert(pow2(index as nat) == b + 1);
    if l > index {
        lemma_pow2_monotonic(index as nat, (l - 1) as nat);
    }
    if l < index {
        lemma_pow2_monotonic(l, (index - 1) as nat);
        lemma_pow2_unfold(index as nat);
    }
    if n > index + 1 {
        lemma_pow2_monotonic((index + 1) as nat, (n - 1) as nat);
        lemma_pow2_unfold((index + 1) as nat);
    }
    if n < index + 1 {
        lemma_pow2_monotonic(n, index as nat);
    }
}

/// A sample is counted once, added to the total, and remembered where it is the largest.
pub proof fn samples_are_counted_once(histogram: &mut LatencyHistogram, ns: u64)
    requires
        call_ensures(LatencyHistogram::record, (histogram, ns), ()),
        histogram.count < u64::MAX,
        histogram.total_ns + ns <= u64::MAX,
    ensures
        final(histogram).count == old(histogram).count + 1,
        final(histogram).total_ns == old(histogram).total_ns + ns,
        final(histogram).max_ns >= ns && final(histogram).max_ns >= old(histogram).max_ns,
        final(histogram).max_ns == ns || final(histogram).max_ns == old(histogram).max_ns,
{
}

/// The mean is the total over the number of samples, rounded down.
pub proof fn mean_is_between_the_samples(histogram: LatencyHistogram, r: Option<u64>)
    requires
        call_ensures(LatencyHistogram::mean_ns, (&histogram,), r),
    ensures
        r is None <==> histogram.count == 0,
        r is Some ==> r->Some_0 * histogram.count <= histogram.total_ns < (r->Some_0 + 1)
            * histogram.count,
{
    if histogram.count > 0 {
        let total = histogram.total_ns as int;
        let count = histogram.count as int;
        let mean = total / count;
        assert(mean * count <= total < (mean + 1) * count) by (nonlinear_arith)
            requires
                count > 0,
                mean == total / count,
        ;
    }
}

/// Requests are counted under their class, and no other count changes.
pub proof fn requests_are_counted_by_class(
    writer: BlockMetricsWriter,
    state: &mut MetricsState,
    kind: BlockRequestKind,
)
    requires
        state.wf(),
        writer.registered(*state),
        call_ensures(BlockMetricsWriter::record_request_kind, (&writer, state, kind), ()),
        writer.device(*state).io_profile.read_requests < u64::MAX,
        writer.device(*state).io_profile.write_requests < u64::MAX,
        writer.device(*state).io_profile.flush_requests < u64::MAX,
        writer.device(*state).io_profile.other_requests < u64::MAX,
    ensures
        ({
            let before = writer.device(*old(state)).io_profile;
            let after = writer.device(*final(state)).io_profile;
            let one = |counted: bool| if counted {
                1int
            } else {
                0
            };
            &&& after.read_requests == before.read_requests + one(kind is Read)
            &&& after.write_requests == before.write_requests + one(kind is Write)
            &&& after.flush_requests == before.flush_requests + one(kind is Flush)
            &&& after.other_requests == before.other_requests + one(kind is Other)
            &&& after.failed_requests == before.failed_requests
            &&& after.completions == before.completions
            &&& after.interrupts == before.interrupts
        }),
{
    let before = writer.device(*old(state)).io_profile;
    let after = writer.device(*final(state)).io_profile;
    assert(after.counter(BlockCounter::ReadRequests) == after.read_requests);
    assert(after.counter(BlockCounter::WriteRequests) == after.write_requests);
    assert(after.counter(BlockCounter::FlushRequests) == after.flush_requests);
    assert(after.counter(BlockCounter::OtherRequests) == after.other_requests);
    assert(after.counter(BlockCounter::FailedRequests) == after.failed_requests);
    assert(after.counter(BlockCounter::Completions) == after.completions);
    assert(after.counter(BlockCounter::Interrupts) == after.interrupts);
}

/// Completions, interrupts, failures and scratch vectors are counted under their own names.
pub proof fn completions_are_counted_with_their_interrupts(
    writer: BlockMetricsWriter,
    state: &mut MetricsState,
    interrupted: bool,
    failed: &mut MetricsState,
    built: &mut MetricsState,
    count: u64,
)
    requires
        call_ensures(BlockMetricsWriter::record_completion, (&writer, state, interrupted), ()),
        call_ensures(BlockMetricsWriter::record_failed_request, (&writer, failed), ()),
        call_ensures(BlockMetricsWriter::add_scratch_vectors, (&writer, built, count), ()),
        writer.device(*state).io_profile.completions < u64::MAX,
        writer.device(*state).io_profile.interrupts < u64::MAX,
        writer.device(*failed).io_profile.failed_requests < u64::MAX,
        writer.device(*built).io_profile.scratch_vectors + count <= u64::MAX,
    ensures
        writer.device(*final(state)).io_profile.completions == writer.device(
            *old(state),
        ).io_profile.completions + 1,
        writer.device(*final(state)).io_profile.interrupts == writer.device(
            *old(state),
        ).io_profile.interrupts + if interrupted {
            1int
        } else {
            0
        },
        writer.device(*final(failed)).io_profile.failed_requests == writer.device(
            *old(failed),
        ).io_profile.failed_requests + 1,
        writer.device(*final(built)).io_profile.scratch_vectors == writer.device(
            *old(built),
        ).io_profile.scratch_vectors + count,
{
    let after = writer.device(*final(failed)).io_profile;
    assert(after.counter(BlockCounter::FailedRequests) == after.failed_requests);
    let after = writer.device(*final(built)).io_profile;
    assert(after.counter(BlockCounter::ScratchVectors) == after.scratch_vectors);
}

/// The time of waiting for the worker is recorded as such, and as nothing else.
pub proof fn worker_backlog_latency_is_its_own(
    writer: BlockMetricsWriter,
    state: &mut MetricsState,
    ns: u64,
)
    requires
        call_ensures(BlockMetricsWriter::record_worker_backlog_ns, (&writer, state, ns), ()),
        writer.device(*state).io_profile.worker_backlog.count < u64::MAX,
        writer.device(*state).io_profile.worker_backlog.total_ns + ns <= u64::MAX,
    ensures
        ({
            let before = writer.device(*old(state)).io_profile;
            let after = writer.device(*final(state)).io_profile;
            &&& after.worker_backlog.count == before.worker_backlog.count + 1
            &&& after.worker_backlog.total_ns == before.worker_backlog.total_ns + ns
            &&& after.descriptor_parse == before.descriptor_parse
            &&& after.request == before.request
            &&& after.iovec_prepare == before.iovec_prepare
            &&& after.format_read == before.format_read
            &&& after.format_write == before.format_write
            &&& after.storage_read == before.storage_read
            &&& after.storage_write == before.storage_write
            &&& after.flush == before.flush
            &&& after.storage_flush == before.storage_flush
            &&& after.sync == before.sync
            &&& after.completion == before.completion
        }),
{
    let after = writer.device(*final(state)).io_profile;
    assert(after.stage(BlockStage::WorkerBacklog) == after.worker_backlog);
    assert(after.stage(BlockStage::DescriptorParse) == after.descriptor_parse);
    assert(after.stage(BlockStage::Request) == after.request);
    assert(after.stage(BlockStage::IovecPrepare) == after.iovec_prepare);
    assert(after.stage(BlockStage::FormatRead) == after.format_read);
    assert(after.stage(BlockStage::FormatWrite) == after.format_write);
    assert(after.stage(BlockStage::StorageRead) == after.storage_read);
    assert(after.stage(BlockStage::StorageWrite) == after.storage_write);
    assert(after.stage(BlockStage::Flush) == after.flush);
    assert(after.stage(BlockStage::StorageFlush) == after.storage_flush);
    assert(after.stage(BlockStage::Sync) == after.sync);
    assert(after.stage(BlockStage::Completion) == after.completion);
}

/// The time of reading a chain is recorded as such, and as nothing else.
pub proof fn descriptor_parse_latency_is_its_own(
    writer: BlockMetricsWriter,
    state: &mut MetricsState,
    ns: u64,
)
    requires
        call_ensures(BlockMetricsWriter::record_descriptor_parse_ns, (&writer, state, ns), ()),
        writer.device(*state).io_profile.descriptor_parse.count < u64::MAX,
        writer.device(*state).io_profile.descriptor_parse.total_ns + ns <= u64::MAX,
    ensures
        ({
            let before = writer.device(*old(state)).io_profile;
            let after = writer.device(*final(state)).io_profile;
            &&& after.descriptor_parse.count == before.descriptor_parse.count + 1
            &&& after.descriptor_parse.total_ns == before.descriptor_parse.total_ns + ns
            &&& after.worker_backlog == before.worker_backlog
            &&& after.request == before.request
            &&& after.iovec_prepare == before.iovec_prepare
            &&& after.format_read == before.format_read
            &&& after.format_write == before.format_write
            &&& after.storage_read == before.storage_read
            &&& after.storage_write == before.storage_write
            &&& after.flush == before.flush
            &&& after.storage_flush == before.storage_flush
            &&& after.sync == before.sync
            &&& after.completion == before.completion
        }),
{
    let after = writer.device(*final(state)).io_profile;
    assert(after.stage(BlockStage::WorkerBacklog) == after.worker_backlog);
    assert(after.stage(BlockStage::DescriptorParse) == after.descriptor_parse);
    assert(after.stage(BlockStage::Request) == after.request);
    assert(after.stage(BlockStage::IovecPrepare) == after.iovec_prepare);
    assert(after.stage(BlockStage::FormatRead) == after.format_read);
    assert(after.stage(BlockStage::FormatWrite) == after.format_write);
    assert(after.stage(BlockStage::StorageRead) == after.storage_read);
    assert(after.stage(BlockStage::StorageWrite) == after.storage_write);
    assert(after.stage(BlockStage::Flush) == after.flush);
    assert(after.stage(BlockStage::StorageFlush) == after.storage_flush);
    assert(after.stage(BlockStage::Sync) == after.sync);
    assert(after.stage(BlockStage::Completion) == after.completion);
}

/// The time of a whole request is recorded as such, and as nothing else.
pub proof fn request_latency_is_its_own(
    writer: BlockMetricsWriter,
    state: &mut MetricsState,
    ns: u64,
)
    requires
        call_ensures(BlockMetricsWriter::record_request_ns, (&writer, state, ns), ()),
        writer.device(*state).io_profile.request.count < u64::MAX,
        writer.device(*state).io_profile.request.total_ns + ns <= u64::MAX,
    ensures
        ({
            let before = writer.device(*old(state)).io_profile;
            let after = writer.device(*final(state)).io_profile;
            &&& after.request.count == before.request.count + 1
            &&& after.request.total_ns == before.request.total_ns + ns
            &&& after.worker_backlog == before.worker_backlog
            &&& after.descriptor_parse == before.descriptor_parse
            &&& after.iovec_prepare == before.iovec_prepare
            &&& after.format_read == before.format_read
            &&& after.format_write == before.format_write
            &&& after.storage_read == before.storage_read
            &&& after.storage_write == before.storage_write
            &&& after.flush == before.flush
            &&& after.storage_flush == before.storage_flush
            &&& after.sync == before.sync
            &&& after.completion == before.completion
        }),
{
    let after = writer.device(*final(state)).io_profile;
    assert(after.stage(BlockStage::WorkerBacklog) == after.worker_backlog);
    assert(after.stage(BlockStage::DescriptorParse) == after.descriptor_parse);
    assert(after.stage(BlockStage::Request) == after.request);
    assert(after.stage(BlockStage::IovecPrepare) == after.iovec_prepare);
    assert(after.stage(BlockStage::FormatRead) == after.format_read);
    assert(after.stage(BlockStage::FormatWrite) == after.format_write);
    assert(after.stage(BlockStage::StorageRead) == after.storage_read);
    assert(after.stage(BlockStage::StorageWrite) == after.storage_write);
    assert(after.stage(BlockStage::Flush) == after.flush);
    assert(after.stage(BlockStage::StorageFlush) == after.storage_flush);
    assert(after.stage(BlockStage::Sync) == after.sync);
    assert(after.stage(BlockStage::Completion) == after.completion);
}

/// The time of preparing buffers is recorded as such, and as nothing else.
pub proof fn iovec_prepare_latency_is_its_own(
    writer: BlockMetricsWriter,
    state: &mut MetricsState,
    ns: u64,
)
    requires
        call_ensures(BlockMetricsWriter::record_iovec_prepare_ns, (&writer, state, ns), ()),
        writer.device(*state).io_profile.iovec_prepare.count < u64::MAX,
        writer.device(*state).io_profile.iovec_prepare.total_ns + ns <= u64::MAX,
    ensures
        ({
            let before = writer.device(*old(state)).io_profile;
            let after = writer.device(*final(state)).io_profile;
            &&& after.iovec_prepare.count == before.iovec_prepare.count + 1
            &&& after.iovec_prepare.total_ns == before.iovec_prepare.total_ns + ns
            &&& after.worker_backlog == before.worker_backlog
            &&& after.descriptor_parse == before.descriptor_parse
            &&& after.request == before.request
            &&& after.format_read == before.format_read
            &&& after.format_write == before.format_write
            &&& after.storage_read == before.storage_read
            &&& after.storage_write == before.storage_write
            &&& after.flush == before.flush
            &&& after.storage_flush == before.storage_flush
            &&& after.sync == before.sync
            &&& after.completion == before.completion
        }),
{
    let after = writer.device(*final(state)).io_profile;
    assert(after.stage(BlockStage::WorkerBacklog) == after.worker_backlog);
    assert(after.stage(BlockStage::DescriptorParse) == after.descriptor_parse);
    assert(after.stage(BlockStage::Request) == after.request);
    assert(after.stage(BlockStage::IovecPrepare) == after.iovec_prepare);
    assert(after.stage(BlockStage::FormatRead) == after.format_read);
    assert(after.stage(BlockStage::FormatWrite) == after.format_write);
    assert(after.stage(BlockStage::StorageRead) == after.storage_read);
    assert(after.stage(BlockStage::StorageWrite) == after.storage_write);
    assert(after.stage(BlockStage::Flush) == after.flush);
    assert(after.stage(BlockStage::StorageFlush) == after.storage_flush);
    assert(after.stage(BlockStage::Sync) == after.sync);
    assert(after.stage(BlockStage::Completion) == after.completion);
}

/// The time of a read through the image format is recorded as such, and as nothing else.
pub proof fn format_read_latency_is_its_own(
    writer: BlockMetricsWriter,
    state: &mut MetricsState,
    ns: u64,
)
    requires
        call_ensures(BlockMetricsWriter::record_format_read_ns, (&writer, state, ns), ()),
        writer.device(*state).io_profile.format_read.count < u64::MAX,
        writer.device(*state).io_profile.format_read.total_ns + ns <= u64::MAX,
    ensures
        ({
            let before = writer.device(*old(state)).io_profile;
            let after = writer.device(*final(state)).io_profile;
            &&& after.format_read.count == before.format_read.count + 1
            &&& after.format_read.total_ns == before.format_read.total_ns + ns
            &&& after.worker_backlog == before.worker_backlog
            &&& after.descriptor_parse == before.descriptor_parse
            &&& after.request == before.request
            &&& after.iovec_prepare == before.iovec_prepare
            &&& after.format_write == before.format_write
            &&& after.storage_read == before.storage_read
            &&& after.storage_write == before.storage_write
            &&& after.flush == before.flush
            &&& after.storage_flush == before.storage_flush
            &&& after.sync == before.sync
            &&& after.completion == before.completion
        }),
{
    let after = writer.device(*final(state)).io_profile;
    assert(after.stage(BlockStage::WorkerBacklog) == after.worker_backlog);
    assert(after.stage(BlockStage::DescriptorParse) == after.descriptor_parse);
    assert(after.stage(BlockStage::Request) == after.request);
    assert(after.stage(BlockStage::IovecPrepare) == after.iovec_prepare);
    assert(after.stage(BlockStage::FormatRead) == after.format_read);
    assert(after.stage(BlockStage::FormatWrite) == after.format_write);
    assert(after.stage(BlockStage::StorageRead) == after.storage_read);
    assert(after.stage(BlockStage::StorageWrite) == after.storage_write);
    assert(after.stage(BlockStage::Flush) == after.flush);
    assert(after.stage(BlockStage::StorageFlush) == after.storage_flush);
    assert(after.stage(BlockStage::Sync) == after.sync);
    assert(after.stage(BlockStage::Completion) == after.completion);
}

/// The time of a write through the image format is recorded as such, and as nothing else.
pub proof fn format_write_latency_is_its_own(
    writer: BlockMetricsWriter,
    state: &mut MetricsState,
    ns: u64,
)
    requires
        call_ensures(BlockMetricsWriter::record_format_write_ns, (&writer, state, ns), ()),
        writer.device(*state).io_profile.format_write.count < u64::MAX,
        writer.device(*state).io_profile.format_write.total_ns + ns <= u64::MAX,
    ensures
        ({
            let before = writer.device(*old(state)).io_profile;
            let after = writer.device(*final(state)).io_profile;
            &&& after.format_write.count == before.format_write.count + 1
            &&& after.format_write.total_ns == before.format_write.total_ns + ns
            &&& after.worker_backlog == before.worker_backlog
            &&& after.descriptor_parse == before.descriptor_parse
            &&& after.request == before.request
            &&& after.iovec_prepare == before.iovec_prepare
            &&& after.format_read == before.format_read
            &&& after.storage_read == before.storage_read
            &&& after.storage_write == before.storage_write
            &&& after.flush == before.flush
            &&& after.storage_flush == before.storage_flush
            &&& after.sync == before.sync
            &&& after.completion == before.completion
        }),
{
    let after = writer.device(*final(state)).io_profile;
    assert(after.stage(BlockStage::WorkerBacklog) == after.worker_backlog);
    assert(after.stage(BlockStage::DescriptorParse) == after.descriptor_parse);
    assert(after.stage(BlockStage::Request) == after.request);
    assert(after.stage(BlockStage::IovecPrepare) == after.iovec_prepare);
    assert(after.stage(BlockStage::FormatRead) == after.format_read);
    assert(after.stage(BlockStage::FormatWrite) == after.format_write);
    assert(after.stage(BlockStage::StorageRead) == after.storage_read);
    assert(after.stage(BlockStage::StorageWrite) == after.storage_write);
    assert(after.stage(BlockStage::Flush) == after.flush);
    assert(after.stage(BlockStage::StorageFlush) == after.storage_flush);
    assert(after.stage(BlockStage::Sync) == after.sync);
    assert(after.stage(BlockStage::Completion) == after.completion);
}

/// The time of a read of the storage is recorded as such, and as nothing else.
pub proof fn storage_read_latency_is_its_own(
    writer: BlockMetricsWriter,
    state: &mut MetricsState,
    ns: u64,
)
    requires
        call_ensures(BlockMetricsWriter::record_storage_read_ns, (&writer, state, ns), ()),
        writer.device(*state).io_profile.storage_read.count < u64::MAX,
        writer.device(*state).io_profile.storage_read.total_ns + ns <= u64::MAX,
    ensures
        ({
            let before = writer.device(*old(state)).io_profile;
            let after = writer.device(*final(state)).io_profile;
            &&& after.storage_read.count == before.storage_read.count + 1
            &&& after.storage_read.total_ns == before.storage_read.total_ns + ns
            &&& after.worker_backlog == before.worker_backlog
            &&& after.descriptor_parse == before.descriptor_parse
            &&& after.request == before.request
            &&& after.iovec_prepare == before.iovec_prepare
            &&& after.format_read == before.format_read
            &&& after.format_write == before.format_write
            &&& after.storage_write == before.storage_write
            &&& after.flush == before.flush
            &&& after.storage_flush == before.storage_flush
            &&& after.sync == before.sync
            &&& after.completion == before.completion
        }),
{
    let after = writer.device(*final(state)).io_profile;
    assert(after.stage(BlockStage::WorkerBacklog) == after.worker_backlog);
    assert(after.stage(BlockStage::DescriptorParse) == after.descriptor_parse);
    assert(after.stage(BlockStage::Request) == after.request);
    assert(after.stage(BlockStage::IovecPrepare) == after.iovec_prepare);
    assert(after.stage(BlockStage::FormatRead) == after.format_read);
    assert(after.stage(BlockStage::FormatWrite) == after.format_write);
    assert(after.stage(BlockStage::StorageRead) == after.storage_read);
    assert(after.stage(BlockStage::StorageWrite) == after.storage_write);
    assert(after.stage(BlockStage::Flush) == after.flush);
    assert(after.stage(BlockStage::StorageFlush) == after.storage_flush);
    assert(after.stage(BlockStage::Sync) == after.sync);
    assert(after.stage(BlockStage::Completion) == after.completion);
}

/// The time of a write of the storage is recorded as such, and as nothing else.
pub proof fn storage_write_latency_is_its_own(
    writer: BlockMetricsWriter,
    state: &mut MetricsState,
    ns: u64,
)
    requires
        call_ensures(BlockMetricsWriter::record_storage_write_ns, (&writer, state, ns), ()),
        writer.device(*state).io_profile.storage_write.count < u64::MAX,
        writer.device(*state).io_profile.storage_write.total_ns + ns <= u64::MAX,
    ensures
        ({
            let before = writer.device(*old(state)).io_profile;
            let after = writer.device(*final(state)).io_profile;
            &&& after.storage_write.count == before.storage_write.count + 1
            &&& after.storage_write.total_ns == before.storage_write.total_ns + ns
            &&& after.worker_backlog == before.worker_backlog
            &&& after.descriptor_parse == before.descriptor_parse
            &&& after.request == before.request
            &&& after.iovec_prepare == before.iovec_prepare
            &&& after.format_read == before.format_read
            &&& after.format_write == before.format_write
            &&& after.storage_read == before.storage_read
            &&& after.flush == before.flush
            &&& after.storage_flush == before.storage_flush
            &&& after.sync == before.sync
            &&& after.completion == before.completion
        }),
{
    let after = writer.device(*final(state)).io_profile;
    assert(after.stage(BlockStage::WorkerBacklog) == after.worker_backlog);
    assert(after.stage(BlockStage::DescriptorParse) == after.descriptor_parse);
    assert(after.stage(BlockStage::Request) == after.request);
    assert(after.stage(BlockStage::IovecPrepare) == after.iovec_prepare);
    assert(after.stage(BlockStage::FormatRead) == after.format_read);
    assert(after.stage(BlockStage::FormatWrite) == after.format_write);
    assert(after.stage(BlockStage::StorageRead) == after.storage_read);
    assert(after.stage(BlockStage::StorageWrite) == after.storage_write);
    assert(after.stage(BlockStage::Flush) == after.flush);
    assert(after.stage(BlockStage::StorageFlush) == after.storage_flush);
    assert(after.stage(BlockStage::Sync) == after.sync);
    assert(after.stage(BlockStage::Completion) == after.completion);
}

/// The time of a flush is recorded as such, and as nothing else.
pub proof fn flush_latency_is_its_own(
    writer: BlockMetricsWriter,
    state: &mut MetricsState,
    ns: u64,
)
    requires
        call_ensures(BlockMetricsWriter::record_flush_ns, (&writer, state, ns), ()),
        writer.device(*state).io_profile.flush.count < u64::MAX,
        writer.device(*state).io_profile.flush.total_ns + ns <= u64::MAX,
    ensures
        ({
            let before = writer.device(*old(state)).io_profile;
            let after = writer.device(*final(state)).io_profile;
            &&& after.flush.count == before.flush.count + 1
            &&& after.flush.total_ns == before.flush.total_ns + ns
            &&& after.worker_backlog == before.worker_backlog
            &&& after.descriptor_parse == before.descriptor_parse
            &&& after.request == before.request
            &&& after.iovec_prepare == before.iovec_prepare
            &&& after.format_read == before.format_read
            &&& after.format_write == before.format_write
            &&& after.storage_read == before.storage_read
            &&& after.storage_write == before.storage_write
            &&& after.storage_flush == before.storage_flush
            &&& after.sync == before.sync
            &&& after.completion == before.completion
        }),
{
    let after = writer.device(*final(state)).io_profile;
    assert(after.stage(BlockStage::WorkerBacklog) == after.worker_backlog);
    assert(after.stage(BlockStage::DescriptorParse) == after.descriptor_parse);
    assert(after.stage(BlockStage::Request) == after.request);
    assert(after.stage(BlockStage::IovecPrepare) == after.iovec_prepare);
    assert(after.stage(BlockStage::FormatRead) == after.format_read);
    assert(after.stage(BlockStage::FormatWrite) == after.format_write);
    assert(after.stage(BlockStage::StorageRead) == after.storage_read);
    assert(after.stage(BlockStage::StorageWrite) == after.storage_write);
    assert(after.stage(BlockStage::Flush) == after.flush);
    assert(after.stage(BlockStage::StorageFlush) == after.storage_flush);
    assert(after.stage(BlockStage::Sync) == after.sync);
    assert(after.stage(BlockStage::Completion) == after.completion);
}

/// The time of a flush of the storage is recorded as such, and as nothing else.
pub proof fn storage_flush_latency_is_its_own(
    writer: BlockMetricsWriter,
    state: &mut MetricsState,
    ns: u64,
)
    requires
        call_ensures(BlockMetricsWriter::record_storage_flush_ns, (&writer, state, ns), ()),
        writer.device(*state).io_profile.storage_flush.count < u64::MAX,
        writer.device(*state).io_profile.storage_flush.total_ns + ns <= u64::MAX,
    ensures
        ({
            let before = writer.device(*old(state)).io_profile;
            let after = writer.device(*final(state)).io_profile;
            &&& after.storage_flush.count == before.storage_flush.count + 1
            &&& after.storage_flush.total_ns == before.storage_flush.total_ns + ns
            &&& after.worker_backlog == before.worker_backlog
            &&& after.descriptor_parse == before.descriptor_parse
            &&& after.request == before.request
            &&& after.iovec_prepare == before.iovec_prepare
            &&& after.format_read == before.format_read
            &&& after.format_write == before.format_write
            &&& after.storage_read == before.storage_read
            &&& after.storage_write == before.storage_write
            &&& after.flush == before.flush
            &&& after.sync == before.sync
            &&& after.completion == before.completion
        }),
{
    let after = writer.device(*final(state)).io_profile;
    assert(after.stage(BlockStage::WorkerBacklog) == after.worker_backlog);
    assert(after.stage(BlockStage::DescriptorParse) == after.descriptor_parse);
    assert(after.stage(BlockStage::Request) == after.request);
    assert(after.stage(BlockStage::IovecPrepare) == after.iovec_prepare);
    assert(after.stage(BlockStage::FormatRead) == after.format_read);
    assert(after.stage(BlockStage::FormatWrite) == after.format_write);
    assert(after.stage(BlockStage::StorageRead) == after.storage_read);
    assert(after.stage(BlockStage::StorageWrite) == after.storage_write);
    assert(after.stage(BlockStage::Flush) == after.flush);
    assert(after.stage(BlockStage::StorageFlush) == after.storage_flush);
    assert(after.stage(BlockStage::Sync) == after.sync);
    assert(after.stage(BlockStage::Completion) == after.completion);
}

/// The time of a sync is recorded as such, and as nothing else.
pub proof fn sync_latency_is_its_own(
    writer: BlockMetricsWriter,
    state: &mut MetricsState,
    ns: u64,
)
    requires
        call_ensures(BlockMetricsWriter::record_sync_ns, (&writer, state, ns), ()),
        writer.device(*state).io_profile.sync.count < u64::MAX,
        writer.device(*state).io_profile.sync.total_ns + ns <= u64::MAX,
    ensures
        ({
            let before = writer.device(*old(state)).io_profile;
            let after = writer.device(*final(state)).io_profile;
            &&& after.sync.count == before.sync.count + 1
            &&& after.sync.total_ns == before.sync.total_ns + ns
            &&& after.worker_backlog == before.worker_backlog
            &&& after.descriptor_parse == before.descriptor_parse
            &&& after.request == before.request
            &&& after.iovec_prepare == before.iovec_prepare
            &&& after.format_read == before.format_read
            &&& after.format_write == before.format_write
            &&& after.storage_read == before.storage_read
            &&& after.storage_write == before.storage_write
            &&& after.flush == before.flush
            &&& after.storage_flush == before.storage_flush
            &&& after.completion == before.completion
        }),
{
    let after = writer.device(*final(state)).io_profile;
    assert(after.stage(BlockStage::WorkerBacklog) == after.worker_backlog);
    assert(after.stage(BlockStage::DescriptorParse) == after.descriptor_parse);
    assert(after.stage(BlockStage::Request) == after.request);
    assert(after.stage(BlockStage::IovecPrepare) == after.iovec_prepare);
    assert(after.stage(BlockStage::FormatRead) == after.format_read);
    assert(after.stage(BlockStage::FormatWrite) == after.format_write);
    assert(after.stage(BlockStage::StorageRead) == after.storage_read);
    assert(after.stage(BlockStage::StorageWrite) == after.storage_write);
    assert(after.stage(BlockStage::Flush) == after.flush);
    assert(after.stage(BlockStage::StorageFlush) == after.storage_flush);
    assert(after.stage(BlockStage::Sync) == after.sync);
    assert(after.stage(BlockStage::Completion) == after.completion);
}

/// The time of a completion is recorded as such, and as nothing else.
pub proof fn completion_latency_is_its_own(
    writer: BlockMetricsWriter,
    state: &mut MetricsState,
    ns: u64,
)
    requires
        call_ensures(BlockMetricsWriter::record_completion_ns, (&writer, state, ns), ()),
        writer.device(*state).io_profile.completion.count < u64::MAX,
        writer.device(*state).io_profile.completion.total_ns + ns <= u64::MAX,
    ensures
        ({
            let before = writer.device(*old(state)).io_profile;
            let after = writer.device(*final(state)).io_profile;
            &&& after.completion.count == before.completion.count + 1
            &&& after.completion.total_ns == before.completion.total_ns + ns
            &&& after.worker_backlog == before.worker_backlog
            &&& after.descriptor_parse == before.descriptor_parse
            &&& after.request == before.request
            &&& after.iovec_prepare == before.iovec_prepare
            &&& after.format_read == before.format_read
            &&& after.format_write == before.format_write
            &&& after.storage_read == before.storage_read
            &&& after.storage_write == before.storage_write
            &&& after.flush == before.flush
            &&& after.storage_flush == before.storage_flush
            &&& after.sync == before.sync
        }),
{
    let after = writer.device(*final(state)).io_profile;
    assert(after.stage(BlockStage::WorkerBacklog) == after.worker_backlog);
    assert(after.stage(BlockStage::DescriptorParse) == after.descriptor_parse);
    assert(after.stage(BlockStage::Request) == after.request);
    assert(after.stage(BlockStage::IovecPrepare) == after.iovec_prepare);
    assert(after.stage(BlockStage::FormatRead) == after.format_read);
    assert(after.stage(BlockStage::FormatWrite) == after.format_write);
    assert(after.stage(BlockStage::StorageRead) == after.storage_read);
    assert(after.stage(BlockStage::StorageWrite) == after.storage_write);
    assert(after.stage(BlockStage::Flush) == after.flush);
    assert(after.stage(BlockStage::StorageFlush) == after.storage_flush);
    assert(after.stage(BlockStage::Sync) == after.sync);
    assert(after.stage(BlockStage::Completion) == after.completion);
}

/// What was set is kept as it was set, and nothing else changes with it.
pub proof fn settings_are_kept<F>(
    total: &mut MetricsWriter<F>,
    available: &mut MetricsWriter<F>,
    resident: &mut MetricsWriter<F>,
    time: &mut MetricsWriter<F>,
    bytes: u64,
)
    requires
        call_ensures(MetricsWriter::<F>::set_memory_total_bytes, (total, bytes), ()),
        call_ensures(MetricsWriter::<F>::set_memory_available_bytes, (available, bytes), ()),
        call_ensures(MetricsWriter::<F>::set_memory_host_resident_bytes, (resident, bytes), ()),
        call_ensures(MetricsWriter::<F>::add_vcpu_time_ns, (time, bytes), ()),
        time.state.vcpu_time_ns + bytes <= u64::MAX,
    ensures
        final(total).state.memory_total_bytes == bytes,
        final(total).state.memory_available_bytes == old(total).state.memory_available_bytes,
        final(available).state.memory_available_bytes == bytes,
        final(available).state.memory_available_valid,
        final(available).state.memory_total_bytes == old(available).state.memory_total_bytes,
        final(resident).state.memory_host_resident_bytes == bytes,
        final(resident).state.memory_host_resident_valid,
        final(time).state.vcpu_time_ns == old(time).state.vcpu_time_ns + bytes,
        final(time).state.vcpu_time_valid,
{
}

/// Latencies that are put together count and last as long as both, and the longest is the longer
/// of the two.
pub proof fn merged_latencies_add_up(into: &mut LatencyHistogram, other: LatencyHistogram, i: int)
    requires
        call_ensures(LatencyHistogram::merge, (into, &other), ()),
        0 <= i < 65,
    ensures
        old(into).count + other.count <= u64::MAX ==> final(into).count == old(into).count
            + other.count,
        old(into).total_ns + other.total_ns <= u64::MAX
            ==> final(into).total_ns == old(into).total_ns + other.total_ns,
        old(into).buckets@[i] + other.buckets@[i] <= u64::MAX
            ==> final(into).buckets@[i] == old(into).buckets@[i] + other.buckets@[i],
        old(into).count + other.count > u64::MAX ==> final(into).count == u64::MAX,
        final(into).max_ns >= old(into).max_ns && final(into).max_ns >= other.max_ns,
        final(into).max_ns == old(into).max_ns || final(into).max_ns == other.max_ns,
{
}

/// A device that is added to the sum adds each of its counters and each of its latencies to the one
/// of the same kind.
pub proof fn devices_are_added_kind_by_kind(
    sum: &mut BlockIoProfile,
    device: BlockDeviceIoProfile,
    i: int,
)
    requires
        call_ensures(BlockIoProfile::merge_device, (sum, &device), ()),
        0 <= i < 65,
    ensures
        ({
            let (a, b) = (*old(sum), *final(sum));
            let adds = |x: u64, y: u64, z: u64| x + y <= u64::MAX ==> z == x + y;
            &&& adds(a.read_requests, device.read_requests, b.read_requests)
            &&& adds(a.write_requests, device.write_requests, b.write_requests)
            &&& adds(a.flush_requests, device.flush_requests, b.flush_requests)
            &&& adds(a.other_requests, device.other_requests, b.other_requests)
            &&& adds(a.failed_requests, device.failed_requests, b.failed_requests)
            &&& adds(a.completions, device.completions, b.completions)
            &&& adds(a.interrupts, device.interrupts, b.interrupts)
            &&& adds(a.scratch_vectors, device.scratch_vectors, b.scratch_vectors)
        }),
        ({
            let (a, b) = (*old(sum), *final(sum));
            let adds = |x: LatencyHistogram, y: LatencyHistogram, z: LatencyHistogram|
                x.buckets@[i] + y.buckets@[i] <= u64::MAX ==> z.buckets@[i] == x.buckets@[i]
                    + y.buckets@[i];
            &&& adds(a.worker_backlog, device.worker_backlog, b.worker_backlog)
            &&& adds(a.descriptor_parse, device.descriptor_parse, b.descriptor_parse)
            &&& adds(a.request, device.request, b.request)
            &&& adds(a.iovec_prepare, device.iovec_prepare, b.iovec_prepare)
            &&& adds(a.format_read, device.format_read, b.format_read)
            &&& adds(a.format_write, device.format_write, b.format_write)
            &&& adds(a.storage_read, device.storage_read, b.storage_read)
            &&& adds(a.storage_write, device.storage_write, b.storage_write)
            &&& adds(a.flush, device.flush, b.flush)
            &&& adds(a.storage_flush, device.storage_flush, b.storage_flush)
            &&& adds(a.sync, device.sync, b.sync)
            &&& adds(a.completion, device.completion, b.completion)
        }),
        final(sum).devices == old(sum).devices,
{
    let b = *final(sum);
    assert(b.counter(BlockCounter::ReadRequests) == b.read_requests);
    assert(b.counter(BlockCounter::WriteRequests) == b.write_requests);
    assert(b.counter(BlockCounter::FlushRequests) == b.flush_requests);
    assert(b.counter(BlockCounter::OtherRequests) == b.other_requests);
    assert(b.counter(BlockCounter::FailedRequests) == b.failed_requests);
    assert(b.counter(BlockCounter::Completions) == b.completions);
    assert(b.counter(BlockCounter::Interrupts) == b.interrupts);
    assert(b.counter(BlockCounter::ScratchVectors) == b.scratch_vectors);
    assert(b.stage(BlockStage::WorkerBacklog) == b.worker_backlog);
    assert(b.stage(BlockStage::DescriptorParse) == b.descriptor_parse);
    assert(b.stage(BlockStage::Request) == b.request);
    assert(b.stage(BlockStage::IovecPrepare) == b.iovec_prepare);
    assert(b.stage(BlockStage::FormatRead) == b.format_read);
    assert(b.stage(BlockStage::FormatWrite) == b.format_write);
    assert(b.stage(BlockStage::StorageRead) == b.storage_read);
    assert(b.stage(BlockStage::StorageWrite) == b.storage_write);
    assert(b.stage(BlockStage::Flush) == b.flush);
    assert(b.stage(BlockStage::StorageFlush) == b.storage_flush);
    assert(b.stage(BlockStage::Sync) == b.sync);
    assert(b.stage(BlockStage::Completion) == b.completion);
}

/// The bound of a percentile is no larger than it has to be: it ends a bucket below which less than
/// that share of the samples was counted, and with which that share was.
pub proof fn percentile_bound_is_no_larger_than_needed(
    histogram: LatencyHistogram,
    percentile: u8,
    r: Option<u64>,
)
    requires
        call_ensures(LatencyHistogram::percentile_upper_bound_ns, (&histogram, percentile), r),
        histogram.count * 100 + 99 <= u64::MAX,
        histogram.count == bucket_sum(histogram.buckets@, 65),
    ensures
        r is Some <==> histogram.count > 0 && percentile <= 100,
        r is Some ==> exists|bucket: nat|
            bucket <= 64 && r->Some_0 == pow2(bucket) - 1 && (#[trigger] bucket_sum(
                histogram.buckets@,
                bucket,
            ) == 0 || bucket_sum(histogram.buckets@, bucket) * 100 < percentile * histogram.count)
                && bucket_sum(histogram.buckets@, bucket + 1) * 100 >= percentile
                * histogram.count,
{
    if r is Some {
        let rank = percentile_rank(histogram.count, percentile);
        let count = histogram.count as int;
        assert(count * percentile <= count * 100 && count * percentile == percentile * count)
            by (nonlinear_arith)
            requires
                0 <= percentile <= 100,
                count >= 0,
        ;
        assert(rank * 100 >= count * percentile);
        assert(rank == 1 || (rank - 1) * 100 < count * percentile);
        assert(rank <= count);
        lemma_rank_bucket(histogram.buckets@, rank, 0);
        lemma_rank_not_before(histogram.buckets@, rank, 0);
        let bucket = rank_bucket(histogram.buckets@, rank, 0)->Some_0;
        lemma_bucket_sum_grows(histogram.buckets@, bucket + 1, 65);
        lemma_bucket_sum_grows(histogram.buckets@, bucket, 65);
        lemma_pow2_pos(bucket);
        lemma_pow2_monotonic(bucket, 64);
        vstd::arithmetic::power2::lemma2_to64();
        assert(bucket_sum(histogram.buckets@, bucket) < rank);
        assert(bucket_sum(histogram.buckets@, bucket + 1) >= rank);
    }
}

proof fn lemma_rank_not_before(buckets: Seq<u64>, rank: int, from: nat)
    requires
        from <= 65,
        rank >= 1,
        from > 0 ==> capped(bucket_sum(buckets, from) as int) < rank,
    ensures
        rank_bucket(buckets, rank, from) matches Some(bucket) ==> capped(
            bucket_sum(buckets, bucket) as int,
        ) < rank,
    decreases 65 - from,
{
    if from < 65 && capped(bucket_sum(buckets, from + 1) as int) < rank {
        lemma_rank_not_before(buckets, rank, from + 1);
    }
}

proof fn lemma_bucket_sum_grows(buckets: Seq<u64>, a: nat, b: nat)
    requires
        a <= b,
    ensures
        bucket_sum(buckets, a) <= bucket_sum(buckets, b),
    decreases b,
{
    if a < b {
        lemma_bucket_sum_grows(buckets, a, (b - 1) as nat);
    }
}

/// The profile of a VM lists the devices that are profiled, each under its name and with its own
/// numbers, and there is none where no device is.
pub proof fn profiled_devices_are_listed<F: Fn() -> Option<u64>>(
    handle: MetricsHandle<F>,
    r: Option<BlockIoProfile>,
    i: int,
)
    requires
        call_ensures(MetricsHandle::<F>::block_io_profile, (&handle,), r),
        0 <= i < handle.writer.state.block_devices@.len(),
        handle.writer.state.block_devices@[i].io_profile_enabled,
    ensures
        r is Some,
        exists|k: int|
            0 <= k < r->Some_0.devices@.len() && (#[trigger] r->Some_0.devices@[k]).id@
                == handle.writer.state.block_devices@[i].id@ && r->Some_0.devices@[k].read_requests
                == handle.writer.state.block_devices@[i].io_profile.read_requests
                && r->Some_0.devices@[k].write_requests
                == handle.writer.state.block_devices@[i].io_profile.write_requests
                && r->Some_0.devices@[k].request
                == handle.writer.state.block_devices@[i].io_profile.request
                && r->Some_0.read_requests >= r->Some_0.devices@[k].read_requests
                && r->Some_0.completions >= r->Some_0.devices@[k].completions,
{
    let devices = handle.writer.state.block_devices@;
    lemma_profiled_is_listed(devices, i);
    let k = choose|k: int| 0 <= k < profiled(devices).len()
        && #[trigger] profiled(devices)[k] == devices[i];
    let profile = r->Some_0;
    let shown = profile.devices@[k];
    assert(shown.id@ == devices[i].id@);
    assert(shown.counter(BlockCounter::ReadRequests) == devices[i].io_profile.counter(
        BlockCounter::ReadRequests,
    ));
    assert(shown.counter(BlockCounter::WriteRequests) == devices[i].io_profile.counter(
        BlockCounter::WriteRequests,
    ));
    assert(shown.stage(BlockStage::Request) == devices[i].io_profile.stage(BlockStage::Request));
    lemma_counter_is_part(profile.devices@, BlockCounter::ReadRequests, k);
    lemma_counter_is_part(profile.devices@, BlockCounter::Completions, k);
    assert(profile.counter(BlockCounter::ReadRequests) >= shown.counter(BlockCounter::ReadRequests));
    assert(profile.counter(BlockCounter::Completions) >= shown.counter(BlockCounter::Completions));
}

proof fn lemma_counter_is_part(devices: Seq<BlockDeviceIoProfile>, counter: BlockCounter, k: int)
    requires
        0 <= k < devices.len(),
    ensures
        counter_total(devices, counter) >= devices[k].counter(counter),
    decreases devices.len(),
{
    if k < devices.len() - 1 {
        lemma_counter_is_part(devices.drop_last(), counter, k);
    }
}

proof fn lemma_profiled_is_listed(devices: Seq<BlockDeviceState>, i: int)
    requires
        0 <= i < devices.len(),
        devices[i].io_profile_enabled,
    ensures
        exists|k: int| 0 <= k < profiled(devices).len()
            && #[trigger] profiled(devices)[k] == devices[i],
    decreases devices.len(),
{
    let front = devices.drop_last();
    if i < front.len() {
        lemma_profiled_is_listed(front, i);
        let k = choose|k: int| 0 <= k < profiled(front).len()
            && #[trigger] profiled(front)[k] == front[i];
        assert(profiled(devices)[k] == devices[i]);
    } else {
        assert(profiled(devices)[profiled(front).len() as int] == devices[i]);
    }
}

/// A device that is registered is the last one, under its name and with nothing counted, and its
/// profile is kept once that is asked for.
pub proof fn registered_devices_start_at_nothing<F>(
    writer: &mut MetricsWriter<F>,
    id: String,
    r: BlockMetricsWriter,
    state: &mut MetricsState,
    i: int,
)
    requires
        writer.state.wf(),
        call_ensures(MetricsWriter::<F>::register_block_device, (writer, id), r),
        state.wf(),
        r.registered(*state),
        call_ensures(BlockMetricsWriter::enable_io_profile, (&r, state), ()),
        0 <= i < writer.state.block_devices@.len(),
    ensures
        r.index() == old(writer).state.block_devices@.len(),
        final(writer).state.block_devices@[i] == old(writer).state.block_devices@[i],
        final(writer).state.block_devices@.last().id@ == id@,
        final(writer).state.block_devices@.last().read_bytes == 0,
        final(writer).state.block_devices@.last().write_bytes == 0,
        final(writer).state.block_read_bytes == old(writer).state.block_read_bytes,
        final(state).block_devices@[r.index() as int].io_profile_enabled,
        final(state).block_devices@[r.index() as int].read_bytes
            == old(state).block_devices@[r.index() as int].read_bytes,
{
    assert(final(writer).state.block_devices@.drop_last()[i]
        == old(writer).state.block_devices@[i]);
}

/// What the guest reports of its filesystem is what is shown of it, until it is taken back.
pub proof fn filesystem_samples_are_shown<F>(
    writer: &mut MetricsWriter<F>,
    used: u64,
    free: u64,
    at: u64,
    cleared: &mut MetricsWriter<F>,
)
    requires
        call_ensures(MetricsWriter::<F>::set_upper_filesystem_sample, (writer, used, free, at), ()),
        call_ensures(MetricsWriter::<F>::clear_upper_filesystem_bytes, (cleared,), ()),
    ensures
        final(writer).state.filesystem_upper_used_bytes == used
            && final(writer).state.filesystem_upper_used_valid,
        final(writer).state.filesystem_upper_free_bytes == free
            && final(writer).state.filesystem_upper_free_valid,
        final(writer).state.filesystem_upper_sampled_at_unix_ms == at,
        final(writer).state.memory_total_bytes == old(writer).state.memory_total_bytes,
        !final(cleared).state.filesystem_upper_used_valid
            && !final(cleared).state.filesystem_upper_free_valid,
{
}

} // verus!

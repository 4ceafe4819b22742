//! Turning guest slices into ring buffers, and the pool of bounce buffers.

use crate::block::buffers::{
    all_addresses, all_in_bounds, io_buffer_len, io_buffer_new, io_buffer_size, layout_accepted,
    span_list_pop, total_len, BufferError, LinuxRawFileBuffer, SpanList,
    MAX_PENDING_LINUX_RAW_REQUESTS,
};
use crate::block::pending::{advanced, lemma_addresses_len};
use imago::io_buffers::IoBuffer;
use vstd::prelude::*;

verus! {

/// A list of spans with one more behind it: it grows the last one where the two touch.
pub open spec fn push_or_merge(
    spans: Seq<LinuxRawFileBuffer>,
    span: LinuxRawFileBuffer,
) -> Seq<LinuxRawFileBuffer> {
    if spans.len() > 0 && spans.last().ptr + spans.last().len == span.ptr {
        spans.drop_last().push(
            LinuxRawFileBuffer {
                ptr: spans.last().ptr,
                len: (spans.last().len + span.len) as usize,
            },
        )
    } else {
        spans.push(span)
    }
}

/// The non-empty spans of a list, with neighbours that touch made one.
pub open spec fn merged(slices: Seq<LinuxRawFileBuffer>) -> Seq<LinuxRawFileBuffer>
    decreases slices.len(),
{
    if slices.len() == 0 {
        Seq::empty()
    } else if slices.last().len == 0 {
        merged(slices.drop_last())
    } else {
        push_or_merge(merged(slices.drop_last()), slices.last())
    }
}

/// Adds a span to a list, and grows the last one where the two touch.
pub fn push_or_merge_linux_raw_buffer(buffers: &mut SpanList, buffer: LinuxRawFileBuffer)
    requires
        all_in_bounds(old(buffers)@),
        buffer.in_bounds(),
    ensures
        final(buffers)@ == push_or_merge(old(buffers)@, buffer),
{
    let last: Option<LinuxRawFileBuffer> = span_list_pop(buffers);
    match last {
        None => {
            buffers.push(buffer);
        },
        Some(last) => {
            assert(old(buffers)@[old(buffers)@.len() - 1].in_bounds());
            if last.ptr + last.len == buffer.ptr {
                buffers.push(LinuxRawFileBuffer { ptr: last.ptr, len: last.len + buffer.len });
            } else {
                buffers.push(last);
                assert(old(buffers)@.drop_last().push(last) =~= old(buffers)@);
                buffers.push(buffer);
            }
        },
    }
}

proof fn lemma_merged_in_bounds(slices: Seq<LinuxRawFileBuffer>)
    requires
        all_in_bounds(slices),
    ensures
        all_in_bounds(merged(slices)),
        forall|i: int| 0 <= i < merged(slices).len() ==> (#[trigger] merged(slices)[i]).len > 0,
    decreases slices.len(),
{
    if slices.len() > 0 {
        lemma_merged_in_bounds(slices.drop_last());
        let front = merged(slices.drop_last());
        assert(slices[slices.len() - 1].in_bounds());
        if front.len() > 0 {
            assert(front[front.len() - 1].in_bounds());
            assert(front[front.len() - 1].len > 0);
        }
    }
}

/// Merging leaves the bytes of the slices, and their order, as they were.
pub proof fn merging_keeps_every_address(slices: Seq<LinuxRawFileBuffer>)
    requires
        all_in_bounds(slices),
    ensures
        all_addresses(merged(slices)) == all_addresses(slices),
        total_len(merged(slices)) == total_len(slices),
        all_in_bounds(merged(slices)),
        forall|i: int| 0 <= i < merged(slices).len() ==> (#[trigger] merged(slices)[i]).len > 0,
    decreases slices.len(),
{
    lemma_merged_in_bounds(slices);
    if slices.len() > 0 {
        let front = merged(slices.drop_last());
        let span = slices.last();
        merging_keeps_every_address(slices.drop_last());
        assert(slices[slices.len() - 1].in_bounds());
        if span.len == 0 {
            assert(span.addresses() =~= Seq::<int>::empty());
            assert(all_addresses(slices) =~= all_addresses(slices.drop_last()));
        } else if front.len() > 0 && front.last().ptr + front.last().len == span.ptr {
            let joined = LinuxRawFileBuffer {
                ptr: front.last().ptr,
                len: (front.last().len + span.len) as usize,
            };
            assert(joined.addresses() =~= front.last().addresses() + span.addresses());
            assert(merged(slices).drop_last() =~= front.drop_last());
            assert(all_addresses(merged(slices)) =~= all_addresses(slices));
        } else {
            assert(merged(slices).drop_last() =~= front);
        }
    }
}

/// The ring buffers of a list of guest slices, which must hold `expected_len` bytes.
pub fn snapshot_linux_raw_buffers(
    slices: &[LinuxRawFileBuffer],
    expected_len: usize,
) -> (r: Result<SpanList, BufferError>)
    requires
        all_in_bounds(slices@),
    ensures
        r is Ok <==> total_len(slices@) == expected_len,
        r matches Ok(list) ==> list@ == merged(slices@),
        r matches Err(error) ==> error == if total_len(slices@) > usize::MAX {
            BufferError::LengthOverflow
        } else {
            BufferError::UnexpectedLength {
                total: total_len(slices@) as usize,
                expected: expected_len,
            }
        },
{
    let mut buffers = SpanList::new();
    let mut total: usize = 0;
    let mut i: usize = 0;
    assert(slices@.take(0) =~= Seq::empty());
    while i < slices.len()
        invariant
            all_in_bounds(slices@),
            i <= slices@.len(),
            buffers@ == merged(slices@.take(i as int)),
            total == total_len(slices@.take(i as int)),
        decreases slices@.len() - i,
    {
        let slice = slices[i];
        assert(slices@.take(i + 1).drop_last() =~= slices@.take(i as int));
        assert(slice.in_bounds());
        proof {
            lemma_merged_in_bounds(slices@.take(i as int));
            lemma_total_prefix(slices@, i + 1);
        }
        if slice.len != 0 {
            push_or_merge_linux_raw_buffer(&mut buffers, slice);
            match total.checked_add(slice.len) {
                None => {
                    return Err(BufferError::LengthOverflow);
                },
                Some(sum) => {
                    total = sum;
                },
            }
        }
        i = i + 1;
    }
    assert(slices@.take(i as int) =~= slices@);
    if total != expected_len {
        Err(BufferError::UnexpectedLength { total, expected: expected_len })
    } else {
        Ok(buffers)
    }
}

/// A shorter list of spans holds no more bytes.
pub proof fn lemma_total_prefix(spans: Seq<LinuxRawFileBuffer>, i: int)
    requires
        0 <= i <= spans.len(),
    ensures
        total_len(spans.take(i)) <= total_len(spans),
    decreases spans.len(),
{
    if i == spans.len() {
        assert(spans.take(i) =~= spans);
    } else {
        lemma_total_prefix(spans.drop_last(), i);
        assert(spans.drop_last().take(i) =~= spans.take(i));
    }
}

/// The spans of the first `count` bytes of `spans`. Empty spans go.
pub open spec fn leading(spans: Seq<LinuxRawFileBuffer>, count: nat) -> Seq<LinuxRawFileBuffer>
    decreases spans.len(),
{
    if spans.len() == 0 {
        Seq::empty()
    } else {
        let done = total_len(spans.drop_last());
        let last = spans.last();
        let front = leading(spans.drop_last(), count);
        if done >= count || last.len == 0 {
            front
        } else if done + last.len <= count {
            front.push(last)
        } else {
            front.push(LinuxRawFileBuffer { ptr: last.ptr, len: (count - done) as usize })
        }
    }
}

/// The leading spans name the first addresses, and no more.
pub proof fn leading_takes_first_bytes(spans: Seq<LinuxRawFileBuffer>, count: nat)
    requires
        all_in_bounds(spans),
    ensures
        all_in_bounds(leading(spans, count)),
        total_len(leading(spans, count)) == if count <= total_len(spans) {
            count
        } else {
            total_len(spans)
        },
        count <= total_len(spans) ==> all_addresses(leading(spans, count)) == all_addresses(
            spans,
        ).take(count as int),
        count >= total_len(spans) ==> all_addresses(leading(spans, count)) == all_addresses(spans),
    decreases spans.len(),
{
    lemma_addresses_len(spans);
    if spans.len() == 0 {
        if count == 0 {
            assert(all_addresses(spans).take(count as int) =~= Seq::<int>::empty());
        }
    } else {
        let front = spans.drop_last();
        let last = spans.last();
        let done = total_len(front);
        leading_takes_first_bytes(front, count);
        lemma_addresses_len(front);
        assert(spans[spans.len() - 1].in_bounds());
        let kept = leading(spans, count);
        if done >= count || last.len == 0 {
            assert(last.len == 0 ==> last.addresses() =~= Seq::<int>::empty());
            if count <= total_len(spans) {
                assert(all_addresses(kept) =~= all_addresses(spans).take(count as int));
            } else {
                assert(all_addresses(kept) =~= all_addresses(spans));
            }
        } else {
            assert(kept.drop_last() =~= leading(front, count));
            if count <= total_len(spans) {
                assert(all_addresses(kept) =~= all_addresses(spans).take(count as int));
            } else {
                assert(all_addresses(kept) =~= all_addresses(spans));
            }
        }
    }
}

/// The spans behind a number of bytes lie inside the address space where all do.
pub proof fn lemma_advanced_in_bounds(spans: Seq<LinuxRawFileBuffer>, skip: nat)
    requires
        all_in_bounds(spans),
    ensures
        all_in_bounds(advanced(spans, skip)),
    decreases spans.len(),
{
    if spans.len() > 0 {
        lemma_advanced_in_bounds(spans.drop_last(), skip);
        assert(spans[spans.len() - 1].in_bounds());
    }
}

/// The spans of the first `count` bytes of `spans`.
pub fn leading_spans(spans: &[LinuxRawFileBuffer], count: usize) -> (r: Vec<LinuxRawFileBuffer>)
    requires
        all_in_bounds(spans@),
    ensures
        r@ == leading(spans@, count as nat),
{
    let mut out: Vec<LinuxRawFileBuffer> = Vec::new();
    let mut left: usize = count;
    let mut i: usize = 0;
    assert(spans@.take(0) =~= Seq::empty());
    while i < spans.len()
        invariant
            i <= spans@.len(),
            out@ == leading(spans@.take(i as int), count as nat),
            left == if total_len(spans@.take(i as int)) <= count {
                count - total_len(spans@.take(i as int))
            } else {
                0
            },
        decreases spans@.len() - i,
    {
        let span = spans[i];
        assert(spans@.take(i + 1).drop_last() =~= spans@.take(i as int));
        if left > 0 && span.len > 0 {
            if span.len <= left {
                out.push(span);
                left = left - span.len;
            } else {
                out.push(LinuxRawFileBuffer { ptr: span.ptr, len: left });
                left = 0;
            }
        }
        i = i + 1;
    }
    assert(spans@.take(i as int) =~= spans@);
    out
}

/// Bytes in a list of spans.
pub fn span_bytes(spans: &[LinuxRawFileBuffer]) -> (r: usize)
    requires
        total_len(spans@) <= usize::MAX,
    ensures
        r == total_len(spans@),
{
    let mut total: usize = 0;
    let mut i: usize = 0;
    assert(spans@.take(0) =~= Seq::empty());
    while i < spans.len()
        invariant
            total_len(spans@) <= usize::MAX,
            i <= spans@.len(),
            total == total_len(spans@.take(i as int)),
        decreases spans@.len() - i,
    {
        assert(spans@.take(i + 1).drop_last() =~= spans@.take(i as int));
        proof {
            lemma_total_prefix(spans@, i + 1);
        }
        total = total + spans[i].len;
        i = i + 1;
    }
    assert(spans@.take(i as int) =~= spans@);
    total
}

/// One copy between a guest span and the bounce buffer.
#[derive(Clone, Copy, Debug, PartialEq, Eq, Structural)]
pub struct BounceCopy {
    /// Host address of the guest bytes.
    pub guest_ptr: usize,
    /// Where the bytes stand in the bounce buffer.
    pub offset: usize,
    /// Bytes to copy.
    pub len: usize,
}

/// The copies that the first `count` spans ask for: they fill the buffer without a gap.
pub open spec fn bounce_copies(spans: Seq<LinuxRawFileBuffer>, count: int) -> Seq<BounceCopy> {
    Seq::new(
        count as nat,
        |i: int|
            BounceCopy {
                guest_ptr: spans[i].ptr,
                offset: total_len(spans.take(i)) as usize,
                len: spans[i].len,
            },
    )
}

/// How many leading spans fit in `limit` bytes.
pub open spec fn fitting(spans: Seq<LinuxRawFileBuffer>, limit: nat, count: int) -> bool {
    &&& 0 <= count <= spans.len()
    &&& total_len(spans.take(count)) <= limit
    &&& count < spans.len() ==> total_len(spans.take(count + 1)) > limit
}

/// Whether the guest spans and the bounce buffer match, and if not, where they part.
pub open spec fn bounce_result(
    spans: Seq<LinuxRawFileBuffer>,
    count: int,
    wanted: nat,
) -> Result<(), BufferError> {
    if count < spans.len() {
        if total_len(spans.take(count + 1)) > usize::MAX {
            Err(BufferError::LengthOverflow)
        } else {
            Err(BufferError::BounceExceeded)
        }
    } else if total_len(spans) == wanted {
        Ok(())
    } else {
        Err(BufferError::BounceNotCovered)
    }
}

/// The copies between guest spans and a bounce buffer of `buffer_len` bytes, `wanted` of which
/// hold data. On an error the copies of the spans before it still stand.
pub fn plan_bounce_copies(
    spans: &[LinuxRawFileBuffer],
    buffer_len: usize,
    wanted: usize,
) -> (r: (Vec<BounceCopy>, Result<(), BufferError>))
    ensures
        fitting(spans@, buffer_len as nat, r.0@.len() as int),
        r.0@ == bounce_copies(spans@, r.0@.len() as int),
        r.1 == bounce_result(spans@, r.0@.len() as int, wanted as nat),
{
    let mut copies: Vec<BounceCopy> = Vec::new();
    let mut copied: usize = 0;
    let mut i: usize = 0;
    assert(spans@.take(0) =~= Seq::empty());
    while i < spans.len()
        invariant
            i <= spans@.len(),
            copies@ == bounce_copies(spans@, i as int),
            copied == total_len(spans@.take(i as int)),
            copied <= buffer_len,
        decreases spans@.len() - i,
    {
        let span = spans[i];
        assert(spans@.take(i + 1).drop_last() =~= spans@.take(i as int));
        match copied.checked_add(span.len) {
            None => {
                return (copies, Err(BufferError::LengthOverflow));
            },
            Some(end) => {
                if end > buffer_len {
                    return (copies, Err(BufferError::BounceExceeded));
                }
                copies.push(BounceCopy { guest_ptr: span.ptr, offset: copied, len: span.len });
                copied = end;
                assert(copies@ =~= bounce_copies(spans@, i + 1));
            },
        }
        i = i + 1;
    }
    assert(spans@.take(i as int) =~= spans@);
    if copied == wanted {
        (copies, Ok(()))
    } else {
        (copies, Err(BufferError::BounceNotCovered))
    }
}

/// Byte `offset + b` of the bounce buffer belongs to the guest byte at that place of the spans.
pub proof fn bounce_copies_follow_addresses(spans: Seq<LinuxRawFileBuffer>, i: int, b: int)
    requires
        0 <= i < spans.len(),
        0 <= b < spans[i].len,
        total_len(spans) <= usize::MAX,
    ensures
        ({
            let copy = bounce_copies(spans, spans.len() as int)[i];
            &&& copy.offset + b < total_len(spans)
            &&& all_addresses(spans)[copy.offset + b] == copy.guest_ptr + b
        }),
    decreases spans.len(),
{
    let front = spans.drop_last();
    lemma_addresses_len(front);
    lemma_addresses_len(spans);
    lemma_total_prefix(spans, i);
    if i == spans.len() - 1 {
        assert(spans.take(i) =~= front);
        assert(all_addresses(spans)[total_len(front) + b] == spans.last().addresses()[b]);
    } else {
        bounce_copies_follow_addresses(front, i, b);
        assert(front.take(i) =~= spans.take(i));
    }
}

/// Bounce buffers that finished requests left for later ones.
pub struct LinuxRawBouncePool {
    buffers: Vec<IoBuffer>,
}

impl View for LinuxRawBouncePool {
    type V = Seq<IoBuffer>;

    /// The buffers at rest.
    closed spec fn view(&self) -> Seq<IoBuffer> {
        self.buffers@
    }
}

/// The pool's first buffer of `len` bytes stands at `index`.
pub open spec fn first_of_size(buffers: Seq<IoBuffer>, len: usize, index: int) -> bool {
    &&& 0 <= index < buffers.len()
    &&& io_buffer_size(buffers[index]) == len
    &&& forall|i: int| 0 <= i < index ==> io_buffer_size(#[trigger] buffers[i]) != len
}

/// No buffer of the pool has `len` bytes.
pub open spec fn none_of_size(buffers: Seq<IoBuffer>, len: usize) -> bool {
    forall|i: int| 0 <= i < buffers.len() ==> io_buffer_size(#[trigger] buffers[i]) != len
}

impl LinuxRawBouncePool {
    /// A pool with no buffers.
    pub fn new() -> (r: LinuxRawBouncePool)
        ensures
            r@ == Seq::<IoBuffer>::empty(),
    {
        LinuxRawBouncePool { buffers: Vec::new() }
    }

    /// What `acquire` does to the pool and hands out.
    pub open spec fn acquired(
        self,
        len: usize,
        alignment: usize,
        r: Result<IoBuffer, std::io::Error>,
        after: LinuxRawBouncePool,
    ) -> bool {
        &&& forall|index: int|
            #[trigger] first_of_size(self@, len, index) ==> r == Ok::<IoBuffer, std::io::Error>(
                self@[index],
            ) && after@ == self@.update(index, self@.last()).drop_last()
        &&& none_of_size(self@, len) ==> after@ == self@
        &&& none_of_size(self@, len) && !layout_accepted(len, alignment) ==> r is Err
        &&& r is Err ==> none_of_size(self@, len)
        &&& r matches Ok(buffer) ==> io_buffer_size(buffer) == len
    }

    /// A buffer of `len` bytes: the pool's first of that size, or else a fresh one.
    pub fn acquire(&mut self, len: usize, alignment: usize) -> (r: Result<
        IoBuffer,
        std::io::Error,
    >)
        ensures
            old(self).acquired(len, alignment, r, *final(self)),
    {
        let mut i: usize = 0;
        while i < self.buffers.len()
            invariant
                *self == *old(self),
                i <= self.buffers@.len(),
                forall|j: int| 0 <= j < i ==> io_buffer_size(#[trigger] self.buffers@[j]) != len,
            decreases self.buffers@.len() - i,
        {
            if io_buffer_len(&self.buffers[i]) == len {
                assert(first_of_size(self@, len, i as int));
                return Ok(self.buffers.swap_remove(i));
            }
            i = i + 1;
        }
        io_buffer_new(len, alignment)
    }

    /// Keeps a buffer for later, unless the pool holds as many as there can be requests.
    pub fn release(&mut self, buffer: IoBuffer)
        ensures
            final(self)@ == if old(self)@.len() < MAX_PENDING_LINUX_RAW_REQUESTS {
                old(self)@.push(buffer)
            } else {
                old(self)@
            },
    {
        if self.buffers.len() < MAX_PENDING_LINUX_RAW_REQUESTS {
            self.buffers.push(buffer);
        }
    }
}

/// The spans of a request name the addresses of its slices, in order and each once. None is empty,
/// and none goes on where the one before it ends.
pub proof fn spans_cover_the_slices(
    slices: &[LinuxRawFileBuffer],
    expected_len: usize,
    r: Result<SpanList, BufferError>,
    i: int,
)
    requires
        all_in_bounds(slices@),
        call_ensures(snapshot_linux_raw_buffers, (slices, expected_len), r),
    ensures
        r is Ok ==> all_addresses(r->Ok_0@) == all_addresses(slices@),
        r is Ok ==> all_addresses(slices@).len() == expected_len,
        r is Ok && 0 <= i < r->Ok_0@.len() ==> r->Ok_0@[i].len > 0,
        r is Ok && 0 <= i < r->Ok_0@.len() - 1 ==> r->Ok_0@[i].ptr + r->Ok_0@[i].len
            != r->Ok_0@[i + 1].ptr,
        r is Err ==> all_addresses(slices@).len() != expected_len,
{
    merging_keeps_every_address(slices@);
    lemma_address_count(slices@);
    if 0 <= i < merged(slices@).len() - 1 {
        lemma_spans_do_not_touch(slices@, i);
    }
}

proof fn lemma_address_count(spans: Seq<LinuxRawFileBuffer>)
    ensures
        all_addresses(spans).len() == total_len(spans),
    decreases spans.len(),
{
    if spans.len() > 0 {
        lemma_address_count(spans.drop_last());
    }
}

proof fn lemma_spans_do_not_touch(slices: Seq<LinuxRawFileBuffer>, i: int)
    requires
        all_in_bounds(slices),
        0 <= i < merged(slices).len() - 1,
    ensures
        merged(slices)[i].ptr + merged(slices)[i].len != merged(slices)[i + 1].ptr,
    decreases slices.len(),
{
    let front = slices.drop_last();
    let before = merged(front);
    assert forall|k: int| 0 <= k < front.len() implies (#[trigger] front[k]).in_bounds() by {
        assert(front[k] == slices[k]);
    }
    if slices.last().len == 0 {
        lemma_spans_do_not_touch(front, i);
    } else if i + 1 < before.len() {
        lemma_spans_do_not_touch(front, i);
    }
}

/// The leading spans of so many bytes name the first addresses of all.
pub proof fn leading_spans_name_the_first_addresses(
    spans: &[LinuxRawFileBuffer],
    count: usize,
    r: Vec<LinuxRawFileBuffer>,
)
    requires
        all_in_bounds(spans@),
        call_ensures(leading_spans, (spans, count), r),
    ensures
        count <= all_addresses(spans@).len() ==> all_addresses(r@) == all_addresses(spans@).take(
            count as int,
        ),
        count > all_addresses(spans@).len() ==> all_addresses(r@) == all_addresses(spans@),
{
    leading_takes_first_bytes(spans@, count as nat);
    lemma_address_count(spans@);
}

/// The copies through a bounce buffer follow each other in it from its start, each as long as the
/// span it is for. They are done where they cover what is wanted.
pub proof fn bounce_copies_follow_each_other(
    spans: &[LinuxRawFileBuffer],
    buffer_len: usize,
    wanted: usize,
    r: (Vec<BounceCopy>, Result<(), BufferError>),
    i: int,
)
    requires
        call_ensures(plan_bounce_copies, (spans, buffer_len, wanted), r),
        0 <= i < r.0@.len(),
    ensures
        r.0@.len() <= spans@.len(),
        r.0@[0].offset == 0,
        r.0@[i].guest_ptr == spans@[i].ptr,
        r.0@[i].len == spans@[i].len,
        r.0@[i].offset + r.0@[i].len <= buffer_len,
        i + 1 < r.0@.len() ==> r.0@[i + 1].offset == r.0@[i].offset + r.0@[i].len,
        r.1 is Ok <==> r.0@.len() == spans@.len() && r.0@.last().offset + r.0@.last().len == wanted,
{
    let all = spans@;
    let n = r.0@.len() as int;
    lemma_bounce_step(all, n, i);
    lemma_bounce_step(all, n, n - 1);
    assert(all.take(0) =~= Seq::empty());
    assert(total_len(all.take(0)) == 0);
    if n == all.len() {
        assert(all.take(n) =~= all);
    }
    lemma_total_prefix(all.take(n), i);
    assert(all.take(n).take(i) =~= all.take(i));
    lemma_total_prefix(all.take(n), i + 1);
    assert(all.take(n).take(i + 1) =~= all.take(i + 1));
    lemma_total_prefix(all.take(n), n - 1);
    assert(all.take(n).take(n - 1) =~= all.take(n - 1));
}

proof fn lemma_bounce_step(spans: Seq<LinuxRawFileBuffer>, n: int, i: int)
    requires
        0 <= i < n <= spans.len(),
    ensures
        total_len(spans.take(i + 1)) == total_len(spans.take(i)) + spans[i].len,
    decreases spans.len(),
{
    assert(spans.take(i + 1).drop_last() =~= spans.take(i));
}

/// A buffer that is given back is kept while fewer than sixty-four are, and one of the right size
/// is handed out again before a new one is made.
pub proof fn kept_buffers_are_handed_out_again(
    pool: &mut LinuxRawBouncePool,
    len: usize,
    alignment: usize,
    r: Result<IoBuffer, std::io::Error>,
    i: int,
    kept: &mut LinuxRawBouncePool,
    buffer: IoBuffer,
)
    requires
        call_ensures(LinuxRawBouncePool::acquire, (pool, len, alignment), r),
        call_ensures(LinuxRawBouncePool::release, (kept, buffer), ()),
    ensures
        r is Ok ==> io_buffer_size(r->Ok_0) == len,
        0 <= i < old(pool)@.len() && io_buffer_size(old(pool)@[i]) == len ==> r is Ok
            && final(pool)@.len() == old(pool)@.len() - 1 && old(pool)@.contains(r->Ok_0),
        r is Err ==> final(pool)@ == old(pool)@,
        old(kept)@.len() < 64 ==> final(kept)@.len() == old(kept)@.len() + 1
            && final(kept)@.drop_last() == old(kept)@ && final(kept)@.last() == buffer,
        old(kept)@.len() >= 64 ==> final(kept)@ == old(kept)@,
{
    if 0 <= i < old(pool)@.len() && io_buffer_size(old(pool)@[i]) == len {
        lemma_first_of_size(old(pool)@, len, i);
        let first = choose|first: int| first_of_size(old(pool)@, len, first);
        assert(first_of_size(old(pool)@, len, first));
        assert(old(pool)@[first] == r->Ok_0);
    }
}

proof fn lemma_first_of_size(buffers: Seq<IoBuffer>, len: usize, i: int)
    requires
        0 <= i < buffers.len(),
        io_buffer_size(buffers[i]) == len,
    ensures
        exists|first: int| first_of_size(buffers, len, first),
    decreases i,
{
    if exists|k: int| 0 <= k < i && io_buffer_size(#[trigger] buffers[k]) == len {
        let k = choose|k: int| 0 <= k < i && io_buffer_size(#[trigger] buffers[k]) == len;
        lemma_first_of_size(buffers, len, k);
    } else {
        assert(first_of_size(buffers, len, i));
    }
}

} // verus!

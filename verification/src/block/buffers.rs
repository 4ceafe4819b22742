//! Guest-memory spans and the buffers that block requests move data through.

use imago::io_buffers::IoBuffer;
use smallvec::SmallVec;
use vstd::prelude::*;

verus! {

/// Requests that may be in flight on the ring at one time.
pub const MAX_PENDING_LINUX_RAW_REQUESTS: usize = 64;

/// Requests with more data than this never use the ring.
pub const MAX_LINUX_RAW_REQUEST_BYTES: usize = 1_048_576;

/// Buffered requests up to this size are copied through the bounce pool.
pub const MAX_LINUX_RAW_BOUNCE_FAST_PATH_BYTES: usize = 65_536;

/// Why a set of guest buffers cannot serve a request.
#[derive(Clone, Copy, Debug, PartialEq, Eq, Structural)]
pub enum BufferError {
    /// The lengths of the slices do not fit in `usize`.
    LengthOverflow,
    /// The slices hold `total` bytes where the request names `expected`.
    UnexpectedLength { total: usize, expected: usize },
    /// The cursor of a request is at or past the end of its buffers.
    CursorExceeded,
    /// A guest buffer reaches past the end of the bounce buffer.
    BounceExceeded,
    /// The guest buffers leave part of the data uncovered.
    BounceNotCovered,
}

/// One contiguous span of host memory that backs guest memory.
#[derive(Clone, Copy, Debug, PartialEq, Eq, Structural)]
pub struct LinuxRawFileBuffer {
    /// Host address of the first byte.
    pub ptr: usize,
    /// Bytes in the span.
    pub len: usize,
}

impl LinuxRawFileBuffer {
    /// The span lies inside the address space.
    pub open spec fn in_bounds(self) -> bool {
        self.ptr + self.len <= usize::MAX
    }

    /// The address of every byte of the span, in order.
    pub open spec fn addresses(self) -> Seq<int> {
        Seq::new(self.len as nat, |i: int| self.ptr + i)
    }

    /// Build a span.
    pub fn new(ptr: usize, len: usize) -> (r: LinuxRawFileBuffer)
        ensures
            r == (LinuxRawFileBuffer { ptr, len }),
    {
        LinuxRawFileBuffer { ptr, len }
    }

    /// Whether both ends of the span are multiples of `alignment`.
    pub fn is_direct_io_aligned(self, alignment: usize) -> (r: bool)
        ensures
            r == direct_io_aligned(self, alignment),
    {
        alignment > 0 && self.ptr % alignment == 0 && self.len % alignment == 0
    }
}

/// A span that direct I/O with this memory alignment can use.
pub open spec fn direct_io_aligned(span: LinuxRawFileBuffer, alignment: usize) -> bool {
    alignment > 0 && span.ptr % alignment == 0 && span.len % alignment == 0
}

/// Bytes in a list of spans.
pub open spec fn total_len(spans: Seq<LinuxRawFileBuffer>) -> nat
    decreases spans.len(),
{
    if spans.len() == 0 {
        0
    } else {
        total_len(spans.drop_last()) + spans.last().len as nat
    }
}

/// The address of every byte of a list of spans, in order.
pub open spec fn all_addresses(spans: Seq<LinuxRawFileBuffer>) -> Seq<int>
    decreases spans.len(),
{
    if spans.len() == 0 {
        Seq::empty()
    } else {
        all_addresses(spans.drop_last()) + spans.last().addresses()
    }
}

/// Every span of the list lies inside the address space.
pub open spec fn all_in_bounds(spans: Seq<LinuxRawFileBuffer>) -> bool {
    forall|i: int| 0 <= i < spans.len() ==> (#[trigger] spans[i]).in_bounds()
}

/// A list of spans that keeps up to four of them without an allocation.
#[verifier::external_body]
pub struct SpanList {
    spans: SmallVec<[LinuxRawFileBuffer; 4]>,
}

/// The spans that a list holds, in order.
pub uninterp spec fn span_list_items(list: SpanList) -> Seq<LinuxRawFileBuffer>;

impl View for SpanList {
    type V = Seq<LinuxRawFileBuffer>;

    open spec fn view(&self) -> Seq<LinuxRawFileBuffer> {
        span_list_items(*self)
    }
}

/// `SmallVec::new`: a list with no spans.
#[verifier::external_body]
pub(crate) fn span_list_new() -> (list: SpanList)
    ensures
        span_list_items(list) == Seq::<LinuxRawFileBuffer>::empty(),
{
    SpanList { spans: SmallVec::new() }
}

/// `SmallVec::push`: adds one span behind the others.
#[verifier::external_body]
pub(crate) fn span_list_push(list: &mut SpanList, span: LinuxRawFileBuffer)
    ensures
        span_list_items(*final(list)) == span_list_items(*old(list)).push(span),
{
    list.spans.push(span)
}

/// `SmallVec::pop`: takes the last span off, if there is one.
#[verifier::external_body]
pub(crate) fn span_list_pop(list: &mut SpanList) -> (span: Option<LinuxRawFileBuffer>)
    ensures
        span_list_items(*old(list)).len() == 0 ==> span is None && span_list_items(*final(list))
            == span_list_items(*old(list)),
        span_list_items(*old(list)).len() > 0 ==> span == Some(span_list_items(*old(list)).last())
            && span_list_items(*final(list)) == span_list_items(*old(list)).drop_last(),
{
    list.spans.pop()
}

/// `SmallVec::len`: how many spans the list holds.
#[verifier::external_body]
pub(crate) fn span_list_len(list: &SpanList) -> (len: usize)
    ensures
        len == span_list_items(*list).len(),
{
    list.spans.len()
}

/// `SmallVec::as_slice`: the spans as a slice, in order.
#[verifier::external_body]
pub(crate) fn span_list_as_slice(list: &SpanList) -> (spans: &[LinuxRawFileBuffer])
    ensures
        spans@ == span_list_items(*list),
{
    list.spans.as_slice()
}

impl SpanList {
    /// A list with no spans.
    pub fn new() -> (list: SpanList)
        ensures
            list@ == Seq::<LinuxRawFileBuffer>::empty(),
    {
        span_list_new()
    }

    /// How many spans the list holds.
    pub fn len(&self) -> (len: usize)
        ensures
            len == self@.len(),
    {
        span_list_len(self)
    }

    /// The spans in order.
    pub fn as_slice(&self) -> (spans: &[LinuxRawFileBuffer])
        ensures
            spans@ == self@,
    {
        span_list_as_slice(self)
    }

    /// Adds one span behind the others.
    pub fn push(&mut self, span: LinuxRawFileBuffer)
        ensures
            final(self)@ == old(self)@.push(span),
    {
        span_list_push(self, span)
    }
}

#[verifier::external_type_specification]
#[verifier::external_body]
pub struct ExIoError(std::io::Error);

#[verifier::external_type_specification]
#[verifier::external_body]
pub struct ExIoBuffer(IoBuffer);

/// Bytes that an aligned I/O buffer holds.
pub uninterp spec fn io_buffer_size(buffer: IoBuffer) -> nat;

/// The sizes and alignments that the allocator takes: a power of two as the alignment, and a size
/// that stays within `isize` when it is rounded up to it.
pub open spec fn layout_accepted(size: usize, alignment: usize) -> bool {
    &&& vstd::arithmetic::power2::is_pow2(alignment as int)
    &&& size + alignment - 1 <= isize::MAX
}

/// `IoBuffer::new`: a fresh buffer of `size` bytes. A size or an alignment that no layout has is
/// refused and an empty buffer is always granted. Whether other memory is granted depends on the
/// allocator.
#[verifier::external_body]
pub(crate) fn io_buffer_new(size: usize, alignment: usize) -> (r: Result<IoBuffer, std::io::Error>)
    ensures
        r is Ok ==> io_buffer_size(r->Ok_0) == size,
        !layout_accepted(size, alignment) ==> r is Err,
        layout_accepted(size, alignment) && size == 0 ==> r is Ok,
{
    IoBuffer::new(size, alignment)
}

/// `IoBuffer::len`: bytes in the buffer.
#[verifier::external_body]
pub(crate) fn io_buffer_len(buffer: &IoBuffer) -> (len: usize)
    ensures
        len == io_buffer_size(*buffer),
{
    buffer.len()
}

/// A span is aligned where whole multiples of the alignment reach its start and its length.
pub proof fn aligned_spans_are_whole_multiples(
    span: LinuxRawFileBuffer,
    alignment: usize,
    r: bool,
    start: int,
    len: int,
)
    requires
        call_ensures(LinuxRawFileBuffer::is_direct_io_aligned, (span, alignment), r),
    ensures
        span.ptr == start * alignment && span.len == len * alignment && alignment > 0 ==> r,
        r ==> alignment > 0 && span.ptr == span.ptr as int / alignment as int * alignment
            && span.len
            == span.len as int / alignment as int * alignment,
{
    if alignment > 0 {
        vstd::arithmetic::div_mod::lemma_mod_multiples_basic(start, alignment as int);
        vstd::arithmetic::div_mod::lemma_mod_multiples_basic(len, alignment as int);
        vstd::arithmetic::div_mod::lemma_fundamental_div_mod(span.ptr as int, alignment as int);
        vstd::arithmetic::div_mod::lemma_fundamental_div_mod(span.len as int, alignment as int);
        vstd::arithmetic::mul::lemma_mul_is_commutative(
            span.ptr as int / alignment as int,
            alignment as int,
        );
        vstd::arithmetic::mul::lemma_mul_is_commutative(
            span.len as int / alignment as int,
            alignment as int,
        );
    }
}

} // verus!

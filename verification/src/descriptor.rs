//! Descriptors of virtqueue chains.

use vstd::prelude::*;

verus! {

/// One descriptor of a chain.
#[derive(Clone, Copy, Debug, PartialEq, Eq, Structural)]
pub struct Descriptor {
    /// Guest address of the buffer.
    pub addr: u64,
    /// Bytes in the buffer.
    pub len: u32,
    /// The host may write the buffer and may not read it.
    pub write_only: bool,
}

impl Descriptor {
    /// A descriptor.
    pub fn new(addr: u64, len: u32, write_only: bool) -> (r: Descriptor)
        ensures
            r == (Descriptor { addr, len, write_only }),
    {
        Descriptor { addr, len, write_only }
    }
}

/// One piece of guest memory.
#[derive(Clone, Copy, Debug, PartialEq, Eq, Structural)]
pub struct GuestChunk {
    pub addr: u64,
    pub len: usize,
}

/// Bytes in the buffers of a chain.
pub open spec fn chain_len(descriptors: Seq<Descriptor>) -> nat
    decreases descriptors.len(),
{
    if descriptors.len() == 0 {
        0
    } else {
        chain_len(descriptors.drop_last()) + descriptors.last().len as nat
    }
}

/// The guest address of byte `k` of a chain's buffers, which follow each other.
pub open spec fn byte_address(descriptors: Seq<Descriptor>, k: int) -> int
    decreases descriptors.len(),
{
    if descriptors.len() == 0 {
        -1
    } else if k < descriptors[0].len {
        descriptors[0].addr + k
    } else {
        byte_address(descriptors.skip(1), k - descriptors[0].len)
    }
}

/// The bytes of a chain are those of its first buffer and of the ones behind it.
pub proof fn chain_len_from_the_front(descriptors: Seq<Descriptor>)
    requires
        descriptors.len() > 0,
    ensures
        chain_len(descriptors) == descriptors[0].len + chain_len(descriptors.skip(1)),
    decreases descriptors.len(),
{
    if descriptors.len() > 1 {
        chain_len_from_the_front(descriptors.drop_last());
        assert(descriptors.drop_last().skip(1) =~= descriptors.skip(1).drop_last());
        assert(descriptors.skip(1).last() == descriptors.last());
    } else {
        assert(descriptors.drop_last() =~= Seq::empty());
        assert(descriptors.skip(1) =~= Seq::empty());
    }
}

/// A buffer of a chain starts behind all bytes of the ones before it.
pub proof fn buffers_follow_each_other(descriptors: Seq<Descriptor>, i: int, j: int)
    requires
        0 <= i < descriptors.len(),
        0 <= j < descriptors[i].len,
    ensures
        byte_address(descriptors, chain_len(descriptors.take(i)) + j) == descriptors[i].addr + j,
        chain_len(descriptors.take(i + 1)) == chain_len(descriptors.take(i)) + descriptors[i].len,
    decreases i,
{
    assert(descriptors.take(i + 1).drop_last() =~= descriptors.take(i));
    if i == 0 {
        assert(descriptors.take(0) =~= Seq::empty());
    } else {
        let rest = descriptors.skip(1);
        buffers_follow_each_other(rest, i - 1, j);
        chain_len_from_the_front(descriptors.take(i));
        assert(descriptors.take(i).skip(1) =~= rest.take(i - 1));
        assert(rest[i - 1] == descriptors[i]);
    }
}

} // verus!

//! Integers in byte buffers.

use vstd::prelude::*;

verus! {

/// The little-endian 16-bit number at `at`.
pub open spec fn le_u16(b: Seq<u8>, at: int) -> int {
    b[at] + 0x100 * b[at + 1]
}

/// The little-endian 32-bit number at `at`.
pub open spec fn le_u32(b: Seq<u8>, at: int) -> int {
    le_u16(b, at) + 0x1_0000 * le_u16(b, at + 2)
}

/// The little-endian 64-bit number at `at`.
pub open spec fn le_u64(b: Seq<u8>, at: int) -> int {
    le_u32(b, at) + 0x1_0000_0000 * le_u32(b, at + 4)
}

/// The big-endian 16-bit number at `at`.
pub open spec fn be_u16(b: Seq<u8>, at: int) -> int {
    0x100 * b[at] + b[at + 1]
}

/// The big-endian 32-bit number at `at`.
pub open spec fn be_u32(b: Seq<u8>, at: int) -> int {
    0x1_0000 * be_u16(b, at) + be_u16(b, at + 2)
}

/// The bytes with the little-endian 16-bit number `v` at `at`.
pub open spec fn with_le_u16(b: Seq<u8>, at: int, v: int) -> Seq<u8> {
    b.update(at, (v % 0x100) as u8).update(at + 1, (v / 0x100 % 0x100) as u8)
}

/// The bytes with the little-endian 32-bit number `v` at `at`.
pub open spec fn with_le_u32(b: Seq<u8>, at: int, v: int) -> Seq<u8> {
    with_le_u16(with_le_u16(b, at, v % 0x1_0000), at + 2, v / 0x1_0000)
}

/// The bytes with the little-endian 64-bit number `v` at `at`.
pub open spec fn with_le_u64(b: Seq<u8>, at: int, v: int) -> Seq<u8> {
    with_le_u32(with_le_u32(b, at, v % 0x1_0000_0000), at + 4, v / 0x1_0000_0000)
}

/// Two buffers that agree outside of `len` bytes at `at`.
pub open spec fn same_outside(a: Seq<u8>, b: Seq<u8>, at: int, len: int) -> bool {
    &&& a.len() == b.len()
    &&& forall|i: int| 0 <= i < a.len() && !(at <= i < at + len) ==> #[trigger] a[i] == b[i]
}

/// A 16-bit number reads back as it was written, and nothing else moves.
pub proof fn le_u16_read_after_write(b: Seq<u8>, at: int, v: int)
    requires
        0 <= at,
        at + 2 <= b.len(),
        0 <= v < 0x1_0000,
    ensures
        le_u16(with_le_u16(b, at, v), at) == v,
        same_outside(b, with_le_u16(b, at, v), at, 2),
{
}

/// A 32-bit number reads back as it was written, and nothing else moves.
pub proof fn le_u32_read_after_write(b: Seq<u8>, at: int, v: int)
    requires
        0 <= at,
        at + 4 <= b.len(),
        0 <= v < 0x1_0000_0000,
    ensures
        le_u32(with_le_u32(b, at, v), at) == v,
        same_outside(b, with_le_u32(b, at, v), at, 4),
{
    le_u16_read_after_write(b, at, v % 0x1_0000);
    le_u16_read_after_write(with_le_u16(b, at, v % 0x1_0000), at + 2, v / 0x1_0000);
}

/// A 64-bit number reads back as it was written, and nothing else moves.
pub proof fn le_u64_read_after_write(b: Seq<u8>, at: int, v: int)
    requires
        0 <= at,
        at + 8 <= b.len(),
        0 <= v < 0x1_0000_0000_0000_0000,
    ensures
        le_u64(with_le_u64(b, at, v), at) == v,
        same_outside(b, with_le_u64(b, at, v), at, 8),
{
    le_u32_read_after_write(b, at, v % 0x1_0000_0000);
    le_u32_read_after_write(with_le_u32(b, at, v % 0x1_0000_0000), at + 4, v / 0x1_0000_0000);
}

/// Reads the little-endian 16-bit number at `at`.
pub fn get_le_u16(b: &[u8], at: usize) -> (r: u16)
    requires
        at + 2 <= b@.len(),
    ensures
        r == le_u16(b@, at as int),
{
    b[at] as u16 + 0x100 * (b[at + 1] as u16)
}

/// Reads the little-endian 32-bit number at `at`.
pub fn get_le_u32(b: &[u8], at: usize) -> (r: u32)
    requires
        at + 4 <= b@.len(),
    ensures
        r == le_u32(b@, at as int),
{
    assert(at + 4 <= b.len());
    get_le_u16(b, at) as u32 + 0x1_0000 * (get_le_u16(b, at + 2) as u32)
}

/// Reads the little-endian 64-bit number at `at`.
pub fn get_le_u64(b: &[u8], at: usize) -> (r: u64)
    requires
        at + 8 <= b@.len(),
    ensures
        r == le_u64(b@, at as int),
{
    assert(at + 8 <= b.len());
    get_le_u32(b, at) as u64 + 0x1_0000_0000 * (get_le_u32(b, at + 4) as u64)
}

/// Reads the big-endian 16-bit number at `at`.
pub fn get_be_u16(b: &[u8], at: usize) -> (r: u16)
    requires
        at + 2 <= b@.len(),
    ensures
        r == be_u16(b@, at as int),
{
    0x100 * (b[at] as u16) + b[at + 1] as u16
}

/// Reads the big-endian 32-bit number at `at`.
pub fn get_be_u32(b: &[u8], at: usize) -> (r: u32)
    requires
        at + 4 <= b@.len(),
    ensures
        r == be_u32(b@, at as int),
{
    assert(at + 4 <= b.len());
    0x1_0000 * (get_be_u16(b, at) as u32) + get_be_u16(b, at + 2) as u32
}

/// The unsigned number with the bits of a signed one.
pub open spec fn bits_of_i32(v: i32) -> int {
    if v < 0 {
        v + 0x1_0000_0000
    } else {
        v as int
    }
}

/// The unsigned number with the bits of a signed one.
pub fn i32_to_u32(v: i32) -> (r: u32)
    ensures
        r == bits_of_i32(v),
{
    if v < 0 {
        (v as i64 + 0x1_0000_0000) as u32
    } else {
        v as u32
    }
}

/// The signed number with the bits of an unsigned one.
pub fn u32_to_i32(v: u32) -> (r: i32)
    ensures
        bits_of_i32(r) == v,
{
    if v > i32::MAX as u32 {
        (v as i64 - 0x1_0000_0000) as i32
    } else {
        v as i32
    }
}

/// Writes a little-endian 16-bit number at `at`.
pub fn put_le_u16(b: &mut [u8], at: usize, v: u16)
    requires
        at + 2 <= old(b)@.len(),
    ensures
        final(b)@ == with_le_u16(old(b)@, at as int, v as int),
{
    b[at] = (v % 0x100) as u8;
    b[at + 1] = (v / 0x100) as u8;
}

/// Writes a little-endian 32-bit number at `at`.
pub fn put_le_u32(b: &mut [u8], at: usize, v: u32)
    requires
        at + 4 <= old(b)@.len(),
    ensures
        final(b)@ == with_le_u32(old(b)@, at as int, v as int),
{
    assert(at + 4 <= b.len());
    put_le_u16(b, at, (v % 0x1_0000) as u16);
    put_le_u16(b, at + 2, (v / 0x1_0000) as u16);
}

/// Writes a little-endian 64-bit number at `at`.
pub fn put_le_u64(b: &mut [u8], at: usize, v: u64)
    requires
        at + 8 <= old(b)@.len(),
    ensures
        final(b)@ == with_le_u64(old(b)@, at as int, v as int),
{
    assert(at + 8 <= b.len());
    put_le_u32(b, at, (v % 0x1_0000_0000) as u32);
    put_le_u32(b, at + 4, (v / 0x1_0000_0000) as u32);
}

/// A list of buffers, one behind the other.
pub open spec fn joined(parts: Seq<Vec<u8>>) -> Seq<u8>
    decreases parts.len(),
{
    if parts.len() == 0 {
        Seq::empty()
    } else {
        joined(parts.drop_last()) + parts.last()@
    }
}

/// Every buffer of a list stands behind the ones before it, byte for byte, and nothing else is
/// there.
pub proof fn joined_parts_stand_in_order(parts: Seq<Vec<u8>>, i: int, k: int)
    requires
        0 <= i < parts.len(),
        0 <= k < parts[i]@.len(),
    ensures
        joined(parts.take(i)).len() + k < joined(parts).len(),
        joined(parts)[joined(parts.take(i)).len() + k] == parts[i]@[k],
        joined(parts.take(i + 1)).len() == joined(parts.take(i)).len() + parts[i]@.len(),
        joined(parts.take(0)).len() == 0,
        parts.take(parts.len() as int) == parts,
    decreases parts.len(),
{
    let front = parts.drop_last();
    assert(parts.take(0) =~= Seq::empty());
    assert(parts.take(parts.len() as int) =~= parts);
    assert(parts.take(i + 1).drop_last() =~= parts.take(i));
    assert(parts.take(i + 1).last() == parts[i]);
    if i < front.len() {
        joined_parts_stand_in_order(front, i, k);
        assert(front.take(i) =~= parts.take(i));
    } else {
        assert(front =~= parts.take(i));
    }
}

/// Puts a list of buffers one behind the other.
pub fn join_parts(parts: &Vec<Vec<u8>>) -> (r: Vec<u8>)
    ensures
        r@ == joined(parts@),
{
    let mut bytes: Vec<u8> = Vec::new();
    let mut i: usize = 0;
    assert(parts@.take(0) =~= Seq::empty());
    while i < parts.len()
        invariant
            i <= parts@.len(),
            bytes@ == joined(parts@.take(i as int)),
        decreases parts@.len() - i,
    {
        push_all(&mut bytes, parts[i].as_slice());
        assert(parts@.take(i + 1).drop_last() =~= parts@.take(i as int));
        i = i + 1;
    }
    assert(parts@.take(i as int) =~= parts@);
    bytes
}

/// Adds bytes at the end of a buffer.
pub fn push_all(bytes: &mut Vec<u8>, more: &[u8])
    ensures
        final(bytes)@ == old(bytes)@ + more@,
{
    let mut i: usize = 0;
    assert(bytes@ =~= old(bytes)@ + more@.take(0));
    while i < more.len()
        invariant
            i <= more@.len(),
            bytes@ == old(bytes)@ + more@.take(i as int),
        decreases more@.len() - i,
    {
        bytes.push(more[i]);
        i = i + 1;
        assert(bytes@ =~= old(bytes)@ + more@.take(i as int));
    }
    assert(more@.take(i as int) =~= more@);
}

/// What is read of a buffer is what stands there: the first byte of a little-endian number is its
/// lowest, that of a big-endian one its highest.
pub proof fn numbers_are_their_bytes(b: &[u8], at: usize, r: (u16, u32, u64, u16, u32))
    requires
        at + 8 <= b@.len(),
        call_ensures(get_le_u16, (b, at), r.0),
        call_ensures(get_le_u32, (b, at), r.1),
        call_ensures(get_le_u64, (b, at), r.2),
        call_ensures(get_be_u16, (b, at), r.3),
        call_ensures(get_be_u32, (b, at), r.4),
    ensures
        r.0 == b@[at as int] + 256 * b@[at + 1],
        r.1 == b@[at as int] + 256 * b@[at + 1] + 65536 * b@[at + 2] + 16777216 * b@[at + 3],
        r.2 == b@[at as int] + 256 * b@[at + 1] + 65536 * b@[at + 2] + 16777216 * b@[at + 3]
            + 4294967296 * (b@[at + 4] + 256 * b@[at + 5] + 65536 * b@[at + 6] + 16777216 * b@[at
            + 7]),
        r.3 == 256 * b@[at as int] + b@[at + 1],
        r.4 == 16777216 * b@[at as int] + 65536 * b@[at + 1] + 256 * b@[at + 2] + b@[at + 3],
{
}

/// A list of buffers starts with the first one, and the others follow.
pub proof fn joined_starts_with_the_first(parts: Seq<Vec<u8>>)
    requires
        parts.len() > 0,
    ensures
        joined(parts) == parts[0]@ + joined(parts.skip(1)),
    decreases parts.len(),
{
    if parts.len() > 1 {
        joined_starts_with_the_first(parts.drop_last());
        assert(parts.drop_last().skip(1) =~= parts.skip(1).drop_last());
        assert(parts.skip(1).last() == parts.last());
        assert(joined(parts) =~= parts[0]@ + joined(parts.skip(1)));
    } else {
        assert(parts.drop_last() =~= Seq::empty());
        assert(parts.skip(1) =~= Seq::empty());
        assert(joined(parts) =~= parts[0]@ + joined(parts.skip(1)));
    }
}

} // verus!

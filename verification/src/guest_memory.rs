//! Access to the memory of the guest.

use vm_memory::{
    Bytes, GuestAddress, GuestMemoryBackend, GuestMemoryMmap, GuestRegionCollection,
    GuestRegionMmap,
};
use vstd::prelude::*;

verus! {

#[verifier::external_type_specification]
#[verifier::external_body]
#[verifier::reject_recursive_types(R)]
pub struct ExGuestRegionCollection<R>(GuestRegionCollection<R>);

#[verifier::external_type_specification]
#[verifier::external_body]
#[verifier::reject_recursive_types(B)]
pub struct ExGuestRegionMmap<B>(GuestRegionMmap<B>);

/// The regions that guest memory consists of: the guest address and the length of each.
pub uninterp spec fn guest_regions(
    mem: GuestRegionCollection<GuestRegionMmap<()>>,
) -> Seq<(u64, u64)>;

/// A guest address belongs to a region.
pub open spec fn in_region(region: (u64, u64), addr: int) -> bool {
    region.0 <= addr < region.0 + region.1
}

/// A range of guest addresses lies inside one region, and starts below its end.
pub open spec fn in_one_region(regions: Seq<(u64, u64)>, addr: u64, len: nat) -> bool {
    exists|i: int|
        0 <= i < regions.len() && in_region(#[trigger] regions[i], addr as int) && addr + len
            <= regions[i].0 + regions[i].1
}

/// Every byte of a range of guest addresses belongs to some region. The last address is followed
/// by the first.
pub open spec fn all_mapped(regions: Seq<(u64, u64)>, addr: u64, len: nat) -> bool {
    forall|k: int|
        0 <= k < len ==> #[trigger] address_mapped(
            regions,
            (addr + k) % 0x1_0000_0000_0000_0000,
        )
}

/// A guest address belongs to some region.
pub open spec fn address_mapped(regions: Seq<(u64, u64)>, addr: int) -> bool {
    exists|i: int| 0 <= i < regions.len() && in_region(#[trigger] regions[i], addr)
}

/// `GuestMemoryBackend::get_slice`, copied out: `len` bytes of guest memory, which exist exactly
/// where the range lies inside one region. What the bytes are is up to the guest, which may change
/// them at any time.
#[verifier::external_body]
pub(crate) fn guest_slice(mem: &GuestMemoryMmap, addr: u64, len: usize) -> (r: Option<Vec<u8>>)
    ensures
        r is Some <==> in_one_region(guest_regions(*mem), addr, len as nat),
        r matches Some(bytes) ==> bytes@.len() == len,
{
    let slice = mem.get_slice(GuestAddress(addr), len).ok()?;
    let mut bytes = vec![0u8; len];
    slice.copy_to(&mut bytes[..]);
    Some(bytes)
}

/// `Bytes::read_slice`: `len` bytes of guest memory, which exist exactly where every one of them
/// belongs to some region. What the bytes are is up to the guest, which may change them at any
/// time.
#[verifier::external_body]
pub(crate) fn guest_read(mem: &GuestMemoryMmap, addr: u64, len: usize) -> (r: Option<Vec<u8>>)
    requires
        len <= isize::MAX,
    ensures
        r is Some <==> all_mapped(guest_regions(*mem), addr, len as nat),
        r matches Some(bytes) ==> bytes@.len() == len,
{
    let mut bytes = vec![0u8; len];
    mem.read_slice(&mut bytes[..], GuestAddress(addr)).ok()?;
    Some(bytes)
}

/// `Bytes::write_slice`: writes bytes to guest memory, and succeeds exactly where every one of them
/// has a place in some region. What the guest makes of them is not stated.
#[verifier::external_body]
pub(crate) fn guest_write(mem: &GuestMemoryMmap, addr: u64, bytes: &[u8]) -> (r: bool)
    ensures
        r == all_mapped(guest_regions(*mem), addr, bytes@.len()),
{
    mem.write_slice(bytes, GuestAddress(addr)).is_ok()
}

/// Guest memory gave these bytes when it was asked for a slice of `len` bytes at `addr`.
pub closed spec fn slice_gave(mem: GuestMemoryMmap, addr: u64, len: usize, bytes: Seq<u8>) -> bool {
    exists|part: Vec<u8>|
        part@ == bytes && #[trigger] call_ensures(guest_slice, (&mem, addr, len), Some(part))
}

/// Guest memory gave these bytes when `len` bytes were read at `addr`.
pub closed spec fn read_gave(mem: GuestMemoryMmap, addr: u64, len: usize, bytes: Seq<u8>) -> bool {
    exists|part: Vec<u8>|
        part@ == bytes && #[trigger] call_ensures(guest_read, (&mem, addr, len), Some(part))
}

/// Guest memory took these bytes when they were written at `addr`.
pub closed spec fn write_took(mem: GuestMemoryMmap, addr: u64, bytes: Seq<u8>) -> bool {
    exists|part: &[u8]|
        part@ == bytes && #[trigger] call_ensures(guest_write, (&mem, addr, part), true)
}

/// What a slice of guest memory gives, where it lies inside one region.
pub(crate) fn slice_at(mem: &GuestMemoryMmap, addr: u64, len: usize) -> (r: Option<Vec<u8>>)
    ensures
        r is Some <==> in_one_region(guest_regions(*mem), addr, len as nat),
        r matches Some(bytes) ==> bytes@.len() == len && slice_gave(*mem, addr, len, bytes@),
{
    guest_slice(mem, addr, len)
}

/// What guest memory gives where it is read, if all of it is mapped.
pub(crate) fn read_at(mem: &GuestMemoryMmap, addr: u64, len: usize) -> (r: Option<Vec<u8>>)
    requires
        len <= isize::MAX,
    ensures
        r is Some <==> all_mapped(guest_regions(*mem), addr, len as nat),
        r matches Some(bytes) ==> bytes@.len() == len && read_gave(*mem, addr, len, bytes@),
{
    guest_read(mem, addr, len)
}

/// Writes to guest memory, if all of it is mapped.
pub(crate) fn write_at(mem: &GuestMemoryMmap, addr: u64, bytes: &[u8]) -> (r: bool)
    ensures
        r == all_mapped(guest_regions(*mem), addr, bytes@.len()),
        r ==> write_took(*mem, addr, bytes@),
{
    guest_write(mem, addr, bytes)
}

/// A slice of guest memory gave this byte for an address.
pub open spec fn slice_gave_byte(mem: GuestMemoryMmap, addr: int, byte: u8) -> bool {
    exists|at: u64, len: usize, bytes: Seq<u8>| #[trigger]
        slice_gave(mem, at, len, bytes) && 0 <= addr - at < bytes.len() && bytes[addr - at] == byte
}

/// A read of guest memory gave this byte for an address.
pub open spec fn read_gave_byte(mem: GuestMemoryMmap, addr: int, byte: u8) -> bool {
    exists|at: u64, len: usize, bytes: Seq<u8>| #[trigger]
        read_gave(mem, at, len, bytes) && 0 <= addr - at < bytes.len() && bytes[addr - at] == byte
}

/// A write to guest memory took this byte to an address.
pub open spec fn write_took_byte(mem: GuestMemoryMmap, addr: int, byte: u8) -> bool {
    exists|at: u64, bytes: Seq<u8>| #[trigger]
        write_took(mem, at, bytes) && 0 <= addr - at < bytes.len() && bytes[addr - at] == byte
}

} // verus!

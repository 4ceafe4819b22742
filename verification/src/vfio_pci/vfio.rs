//! The rules for talking to the kernel about a passed-through device.

use crate::bytes::{
    bits_of_i32, get_le_u32, i32_to_u32, le_u32, le_u32_read_after_write, put_le_u32, push_all, with_le_u32,
};
use crate::text::{parse_decimal, parsed_decimal};
use vstd::prelude::*;

verus! {

/// The version of the interface.
pub const VFIO_API_VERSION: u32 = 0;

/// The group can be used.
pub const VFIO_GROUP_FLAGS_VIABLE: u32 = 1;

/// The device is a PCI device.
pub const VFIO_DEVICE_FLAGS_PCI: u32 = 2;

/// The region that holds the configuration space.
pub const VFIO_PCI_CONFIG_REGION_INDEX: u32 = 7;

/// The region can be read.
pub const VFIO_REGION_INFO_FLAG_READ: u32 = 1;

/// The region can be written.
pub const VFIO_REGION_INFO_FLAG_WRITE: u32 = 2;

/// The region can be mapped.
pub const VFIO_REGION_INFO_FLAG_MMAP: u32 = 4;

/// Interrupts are signalled through event descriptors, which follow the header.
pub const IRQ_SET_EVENTFDS: u32 = 0x24;

/// Interrupts are not signalled any more; nothing follows the header.
pub const IRQ_SET_NONE: u32 = 0x21;

/// Bytes in the header of an interrupt setting.
pub const IRQ_SET_HEADER_BYTES: usize = 20;

/// A register of the configuration space from its bytes. Where they could not be read, it reads as
/// all ones.
pub fn config_dword(read: Option<[u8; 4]>) -> (r: u32)
    ensures
        r == match read {
            None => 0xffff_ffffu32,
            Some(bytes) => le_u32(bytes@, 0) as u32,
        },
{
    match read {
        None => 0xffff_ffff,
        Some(bytes) => get_le_u32(&bytes, 0),
    }
}

/// Why a device cannot be passed through.
#[derive(Debug)]
pub enum VfioError {
    /// A file could not be opened.
    OpenFile(String),
    /// The kernel speaks this version, and not that one.
    ApiVersion(i32, u32),
    /// The kernel lacks the kind of mapping that is needed.
    ExtensionNotSupported,
    /// Not all devices of the group are given up by the host.
    GroupNotViable(u32),
    /// The device is not a PCI device.
    NotPciDevice(u32),
    /// A request to the kernel failed.
    Ioctl(String),
    /// The group of a device cannot be told.
    IommuGroup(String),
    /// An access reaches past the end of a region.
    RegionBounds(u32),
    /// A region cannot be mapped.
    RegionNotMmappable(u32),
    /// Mapping a region failed.
    Mmap(u32),
}

/// A region of a device.
#[derive(Clone, Copy, Debug, PartialEq, Eq, Structural)]
pub struct VfioRegion {
    pub index: u32,
    pub flags: u32,
    pub size: u64,
    pub offset: u64,
}

/// Whether the kernel speaks the version that is needed.
pub fn check_api_version(version: i32) -> (r: Result<(), VfioError>)
    ensures
        r is Ok <==> version == VFIO_API_VERSION,
        r is Err ==> r == Err::<(), VfioError>(VfioError::ApiVersion(version, VFIO_API_VERSION)),
{
    if version < 0 || version as u32 != VFIO_API_VERSION {
        Err(VfioError::ApiVersion(version, VFIO_API_VERSION))
    } else {
        Ok(())
    }
}

/// Whether the kernel has the kind of mapping that is needed, from its answer.
pub fn check_extension(supported: i32) -> (r: Result<(), VfioError>)
    ensures
        r is Ok <==> supported == 1,
        r is Err ==> r == Err::<(), VfioError>(VfioError::ExtensionNotSupported),
{
    if supported != 1 {
        Err(VfioError::ExtensionNotSupported)
    } else {
        Ok(())
    }
}

/// Whether a group can be used.
pub fn check_group(id: u32, flags: u32) -> (r: Result<(), VfioError>)
    ensures
        r is Ok <==> flags % 2 == 1,
        r is Err ==> r == Err::<(), VfioError>(VfioError::GroupNotViable(id)),
{
    if flags % 2 == 0 {
        Err(VfioError::GroupNotViable(id))
    } else {
        Ok(())
    }
}

/// Whether a device is a PCI device.
pub fn check_device(flags: u32) -> (r: Result<(), VfioError>)
    ensures
        r is Ok <==> flags / 2 % 2 == 1,
        r is Err ==> r == Err::<(), VfioError>(VfioError::NotPciDevice(flags)),
{
    if flags / 2 % 2 == 0 {
        Err(VfioError::NotPciDevice(flags))
    } else {
        Ok(())
    }
}

/// Regions of a device that are looked at: up to the configuration space.
pub fn regions_to_query(num_regions: u32) -> (r: u32)
    ensures
        r == if num_regions < VFIO_PCI_CONFIG_REGION_INDEX + 1 {
            num_regions as int
        } else {
            VFIO_PCI_CONFIG_REGION_INDEX + 1
        },
{
    if num_regions < VFIO_PCI_CONFIG_REGION_INDEX + 1 {
        num_regions
    } else {
        VFIO_PCI_CONFIG_REGION_INDEX + 1
    }
}

impl VfioRegion {
    /// A region from what the kernel said of it: flags, size and offset. One that it knows nothing
    /// of is empty.
    pub fn from_answer(index: u32, answer: Option<(u32, u64, u64)>) -> (r: VfioRegion)
        ensures
            r == match answer {
                None => VfioRegion { index, flags: 0, size: 0, offset: 0 },
                Some(info) => VfioRegion { index, flags: info.0, size: info.1, offset: info.2 },
            },
    {
        match answer {
            None => VfioRegion { index, flags: 0, size: 0, offset: 0 },
            Some((flags, size, offset)) => VfioRegion { index, flags, size, offset },
        }
    }

    /// Whether the region can be mapped.
    pub fn is_mmappable(&self) -> (r: bool)
        ensures
            r == (self.flags / 4 % 2 == 1),
    {
        self.flags / 4 % 2 == 1
    }

    /// Whether a mapping of the region can be read, and written.
    pub fn protection(&self) -> (r: (bool, bool))
        ensures
            r == (self.flags % 2 == 1, self.flags / 2 % 2 == 1),
    {
        (self.flags % 2 == 1, self.flags / 2 % 2 == 1)
    }
}

/// The regions of a device.
pub struct VfioRegions {
    pub regions: Vec<VfioRegion>,
}

impl VfioRegions {
    /// A region by its number.
    pub open spec fn at(self, index: u32) -> Option<VfioRegion> {
        if index < self.regions@.len() {
            Some(self.regions@[index as int])
        } else {
            None
        }
    }

    /// A region by its number.
    pub fn region(&self, index: u32) -> (r: Option<VfioRegion>)
        ensures
            r == self.at(index),
    {
        if (index as usize) < self.regions.len() {
            Some(self.regions[index as usize])
        } else {
            None
        }
    }

    /// Where an access to a region goes in the device file. One that reaches past the region is
    /// refused.
    pub fn locate(&self, index: u32, offset: u64, len: u64) -> (r: Result<u64, VfioError>)
        requires
            self.at(index) matches Some(region) ==> (offset + len <= region.size ==> region.offset
                + offset <= u64::MAX),
        ensures
            r is Ok <==> (self.at(index) matches Some(region) && offset + len <= region.size),
            r matches Ok(at) ==> at == self.at(index)->Some_0.offset + offset,
            r is Err ==> r == Err::<u64, VfioError>(VfioError::RegionBounds(index)),
    {
        match self.region(index) {
            None => Err(VfioError::RegionBounds(index)),
            Some(region) => match offset.checked_add(len) {
                Some(end) if end <= region.size => Ok(region.offset + offset),
                _ => Err(VfioError::RegionBounds(index)),
            },
        }
    }

    /// The part of a region that is to be mapped, as its place in the device file. Regions that
    /// cannot be mapped are refused first.
    pub fn map_range(&self, index: u32, offset: u64, len: u64) -> (r: Result<u64, VfioError>)
        requires
            self.at(index) matches Some(region) ==> (region.flags / 4 % 2 == 1 && offset + len
                <= region.size ==> region.offset + offset <= u64::MAX),
        ensures
            r matches Ok(at) ==> at == self.at(index)->Some_0.offset + offset,
            r is Ok <==> (self.at(index) matches Some(region) && region.flags / 4 % 2 == 1 && offset
                + len <= region.size),
            r is Err ==> r == if self.at(index) is Some && self.at(index)->Some_0.flags / 4 % 2
                == 0 {
                Err::<u64, VfioError>(VfioError::RegionNotMmappable(index))
            } else {
                Err(VfioError::RegionBounds(index))
            },
    {
        match self.region(index) {
            None => Err(VfioError::RegionBounds(index)),
            Some(region) => {
                if !region.is_mmappable() {
                    return Err(VfioError::RegionNotMmappable(index));
                }
                self.locate(index, offset, len)
            },
        }
    }
}

/// An interrupt setting: a header, and an event descriptor for every vector.
pub open spec fn irq_set(index: u32, eventfds: Seq<i32>) -> Seq<u8> {
    irq_header(
        (IRQ_SET_HEADER_BYTES + 4 * eventfds.len()) as u32,
        IRQ_SET_EVENTFDS,
        index,
        eventfds.len() as u32,
    ) + descriptor_bytes(eventfds)
}

/// The header of an interrupt setting: its size, what it is, which interrupts, the first vector and
/// how many.
pub open spec fn irq_header(argsz: u32, flags: u32, index: u32, count: u32) -> Seq<u8> {
    let s = Seq::new(IRQ_SET_HEADER_BYTES as nat, |i: int| 0u8);
    let s = with_le_u32(s, 0, argsz as int);
    let s = with_le_u32(s, 4, flags as int);
    let s = with_le_u32(s, 8, index as int);
    let s = with_le_u32(s, 12, 0);
    with_le_u32(s, 16, count as int)
}

/// The bytes of a list of descriptors.
pub open spec fn descriptor_bytes(eventfds: Seq<i32>) -> Seq<u8>
    decreases eventfds.len(),
{
    if eventfds.len() == 0 {
        Seq::empty()
    } else {
        descriptor_bytes(eventfds.drop_last()) + with_le_u32(
            Seq::new(4, |i: int| 0u8),
            0,
            bits_of_i32(eventfds.last()),
        )
    }
}

fn header_bytes(argsz: u32, flags: u32, index: u32, count: u32) -> (r: Vec<u8>)
    ensures
        r@ == irq_header(argsz, flags, index, count),
{
    let mut bytes: Vec<u8> = vec![0u8; IRQ_SET_HEADER_BYTES];
    assert(bytes@ =~= Seq::new(IRQ_SET_HEADER_BYTES as nat, |i: int| 0u8));
    {
        let slice = bytes.as_mut_slice();
        put_le_u32(slice, 0, argsz);
        put_le_u32(slice, 4, flags);
        put_le_u32(slice, 8, index);
        put_le_u32(slice, 12, 0);
        put_le_u32(slice, 16, count);
    }
    bytes
}

/// The setting that has the device signal `eventfds[i]` when it raises vector `i`.
pub fn irq_set_bytes(index: u32, eventfds: &[i32]) -> (r: Vec<u8>)
    requires
        IRQ_SET_HEADER_BYTES + 4 * eventfds@.len() <= u32::MAX,
    ensures
        r@ == irq_set(index, eventfds@),
{
    let count: u32 = eventfds.len() as u32;
    let argsz: u32 = 20 + 4 * count;
    let mut bytes: Vec<u8> = header_bytes(argsz, IRQ_SET_EVENTFDS, index, count);
    let ghost header = bytes@;
    let mut i: usize = 0;
    assert(eventfds@.take(0) =~= Seq::empty());
    assert(bytes@ =~= header + descriptor_bytes(eventfds@.take(0)));
    while i < eventfds.len()
        invariant
            i <= eventfds@.len(),
            bytes@ == header + descriptor_bytes(eventfds@.take(i as int)),
        decreases eventfds@.len() - i,
    {
        let mut word: Vec<u8> = vec![0u8; 4];
        assert(word@ =~= Seq::new(4, |i: int| 0u8));
        put_le_u32(word.as_mut_slice(), 0, i32_to_u32(eventfds[i]));
        let ghost before = bytes@;
        push_all(&mut bytes, word.as_slice());
        assert(eventfds@.take(i + 1).drop_last() =~= eventfds@.take(i as int));
        assert(bytes@ =~= header + descriptor_bytes(eventfds@.take(i + 1)));
        i = i + 1;
    }
    assert(eventfds@.take(i as int) =~= eventfds@);
    bytes
}

/// The setting that takes all event descriptors of an interrupt back.
pub fn irq_disable_bytes(index: u32) -> (r: Vec<u8>)
    ensures
        r@ == irq_header(IRQ_SET_HEADER_BYTES as u32, IRQ_SET_NONE, index, 0),
{
    header_bytes(20, IRQ_SET_NONE, index, 0)
}

/// The group of a device from the name that its link ends in.
pub fn iommu_group_id(device: &str, link_name: Option<&str>) -> (r: Result<u32, VfioError>)
    ensures
        r is Ok <==> (link_name matches Some(name) && parsed_decimal(name@) is Some
            && parsed_decimal(
            name@,
        )->Some_0 <= u32::MAX),
        r matches Ok(id) ==> id == parsed_decimal(link_name->Some_0@)->Some_0,
        r matches Err(error) ==> (error matches VfioError::IommuGroup(name) && name@ == device@),
{
    match link_name {
        Some(name) => match parse_decimal(name, u32::MAX as u64) {
            Some(id) => Ok(id as u32),
            None => Err(VfioError::IommuGroup(device.to_owned())),
        },
        None => Err(VfioError::IommuGroup(device.to_owned())),
    }
}

/// The kernel is told the whole size of an interrupt setting, which interrupt, that it starts at the
/// first vector, how many follow, and behind that one descriptor for each vector, in order.
pub proof fn interrupt_setting_lists_its_descriptors(index: u32, eventfds: &[i32], r: Vec<u8>, i: int)
    requires
        20 + 4 * eventfds@.len() <= u32::MAX,
        call_ensures(irq_set_bytes, (index, eventfds), r),
        0 <= i < eventfds@.len(),
    ensures
        r@.len() == 20 + 4 * eventfds@.len(),
        le_u32(r@, 0) == r@.len(),
        le_u32(r@, 4) == 0x24,
        le_u32(r@, 8) == index,
        le_u32(r@, 12) == 0,
        le_u32(r@, 16) == eventfds@.len(),
        le_u32(r@, 20 + 4 * i) == if eventfds@[i] >= 0 {
            eventfds@[i] as int
        } else {
            eventfds@[i] + 0x1_0000_0000
        },
{
    let n = eventfds@.len();
    let header = irq_header((20 + 4 * n) as u32, IRQ_SET_EVENTFDS, index, n as u32);
    lemma_irq_header((20 + 4 * n) as u32, IRQ_SET_EVENTFDS, index, n as u32);
    lemma_descriptor_bytes(eventfds@, i);
    let rest = descriptor_bytes(eventfds@);
    assert(r@ == header + rest);
    assert forall|k: int| 0 <= k < 20 implies #[trigger] r@[k] == header[k] by {}
    assert forall|k: int| 0 <= k < rest.len() implies #[trigger] rest[k] == r@[20 + k] by {}
    assert(rest[4 * i] == r@[20 + 4 * i]);
    assert(rest[4 * i + 1] == r@[20 + 4 * i + 1]);
    assert(rest[4 * i + 2] == r@[20 + 4 * i + 2]);
    assert(rest[4 * i + 3] == r@[20 + 4 * i + 3]);
}

proof fn lemma_irq_header(argsz: u32, flags: u32, index: u32, count: u32)
    ensures
        irq_header(argsz, flags, index, count).len() == 20,
        le_u32(irq_header(argsz, flags, index, count), 0) == argsz,
        le_u32(irq_header(argsz, flags, index, count), 4) == flags,
        le_u32(irq_header(argsz, flags, index, count), 8) == index,
        le_u32(irq_header(argsz, flags, index, count), 12) == 0,
        le_u32(irq_header(argsz, flags, index, count), 16) == count,
{
    let s0 = Seq::new(IRQ_SET_HEADER_BYTES as nat, |i: int| 0u8);
    let s1 = with_le_u32(s0, 0, argsz as int);
    let s2 = with_le_u32(s1, 4, flags as int);
    let s3 = with_le_u32(s2, 8, index as int);
    let s4 = with_le_u32(s3, 12, 0);
    le_u32_read_after_write(s0, 0, argsz as int);
    le_u32_read_after_write(s1, 4, flags as int);
    le_u32_read_after_write(s2, 8, index as int);
    le_u32_read_after_write(s3, 12, 0);
    le_u32_read_after_write(s4, 16, count as int);
}

proof fn lemma_descriptor_bytes(eventfds: Seq<i32>, i: int)
    requires
        0 <= i < eventfds.len(),
    ensures
        descriptor_bytes(eventfds).len() == 4 * eventfds.len(),
        le_u32(descriptor_bytes(eventfds), 4 * i) == bits_of_i32(eventfds[i]),
    decreases eventfds.len(),
{
    let front = eventfds.drop_last();
    let zero = Seq::new(4, |i: int| 0u8);
    let word = with_le_u32(zero, 0, bits_of_i32(eventfds.last()));
    le_u32_read_after_write(zero, 0, bits_of_i32(eventfds.last()));
    let all = descriptor_bytes(eventfds);
    let before = descriptor_bytes(front);
    if front.len() > 0 {
        lemma_descriptor_bytes(front, front.len() - 1);
    }
    assert(before.len() == 4 * front.len());
    if i < front.len() {
        lemma_descriptor_bytes(front, i);
        assert(all[4 * i] == before[4 * i]);
        assert(all[4 * i + 1] == before[4 * i + 1]);
        assert(all[4 * i + 2] == before[4 * i + 2]);
        assert(all[4 * i + 3] == before[4 * i + 3]);
    } else {
        assert(all[4 * i] == word[0]);
        assert(all[4 * i + 1] == word[1]);
        assert(all[4 * i + 2] == word[2]);
        assert(all[4 * i + 3] == word[3]);
    }
}

/// An access to a region goes to the byte of the device file that stands as far behind the region's
/// start, and only where all of it lies in the region. A mapping asks for the same of a region that
/// can be mapped.
pub proof fn accesses_stay_in_their_region(
    regions: VfioRegions,
    index: u32,
    offset: u64,
    len: u64,
    at: Result<u64, VfioError>,
    mapped: Result<u64, VfioError>,
    region: VfioRegion,
)
    requires
        index < regions.regions@.len(),
        regions.regions@[index as int] == region,
        region.offset + region.size <= u64::MAX,
        call_ensures(VfioRegions::locate, (&regions, index, offset, len), at),
        call_ensures(VfioRegions::map_range, (&regions, index, offset, len), mapped),
    ensures
        at is Ok <==> offset + len <= region.size,
        at is Ok ==> at->Ok_0 - region.offset == offset && at->Ok_0 + len <= region.offset
            + region.size,
        mapped is Ok <==> at is Ok && region.flags / 4 % 2 == 1,
        mapped is Ok ==> mapped->Ok_0 == at->Ok_0,
{
}

/// What the kernel says decides: version zero, the extension there, the group viable, the device a
/// PCI device.
pub proof fn answers_of_the_kernel_decide(
    version: i32,
    extension: i32,
    group: (u32, u32),
    device: u32,
    r: (Result<(), VfioError>, Result<(), VfioError>, Result<(), VfioError>, Result<(), VfioError>),
    half: int,
    low: int,
)
    requires
        call_ensures(check_api_version, (version,), r.0),
        call_ensures(check_extension, (extension,), r.1),
        call_ensures(check_group, (group.0, group.1), r.2),
        call_ensures(check_device, (device,), r.3),
        group.1 == 2 * half + low,
        0 <= low < 2,
    ensures
        r.0 is Ok <==> version == 0,
        r.1 is Ok <==> extension == 1,
        r.2 is Ok <==> low == 1,
        r.3 is Ok <==> device % 4 >= 2,
{
}

/// A register of the configuration space is its four bytes, the lowest first.
pub proof fn config_register_is_its_bytes(read: Option<[u8; 4]>, r: u32)
    requires
        call_ensures(config_dword, (read,), r),
    ensures
        read is None ==> r == 0xffff_ffff,
        read is Some ==> r == read->Some_0@[0] + 256 * read->Some_0@[1] + 65536 * read->Some_0@[2]
            + 16777216 * read->Some_0@[3],
{
}

/// The regions of a device up to its configuration are asked about, what the kernel does not answer
/// is empty, and a group is told by the number that its link is named by.
pub proof fn kernel_answers_are_taken(
    count: u32,
    asked: u32,
    index: u32,
    answer: Option<(u32, u64, u64)>,
    region: VfioRegion,
    device: &str,
    link: &str,
    group: Result<u32, VfioError>,
    number: Option<u64>,
    unlinked: Result<u32, VfioError>,
)
    requires
        call_ensures(regions_to_query, (count,), asked),
        call_ensures(VfioRegion::from_answer, (index, answer), region),
        call_ensures(iommu_group_id, (device, Some(link)), group),
        call_ensures(crate::text::parse_decimal, (link, u32::MAX as u64), number),
        call_ensures(iommu_group_id, (device, None::<&str>), unlinked),
    ensures
        asked <= 8 && asked <= count && (asked == 8 || asked == count),
        region.index == index,
        answer is None ==> region.size == 0 && region.flags == 0,
        answer is Some ==> (region.flags, region.size, region.offset) == answer->Some_0,
        group is Ok <==> number is Some,
        group is Ok ==> group->Ok_0 == number->Some_0,
        unlinked is Err,
{
}

/// Turning an interrupt off sends the header alone, for no vector. A region is mapped for what the
/// kernel lets it be read and written for.
pub proof fn interrupts_are_turned_off_by_none(
    index: u32,
    r: Vec<u8>,
    region: VfioRegion,
    mappable: bool,
    protection: (bool, bool),
)
    requires
        call_ensures(irq_disable_bytes, (index,), r),
        call_ensures(VfioRegion::is_mmappable, (&region,), mappable),
        call_ensures(VfioRegion::protection, (&region,), protection),
    ensures
        r@.len() == 20,
        le_u32(r@, 0) == 20,
        le_u32(r@, 4) == 0x21,
        le_u32(r@, 8) == index,
        le_u32(r@, 12) == 0,
        le_u32(r@, 16) == 0,
        mappable <==> region.flags / 4 % 2 == 1,
        protection.0 <==> region.flags % 2 == 1,
        protection.1 <==> region.flags / 2 % 2 == 1,
{
    lemma_irq_header(IRQ_SET_HEADER_BYTES as u32, IRQ_SET_NONE, index, 0);
}

} // verus!

//! The balloon's target, its configuration, and the pages that a guest gives up.

use crate::activation::ActivateError;
use crate::bytes::{get_le_u32, le_u32, le_u32_read_after_write, put_le_u32, with_le_u32};
use crate::config_space::{config_read, read_config_space};
use crate::descriptor::Descriptor;
use crate::guest_memory::{all_mapped, guest_regions, read_at, read_gave};
use vm_memory::GuestMemoryMmap;
use vstd::prelude::*;

verus! {

/// Inflate queue.
pub const IFQ_INDEX: usize = 0;

/// Deflate queue.
pub const DFQ_INDEX: usize = 1;

/// Statistics queue.
pub const STQ_INDEX: usize = 2;

/// Page-hinting queue.
pub const PHQ_INDEX: usize = 3;

/// Free page reporting queue.
pub const FRQ_INDEX: usize = 4;

/// Queues that the device has.
pub const NUM_QUEUES: usize = 5;

/// Bytes in a page of the balloon.
pub const VIRTIO_BALLOON_PAGE_SIZE: u64 = 4096;

/// Pages in one MiB.
pub const PAGES_PER_MIB: u32 = 256;

/// Where the guest reports the pages that it gave up.
pub const CONFIG_ACTUAL_OFFSET: u64 = 4;

/// Bytes in the configuration space of the device.
pub const BALLOON_CONFIG_BYTES: usize = 16;

/// Features on offer: the current interface, statistics, page hints and page reporting.
pub const AVAIL_FEATURES: u64 = 0x1_0000_002a;

/// The configuration space.
#[derive(Clone, Copy, Debug, PartialEq, Eq, Structural)]
pub struct VirtioBalloonConfig {
    /// Pages that the host wants the guest to give up.
    pub num_pages: u32,
    /// Pages that the guest gave up.
    pub actual: u32,
    /// Command of the free page report.
    pub free_page_report_cmd_id: u32,
    /// What free pages are filled with.
    pub poison_val: u32,
}

impl Default for VirtioBalloonConfig {
    fn default() -> (r: VirtioBalloonConfig)
        ensures
            r == (VirtioBalloonConfig {
                num_pages: 0,
                actual: 0,
                free_page_report_cmd_id: 0,
                poison_val: 0,
            }),
    {
        VirtioBalloonConfig { num_pages: 0, actual: 0, free_page_report_cmd_id: 0, poison_val: 0 }
    }
}

impl VirtioBalloonConfig {
    /// The fields one behind the other.
    pub open spec fn bytes(self) -> Seq<u8> {
        let s = Seq::new(BALLOON_CONFIG_BYTES as nat, |i: int| 0u8);
        let s = with_le_u32(s, 0, self.num_pages as int);
        let s = with_le_u32(s, 4, self.actual as int);
        let s = with_le_u32(s, 8, self.free_page_report_cmd_id as int);
        with_le_u32(s, 12, self.poison_val as int)
    }

    /// The configuration space.
    pub fn to_bytes(&self) -> (r: Vec<u8>)
        ensures
            r@ == self.bytes(),
    {
        let mut bytes: Vec<u8> = vec![0u8; BALLOON_CONFIG_BYTES];
        assert(bytes@ =~= Seq::new(BALLOON_CONFIG_BYTES as nat, |i: int| 0u8));
        {
            let slice = bytes.as_mut_slice();
            put_le_u32(slice, 0, self.num_pages);
            put_le_u32(slice, 4, self.actual);
            put_le_u32(slice, 8, self.free_page_report_cmd_id);
            put_le_u32(slice, 12, self.poison_val);
        }
        bytes
    }
}

/// The guest reads each field back at its place.
pub proof fn balloon_config_shows_its_fields(config: VirtioBalloonConfig)
    ensures
        config.bytes().len() == BALLOON_CONFIG_BYTES,
        le_u32(config.bytes(), 0) == config.num_pages,
        le_u32(config.bytes(), 4) == config.actual,
        le_u32(config.bytes(), 8) == config.free_page_report_cmd_id,
        le_u32(config.bytes(), 12) == config.poison_val,
{
    let s0 = Seq::new(BALLOON_CONFIG_BYTES as nat, |i: int| 0u8);
    let s1 = with_le_u32(s0, 0, config.num_pages as int);
    let s2 = with_le_u32(s1, 4, config.actual as int);
    let s3 = with_le_u32(s2, 8, config.free_page_report_cmd_id as int);
    le_u32_read_after_write(s0, 0, config.num_pages as int);
    le_u32_read_after_write(s1, 4, config.actual as int);
    le_u32_read_after_write(s2, 8, config.free_page_report_cmd_id as int);
    le_u32_read_after_write(s3, 12, config.poison_val as int);
}

/// Pages in a number of MiB, held at the largest number.
pub open spec fn pages_of_mib(mib: int) -> int {
    if mib * PAGES_PER_MIB > u32::MAX {
        u32::MAX as int
    } else {
        mib * PAGES_PER_MIB
    }
}

/// Converts MiB to 4 KiB balloon pages.
pub fn mib_to_pages(mib: u32) -> (r: u32)
    ensures
        r == pages_of_mib(mib as int),
{
    match mib.checked_mul(PAGES_PER_MIB) {
        Some(pages) => pages,
        None => u32::MAX,
    }
}

/// The smaller of two numbers.
pub open spec fn smaller(a: int, b: int) -> int {
    if a < b {
        a
    } else {
        b
    }
}

/// The handle by which the host sets the balloon's target.
#[derive(Clone, Copy, Debug, PartialEq, Eq, Structural)]
pub struct BalloonControl {
    target_pages: u32,
    max_pages: u32,
}

impl BalloonControl {
    pub closed spec fn spec_target_pages(self) -> u32 {
        self.target_pages
    }

    pub closed spec fn spec_max_pages(self) -> u32 {
        self.max_pages
    }

    /// The target is within the maximum.
    pub open spec fn wf(self) -> bool {
        self.spec_target_pages() <= self.spec_max_pages()
    }

    /// Requests that the guest relinquish `pages` 4 KiB pages, or as many as it may. The device is
    /// to be woken to apply it.
    pub fn set_target_pages(&mut self, pages: u32) -> (r: u32)
        ensures
            r == smaller(pages as int, old(self).spec_max_pages() as int),
            final(self).spec_target_pages() == r,
            final(self).spec_max_pages() == old(self).spec_max_pages(),
            final(self).wf(),
    {
        let clamped: u32 = if pages < self.max_pages {
            pages
        } else {
            self.max_pages
        };
        self.target_pages = clamped;
        clamped
    }

    /// Sets guest usable memory to `target_mib`, given the boot ceiling.
    pub fn set_target_mib(&mut self, target_mib: u32, ceiling_mib: u32) -> (r: u32)
        ensures
            r == smaller(
                pages_of_mib(
                    if ceiling_mib > target_mib {
                        ceiling_mib - target_mib
                    } else {
                        0
                    },
                ),
                old(self).spec_max_pages() as int,
            ),
            final(self).spec_target_pages() == r,
            final(self).spec_max_pages() == old(self).spec_max_pages(),
            final(self).wf(),
    {
        let reclaim_mib: u32 = ceiling_mib.saturating_sub(target_mib);
        self.set_target_pages(mib_to_pages(reclaim_mib))
    }

    /// The most pages that the guest may be asked for.
    pub fn max_pages(&self) -> (r: u32)
        ensures
            r == self.spec_max_pages(),
    {
        self.max_pages
    }

    /// Pages that the guest is asked for.
    pub fn target_pages(&self) -> (r: u32)
        ensures
            r == self.spec_target_pages(),
    {
        self.target_pages
    }
}

/// The balloon device.
pub struct Balloon {
    avail_features: u64,
    acked_features: u64,
    config: VirtioBalloonConfig,
    control: BalloonControl,
    active: bool,
}

impl Balloon {
    pub closed spec fn spec_config(self) -> VirtioBalloonConfig {
        self.config
    }

    pub closed spec fn spec_control(self) -> BalloonControl {
        self.control
    }

    pub closed spec fn spec_avail_features(self) -> u64 {
        self.avail_features
    }

    pub closed spec fn spec_acked_features(self) -> u64 {
        self.acked_features
    }

    pub closed spec fn spec_active(self) -> bool {
        self.active
    }

    /// The guest is never asked for more than the maximum.
    pub open spec fn wf(self) -> bool {
        &&& self.spec_control().wf()
        &&& self.spec_config().num_pages <= self.spec_control().spec_max_pages()
    }

    /// A balloon that asks for its initial target from the start.
    pub fn new(initial_target_pages: u32, max_pages: u32) -> (r: Balloon)
        ensures
            r.wf(),
            r.spec_avail_features() == AVAIL_FEATURES,
            r.spec_acked_features() == 0,
            !r.spec_active(),
            r.spec_control().spec_max_pages() == max_pages,
            r.spec_control().spec_target_pages() == smaller(
                initial_target_pages as int,
                max_pages as int,
            ),
            r.spec_config() == (VirtioBalloonConfig {
                num_pages: r.spec_control().spec_target_pages(),
                actual: 0,
                free_page_report_cmd_id: 0,
                poison_val: 0,
            }),
    {
        let initial: u32 = if initial_target_pages < max_pages {
            initial_target_pages
        } else {
            max_pages
        };
        Balloon {
            avail_features: AVAIL_FEATURES,
            acked_features: 0,
            config: VirtioBalloonConfig {
                num_pages: initial,
                actual: 0,
                free_page_report_cmd_id: 0,
                poison_val: 0,
            },
            control: BalloonControl { target_pages: initial, max_pages },
            active: false,
        }
    }

    /// The handle by which the host sets the target.
    pub fn control(&self) -> (r: BalloonControl)
        ensures
            r == self.spec_control(),
    {
        self.control
    }

    /// The configuration space.
    pub fn config(&self) -> (r: VirtioBalloonConfig)
        ensures
            r == self.spec_config(),
    {
        self.config
    }

    /// Shows the target of a handle to the guest, which is to be told of the change.
    pub fn apply_control_target(&mut self, control: &BalloonControl)
        requires
            old(self).wf(),
        ensures
            final(self).wf(),
            final(self).spec_config() == (VirtioBalloonConfig {
                num_pages: smaller(
                    control.spec_target_pages() as int,
                    old(self).spec_control().spec_max_pages() as int,
                ) as u32,
                ..old(self).spec_config()
            }),
            final(self).spec_control().spec_target_pages() == final(self).spec_config().num_pages,
            final(self).spec_control().spec_max_pages()
                == old(self).spec_control().spec_max_pages(),
            final(self).spec_avail_features() == old(self).spec_avail_features(),
            final(self).spec_acked_features() == old(self).spec_acked_features(),
            final(self).spec_active() == old(self).spec_active(),
    {
        let target: u32 = self.control.set_target_pages(control.target_pages);
        self.config.num_pages = target;
    }

    /// Features on offer.
    pub fn avail_features(&self) -> (r: u64)
        ensures
            r == self.spec_avail_features(),
    {
        self.avail_features
    }

    /// Features that the guest took.
    pub fn acked_features(&self) -> (r: u64)
        ensures
            r == self.spec_acked_features(),
    {
        self.acked_features
    }

    /// The guest took these features.
    pub fn set_acked_features(&mut self, acked_features: u64)
        ensures
            final(self).spec_acked_features() == acked_features,
            final(self).spec_config() == old(self).spec_config(),
            final(self).spec_control() == old(self).spec_control(),
            final(self).spec_avail_features() == old(self).spec_avail_features(),
            final(self).spec_active() == old(self).spec_active(),
    {
        self.acked_features = acked_features;
    }

    /// Copies the part of the configuration space that a guest reads.
    pub fn read_config(&self, offset: u64, data: &mut [u8])
        ensures
            final(data)@ == config_read(self.spec_config().bytes(), offset, old(data)@),
    {
        let bytes: Vec<u8> = self.config.to_bytes();
        read_config_space(bytes.as_slice(), offset, data);
    }

    /// Takes the pages that the guest reports. Nothing else can be written; tells whether it was.
    pub fn write_config(&mut self, offset: u64, data: &[u8]) -> (r: bool)
        ensures
            r == (offset == CONFIG_ACTUAL_OFFSET && data@.len() == 4),
            final(self).spec_config() == if r {
                VirtioBalloonConfig {
                    actual: le_u32(data@, 0) as u32,
                    ..old(self).spec_config()
                }
            } else {
                old(self).spec_config()
            },
            final(self).spec_control() == old(self).spec_control(),
            final(self).spec_avail_features() == old(self).spec_avail_features(),
            final(self).spec_acked_features() == old(self).spec_acked_features(),
            final(self).spec_active() == old(self).spec_active(),
    {
        if offset == CONFIG_ACTUAL_OFFSET && data.len() == 4 {
            self.config.actual = get_le_u32(data, 0);
            true
        } else {
            false
        }
    }

    /// Whether the device can be set up with so many queues. The activation event is then written.
    pub fn accepts_queues(&self, queue_count: usize) -> (r: Result<(), ActivateError>)
        ensures
            r is Ok <==> queue_count == NUM_QUEUES,
    {
        if queue_count == NUM_QUEUES {
            Ok(())
        } else {
            Err(ActivateError::BadActivate)
        }
    }

    /// The activation event was written, or could not be.
    pub fn activate(&mut self, event_written: bool) -> (r: Result<(), ActivateError>)
        ensures
            r is Ok <==> event_written,
            final(self).spec_active() == (old(self).spec_active() || event_written),
            final(self).spec_config() == old(self).spec_config(),
            final(self).spec_control() == old(self).spec_control(),
            final(self).spec_avail_features() == old(self).spec_avail_features(),
            final(self).spec_acked_features() == old(self).spec_acked_features(),
    {
        if event_written {
            self.active = true;
            Ok(())
        } else {
            Err(ActivateError::BadActivate)
        }
    }

    /// Whether the guest has set the device up.
    pub fn is_activated(&self) -> (r: bool)
        ensures
            r == self.spec_active(),
    {
        self.active
    }
}

/// Where the page numbers of a chain stand: four bytes for each, in every descriptor.
pub open spec fn pfn_places(descriptors: Seq<Descriptor>) -> Seq<u64>
    decreases descriptors.len(),
{
    if descriptors.len() == 0 {
        Seq::empty()
    } else {
        let last = descriptors.last();
        pfn_places(descriptors.drop_last()) + Seq::new(
            (last.len / 4) as nat,
            |i: int| (last.addr + 4 * i) as u64,
        )
    }
}

/// No page number stands past the last guest address.
pub open spec fn places_in_range(descriptors: Seq<Descriptor>) -> bool {
    forall|i: int| 0 <= i < descriptors.len() ==> #[trigger] place_in_range(descriptors[i])
}

/// No page number of a descriptor stands past the last guest address.
pub open spec fn place_in_range(descriptor: Descriptor) -> bool {
    descriptor.len / 4 > 0 ==> descriptor.addr + 4 * (descriptor.len / 4 - 1) <= u64::MAX
}

/// Whether no page number of a chain stands past the last guest address.
pub fn places_fit(descriptors: &[Descriptor]) -> (r: bool)
    ensures
        r == places_in_range(descriptors@),
{
    let mut i: usize = 0;
    while i < descriptors.len()
        invariant
            i <= descriptors@.len(),
            forall|j: int| 0 <= j < i ==> #[trigger] place_in_range(descriptors@[j]),
        decreases descriptors@.len() - i,
    {
        let count: u64 = (descriptors[i].len / 4) as u64;
        if count > 0 && descriptors[i].addr > u64::MAX - 4 * (count - 1) {
            assert(!place_in_range(descriptors@[i as int]));
            return false;
        }
        i = i + 1;
    }
    true
}

/// Where the page numbers of a chain stand.
pub fn page_number_places(descriptors: &[Descriptor]) -> (r: Vec<u64>)
    requires
        places_in_range(descriptors@),
    ensures
        r@ == pfn_places(descriptors@),
{
    let mut places: Vec<u64> = Vec::new();
    let mut i: usize = 0;
    assert(descriptors@.take(0) =~= Seq::empty());
    while i < descriptors.len()
        invariant
            places_in_range(descriptors@),
            i <= descriptors@.len(),
            places@ == pfn_places(descriptors@.take(i as int)),
        decreases descriptors@.len() - i,
    {
        let descriptor: Descriptor = descriptors[i];
        let count: u32 = descriptor.len / 4;
        let ghost before = places@;
        let mut k: u32 = 0;
        assert(place_in_range(descriptors@[i as int]));
        assert(places@ =~= before + Seq::new(0, |j: int| (descriptor.addr + 4 * j) as u64));
        while k < count
            invariant
                k <= count,
                count == descriptor.len / 4,
                place_in_range(descriptor),
                places@ == before + Seq::new(k as nat, |j: int| (descriptor.addr + 4 * j) as u64),
            decreases count - k,
        {
            places.push(descriptor.addr + 4 * (k as u64));
            k = k + 1;
            assert(places@ =~= before + Seq::new(
                k as nat,
                |j: int| (descriptor.addr + 4 * j) as u64,
            ));
        }
        assert(descriptors@.take(i + 1).drop_last() =~= descriptors@.take(i as int));
        i = i + 1;
    }
    assert(descriptors@.take(i as int) =~= descriptors@);
    places
}

/// The guest address of a page.
pub fn page_address(pfn: u32) -> (r: u64)
    ensures
        r == pfn * VIRTIO_BALLOON_PAGE_SIZE,
{
    pfn as u64 * VIRTIO_BALLOON_PAGE_SIZE
}

/// Guest addresses that stand for pages.
pub open spec fn page_addresses(pages: Seq<u64>) -> bool {
    forall|i: int|
        0 <= i < pages.len() ==> #[trigger] pages[i] % VIRTIO_BALLOON_PAGE_SIZE as u64 == 0
            && pages[i] < 0x1000_0000_0000
}

/// The pages that a list of page numbers names, in order. Those that could not be read are passed
/// over.
pub open spec fn released(numbers: Seq<Option<u32>>) -> Seq<u64>
    decreases numbers.len(),
{
    if numbers.len() == 0 {
        Seq::empty()
    } else {
        let front = released(numbers.drop_last());
        match numbers.last() {
            None => front,
            Some(pfn) => front.push((pfn * VIRTIO_BALLOON_PAGE_SIZE) as u64),
        }
    }
}

/// The pages that a list of page numbers names, in order.
pub fn release_list(numbers: &[Option<u32>]) -> (r: Vec<u64>)
    ensures
        r@ == released(numbers@),
        page_addresses(r@),
{
    let mut pages: Vec<u64> = Vec::new();
    let mut i: usize = 0;
    assert(numbers@.take(0) =~= Seq::empty());
    while i < numbers.len()
        invariant
            i <= numbers@.len(),
            pages@ == released(numbers@.take(i as int)),
            page_addresses(pages@),
        decreases numbers@.len() - i,
    {
        assert(numbers@.take(i + 1).drop_last() =~= numbers@.take(i as int));
        match numbers[i] {
            None => {},
            Some(pfn) => {
                pages.push(page_address(pfn));
            },
        }
        i = i + 1;
    }
    assert(numbers@.take(i as int) =~= numbers@);
    pages
}

/// A number was read at every place where guest memory holds its four bytes, and at no other.
pub open spec fn read_where_mapped(
    regions: Seq<(u64, u64)>,
    places: Seq<u64>,
    numbers: Seq<Option<u32>>,
) -> bool {
    &&& numbers.len() == places.len()
    &&& forall|i: int|
        0 <= i < places.len() ==> (#[trigger] numbers[i] is Some <==> all_mapped(
            regions,
            places[i],
            4,
        ))
}

/// Each number is what guest memory gave for its place, as a little-endian number.
pub open spec fn numbers_gave(
    mem: GuestMemoryMmap,
    places: Seq<u64>,
    numbers: Seq<Option<u32>>,
) -> bool {
    forall|i: int|
        0 <= i < numbers.len() ==> (#[trigger] numbers[i] matches Some(pfn) ==> number_gave(
            mem,
            places[i],
            pfn,
        ))
}

/// Guest memory gave this little-endian number for a place.
pub open spec fn number_gave(mem: GuestMemoryMmap, place: u64, pfn: u32) -> bool {
    exists|bytes: Seq<u8>| #[trigger] read_gave(mem, place, 4, bytes) && pfn == le_u32(bytes, 0)
}

/// How many of the places lie in guest memory.
pub open spec fn mapped_places(regions: Seq<(u64, u64)>, places: Seq<u64>) -> nat
    decreases places.len(),
{
    if places.len() == 0 {
        0
    } else if all_mapped(regions, places.last(), 4) {
        mapped_places(regions, places.drop_last()) + 1
    } else {
        mapped_places(regions, places.drop_last())
    }
}

/// As many pages are released as there are page numbers that lie in guest memory.
pub proof fn every_mapped_number_releases_a_page(
    regions: Seq<(u64, u64)>,
    places: Seq<u64>,
    numbers: Seq<Option<u32>>,
)
    requires
        read_where_mapped(regions, places, numbers),
    ensures
        released(numbers).len() == mapped_places(regions, places),
    decreases places.len(),
{
    if places.len() > 0 {
        assert(numbers[places.len() - 1] is Some <==> all_mapped(regions, places.last(), 4));
        assert forall|i: int| 0 <= i < places.len() - 1 implies (
        #[trigger] numbers.drop_last()[i] is Some <==> all_mapped(
            regions,
            places.drop_last()[i],
            4,
        )) by {
            assert(numbers[i] is Some <==> all_mapped(regions, places[i], 4));
        }
        every_mapped_number_releases_a_page(regions, places.drop_last(), numbers.drop_last());
    }
}

/// Reads the page numbers that stand at the places.
fn read_page_numbers(mem: &GuestMemoryMmap, places: &[u64]) -> (r: Vec<Option<u32>>)
    ensures
        read_where_mapped(guest_regions(*mem), places@, r@),
        numbers_gave(*mem, places@, r@),
{
    let mut numbers: Vec<Option<u32>> = Vec::new();
    let mut i: usize = 0;
    while i < places.len()
        invariant
            i <= places@.len(),
            numbers@.len() == i,
            forall|j: int|
                0 <= j < i ==> (#[trigger] numbers@[j] is Some <==> all_mapped(
                    guest_regions(*mem),
                    places@[j],
                    4,
                )),
            numbers_gave(*mem, places@, numbers@),
        decreases places@.len() - i,
    {
        match read_at(mem, places[i], 4) {
            None => numbers.push(None),
            Some(bytes) => {
                let pfn: u32 = get_le_u32(bytes.as_slice(), 0);
                assert(number_gave(*mem, places@[i as int], pfn)) by {
                    assert(read_gave(*mem, places@[i as int], 4, bytes@));
                }
                numbers.push(Some(pfn));
            },
        }
        i = i + 1;
    }
    numbers
}

/// The pages that a chain of page numbers gives back to the host: those of an inflation, none of a
/// deflation. Page numbers that cannot be read are passed over.
pub fn pages_to_release(
    mem: &GuestMemoryMmap,
    descriptors: &[Descriptor],
    release_to_host: bool,
) -> (r: Vec<u64>)
    requires
        release_to_host ==> places_in_range(descriptors@),
    ensures
        page_addresses(r@),
        !release_to_host ==> r@.len() == 0,
        release_to_host ==> exists|numbers: Seq<Option<u32>>| #[trigger]
            read_where_mapped(guest_regions(*mem), pfn_places(descriptors@), numbers)
                && numbers_gave(*mem, pfn_places(descriptors@), numbers) && r@ == released(numbers),
        release_to_host ==> r@.len() == mapped_places(
            guest_regions(*mem),
            pfn_places(descriptors@),
        ),
{
    if !release_to_host {
        return Vec::new();
    }
    let places: Vec<u64> = page_number_places(descriptors);
    let numbers: Vec<Option<u32>> = read_page_numbers(mem, places.as_slice());
    proof {
        every_mapped_number_releases_a_page(guest_regions(*mem), places@, numbers@);
    }
    release_list(numbers.as_slice())
}

/// The host asks for memory by the MiB: the guest is asked for the pages between the ceiling and the
/// target, two hundred and fifty-six for each, never for more than it may give, and for none where
/// the target is not below the ceiling.
pub proof fn balloon_takes_what_is_above_the_target(
    control: &mut BalloonControl,
    target_mib: u32,
    ceiling_mib: u32,
    r: u32,
)
    requires
        call_ensures(BalloonControl::set_target_mib, (control, target_mib, ceiling_mib), r),
    ensures
        target_mib >= ceiling_mib ==> r == 0,
        target_mib < ceiling_mib
            && (ceiling_mib - target_mib) * 256 <= old(control).spec_max_pages()
            ==> r == (ceiling_mib - target_mib) * 256,
        target_mib < ceiling_mib
            && (ceiling_mib - target_mib) * 256 > old(control).spec_max_pages()
            ==> r == old(control).spec_max_pages(),
        final(control).spec_target_pages() == r,
        final(control).spec_max_pages() == old(control).spec_max_pages(),
{
}

/// A MiB has two hundred and fifty-six pages of four KiB, as far as a number can count them.
pub proof fn mib_are_counted_in_pages(mib: u32, r: u32)
    requires
        call_ensures(mib_to_pages, (mib,), r),
    ensures
        r < u32::MAX ==> r * 4096 == mib * 1048576,
        mib < 0x100_0000 ==> r == mib * 256,
        mib >= 0x100_0000 ==> r == u32::MAX,
{
}

/// A target that was set is what the guest reads at the start of the configuration space, and what
/// it reports is kept: only its own count, and only as a whole.
pub proof fn guest_sees_the_target_and_reports_back(
    shown: &mut Balloon,
    control: BalloonControl,
    reported: &mut Balloon,
    offset: u64,
    data: &[u8],
    taken: bool,
)
    requires
        shown.wf(),
        call_ensures(Balloon::apply_control_target, (shown, &control), ()),
        call_ensures(Balloon::write_config, (reported, offset, data), taken),
    ensures
        control.spec_target_pages() <= old(shown).spec_control().spec_max_pages()
            ==> final(shown).spec_config().num_pages == control.spec_target_pages(),
        final(shown).spec_config().num_pages <= old(shown).spec_control().spec_max_pages(),
        final(shown).spec_config().actual == old(shown).spec_config().actual,
        le_u32(final(shown).spec_config().bytes(), 0) == final(shown).spec_config().num_pages,
        taken <==> offset == 4 && data@.len() == 4,
        taken ==> final(reported).spec_config().actual == data@[0] + 256 * data@[1] + 65536
            * data@[2] + 16777216 * data@[3],
        !taken ==> final(reported).spec_config() == old(reported).spec_config(),
        final(reported).spec_config().num_pages == old(reported).spec_config().num_pages,
{
    balloon_config_shows_its_fields(final(shown).spec_config());
}

/// A balloon starts with the initial target, held at the maximum, which the guest sees at once.
pub proof fn balloon_starts_at_its_target(initial: u32, max: u32, r: Balloon)
    requires
        call_ensures(Balloon::new, (initial, max), r),
    ensures
        initial <= max ==> r.spec_config().num_pages == initial,
        initial > max ==> r.spec_config().num_pages == max,
        r.spec_config().actual == 0,
        r.spec_control().spec_max_pages() == max,
        r.spec_control().spec_target_pages() == r.spec_config().num_pages,
        r.spec_avail_features() / 0x2 % 2 == 1,
        r.spec_avail_features() / 0x8 % 2 == 1,
        r.spec_avail_features() / 0x20 % 2 == 1,
        r.spec_avail_features() / 0x1_0000_0000 % 2 == 1,
{
}

/// The page numbers of a chain stand four bytes apart, from the start of each descriptor on: the
/// first descriptor's come first, and what fills no number is left out.
pub proof fn page_numbers_fill_their_descriptors(descriptors: &[Descriptor], r: Vec<u64>)
    requires
        places_in_range(descriptors@),
        call_ensures(page_number_places, (descriptors,), r),
        descriptors@.len() == 1,
    ensures
        ({
            let d = descriptors@[0];
            &&& 0 <= d.len - 4 * r@.len() < 4
            &&& forall|i: int| 0 <= i < r@.len() ==> #[trigger] r@[i] == d.addr + 4 * i
        }),
{
    let d = descriptors@[0];
    assert(place_in_range(d));
    assert(descriptors@.drop_last() =~= Seq::empty());
    assert(pfn_places(descriptors@.drop_last()) =~= Seq::<u64>::empty());
    let own = Seq::new((d.len / 4) as nat, |i: int| (d.addr + 4 * i) as u64);
    assert(Seq::<u64>::empty() + own =~= own);
}

/// The places of two chains, one behind the other, are those of the first and then those of the
/// second.
pub proof fn page_numbers_follow_each_other(a: Seq<Descriptor>, b: Seq<Descriptor>)
    ensures
        pfn_places(a + b) == pfn_places(a) + pfn_places(b),
    decreases b.len(),
{
    if b.len() == 0 {
        assert(a + b =~= a);
        assert(pfn_places(a) + pfn_places(b) =~= pfn_places(a));
    } else {
        page_numbers_follow_each_other(a, b.drop_last());
        assert((a + b).drop_last() =~= a + b.drop_last());
        assert(pfn_places(a + b) =~= pfn_places(a) + pfn_places(b));
    }
}

/// A page number names the page that starts four KiB for each number on, and no number that was read
/// is left out, moved or named twice.
pub proof fn released_pages_are_the_numbers(numbers: &[Option<u32>], r: Vec<u64>)
    requires
        call_ensures(release_list, (numbers,), r),
        forall|i: int| 0 <= i < numbers@.len() ==> #[trigger] numbers@[i] is Some,
    ensures
        r@.len() == numbers@.len(),
        forall|i: int| 0 <= i < r@.len() ==> #[trigger] r@[i] == numbers@[i]->Some_0 * 4096,
{
    lemma_all_released(numbers@);
}

proof fn lemma_all_released(numbers: Seq<Option<u32>>)
    requires
        forall|i: int| 0 <= i < numbers.len() ==> #[trigger] numbers[i] is Some,
    ensures
        released(numbers).len() == numbers.len(),
        forall|i: int|
            0 <= i < numbers.len() ==> #[trigger] released(numbers)[i] == numbers[i]->Some_0 * 4096,
    decreases numbers.len(),
{
    if numbers.len() > 0 {
        lemma_all_released(numbers.drop_last());
        assert(numbers[numbers.len() - 1] is Some);
    }
}

/// A deflation gives nothing back to the host, and an inflation of one descriptor whose numbers can
/// all be read gives back one page for each, the page that guest memory names there.
pub proof fn inflation_gives_back_the_named_pages(
    mem: &GuestMemoryMmap,
    descriptors: &[Descriptor],
    release_to_host: bool,
    r: Vec<u64>,
)
    requires
        release_to_host ==> places_in_range(descriptors@),
        call_ensures(pages_to_release, (mem, descriptors, release_to_host), r),
    ensures
        !release_to_host ==> r@.len() == 0,
        release_to_host && (forall|i: int|
            0 <= i < pfn_places(descriptors@).len() ==> all_mapped(
                guest_regions(*mem),
                #[trigger] pfn_places(descriptors@)[i],
                4,
            )) ==> r@.len() == pfn_places(descriptors@).len() && forall|i: int|
            0 <= i < r@.len() ==> page_named(*mem, pfn_places(descriptors@)[i], #[trigger] r@[i]),
{
    let places = pfn_places(descriptors@);
    if release_to_host && (forall|i: int|
        0 <= i < places.len() ==> all_mapped(guest_regions(*mem), #[trigger] places[i], 4)) {
        let numbers = choose|numbers: Seq<Option<u32>>| #[trigger]
            read_where_mapped(guest_regions(*mem), places, numbers) && numbers_gave(
                *mem,
                places,
                numbers,
            ) && r@ == released(numbers);
        assert forall|i: int| 0 <= i < numbers.len() implies #[trigger] numbers[i] is Some by {
            assert(all_mapped(guest_regions(*mem), places[i], 4));
        }
        lemma_all_released(numbers);
        assert forall|i: int| 0 <= i < r@.len() implies page_named(
            *mem,
            places[i],
            #[trigger] r@[i],
        ) by {
            let pfn = numbers[i]->Some_0;
            assert(numbers[i] is Some);
            assert(number_gave(*mem, places[i], pfn));
            assert(r@[i] == released(numbers)[i]);
        }
    }
}

/// Guest memory gave the number of this page for a place.
pub open spec fn page_named(mem: GuestMemoryMmap, place: u64, page: u64) -> bool {
    exists|pfn: u32| #[trigger] number_gave(mem, place, pfn) && page == pfn * 4096
}

/// A target that is asked for is kept, up to what the guest has.
pub proof fn targets_are_kept_up_to_the_guests_size(balloon: &mut BalloonControl, pages: u32, r: u32)
    requires
        call_ensures(BalloonControl::set_target_pages, (balloon, pages), r),
    ensures
        r <= pages && r <= old(balloon).spec_max_pages(),
        r == pages || r == old(balloon).spec_max_pages(),
        final(balloon).spec_target_pages() == r,
        final(balloon).spec_max_pages() == old(balloon).spec_max_pages(),
{
}

/// A balloon offers what it can do, and needs one queue for each part of it: inflating, deflating,
/// statistics, page hints and page reports.
pub proof fn balloons_offer_what_they_do(
    initial: u32,
    max: u32,
    r: Balloon,
    count: usize,
    accepted: Result<(), ActivateError>,
)
    requires
        call_ensures(Balloon::new, (initial, max), r),
        call_ensures(Balloon::accepts_queues, (&r, count), accepted),
    ensures
        r.spec_avail_features() / 2 % 2 == 1,
        r.spec_avail_features() / 8 % 2 == 1,
        r.spec_avail_features() / 32 % 2 == 1,
        r.spec_avail_features() / 0x1_0000_0000 % 2 == 1,
        accepted is Ok <==> count == 5,
{
}

} // verus!

//! The BARs of a passed-through device.

use crate::layout::{PCIE_MMIO32_BASE, PCIE_MMIO64_BASE};
use crate::pci::device::PciBarRegionType;
use vstd::arithmetic::power2::is_pow2;
use vstd::prelude::*;

verus! {

/// Register of the first BAR.
pub const BAR0_REG_IDX: usize = 4;

/// BARs of a device.
pub const NUM_BAR_REGS: usize = 6;

/// Register of the expansion ROM's BAR.
pub const ROM_BAR_REG_IDX: usize = 12;

/// Register that holds the header type.
pub const HEADER_TYPE_REG_IDX: usize = 3;

/// Every bit of the header type register but the one for several functions.
pub const MULTIFUNCTION_MASK: u32 = 0xff7f_ffff;

/// One BAR window of a passed-through device.
#[derive(Clone, Copy, Debug, PartialEq, Eq, Structural)]
pub struct MmioRegion {
    /// Guest physical base allocated for this BAR.
    pub start: u64,
    /// BAR size in bytes.
    pub length: u64,
    /// BAR index.
    pub index: u32,
    pub region_type: PciBarRegionType,
}

impl MmioRegion {
    /// The address is inside the window.
    pub open spec fn holds(self, addr: int) -> bool {
        self.start <= addr < self.start + self.length
    }
}

/// What a physical device says of one BAR.
#[derive(Clone, Copy, Debug, PartialEq, Eq, Structural)]
pub struct BarProbe {
    /// The BAR register.
    pub flags: u32,
    /// Size of the region behind it; zero where there is none.
    pub size: u64,
}

/// The BAR is for port I/O.
pub open spec fn is_io(probe: BarProbe) -> bool {
    probe.flags % 2 == 1
}

/// The BAR takes a 64-bit address.
pub open spec fn is_64(probe: BarProbe) -> bool {
    !is_io(probe) && probe.flags / 2 % 4 == 2
}

/// The BAR may be prefetched.
pub open spec fn is_prefetchable(probe: BarProbe) -> bool {
    !is_io(probe) && probe.flags / 8 % 2 == 1
}

/// The BAR is given a window: it has a size, and is not for port I/O, which the guest lacks.
pub open spec fn needs_window(probe: BarProbe) -> bool {
    probe.size != 0 && !is_io(probe)
}

/// The next multiple of an alignment.
pub open spec fn aligned_up(value: int, align: int) -> int {
    (value + align - 1) / align * align
}

/// The next multiple of an alignment that is a power of two.
pub fn align_up(value: u64, align: u64) -> (r: u64)
    requires
        is_pow2(align as int),
        value + align - 1 <= u64::MAX,
    ensures
        r == aligned_up(value as int, align as int),
        r >= value,
        r % align == 0,
        r < value + align,
{
    proof {
        lemma_pow2_positive(align as int);
    }
    let up: u64 = value + (align - 1);
    let rest: u64 = up % align;
    proof {
        vstd::arithmetic::div_mod::lemma_fundamental_div_mod(up as int, align as int);
        let q = up as int / align as int;
        assert(up - rest == align * q);
        assert(align * q == q * align) by (nonlinear_arith);
        vstd::arithmetic::div_mod::lemma_mod_multiples_basic(q, align as int);
    }
    up - rest
}

fn is_power_of_two(n: u64) -> (r: bool)
    ensures
        r == is_pow2(n as int),
    decreases n,
{
    proof {
        reveal(is_pow2);
    }
    if n == 0 {
        false
    } else if n == 1 {
        true
    } else {
        n % 2 == 0 && is_power_of_two(n / 2)
    }
}

fn fits(cursor: u64, size: u64) -> (r: bool)
    requires
        is_pow2(size as int),
    ensures
        r == window_fits(cursor, size),
{
    proof {
        lemma_pow2_positive(size as int);
    }
    if cursor > u64::MAX - (size - 1) {
        return false;
    }
    align_up(cursor, size) <= u64::MAX - size
}

proof fn lemma_pow2_positive(n: int)
    requires
        is_pow2(n),
    ensures
        n > 0,
{
    reveal(is_pow2);
}

/// A BAR that is to be entered into the emulated configuration space.
#[derive(Clone, Copy, Debug, PartialEq, Eq, Structural)]
pub struct BarRequest {
    pub index: usize,
    pub size: u64,
    pub region_type: PciBarRegionType,
    pub prefetchable: bool,
    pub addr: u64,
}

/// The windows that were handed out so far.
pub struct BarAllocator {
    bar_id: usize,
    mmio32_cursor: u64,
    mmio64_cursor: u64,
    regions: Vec<MmioRegion>,
}

/// The first BAR from `from` on that is given a window.
pub open spec fn next_window(probes: Seq<BarProbe>, from: nat) -> Option<nat>
    decreases NUM_BAR_REGS - from,
{
    if from >= NUM_BAR_REGS {
        None
    } else if needs_window(probes[from as int]) {
        Some(from)
    } else {
        next_window(probes, from + 1)
    }
}

/// The window for a BAR lies below the last address.
pub open spec fn window_fits(cursor: u64, size: u64) -> bool {
    aligned_up(cursor as int, size as int) + size <= u64::MAX && cursor + size - 1 <= u64::MAX
}

impl BarAllocator {
    pub closed spec fn spec_bar_id(self) -> nat {
        self.bar_id as nat
    }

    pub closed spec fn spec_regions(self) -> Seq<MmioRegion> {
        self.regions@
    }

    /// Where the next window of a kind starts, before it is aligned.
    pub closed spec fn cursor(self, wide: bool) -> u64 {
        if wide {
            self.mmio64_cursor
        } else {
            self.mmio32_cursor
        }
    }

    /// Windows of one kind lie below the cursor of that kind and do not overlap.
    pub open spec fn wf(self) -> bool {
        &&& self.cursor(false) >= PCIE_MMIO32_BASE
        &&& self.cursor(true) >= PCIE_MMIO64_BASE
        &&& forall|i: int|
            0 <= i < self.spec_regions().len() ==> {
                let r = #[trigger] self.spec_regions()[i];
                let wide = r.region_type == PciBarRegionType::Memory64BitRegion;
                &&& r.start + r.length <= self.cursor(wide)
                &&& r.start >= if wide {
                    PCIE_MMIO64_BASE
                } else {
                    PCIE_MMIO32_BASE
                }
                &&& r.length > 0
                &&& r.start % r.length == 0
            }
        &&& forall|i: int, j: int|
            0 <= i < j < self.spec_regions().len() && self.spec_regions()[i].region_type
                == self.spec_regions()[j].region_type ==> (#[trigger] self.spec_regions()[i]).start
                + self.spec_regions()[i].length <= (#[trigger] self.spec_regions()[j]).start
    }

    /// An allocator that is about to look at the first BAR.
    pub fn new() -> (r: BarAllocator)
        ensures
            r.wf(),
            r.spec_bar_id() == 0,
            r.spec_regions() == Seq::<MmioRegion>::empty(),
            r.cursor(false) == PCIE_MMIO32_BASE,
            r.cursor(true) == PCIE_MMIO64_BASE,
    {
        BarAllocator {
            bar_id: 0,
            mmio32_cursor: PCIE_MMIO32_BASE,
            mmio64_cursor: PCIE_MMIO64_BASE,
            regions: Vec::new(),
        }
    }

    /// Sizes of memory BARs are powers of two, and their windows fit.
    pub open spec fn accepts(self, probes: Seq<BarProbe>) -> bool {
        &&& probes.len() == NUM_BAR_REGS
        &&& forall|i: int|
            0 <= i < NUM_BAR_REGS && needs_window(probes[i]) ==> is_pow2(
                (#[trigger] probes[i]).size as int,
            ) && window_fits(self.cursor(is_64(probes[i])), probes[i].size)
    }

    /// Whether the next windows can be placed.
    pub fn can_place(&self, probes: &[BarProbe]) -> (r: bool)
        ensures
            r == self.accepts(probes@),
    {
        if probes.len() != NUM_BAR_REGS {
            return false;
        }
        let mut i: usize = 0;
        while i < NUM_BAR_REGS
            invariant
                i <= NUM_BAR_REGS,
                probes@.len() == NUM_BAR_REGS,
                forall|j: int|
                    0 <= j < i && needs_window(probes@[j]) ==> is_pow2(
                        (#[trigger] probes@[j]).size as int,
                    ) && window_fits(self.cursor(is_64(probes@[j])), probes@[j].size),
            decreases NUM_BAR_REGS - i,
        {
            let probe: BarProbe = probes[i];
            if probe.size != 0 && probe.flags % 2 == 0 {
                let cursor: u64 = if probe.flags / 2 % 4 == 2 {
                    self.mmio64_cursor
                } else {
                    self.mmio32_cursor
                };
                if !is_power_of_two(probe.size) || !fits(cursor, probe.size) {
                    assert(needs_window(probes@[i as int]));
                    return false;
                }
            }
            i = i + 1;
        }
        true
    }

    /// The request for BAR `i`.
    pub open spec fn request_for(self, probes: Seq<BarProbe>, i: nat) -> BarRequest {
        let probe = probes[i as int];
        BarRequest {
            index: i as usize,
            size: probe.size,
            region_type: if is_64(probe) {
                PciBarRegionType::Memory64BitRegion
            } else {
                PciBarRegionType::Memory32BitRegion
            },
            prefetchable: is_prefetchable(probe),
            addr: aligned_up(self.cursor(is_64(probe)) as int, probe.size as int) as u64,
        }
    }

    /// Takes the window for the next BAR that needs one. The windows of one kind follow each other,
    /// each aligned to its size.
    pub fn next(&mut self, probes: &[BarProbe]) -> (r: Option<BarRequest>)
        requires
            old(self).wf(),
            old(self).accepts(probes@),
        ensures
            final(self).wf(),
            final(self).spec_regions() == old(self).spec_regions(),
            r is None <==> next_window(probes@, old(self).spec_bar_id()) is None,
            r is None ==> forall|wide: bool| final(self).cursor(wide) == old(self).cursor(wide),
            r matches Some(request) ==> {
                let i = next_window(probes@, old(self).spec_bar_id())->Some_0;
                let wide = is_64(probes@[i as int]);
                &&& request == old(self).request_for(probes@, i)
                &&& final(self).spec_bar_id() == i
                &&& i < NUM_BAR_REGS
                &&& needs_window(probes@[i as int])
                &&& final(self).cursor(wide) == request.addr + request.size
                &&& final(self).cursor(!wide) == old(self).cursor(!wide)
                &&& request.addr >= old(self).cursor(wide)
                &&& request.addr % request.size == 0
            },
    {
        while self.bar_id < NUM_BAR_REGS
            invariant
                self.wf(),
                self.accepts(probes@),
                self.regions == old(self).regions,
                self.mmio32_cursor == old(self).mmio32_cursor,
                self.mmio64_cursor == old(self).mmio64_cursor,
                next_window(probes@, old(self).spec_bar_id()) == next_window(
                    probes@,
                    self.bar_id as nat,
                ),
            decreases NUM_BAR_REGS - self.bar_id,
        {
            let probe: BarProbe = probes[self.bar_id];
            let io: bool = probe.flags % 2 == 1;
            if probe.size != 0 && !io {
                assert(needs_window(probes@[self.bar_id as int]));
                proof {
                    lemma_pow2_positive(probe.size as int);
                }
                let wide: bool = probe.flags / 2 % 4 == 2;
                let cursor: u64 = if wide {
                    self.mmio64_cursor
                } else {
                    self.mmio32_cursor
                };
                let addr: u64 = align_up(cursor, probe.size);
                let ghost regions = self.regions@;
                if wide {
                    self.mmio64_cursor = addr + probe.size;
                } else {
                    self.mmio32_cursor = addr + probe.size;
                }
                assert(self.wf()) by {
                    assert forall|i: int| 0 <= i < self.spec_regions().len() implies ({
                        let r = #[trigger] self.spec_regions()[i];
                        let wide = r.region_type == PciBarRegionType::Memory64BitRegion;
                        &&& r.start + r.length <= self.cursor(wide)
                        &&& r.start >= if wide {
                            PCIE_MMIO64_BASE
                        } else {
                            PCIE_MMIO32_BASE
                        }
                        &&& r.length > 0
                        &&& r.start % r.length == 0
                    }) by {
                        assert(old(self).spec_regions()[i] == self.spec_regions()[i]);
                    }
                }
                return Some(
                    BarRequest {
                        index: self.bar_id,
                        size: probe.size,
                        region_type: if wide {
                            PciBarRegionType::Memory64BitRegion
                        } else {
                            PciBarRegionType::Memory32BitRegion
                        },
                        prefetchable: probe.flags / 8 % 2 == 1,
                        addr,
                    },
                );
            }
            self.bar_id = self.bar_id + 1;
        }
        None
    }

    /// The BAR was entered into the emulated configuration space, or could not be. A 64-bit BAR
    /// takes the next register too.
    pub fn entered(&mut self, request: &BarRequest, added: bool)
        requires
            old(self).wf(),
            old(self).spec_bar_id() < NUM_BAR_REGS,
            request.index == old(self).spec_bar_id(),
            request.size > 0,
            request.addr % request.size == 0,
            request.region_type != PciBarRegionType::IoRegion,
            ({
                let wide = request.region_type == PciBarRegionType::Memory64BitRegion;
                &&& request.addr + request.size == old(self).cursor(wide)
                &&& request.addr >= if wide {
                    PCIE_MMIO64_BASE
                } else {
                    PCIE_MMIO32_BASE
                }
                &&& forall|i: int|
                    0 <= i < old(self).spec_regions().len()
                        && old(self).spec_regions()[i].region_type == request.region_type ==> (
                    #[trigger] old(self).spec_regions()[i]).start + old(self).spec_regions()[i].length <= request.addr
            }),
        ensures
            final(self).wf(),
            forall|wide: bool| final(self).cursor(wide) == old(self).cursor(wide),
            final(self).spec_regions() == if added {
                old(self).spec_regions().push(
                    MmioRegion {
                        start: request.addr,
                        length: request.size,
                        index: request.index as u32,
                        region_type: request.region_type,
                    },
                )
            } else {
                old(self).spec_regions()
            },
            final(self).spec_bar_id() == old(self).spec_bar_id() + if added && request.region_type
                == PciBarRegionType::Memory64BitRegion {
                2nat
            } else {
                1nat
            },
    {
        if !added {
            self.bar_id = self.bar_id + 1;
            assert(forall|i: int| #[trigger] self.spec_regions()[i] == old(self).spec_regions()[i]);
            return ;
        }
        self.regions.push(
            MmioRegion {
                start: request.addr,
                length: request.size,
                index: request.index as u32,
                region_type: request.region_type,
            },
        );
        if request.region_type == PciBarRegionType::Memory64BitRegion {
            self.bar_id = self.bar_id + 2;
        } else {
            self.bar_id = self.bar_id + 1;
        }
        assert(self.wf()) by {
            let n = old(self).spec_regions().len() as int;
            assert forall|i: int| 0 <= i < self.spec_regions().len() implies ({
                let r = #[trigger] self.spec_regions()[i];
                let wide = r.region_type == PciBarRegionType::Memory64BitRegion;
                &&& r.start + r.length <= self.cursor(wide)
                &&& r.start >= if wide {
                    PCIE_MMIO64_BASE
                } else {
                    PCIE_MMIO32_BASE
                }
                &&& r.length > 0
                &&& r.start % r.length == 0
            }) by {
                if i < n {
                    assert(old(self).spec_regions()[i] == self.spec_regions()[i]);
                }
            }
            assert forall|i: int, j: int|
                0 <= i < j < self.spec_regions().len() && self.spec_regions()[i].region_type
                    == self.spec_regions()[j].region_type implies (
            #[trigger] self.spec_regions()[i]).start + self.spec_regions()[i].length <= (
            #[trigger] self.spec_regions()[j]).start by {
                assert(old(self).spec_regions()[i] == self.spec_regions()[i]);
                if j < n {
                    assert(old(self).spec_regions()[j] == self.spec_regions()[j]);
                }
            }
        }
    }

    /// The windows that were handed out.
    pub fn mmio_regions(&self) -> (r: &[MmioRegion])
        ensures
            r@ == self.spec_regions(),
    {
        self.regions.as_slice()
    }

    /// Window `i` is the first one that an address is in.
    pub open spec fn first_holding(self, i: int, addr: int) -> bool {
        &&& 0 <= i < self.spec_regions().len()
        &&& self.spec_regions()[i].holds(addr)
        &&& forall|j: int| 0 <= j < i ==> !(#[trigger] self.spec_regions()[j]).holds(addr)
    }

    /// The first window that an address is in.
    pub fn find_region(&self, addr: u64) -> (r: Option<MmioRegion>)
        requires
            self.wf(),
        ensures
            r matches Some(region) ==> exists|i: int| #[trigger]
                self.first_holding(i, addr as int) && region == self.spec_regions()[i],
            r is None ==> forall|i: int|
                0 <= i < self.spec_regions().len() ==> !(#[trigger] self.spec_regions()[i]).holds(
                    addr as int,
                ),
    {
        let mut i: usize = 0;
        while i < self.regions.len()
            invariant
                self.wf(),
                i <= self.regions@.len(),
                forall|j: int|
                    0 <= j < i ==> !(#[trigger] self.spec_regions()[j]).holds(addr as int),
            decreases self.regions@.len() - i,
        {
            let region: MmioRegion = self.regions[i];
            assert(self.spec_regions()[i as int] == region);
            if addr >= region.start && addr < region.start + region.length {
                assert(self.first_holding(i as int, addr as int));
                return Some(region);
            }
            i = i + 1;
        }
        None
    }

    /// The BAR and the offset in it that an access to a BAR address goes to: those of the first
    /// window that the address is in.
    pub fn bar_access(&self, base: u64, offset: u64) -> (r: Option<(u32, u64)>)
        requires
            self.wf(),
            base + offset <= u64::MAX,
        ensures
            r matches Some(place) ==> exists|i: int| #[trigger]
                self.first_holding(i, base + offset) && place == (
                    self.spec_regions()[i].index,
                    (base + offset - self.spec_regions()[i].start) as u64,
                ),
            r is None ==> forall|i: int|
                0 <= i < self.spec_regions().len() ==> !(#[trigger] self.spec_regions()[i]).holds(
                    base + offset,
                ),
    {
        match self.find_region(base + offset) {
            None => None,
            Some(region) => Some((region.index, base + offset - region.start)),
        }
    }
}

/// What the next BAR is given can be entered right away.
pub proof fn next_window_can_be_entered(before: BarAllocator, after: BarAllocator, request: BarRequest)
    requires
        before.wf(),
        after.spec_regions() == before.spec_regions(),
        request.region_type == PciBarRegionType::Memory32BitRegion || request.region_type
            == PciBarRegionType::Memory64BitRegion,
        request.addr >= before.cursor(
            request.region_type == PciBarRegionType::Memory64BitRegion,
        ),
    ensures
        forall|i: int|
            0 <= i < after.spec_regions().len() && after.spec_regions()[i].region_type
                == request.region_type ==> (#[trigger] after.spec_regions()[i]).start
                + after.spec_regions()[i].length <= request.addr,
        request.addr >= if request.region_type == PciBarRegionType::Memory64BitRegion {
            PCIE_MMIO64_BASE
        } else {
            PCIE_MMIO32_BASE
        },
{
    assert forall|i: int|
        0 <= i < after.spec_regions().len() && after.spec_regions()[i].region_type
            == request.region_type implies (#[trigger] after.spec_regions()[i]).start
        + after.spec_regions()[i].length <= request.addr by {
        assert(before.spec_regions()[i] == after.spec_regions()[i]);
    }
}

/// Whether a register is emulated: the BARs are, everything else is the physical device's.
pub fn is_bar_reg(reg_idx: usize) -> (r: bool)
    ensures
        r == (BAR0_REG_IDX <= reg_idx < BAR0_REG_IDX + NUM_BAR_REGS || reg_idx == ROM_BAR_REG_IDX),
{
    (BAR0_REG_IDX <= reg_idx && reg_idx < BAR0_REG_IDX + NUM_BAR_REGS) || reg_idx
        == ROM_BAR_REG_IDX
}

/// A register of the physical device as the guest sees it: without further functions.
pub fn guest_view(reg_idx: usize, value: u32) -> (r: u32)
    ensures
        r == if reg_idx == HEADER_TYPE_REG_IDX {
            value & MULTIFUNCTION_MASK
        } else {
            value
        },
{
    if reg_idx == HEADER_TYPE_REG_IDX {
        value & MULTIFUNCTION_MASK
    } else {
        value
    }
}

/// Where a register stands in configuration space.
pub fn register_offset(reg_idx: usize, offset: u64) -> (r: u64)
    requires
        reg_idx * 4 + offset <= u64::MAX,
    ensures
        r == reg_idx * 4 + offset,
{
    reg_idx as u64 * 4 + offset
}

/// Vendor and device of a device from its first register.
pub fn vendor_and_device(id_dword: u32) -> (r: (u16, u16))
    ensures
        r.0 == id_dword % 0x1_0000,
        r.1 == id_dword / 0x1_0000,
{
    ((id_dword % 0x1_0000) as u16, (id_dword / 0x1_0000) as u16)
}

/// The window that a BAR is given: that of the next memory BAR with a size, as large as it is,
/// aligned to it, not below what was handed out before, and of the kind that the BAR's own bits say.
pub proof fn next_window_is_the_next_bars(
    bars: &mut BarAllocator,
    probes: &[BarProbe],
    r: Option<BarRequest>,
    skipped: int,
)
    requires
        bars.wf(),
        bars.accepts(probes@),
        call_ensures(BarAllocator::next, (bars, probes), r),
        bars.spec_bar_id() <= skipped < 6,
        r is Some ==> skipped < r->Some_0.index,
    ensures
        r is Some ==> {
            let request = r->Some_0;
            let probe = probes@[request.index as int];
            let wide = probe.flags / 2 % 4 == 2;
            &&& old(bars).spec_bar_id() <= request.index < 6
            &&& probe.size > 0 && probe.flags % 2 == 0
            &&& request.size == probe.size
            &&& request.addr % request.size == 0
            &&& old(bars).cursor(wide) <= request.addr < old(bars).cursor(wide) + request.size
            &&& request.region_type == if wide {
                PciBarRegionType::Memory64BitRegion
            } else {
                PciBarRegionType::Memory32BitRegion
            }
            &&& request.prefetchable == (probe.flags / 8 % 2 == 1)
            &&& final(bars).cursor(wide) == request.addr + request.size
            &&& final(bars).cursor(!wide) == old(bars).cursor(!wide)
            &&& final(bars).spec_bar_id() == request.index
        },
        probes@[skipped].size == 0 || probes@[skipped].flags % 2 == 1,
{
    lemma_skipped(probes@, old(bars).spec_bar_id(), skipped);
    if r is Some {
        let request = r->Some_0;
        let probe = probes@[request.index as int];
        lemma_next_window(probes@, old(bars).spec_bar_id());
        let cursor = old(bars).cursor(is_64(probe)) as int;
        let size = probe.size as int;
        assert(is_pow2(probes@[request.index as int].size as int));
        lemma_pow2_positive(size);
        let q = (cursor + size - 1) / size;
        vstd::arithmetic::div_mod::lemma_fundamental_div_mod(cursor + size - 1, size);
        assert(size * q == q * size) by (nonlinear_arith);
        vstd::arithmetic::div_mod::lemma_mod_multiples_basic(q, size);
        assert(request.addr == q * size);
    }
}

proof fn lemma_skipped(probes: Seq<BarProbe>, from: nat, skipped: int)
    requires
        from <= skipped < 6,
        next_window(probes, from) is Some ==> skipped < next_window(probes, from)->Some_0,
    ensures
        !needs_window(probes[skipped]),
    decreases 6 - from,
{
    if from < skipped && !needs_window(probes[from as int]) {
        lemma_skipped(probes, from + 1, skipped);
    }
}

proof fn lemma_next_window(probes: Seq<BarProbe>, from: nat)
    requires
        next_window(probes, from) is Some,
    ensures
        from <= next_window(probes, from)->Some_0 < 6,
        needs_window(probes[next_window(probes, from)->Some_0 as int]),
    decreases 6 - from,
{
    if !needs_window(probes[from as int]) {
        lemma_next_window(probes, from + 1);
    }
}

/// A BAR that was entered has its window, and a 64-bit one takes the next register too.
pub proof fn entered_bar_has_its_window(bars: &mut BarAllocator, request: BarRequest, added: bool)
    requires
        call_ensures(BarAllocator::entered, (bars, &request, added), ()),
    ensures
        !added ==> final(bars).spec_regions() == old(bars).spec_regions()
            && final(bars).spec_bar_id() == old(bars).spec_bar_id() + 1,
        added ==> {
            let window = final(bars).spec_regions().last();
            &&& final(bars).spec_regions().len() == old(bars).spec_regions().len() + 1
            &&& final(bars).spec_regions().drop_last() == old(bars).spec_regions()
            &&& window.start == request.addr
            &&& window.length == request.size
            &&& request.index < 6 ==> window.index == request.index
            &&& window.region_type == request.region_type
        },
        added && request.region_type is Memory64BitRegion
            ==> final(bars).spec_bar_id() == old(bars).spec_bar_id() + 2,
        added && !(request.region_type is Memory64BitRegion)
            ==> final(bars).spec_bar_id() == old(bars).spec_bar_id() + 1,
{
    if added {
        assert(final(bars).spec_regions().drop_last() =~= old(bars).spec_regions());
    }
}

/// An access to a window reaches the byte of its BAR that stands as far in as the address stands
/// in the window.
pub proof fn bar_accesses_keep_their_distance(
    bars: BarAllocator,
    base: u64,
    offset: u64,
    r: Option<(u32, u64)>,
)
    requires
        bars.wf(),
        base + offset <= u64::MAX,
        call_ensures(BarAllocator::bar_access, (&bars, base, offset), r),
    ensures
        r is Some ==> exists|i: int|
            0 <= i < bars.spec_regions().len() && (#[trigger] bars.spec_regions()[i]).index
                == r->Some_0.0 && bars.spec_regions()[i].start + r->Some_0.1 == base + offset
                && r->Some_0.1 < bars.spec_regions()[i].length,
        (exists|i: int|
            0 <= i < bars.spec_regions().len() && (#[trigger] bars.spec_regions()[i]).start <= base
                + offset < bars.spec_regions()[i].start + bars.spec_regions()[i].length) ==> r
            is Some,
{
    if r is Some {
        let i = choose|i: int| #[trigger]
            bars.first_holding(i, base + offset) && r->Some_0 == (
                bars.spec_regions()[i].index,
                (base + offset - bars.spec_regions()[i].start) as u64,
            );
        assert(bars.spec_regions()[i].holds(base + offset));
    }
}

/// The guest sees every register of the physical device but for the BARs, which are emulated, and
/// the bit for several functions, which is hidden.
pub proof fn guest_sees_the_physical_registers(
    reg_idx: usize,
    emulated: bool,
    value: u32,
    seen: u32,
    place: u64,
    id: (u16, u16),
)
    requires
        reg_idx < 1024,
        call_ensures(is_bar_reg, (reg_idx,), emulated),
        call_ensures(guest_view, (reg_idx, value), seen),
        call_ensures(register_offset, (reg_idx, 0), place),
        call_ensures(vendor_and_device, (value,), id),
    ensures
        emulated <==> 4 <= reg_idx <= 9 || reg_idx == 12,
        reg_idx != 3 ==> seen == value,
        reg_idx == 3 ==> seen == value || seen + 0x80_0000 == value,
        reg_idx == 3 ==> seen / 0x80_0000 % 2 == 0,
        place == 4 * reg_idx,
        id.0 + 0x1_0000 * id.1 == value,
{
    if reg_idx == 3 {
        assert((value & 0xff7f_ffffu32) == value
            || (value & 0xff7f_ffffu32) + 0x80_0000u32 == value)
            by (bit_vector);
        assert((value & 0xff7f_ffffu32) / 0x80_0000 % 2 == 0) by (bit_vector);
    }
}

} // verus!

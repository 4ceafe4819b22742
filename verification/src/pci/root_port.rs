//! A PCIe root port: the bridge between the root bus and a passed-through device.

use crate::pci::device::{BarReprogrammingParams, PciDevice};
use vstd::prelude::*;

verus! {

/// Registers of a configuration space.
pub const NUM_REGS: usize = 1024;

/// Byte `k` of a register, the lowest being the first.
pub open spec fn byte_of(value: u32, k: int) -> u8 {
    if k == 0 {
        (value % 0x100) as u8
    } else if k == 1 {
        (value / 0x100 % 0x100) as u8
    } else if k == 2 {
        (value / 0x1_0000 % 0x100) as u8
    } else {
        (value / 0x100_0000) as u8
    }
}

/// Byte `k` of a register, the lowest being the first.
pub fn register_byte(value: u32, k: usize) -> (r: u8)
    requires
        k < 4,
    ensures
        r == byte_of(value, k as int),
{
    if k == 0 {
        (value % 0x100) as u8
    } else if k == 1 {
        (value / 0x100 % 0x100) as u8
    } else if k == 2 {
        (value / 0x1_0000 % 0x100) as u8
    } else {
        (value / 0x100_0000) as u8
    }
}

/// What a root port reads as when it is made.
pub open spec fn initial_reg(secondary_bus: u8, i: int) -> u32 {
    if i == 0 {
        0x000c_1b36
    } else if i == 1 {
        0x0010_0000
    } else if i == 2 {
        0x0604_0000
    } else if i == 3 {
        0x0001_0000
    } else if i == 6 {
        (secondary_bus * 0x1_0000 + secondary_bus * 0x100) as u32
    } else if i == 7 {
        0x0000_00f0
    } else if i == 9 {
        0x0001_0001
    } else if i == 13 {
        0x0000_0040
    } else if i == 16 {
        0x0042_0010
    } else if i == 19 {
        0x0000_0083
    } else if i == 20 {
        0x0083_0000
    } else {
        0
    }
}

/// The bits of a register that the guest may write.
pub open spec fn writable_bits(i: int) -> u32 {
    if i == 1 || i == 18 || i == 20 || i == 22 || i == 23 {
        0x0000_ffff
    } else if i == 3 {
        0x0000_00ff
    } else if i == 6 {
        0x00ff_ffff
    } else if i == 7 {
        0x0000_f0f0
    } else if i == 8 || i == 9 {
        0xfff0_fff0
    } else if i == 10 || i == 11 || i == 12 {
        0xffff_ffff
    } else if i == 15 {
        0xffff_00ff
    } else {
        0
    }
}

/// Byte `k` of a register after a write: bits that may be written come from the data.
pub open spec fn written_byte(reg: u32, mask: u32, offset: u64, data: Seq<u8>, k: int) -> u8 {
    if offset <= k < offset + data.len() {
        (byte_of(reg, k) & !byte_of(mask, k)) | (data[k - offset] & byte_of(mask, k))
    } else {
        byte_of(reg, k)
    }
}

/// A register after a write.
pub open spec fn written_reg(reg: u32, mask: u32, offset: u64, data: Seq<u8>) -> u32 {
    (written_byte(reg, mask, offset, data, 0) + 0x100 * written_byte(reg, mask, offset, data, 1)
        + 0x1_0000 * written_byte(reg, mask, offset, data, 2) + 0x100_0000 * written_byte(
        reg,
        mask,
        offset,
        data,
        3,
    )) as u32
}

/// The bytes of a register make up its value.
pub proof fn register_is_its_bytes(value: u32)
    ensures
        value == byte_of(value, 0) + 0x100 * byte_of(value, 1) + 0x1_0000 * byte_of(value, 2)
            + 0x100_0000 * byte_of(value, 3),
{
}

proof fn lemma_composed_bytes(b0: u8, b1: u8, b2: u8, b3: u8)
    ensures
        ({
            let v = (b0 + 0x100 * b1 + 0x1_0000 * b2 + 0x100_0000 * b3) as u32;
            &&& byte_of(v, 0) == b0
            &&& byte_of(v, 1) == b1
            &&& byte_of(v, 2) == b2
            &&& byte_of(v, 3) == b3
        }),
{
    let v = b0 + 0x100 * b1 + 0x1_0000 * b2 + 0x100_0000 * b3;
    assert(v / 0x100 == b1 + 0x100 * b2 + 0x1_0000 * b3);
    assert(v / 0x1_0000 == b2 + 0x100 * b3);
    assert(v / 0x100_0000 == b3);
}

proof fn lemma_written_bytes(reg: u32, mask: u32, offset: u64, data: Seq<u8>, k: int)
    requires
        0 <= k < 4,
    ensures
        byte_of(written_reg(reg, mask, offset, data), k) == written_byte(
            reg,
            mask,
            offset,
            data,
            k,
        ),
{
    lemma_composed_bytes(
        written_byte(reg, mask, offset, data, 0),
        written_byte(reg, mask, offset, data, 1),
        written_byte(reg, mask, offset, data, 2),
        written_byte(reg, mask, offset, data, 3),
    );
}

/// PCIe root port with a programmable downstream bus number.
pub struct PciRootPort {
    regs: Vec<u32>,
}

impl PciRootPort {
    /// The registers.
    pub closed spec fn registers(self) -> Seq<u32> {
        self.regs@
    }

    /// All registers are there.
    pub open spec fn wf(self) -> bool {
        self.registers().len() == NUM_REGS
    }

    /// Creates a root port whose secondary (and subordinate) bus is `secondary_bus`.
    pub fn new(secondary_bus: u8) -> (r: PciRootPort)
        ensures
            r.wf(),
            forall|i: int|
                0 <= i < NUM_REGS ==> #[trigger] r.registers()[i] == initial_reg(secondary_bus, i),
    {
        let mut regs: Vec<u32> = vec![0u32; NUM_REGS];
        regs[0] = 0x000c_1b36;
        regs[1] = 0x0010_0000;
        regs[2] = 0x0604_0000;
        regs[3] = 0x0001_0000;
        regs[6] = secondary_bus as u32 * 0x1_0000 + secondary_bus as u32 * 0x100;
        regs[7] = 0x0000_00f0;
        regs[9] = 0x0001_0001;
        regs[13] = 0x0000_0040;
        regs[16] = 0x0042_0010;
        regs[19] = 0x0000_0083;
        regs[20] = 0x0083_0000;
        PciRootPort { regs }
    }

    /// The currently-programmed secondary bus number.
    pub fn secondary_bus(&self) -> (r: u8)
        requires
            self.wf(),
        ensures
            r == byte_of(self.registers()[6], 1),
    {
        register_byte(self.regs[6], 1)
    }

    fn mask(reg_idx: usize) -> (r: u32)
        ensures
            r == writable_bits(reg_idx as int),
    {
        match reg_idx {
            1 | 18 | 20 | 22 | 23 => 0x0000_ffff,
            3 => 0x0000_00ff,
            6 => 0x00ff_ffff,
            7 => 0x0000_f0f0,
            8 | 9 => 0xfff0_fff0,
            10 | 11 | 12 => 0xffff_ffff,
            15 => 0xffff_00ff,
            _ => 0,
        }
    }
}

fn merge_byte(reg: u32, mask: u32, offset: u64, data: &[u8], k: u64) -> (r: u8)
    requires
        k < 4,
    ensures
        r == written_byte(reg, mask, offset, data@, k as int),
{
    let old_byte: u8 = register_byte(reg, k as usize);
    if k >= offset && k - offset < data.len() as u64 {
        let bits: u8 = register_byte(mask, k as usize);
        (old_byte & !bits) | (data[(k - offset) as usize] & bits)
    } else {
        old_byte
    }
}

impl PciDevice for PciRootPort {
    open spec fn reads(&self, reg_idx: usize, value: u32) -> bool {
        value == if reg_idx < self.registers().len() {
            self.registers()[reg_idx as int]
        } else {
            0xffff_ffff
        }
    }

    open spec fn wrote(
        &self,
        reg_idx: usize,
        offset: u64,
        data: Seq<u8>,
        after: &Self,
        moves: Seq<BarReprogrammingParams>,
    ) -> bool {
        &&& moves.len() == 0
        &&& after.registers() == if reg_idx < self.registers().len() {
            self.registers().update(
                reg_idx as int,
                written_reg(
                    self.registers()[reg_idx as int],
                    writable_bits(reg_idx as int),
                    offset,
                    data,
                ),
            )
        } else {
            self.registers()
        }
    }

    open spec fn restored(&self, params: BarReprogrammingParams, after: &Self) -> bool {
        *after == *self
    }

    fn write_config_register(&mut self, reg_idx: usize, offset: u64, data: &[u8]) -> (moves: Vec<
        BarReprogrammingParams,
    >)
    {
        if reg_idx >= self.regs.len() {
            return Vec::new();
        }
        let mask: u32 = PciRootPort::mask(reg_idx);
        let reg: u32 = self.regs[reg_idx];
        let b0: u8 = merge_byte(reg, mask, offset, data, 0);
        let b1: u8 = merge_byte(reg, mask, offset, data, 1);
        let b2: u8 = merge_byte(reg, mask, offset, data, 2);
        let b3: u8 = merge_byte(reg, mask, offset, data, 3);
        self.regs[reg_idx] = b0 as u32 + 0x100 * (b1 as u32) + 0x1_0000 * (b2 as u32) + 0x100_0000
            * (b3 as u32);
        Vec::new()
    }

    fn read_config_register(&self, reg_idx: usize) -> (value: u32)
    {
        if reg_idx < self.regs.len() {
            self.regs[reg_idx]
        } else {
            0xffff_ffff
        }
    }

    fn restore_bar_addr(&mut self, _params: &BarReprogrammingParams) {
    }

    fn id(&self) -> Option<String> {
        None
    }
}

/// Bits that the guest may not write stay as they are, whatever it writes.
pub proof fn read_only_bits_stay(reg: u32, mask: u32, offset: u64, data: Seq<u8>, k: int)
    requires
        0 <= k < 4,
    ensures
        byte_of(written_reg(reg, mask, offset, data), k) & !byte_of(mask, k) == byte_of(reg, k)
            & !byte_of(mask, k),
{
    lemma_written_bytes(reg, mask, offset, data, k);
    if offset <= k < offset + data.len() {
        lemma_masked_byte(byte_of(reg, k), byte_of(mask, k), data[k - offset]);
    }
}

proof fn lemma_masked_byte(old_byte: u8, bits: u8, byte: u8)
    ensures
        ((old_byte & !bits) | (byte & bits)) & !bits == old_byte & !bits,
        bits == 0xff ==> (old_byte & !bits) | (byte & bits) == byte,
{
    assert(((old_byte & !bits) | (byte & bits)) & !bits == old_byte & !bits) by (bit_vector);
    assert(bits == 0xff ==> (old_byte & !bits) | (byte & bits) == byte) by (bit_vector);
}

/// A byte whose bits may all be written reads back as it was written.
pub proof fn writable_byte_reads_back(reg: u32, mask: u32, offset: u64, data: Seq<u8>, k: int)
    requires
        0 <= k < 4,
        offset <= k < offset + data.len(),
        byte_of(mask, k) == 0xff,
    ensures
        byte_of(written_reg(reg, mask, offset, data), k) == data[k - offset],
{
    lemma_written_bytes(reg, mask, offset, data, k);
    lemma_masked_byte(byte_of(reg, k), byte_of(mask, k), data[k - offset]);
}

/// The guest programs the secondary bus number with a byte write to its place.
pub proof fn secondary_bus_is_programmable(port: PciRootPort, bus: u8, after: PciRootPort)
    requires
        port.wf(),
        port.wrote(6, 1, seq![bus], &after, Seq::empty()),
    ensures
        after.wf(),
        byte_of(after.registers()[6], 1) == bus,
        byte_of(after.registers()[6], 0) == byte_of(port.registers()[6], 0),
        byte_of(after.registers()[6], 2) == byte_of(port.registers()[6], 2),
        byte_of(after.registers()[6], 3) == byte_of(port.registers()[6], 3),
{
    let reg = port.registers()[6];
    writable_byte_reads_back(reg, writable_bits(6), 1, seq![bus], 1);
    lemma_written_bytes(reg, writable_bits(6), 1, seq![bus], 0);
    lemma_written_bytes(reg, writable_bits(6), 1, seq![bus], 2);
    lemma_written_bytes(reg, writable_bits(6), 1, seq![bus], 3);
}

/// A root port says that it is a bridge of a known vendor with a capability list, that the list holds
/// a PCI Express capability for a root port, and that the bus behind it has the given number.
pub proof fn root_port_says_what_it_is(secondary_bus: u8, r: PciRootPort, number: u8)
    requires
        call_ensures(PciRootPort::new, (secondary_bus,), r),
        call_ensures(PciRootPort::secondary_bus, (&r,), number),
    ensures
        number == secondary_bus,
        r.registers()[0] % 0x1_0000 == 0x1b36,
        r.registers()[0] / 0x1_0000 == 0x000c,
        r.registers()[1] / 0x10_0000 % 2 == 1,
        r.registers()[2] / 0x1_0000 == 0x0604,
        r.registers()[3] / 0x1_0000 % 0x80 == 1,
        r.registers()[6] % 0x100 == 0,
        r.registers()[6] / 0x1_0000 % 0x100 == secondary_bus,
        r.registers()[13] % 0x100 == 0x40,
        r.registers()[16] % 0x100 == 0x10,
        r.registers()[16] / 0x100 % 0x100 == 0,
        r.registers()[16] / 0x1_0000 % 16 == 2,
        r.registers()[16] / 0x10_0000 % 16 == 4,
{
    assert(r.registers()[0] == initial_reg(secondary_bus, 0));
    assert(r.registers()[1] == initial_reg(secondary_bus, 1));
    assert(r.registers()[2] == initial_reg(secondary_bus, 2));
    assert(r.registers()[3] == initial_reg(secondary_bus, 3));
    assert(r.registers()[6] == initial_reg(secondary_bus, 6));
    assert(r.registers()[13] == initial_reg(secondary_bus, 13));
    assert(r.registers()[16] == initial_reg(secondary_bus, 16));
}

/// A guest that writes a register of a root port changes that register alone, and there only the
/// bytes that it writes. Identity and class cannot be written; bus numbers can.
pub proof fn root_port_keeps_the_rest(
    port: PciRootPort,
    reg_idx: usize,
    offset: u64,
    data: Seq<u8>,
    after: PciRootPort,
    other: int,
    k: int,
)
    requires
        port.wf(),
        port.wrote(reg_idx, offset, data, &after, Seq::empty()),
        0 <= other < NUM_REGS,
        0 <= k < 4,
    ensures
        after.wf(),
        other != reg_idx ==> after.registers()[other] == port.registers()[other],
        other == reg_idx && !(offset <= k < offset + data.len()) ==> byte_of(
            after.registers()[other],
            k,
        ) == byte_of(port.registers()[other], k),
        other == reg_idx && (reg_idx == 0 || reg_idx == 2 || reg_idx == 13 || reg_idx == 16)
            ==> after.registers()[other] == port.registers()[other],
        other == reg_idx && reg_idx == 6 && k < 3 && offset <= k < offset + data.len() ==> byte_of(
            after.registers()[6],
            k,
        ) == data[k - offset],
        other == reg_idx && 10 <= reg_idx <= 12 && offset <= k < offset + data.len() ==> byte_of(
            after.registers()[other],
            k,
        ) == data[k - offset],
{
    if other == reg_idx {
        let reg = port.registers()[other];
        let mask = writable_bits(other);
        lemma_written_bytes(reg, mask, offset, data, k);
        if offset <= k < offset + data.len() && byte_of(mask, k) == 0xff {
            writable_byte_reads_back(reg, mask, offset, data, k);
        }
        if reg_idx == 0 || reg_idx == 2 || reg_idx == 13 || reg_idx == 16 {
            lemma_unwritable(reg, offset, data);
        }
    }
}

proof fn lemma_unwritable(reg: u32, offset: u64, data: Seq<u8>)
    ensures
        written_reg(reg, 0, offset, data) == reg,
{
    assert forall|k: int| 0 <= k < 4 implies #[trigger] written_byte(reg, 0, offset, data, k)
        == byte_of(reg, k) by {
        let b = byte_of(reg, k);
        let d = data[k - offset];
        assert(byte_of(0, k) == 0);
        assert((b & !0u8) | (d & 0u8) == b) by (bit_vector);
    }
    assert(written_byte(reg, 0, offset, data, 0) == byte_of(reg, 0));
    assert(written_byte(reg, 0, offset, data, 1) == byte_of(reg, 1));
    assert(written_byte(reg, 0, offset, data, 2) == byte_of(reg, 2));
    assert(written_byte(reg, 0, offset, data, 3) == byte_of(reg, 3));
    register_is_its_bytes(reg);
}

} // verus!

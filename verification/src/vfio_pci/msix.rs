//! The MSI-X capability of a passed-through device and the table that the guest programs.

use crate::bytes::{
    get_le_u16, get_le_u32, le_u16, le_u32, le_u32_read_after_write, put_le_u32, same_outside,
    with_le_u32,
};
use vstd::prelude::*;

verus! {

/// PCI capability id for MSI-X.
pub const PCI_CAP_ID_MSIX: u8 = 0x11;

/// Where the pointer to the first capability stands.
pub const PCI_CAPABILITY_LIST: u64 = 0x34;

/// Where the status register stands.
pub const PCI_STATUS: u64 = 0x06;

/// The status bit for capabilities.
pub const PCI_STATUS_CAP_LIST: u16 = 0x10;

/// Bytes in a table entry.
pub const MSIX_TABLE_ENTRY_SIZE: u64 = 16;

/// Capabilities that a configuration space has room for.
pub const MAX_CAPABILITIES: u32 = 48;

/// One table entry.
#[derive(Clone, Copy, Debug, PartialEq, Eq, Structural)]
pub struct MsixTableEntry {
    pub msg_addr_lo: u32,
    pub msg_addr_hi: u32,
    pub msg_data: u32,
    pub vector_ctl: u32,
}

impl Default for MsixTableEntry {
    fn default() -> (r: MsixTableEntry)
        ensures
            r == (MsixTableEntry { msg_addr_lo: 0, msg_addr_hi: 0, msg_data: 0, vector_ctl: 0 }),
    {
        MsixTableEntry { msg_addr_lo: 0, msg_addr_hi: 0, msg_data: 0, vector_ctl: 0 }
    }
}

/// The entry that sixteen bytes hold.
pub open spec fn entry_of_bytes(b: Seq<u8>) -> MsixTableEntry {
    MsixTableEntry {
        msg_addr_lo: le_u32(b, 0) as u32,
        msg_addr_hi: le_u32(b, 4) as u32,
        msg_data: le_u32(b, 8) as u32,
        vector_ctl: le_u32(b, 12) as u32,
    }
}

impl MsixTableEntry {
    /// The bytes of the entry: its fields one behind the other.
    pub open spec fn bytes(self) -> Seq<u8> {
        let s = Seq::new(16, |i: int| 0u8);
        let s = with_le_u32(s, 0, self.msg_addr_lo as int);
        let s = with_le_u32(s, 4, self.msg_addr_hi as int);
        let s = with_le_u32(s, 8, self.msg_data as int);
        with_le_u32(s, 12, self.vector_ctl as int)
    }

    /// The per-vector mask bit.
    pub fn masked(&self) -> (r: bool)
        ensures
            r == (self.vector_ctl % 2 == 1),
    {
        self.vector_ctl % 2 == 1
    }

    /// The bytes of the entry.
    pub fn to_bytes(self) -> (r: Vec<u8>)
        ensures
            r@ == self.bytes(),
            r@.len() == 16,
    {
        let mut b: Vec<u8> = vec![0u8; 16];
        assert(b@ =~= Seq::new(16, |i: int| 0u8));
        {
            let slice = b.as_mut_slice();
            put_le_u32(slice, 0, self.msg_addr_lo);
            put_le_u32(slice, 4, self.msg_addr_hi);
            put_le_u32(slice, 8, self.msg_data);
            put_le_u32(slice, 12, self.vector_ctl);
        }
        b
    }

    /// The entry that sixteen bytes hold.
    pub fn from_bytes(b: &[u8]) -> (r: MsixTableEntry)
        requires
            b@.len() == 16,
        ensures
            r == entry_of_bytes(b@),
    {
        MsixTableEntry {
            msg_addr_lo: get_le_u32(b, 0),
            msg_addr_hi: get_le_u32(b, 4),
            msg_data: get_le_u32(b, 8),
            vector_ctl: get_le_u32(b, 12),
        }
    }
}

/// An entry comes back from its bytes.
pub proof fn entry_survives_its_bytes(entry: MsixTableEntry)
    ensures
        entry.bytes().len() == 16,
        entry_of_bytes(entry.bytes()) == entry,
{
    let s0 = Seq::new(16, |i: int| 0u8);
    let s1 = with_le_u32(s0, 0, entry.msg_addr_lo as int);
    let s2 = with_le_u32(s1, 4, entry.msg_addr_hi as int);
    let s3 = with_le_u32(s2, 8, entry.msg_data as int);
    le_u32_read_after_write(s0, 0, entry.msg_addr_lo as int);
    le_u32_read_after_write(s1, 4, entry.msg_addr_hi as int);
    le_u32_read_after_write(s2, 8, entry.msg_data as int);
    le_u32_read_after_write(s3, 12, entry.vector_ctl as int);
}

proof fn lemma_four_bytes(b: Seq<u8>, at: int)
    requires
        0 <= at,
        at + 4 <= b.len(),
    ensures
        ({
            let v = le_u32(b, at);
            &&& 0 <= v < 0x1_0000_0000
            &&& v % 0x100 == b[at]
            &&& v / 0x100 % 0x100 == b[at + 1]
            &&& v / 0x1_0000 % 0x100 == b[at + 2]
            &&& v / 0x100_0000 == b[at + 3]
        }),
{
    let v = b[at] + 0x100 * b[at + 1] + 0x1_0000 * b[at + 2] + 0x100_0000 * b[at + 3];
    assert(v == le_u32(b, at));
    assert(v / 0x100 == b[at + 1] + 0x100 * b[at + 2] + 0x1_0000 * b[at + 3]);
    assert(v / 0x1_0000 == b[at + 2] + 0x100 * b[at + 3]);
    assert(v / 0x100_0000 == b[at + 3]);
}

/// Sixteen bytes come back from the entry that they hold.
pub proof fn bytes_survive_their_entry(b: Seq<u8>)
    requires
        b.len() == 16,
    ensures
        entry_of_bytes(b).bytes() == b,
{
    lemma_four_bytes(b, 0);
    lemma_four_bytes(b, 4);
    lemma_four_bytes(b, 8);
    lemma_four_bytes(b, 12);
    let e = entry_of_bytes(b);
    let s0 = Seq::new(16, |i: int| 0u8);
    let s1 = with_le_u32(s0, 0, e.msg_addr_lo as int);
    let s2 = with_le_u32(s1, 4, e.msg_addr_hi as int);
    let s3 = with_le_u32(s2, 8, e.msg_data as int);
    let s4 = with_le_u32(s3, 12, e.vector_ctl as int);
    lemma_word_bytes(s0, 0, b);
    lemma_word_bytes(s1, 4, b);
    lemma_word_bytes(s2, 8, b);
    lemma_word_bytes(s3, 12, b);
    assert forall|i: int| 0 <= i < 16 implies s4[i] == b[i] by {
        assert(i < 4 ==> s1[i] == b[i] && s2[i] == s1[i] && s3[i] == s2[i] && s4[i] == s3[i]);
        assert(4 <= i < 8 ==> s2[i] == b[i] && s3[i] == s2[i] && s4[i] == s3[i]);
        assert(8 <= i < 12 ==> s3[i] == b[i] && s4[i] == s3[i]);
    }
    assert(s4 =~= b);
}

proof fn lemma_word_bytes(s: Seq<u8>, at: int, b: Seq<u8>)
    requires
        s.len() == 16,
        b.len() == 16,
        0 <= at,
        at + 4 <= 16,
    ensures
        ({
            let w = with_le_u32(s, at, le_u32(b, at));
            &&& w.len() == 16
            &&& w[at] == b[at]
            &&& w[at + 1] == b[at + 1]
            &&& w[at + 2] == b[at + 2]
            &&& w[at + 3] == b[at + 3]
            &&& same_outside(s, w, at, 4)
        }),
{
    lemma_four_bytes(b, at);
    le_u32_read_after_write(s, at, le_u32(b, at));
    let w = with_le_u32(s, at, le_u32(b, at));
    lemma_four_bytes(w, at);
}

/// The MSI-X capability and the shadow of its table.
pub struct MsixState {
    /// Byte offset of the capability in configuration space.
    pub cap_offset: u64,
    /// Shadow of the message-control register.
    pub msg_ctl: u16,
    /// BAR that holds the table.
    pub table_bir: u32,
    /// Offset of the table within that BAR.
    pub table_offset: u64,
    /// BAR that holds the pending bits.
    pub pba_bir: u32,
    /// Offset of the pending bits within that BAR.
    pub pba_offset: u64,
    /// Number of vectors.
    pub table_size: u16,
    /// Shadow table entries.
    pub entries: Vec<MsixTableEntry>,
}

/// A 16-bit register of a configuration space.
pub open spec fn config_u16(config: Seq<u8>, at: int) -> int {
    if at + 2 <= config.len() {
        le_u16(config, at)
    } else {
        0
    }
}

/// A 32-bit register of a configuration space.
pub open spec fn config_u32(config: Seq<u8>, at: int) -> int {
    if at + 4 <= config.len() {
        le_u32(config, at)
    } else {
        0
    }
}

fn read_config_u16(config: &[u8], at: usize) -> (r: u16)
    requires
        at <= 0x1000,
    ensures
        r == config_u16(config@, at as int),
{
    if at + 2 <= config.len() {
        get_le_u16(config, at)
    } else {
        0
    }
}

fn read_config_u32(config: &[u8], at: usize) -> (r: u32)
    requires
        at <= 0x1000,
    ensures
        r == config_u32(config@, at as int),
{
    if at + 4 <= config.len() {
        get_le_u32(config, at)
    } else {
        0
    }
}

/// Where a pointer byte points: capabilities start at multiples of four.
pub open spec fn cap_pointer(byte: int) -> int {
    byte / 4 * 4
}

/// Where the first MSI-X capability stands from `ptr` on, looking at no more than `steps`.
pub open spec fn find_msix(config: Seq<u8>, ptr: int, steps: nat) -> Option<int>
    decreases steps,
{
    if steps == 0 || ptr == 0 {
        None
    } else if config_u16(config, ptr) % 0x100 == PCI_CAP_ID_MSIX {
        Some(ptr)
    } else {
        find_msix(config, cap_pointer(config_u16(config, ptr) / 0x100), (steps - 1) as nat)
    }
}

/// Where the MSI-X capability of a configuration space stands, if there is one.
pub open spec fn msix_at(config: Seq<u8>) -> Option<int> {
    let first = cap_pointer(
        if PCI_CAPABILITY_LIST < config.len() {
            config[PCI_CAPABILITY_LIST as int] as int
        } else {
            0
        },
    );
    if config_u16(config, PCI_STATUS as int) / 0x10 % 2 == 0 {
        None
    } else {
        find_msix(config, first, MAX_CAPABILITIES as nat)
    }
}

/// The state that a capability starts with: every vector masked.
pub open spec fn starts_as(state: MsixState, config: Seq<u8>, at: int) -> bool {
    let msg_ctl = config_u16(config, at + 2);
    let table = config_u32(config, at + 4);
    let pba = config_u32(config, at + 8);
    &&& state.cap_offset == at
    &&& state.msg_ctl == msg_ctl
    &&& state.table_size == msg_ctl % 0x800 + 1
    &&& state.table_bir == table % 8
    &&& state.table_offset == table / 8 * 8
    &&& state.pba_bir == pba % 8
    &&& state.pba_offset == pba / 8 * 8
    &&& state.entries@.len() == state.table_size
    &&& forall|i: int|
        0 <= i < state.entries@.len() ==> #[trigger] state.entries@[i] == (MsixTableEntry {
            msg_addr_lo: 0,
            msg_addr_hi: 0,
            msg_data: 0,
            vector_ctl: 1,
        })
}

impl MsixState {
    /// One entry for every vector, and a table that ends below the last address.
    pub open spec fn wf(self) -> bool {
        &&& self.entries@.len() == self.table_size
        &&& 1 <= self.table_size <= 0x800
        &&& self.table_offset <= u32::MAX
    }

    /// Walks the capability list of a configuration space and takes its MSI-X capability, if there
    /// is one.
    pub fn parse(config: &[u8]) -> (r: Option<MsixState>)
        ensures
            r is Some <==> msix_at(config@) is Some,
            r matches Some(state) ==> state.wf() && starts_as(
                state,
                config@,
                msix_at(config@)->Some_0,
            ),
    {
        let status: u16 = read_config_u16(config, 6);
        if status / 0x10 % 2 == 0 {
            return None;
        }
        let first: u8 = if config.len() > 0x34 {
            config[0x34]
        } else {
            0
        };
        let mut ptr: usize = (first / 4 * 4) as usize;
        let mut left: u32 = MAX_CAPABILITIES;
        while left > 0 && ptr != 0
            invariant
                left <= MAX_CAPABILITIES,
                ptr <= 0xfc,
                msix_at(config@) == find_msix(config@, ptr as int, left as nat),
            decreases left,
        {
            let header: u16 = read_config_u16(config, ptr);
            if header % 0x100 == PCI_CAP_ID_MSIX as u16 {
                let msg_ctl: u16 = read_config_u16(config, ptr + 2);
                let table_size: u16 = msg_ctl % 0x800 + 1;
                let table: u32 = read_config_u32(config, ptr + 4);
                let pba: u32 = read_config_u32(config, ptr + 8);
                let entries: Vec<MsixTableEntry> = vec![
                    MsixTableEntry { msg_addr_lo: 0, msg_addr_hi: 0, msg_data: 0, vector_ctl: 1 };
                    table_size as usize
                ];
                return Some(
                    MsixState {
                        cap_offset: ptr as u64,
                        msg_ctl,
                        table_bir: table % 8,
                        table_offset: (table / 8 * 8) as u64,
                        pba_bir: pba % 8,
                        pba_offset: (pba / 8 * 8) as u64,
                        table_size,
                        entries,
                    },
                );
            }
            let next: u16 = header / 0x100;
            ptr = (next / 4 * 4) as usize;
            left = left - 1;
        }
        None
    }

    /// Whether MSI-X is enabled.
    pub fn enabled(&self) -> (r: bool)
        ensures
            r == (self.msg_ctl / 0x8000 == 1),
    {
        self.msg_ctl / 0x8000 == 1
    }

    /// Whether all vectors are masked together.
    pub fn function_masked(&self) -> (r: bool)
        ensures
            r == (self.msg_ctl / 0x4000 % 2 == 1),
    {
        self.msg_ctl / 0x4000 % 2 == 1
    }

    /// Offset and size of the table within its BAR.
    pub fn table_range(&self) -> (r: (u64, u64))
        ensures
            r.0 == self.table_offset,
            r.1 == self.table_size * MSIX_TABLE_ENTRY_SIZE,
    {
        (self.table_offset, self.table_size as u64 * MSIX_TABLE_ENTRY_SIZE)
    }

    /// Whether an access to a BAR touches the table.
    pub fn table_accessed(&self, bir: u32, bar_offset: u64, len: u64) -> (r: bool)
        requires
            self.wf(),
            bir == self.table_bir && bar_offset < self.table_offset + self.table_size * 16
                ==> bar_offset + len <= u64::MAX,
        ensures
            r == (bir == self.table_bir && bar_offset < self.table_offset + self.table_size * 16
                && bar_offset + len > self.table_offset),
    {
        if bir != self.table_bir {
            return false;
        }
        let (start, size) = self.table_range();
        bar_offset < start + size && bar_offset + len > start
    }

    /// Where an access stands in the table; one that starts before it is taken to start with it.
    pub open spec fn relative(self, bar_offset: u64) -> int {
        if bar_offset > self.table_offset {
            bar_offset - self.table_offset
        } else {
            0
        }
    }

    /// Byte `at` of the table; behind its end it reads as all ones.
    pub open spec fn table_byte(self, at: int) -> u8 {
        if at / 16 < self.entries@.len() {
            self.entries@[at / 16].bytes()[at % 16]
        } else {
            0xff
        }
    }

    /// Serves a read of the shadow table.
    pub fn read_table(&self, bar_offset: u64, data: &mut [u8])
        requires
            self.relative(bar_offset) + old(data)@.len() <= u64::MAX,
        ensures
            final(data)@.len() == old(data)@.len(),
            forall|i: int|
                0 <= i < old(data)@.len() ==> #[trigger] final(data)@[i] == self.table_byte(
                    self.relative(bar_offset) + i,
                ),
    {
        let rel: u64 = bar_offset.saturating_sub(self.table_offset);
        let len: usize = data.len();
        let mut i: usize = 0;
        while i < len
            invariant
                i <= len,
                len == data@.len(),
                data@.len() == old(data)@.len(),
                rel == self.relative(bar_offset),
                rel + len <= u64::MAX,
                forall|j: int| 0 <= j < i ==> #[trigger] data@[j] == self.table_byte(rel + j),
            decreases len - i,
        {
            let at: u64 = rel + i as u64;
            let idx: u64 = at / MSIX_TABLE_ENTRY_SIZE;
            let within: usize = (at % MSIX_TABLE_ENTRY_SIZE) as usize;
            if idx < self.entries.len() as u64 {
                let bytes: Vec<u8> = self.entries[idx as usize].to_bytes();
                data[i] = bytes[within];
            } else {
                data[i] = 0xff;
            }
            i = i + 1;
        }
    }

    /// The entries after the first `n` bytes of a write that starts at byte `rel` of the table.
    pub open spec fn written(entries: Seq<MsixTableEntry>, rel: int, data: Seq<u8>, n: nat) -> Seq<
        MsixTableEntry,
    >
        decreases n,
    {
        if n == 0 {
            entries
        } else {
            let before = Self::written(entries, rel, data, (n - 1) as nat);
            let at = rel + n - 1;
            if at / 16 < before.len() {
                before.update(
                    at / 16,
                    entry_of_bytes(before[at / 16].bytes().update(at % 16, data[n - 1])),
                )
            } else {
                before
            }
        }
    }

    /// The vectors that the first `n` bytes of a write touch, each once, in order.
    pub open spec fn touched(count: nat, rel: int, n: nat) -> Seq<usize>
        decreases n,
    {
        if n == 0 {
            Seq::empty()
        } else {
            let before = Self::touched(count, rel, (n - 1) as nat);
            let idx = (rel + n - 1) / 16;
            if idx < count && !before.contains(idx as usize) {
                before.push(idx as usize)
            } else {
                before
            }
        }
    }

    /// A write of `n` bytes from byte `rel` of the table on reaches a byte of vector `idx`.
    pub open spec fn meets(rel: int, n: nat, idx: int) -> bool {
        exists|at: int| rel <= at < rel + n && #[trigger] (at / 16) == idx
    }

    /// Applies a write to the shadow table. Returns the vectors that it touches.
    pub fn write_table(&mut self, bar_offset: u64, data: &[u8]) -> (affected: Vec<usize>)
        requires
            old(self).relative(bar_offset) + data@.len() <= u64::MAX,
        ensures
            *final(self) == (MsixState { entries: final(self).entries, ..*old(self) }),
            final(self).entries@ == Self::written(
                old(self).entries@,
                old(self).relative(bar_offset),
                data@,
                data@.len(),
            ),
            final(self).entries@.len() == old(self).entries@.len(),
            affected@ == Self::touched(
                old(self).entries@.len(),
                old(self).relative(bar_offset),
                data@.len(),
            ),
            forall|i: int, j: int| 0 <= i < j < affected@.len() ==> affected@[i] < affected@[j],
            forall|idx: usize| #[trigger]
                affected@.contains(idx) <==> idx < old(self).entries@.len() && Self::meets(
                    old(self).relative(bar_offset),
                    data@.len(),
                    idx as int,
                ),
    {
        let rel: u64 = bar_offset.saturating_sub(self.table_offset);
        let ghost count = self.entries@.len();
        let mut affected: Vec<usize> = Vec::new();
        let mut i: usize = 0;
        while i < data.len()
            invariant
                i <= data@.len(),
                rel == old(self).relative(bar_offset),
                rel + data@.len() <= u64::MAX,
                *self == (MsixState { entries: self.entries, ..*old(self) }),
                count == old(self).entries@.len(),
                self.entries@.len() == count,
                self.entries@ == Self::written(old(self).entries@, rel as int, data@, i as nat),
                affected@ == Self::touched(count, rel as int, i as nat),
            decreases data@.len() - i,
        {
            let at: u64 = rel + i as u64;
            let idx: u64 = at / MSIX_TABLE_ENTRY_SIZE;
            let within: usize = (at % MSIX_TABLE_ENTRY_SIZE) as usize;
            if idx < self.entries.len() as u64 {
                let index: usize = idx as usize;
                let mut bytes: Vec<u8> = self.entries[index].to_bytes();
                bytes[within] = data[i];
                self.entries[index] = MsixTableEntry::from_bytes(bytes.as_slice());
                if !contains_index(affected.as_slice(), index) {
                    affected.push(index);
                }
            }
            i = i + 1;
        }
        proof {
            assert(count == self.entries.len());
            affected_vectors_are_those_touched(count, rel as int, data@.len());
        }
        affected
    }
}

/// The vectors that a write touches are listed in increasing order, and are exactly those of the
/// table whose bytes it reaches.
pub proof fn affected_vectors_are_those_touched(count: nat, rel: int, n: nat)
    requires
        rel >= 0,
        count <= usize::MAX,
    ensures
        forall|i: int, j: int|
            0 <= i < j < MsixState::touched(count, rel, n).len() ==> MsixState::touched(
                count,
                rel,
                n,
            )[i] < MsixState::touched(count, rel, n)[j],
        forall|idx: usize| #[trigger]
            MsixState::touched(count, rel, n).contains(idx) <==> idx < count && MsixState::meets(
                rel,
                n,
                idx as int,
            ),
{
    lemma_touched(count, rel, n);
    let list = MsixState::touched(count, rel, n);
    assert forall|idx: usize| #[trigger]
        list.contains(idx) <==> idx < count && MsixState::meets(rel, n, idx as int) by {
        if idx < count && MsixState::meets(rel, n, idx as int) {
            let at = choose|at: int| rel <= at < rel + n && #[trigger] (at / 16) == idx;
            assert(rel / 16 <= at / 16 <= (rel + n - 1) / 16);
            assert(list[idx - rel / 16] == idx);
        }
        if list.contains(idx) {
            let i = choose|i: int| 0 <= i < list.len() && list[i] == idx;
            let at = if 16 * idx > rel {
                16 * idx
            } else {
                rel
            };
            assert(rel <= at < rel + n && at / 16 == idx);
        }
    }
}

/// How many vectors a write touches.
spec fn touched_count(count: nat, rel: int, n: nat) -> int {
    if n == 0 || rel / 16 >= count {
        0
    } else if (rel + n - 1) / 16 >= count {
        count - rel / 16
    } else {
        (rel + n - 1) / 16 - rel / 16 + 1
    }
}

proof fn lemma_touched(count: nat, rel: int, n: nat)
    requires
        rel >= 0,
        count <= usize::MAX,
    ensures
        MsixState::touched(count, rel, n).len() == touched_count(count, rel, n),
        forall|i: int|
            0 <= i < touched_count(count, rel, n) ==> #[trigger] MsixState::touched(
                count,
                rel,
                n,
            )[i] == rel / 16 + i,
    decreases n,
{
    if n > 0 {
        lemma_touched(count, rel, (n - 1) as nat);
        let before = MsixState::touched(count, rel, (n - 1) as nat);
        let idx = (rel + n - 1) / 16;
        if idx < count {
            if before.contains(idx as usize) {
                let i = choose|i: int| 0 <= i < before.len() && before[i] == idx as usize;
                assert(rel / 16 + i == idx);
            } else if n > 1 && (rel + n - 2) / 16 == idx {
                assert(before[idx - rel / 16] == idx as usize);
            }
        }
    }
}

fn contains_index(list: &[usize], index: usize) -> (r: bool)
    ensures
        r == list@.contains(index),
{
    let mut i: usize = 0;
    while i < list.len()
        invariant
            i <= list@.len(),
            forall|j: int| 0 <= j < i ==> #[trigger] list@[j] != index,
        decreases list@.len() - i,
    {
        if list[i] == index {
            assert(list@[i as int] == index);
            return true;
        }
        i = i + 1;
    }
    false
}

proof fn lemma_written_len(entries: Seq<MsixTableEntry>, rel: int, data: Seq<u8>, n: nat)
    requires
        n <= data.len(),
        rel >= 0,
    ensures
        MsixState::written(entries, rel, data, n).len() == entries.len(),
    decreases n,
{
    if n > 0 {
        lemma_written_len(entries, rel, data, (n - 1) as nat);
    }
}

/// The byte of a table of entries.
pub open spec fn byte_in(entries: Seq<MsixTableEntry>, at: int) -> u8 {
    entries[at / 16].bytes()[at % 16]
}

/// What the guest writes to the table it reads back, byte for byte, and no other byte changes.
pub proof fn table_reads_back_what_was_written(
    entries: Seq<MsixTableEntry>,
    rel: int,
    data: Seq<u8>,
    n: nat,
    at: int,
)
    requires
        rel >= 0,
        n <= data.len(),
        0 <= at,
        at / 16 < entries.len(),
    ensures
        MsixState::written(entries, rel, data, n).len() == entries.len(),
        byte_in(MsixState::written(entries, rel, data, n), at) == if rel <= at < rel + n {
            data[at - rel]
        } else {
            byte_in(entries, at)
        },
    decreases n,
{
    lemma_written_len(entries, rel, data, n);
    if n > 0 {
        table_reads_back_what_was_written(entries, rel, data, (n - 1) as nat, at);
        let before = MsixState::written(entries, rel, data, (n - 1) as nat);
        lemma_written_len(entries, rel, data, (n - 1) as nat);
        let w = rel + n - 1;
        if w / 16 < before.len() {
            let old_entry = before[w / 16];
            entry_survives_its_bytes(old_entry);
            let bytes = old_entry.bytes().update(w % 16, data[n - 1]);
            bytes_survive_their_entry(bytes);
            if at / 16 == w / 16 {
                assert(at % 16 == w % 16 ==> at == w);
            }
        }
    }
}

/// The offsets of capabilities that follow each other: the first one is the head of the list that
/// the status register announces, and the second byte of each names the next one, at a multiple of
/// four.
pub open spec fn is_capability_chain(config: Seq<u8>, chain: Seq<int>) -> bool {
    &&& 0x35 <= config.len()
    &&& config[6] / 16 % 2 == 1
    &&& chain.len() > 0
    &&& chain[0] == config[0x34] - config[0x34] % 4
    &&& forall|i: int| 0 <= i < chain.len() ==> 0 < #[trigger] chain[i]
        && chain[i] + 2 <= config.len()
    &&& forall|i: int, j: int|
        #![trigger chain[i], chain[j]]
        0 <= i && j == i + 1 && j < chain.len() ==> chain[j] == config[chain[i] + 1] - config[
            chain[i] + 1] % 4
}

proof fn lemma_walk(config: Seq<u8>, chain: Seq<int>, i: int, steps: nat)
    requires
        is_capability_chain(config, chain),
        0 <= i < chain.len() <= i + steps,
        config[chain.last()] == 0x11,
        forall|k: int| 0 <= k < chain.len() - 1 ==> config[#[trigger] chain[k]] != 0x11,
    ensures
        find_msix(config, chain[i], steps) == Some(chain.last()),
    decreases chain.len() - i,
{
    let ptr = chain[i];
    assert(config_u16(config, ptr) % 0x100 == config[ptr]);
    assert(config_u16(config, ptr) / 0x100 == config[ptr + 1]);
    if i < chain.len() - 1 {
        lemma_walk(config, chain, i + 1, (steps - 1) as nat);
        assert(chain[i + 1] == cap_pointer(config[ptr + 1] as int));
    }
}

proof fn lemma_found_by_walk(config: Seq<u8>, chain: Seq<int>, steps: nat)
    requires
        config.len() >= 0x100,
        is_capability_chain(config, chain),
        chain.last() <= 0xfc,
        chain.len() + steps <= 49,
        forall|k: int| 0 <= k < chain.len() - 1 ==> config[#[trigger] chain[k]] != 0x11,
        find_msix(config, chain.last(), steps) is Some,
    ensures
        exists|found: Seq<int>| #[trigger]
            is_capability_chain(config, found) && found.len() <= 48 && Some(found.last())
                == find_msix(config, chain.last(), steps) && config[found.last()] == 0x11 && (
            forall|i: int| 0 <= i < found.len() - 1 ==> config[#[trigger] found[i]] != 0x11),
    decreases steps,
{
    let ptr = chain.last();
    assert(config_u16(config, ptr) % 0x100 == config[ptr]);
    assert(config_u16(config, ptr) / 0x100 == config[ptr + 1]);
    if config[ptr] != 0x11 {
        let next = config[ptr + 1] - config[ptr + 1] % 4;
        assert(next == cap_pointer(config[ptr + 1] as int));
        let longer = chain.push(next);
        assert(find_msix(config, next, (steps - 1) as nat) is Some);
        assert(is_capability_chain(config, longer)) by {
            assert forall|i: int| 0 <= i < longer.len() implies 0 < #[trigger] longer[i]
                && longer[i]
                + 2 <= config.len() by {
                if i < chain.len() {
                    assert(longer[i] == chain[i]);
                }
            }
            assert forall|i: int, j: int|
                #![trigger longer[i], longer[j]]
                0 <= i && j == i + 1 && j < longer.len() implies longer[j] == config[longer[i] + 1]
                - config[longer[i] + 1] % 4 by {
                if j < chain.len() {
                    assert(longer[i] == chain[i] && longer[j] == chain[j]);
                }
            }
        }
        assert forall|k: int| 0 <= k < longer.len() - 1 implies config[
            #[trigger] longer[k]] != 0x11 by {
            if k < chain.len() - 1 {
                assert(longer[k] == chain[k]);
            }
        }
        lemma_found_by_walk(config, longer, (steps - 1) as nat);
    }
}

/// An MSI-X capability that is reached from the head of the list through other capabilities is the
/// one that is taken, however many stand before it, up to as many as there is room for.
pub proof fn reached_msix_capability_is_taken(
    config: &[u8],
    r: Option<MsixState>,
    chain: Seq<int>,
)
    requires
        call_ensures(MsixState::parse, (config,), r),
        is_capability_chain(config@, chain),
        chain.len() <= 48,
        config@[chain.last()] == 0x11,
        forall|i: int| 0 <= i < chain.len() - 1 ==> config@[#[trigger] chain[i]] != 0x11,
    ensures
        r is Some,
        r->Some_0.cap_offset == chain.last(),
{
    assert(config_u16(config@, 6) / 0x10 % 2 == 1);
    assert(chain[0] == cap_pointer(config@[0x34] as int));
    lemma_walk(config@, chain, 0, 48);
}

/// Where a capability is taken, it is reached from the head of the list through others, and none of
/// those is for MSI-X.
pub proof fn taken_msix_capability_is_reached(config: &[u8], r: Option<MsixState>)
    requires
        call_ensures(MsixState::parse, (config,), r),
        config@.len() >= 0x100,
        r is Some,
    ensures
        exists|chain: Seq<int>| #[trigger]
            is_capability_chain(config@, chain) && chain.len() <= 48 && chain.last()
                == r->Some_0.cap_offset && config@[chain.last()] == 0x11 && (forall|i: int|
                0 <= i < chain.len() - 1 ==> config@[#[trigger] chain[i]] != 0x11),
{
    let first = config@[0x34] - config@[0x34] % 4;
    assert(first == cap_pointer(config@[0x34] as int));
    assert(config_u16(config@, 6) / 0x10 % 2 == config@[6] / 16 % 2);
    lemma_found_by_walk(config@, seq![first], 48);
}

/// What is taken from a capability stands in its bytes: the control word, the number of vectors in
/// its low eleven bits, and behind it two words whose low three bits name a BAR and whose others
/// are an offset in it. Every vector starts masked and blank.
pub proof fn parsed_layout_stands_in_the_capability(config: &[u8], r: Option<MsixState>)
    requires
        call_ensures(MsixState::parse, (config,), r),
        r is Some,
        r->Some_0.cap_offset + 12 <= config@.len(),
    ensures
        ({
            let state = r->Some_0;
            let at = state.cap_offset as int;
            let word = |k: int|
                config@[at + k] + 256 * config@[at + k + 1] + 65536 * config@[at + k + 2] + 16777216
                    * config@[at + k + 3];
            &&& state.msg_ctl == config@[at + 2] + 256 * config@[at + 3]
            &&& state.table_size as int - 1 == state.msg_ctl % 2048
            &&& state.table_bir < 8 && state.table_offset % 8 == 0
            &&& state.table_offset + state.table_bir == word(4)
            &&& state.pba_bir < 8 && state.pba_offset % 8 == 0
            &&& state.pba_offset + state.pba_bir == word(8)
            &&& state.entries@.len() == state.table_size
            &&& forall|i: int|
                0 <= i < state.entries@.len() ==> {
                    let entry = #[trigger] state.entries@[i];
                    &&& entry.vector_ctl == 1
                    &&& entry.msg_addr_lo == 0 && entry.msg_addr_hi == 0 && entry.msg_data == 0
                }
        }),
{
}

/// The state of the control word: bit fifteen enables the vectors, bit fourteen masks all of them.
/// A vector is masked by bit zero of its own word.
pub proof fn control_bits_are_told_apart(
    state: MsixState,
    entry: MsixTableEntry,
    enabled: bool,
    masked: bool,
    vector_masked: bool,
)
    requires
        call_ensures(MsixState::enabled, (&state,), enabled),
        call_ensures(MsixState::function_masked, (&state,), masked),
        call_ensures(MsixTableEntry::masked, (&entry,), vector_masked),
    ensures
        ({
            let rest = state.msg_ctl - (if enabled {
                32768int
            } else {
                0
            }) - (if masked {
                16384int
            } else {
                0
            });
            &&& 0 <= rest < 16384
            &&& exists|half: int|
                entry.vector_ctl == #[trigger] (2 * half) + (if vector_masked {
                    1int
                } else {
                    0
                })
        }),
{
    assert(entry.vector_ctl == 2 * (entry.vector_ctl as int / 2) + entry.vector_ctl % 2);
}

/// An access to the BAR of the table is the table's exactly where it meets one of its bytes.
pub proof fn table_access_meets_the_table(
    state: MsixState,
    bir: u32,
    bar_offset: u64,
    len: u64,
    r: bool,
)
    requires
        state.wf(),
        bar_offset + len <= u64::MAX,
        len > 0,
        call_ensures(MsixState::table_accessed, (&state, bir, bar_offset, len), r),
    ensures
        r <==> bir == state.table_bir && exists|at: int|
            bar_offset <= at < bar_offset + len && #[trigger] table_holds(state, at),
{
    let start = state.table_offset as int;
    let at = if bar_offset > start {
        bar_offset as int
    } else {
        start
    };
    if r {
        assert(table_holds(state, at));
    }
}

/// A byte of a BAR belongs to the entry of some vector.
pub open spec fn table_holds(state: MsixState, at: int) -> bool {
    0 <= at - state.table_offset && (at - state.table_offset) / 16 < state.table_size
}

/// What the guest writes into the table is read back from where it was written, and every other
/// byte of the table reads as before. Behind the table all ones are read.
pub proof fn guest_reads_back_its_table(
    state: &mut MsixState,
    later: MsixState,
    at: u64,
    data: &[u8],
    affected: Vec<usize>,
    from: u64,
    before: &mut [u8],
    after: &mut [u8],
    k: int,
)
    requires
        state.table_offset <= at,
        at + data@.len() <= u64::MAX,
        call_ensures(MsixState::write_table, (state, at, data), affected),
        later == *final(state),
        state.table_offset <= from,
        before@.len() == after@.len(),
        from + before@.len() <= u64::MAX,
        call_ensures(MsixState::read_table, (&*state, from, before), ()),
        call_ensures(MsixState::read_table, (&later, from, after), ()),
        0 <= k < before@.len(),
    ensures
        ({
            let place = from + k;
            let inside = place - old(state).table_offset < 16 * old(state).entries@.len();
            &&& inside && at <= place < at + data@.len() ==> final(after)@[k] == data@[place - at]
            &&& !(at <= place < at + data@.len()) ==> final(after)@[k] == final(before)@[k]
            &&& !inside ==> final(after)@[k] == 0xff && final(before)@[k] == 0xff
        }),
        later.table_offset == old(state).table_offset && later.msg_ctl == old(state).msg_ctl,
        later.entries@.len() == old(state).entries@.len(),
{
    let entries = old(state).entries@;
    let rel = at - old(state).table_offset;
    let place = from + k - old(state).table_offset;
    assert(old(state).relative(at) == rel);
    assert(final(after)@[k] == later.table_byte(place));
    assert(final(before)@[k] == old(state).table_byte(place));
    if place / 16 < entries.len() {
        table_reads_back_what_was_written(entries, rel, data@, data@.len(), place);
    }
}

/// A write touches the vectors of whose sixteen bytes it reaches one.
pub proof fn touched_vectors_are_reached(
    state: &mut MsixState,
    at: u64,
    data: &[u8],
    affected: Vec<usize>,
    vector: usize,
)
    requires
        state.table_offset <= at,
        at + data@.len() <= u64::MAX,
        call_ensures(MsixState::write_table, (state, at, data), affected),
    ensures
        affected@.contains(vector) <==> vector < old(state).entries@.len() && data@.len() > 0 && at
            - old(state).table_offset < 16 * vector + 16
                && at - old(state).table_offset + data@.len()
            > 16 * vector,
{
    let rel = at - old(state).table_offset;
    assert(old(state).relative(at) == rel);
    let first = if rel > 16 * vector {
        rel
    } else {
        16 * vector as int
    };
    if data@.len() > 0 && rel < 16 * vector + 16 && rel + data@.len() > 16 * vector {
        assert(first / 16 == vector);
        assert(MsixState::meets(rel, data@.len(), vector as int));
    }
}

/// An entry stands in sixteen bytes: the low and the high half of the address, the data and the
/// control word, each with its lowest byte first. The lowest bit of the last masks the vector.
pub proof fn entries_stand_in_four_words(
    entry: MsixTableEntry,
    bytes: Vec<u8>,
    slice: &[u8],
    read: MsixTableEntry,
    masked: bool,
)
    requires
        call_ensures(MsixTableEntry::to_bytes, (entry,), bytes),
        slice@.len() == 16,
        call_ensures(MsixTableEntry::from_bytes, (slice,), read),
        call_ensures(MsixTableEntry::masked, (&entry,), masked),
    ensures
        bytes@.len() == 16,
        le_u32(bytes@, 0) == entry.msg_addr_lo,
        le_u32(bytes@, 4) == entry.msg_addr_hi,
        le_u32(bytes@, 8) == entry.msg_data,
        le_u32(bytes@, 12) == entry.vector_ctl,
        read.msg_addr_lo == le_u32(slice@, 0),
        read.msg_addr_hi == le_u32(slice@, 4),
        read.msg_data == le_u32(slice@, 8),
        read.vector_ctl == le_u32(slice@, 12),
        masked <==> entry.vector_ctl % 2 == 1,
{
    entry_survives_its_bytes(entry);
    lemma_four_bytes(slice@, 0);
    lemma_four_bytes(slice@, 4);
    lemma_four_bytes(slice@, 8);
    lemma_four_bytes(slice@, 12);
    lemma_four_bytes(bytes@, 0);
    lemma_four_bytes(bytes@, 4);
    lemma_four_bytes(bytes@, 8);
    lemma_four_bytes(bytes@, 12);
}

} // verus!

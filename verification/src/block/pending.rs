//! Block requests in flight on the ring, and the table that names them.

use crate::block::buffers::{
    all_addresses, all_in_bounds, total_len, BufferError, LinuxRawFileBuffer, SpanList,
    MAX_PENDING_LINUX_RAW_REQUESTS,
};
use imago::io_buffers::IoBuffer;
use vstd::prelude::*;

verus! {

/// Which way the data of a request moves, seen from the guest.
#[derive(Clone, Copy, Debug, PartialEq, Eq, Structural)]
pub enum LinuxRawDirection {
    Read,
    Write,
}

/// Where the data of a request is while the ring owns it.
pub enum LinuxRawRequestData {
    /// The ring reads and writes guest memory itself.
    Guest { buffers: SpanList, iovecs: SpanList },
    /// The ring uses a bounce buffer; the guest spans are copied from or to it.
    Bounce { buffer: IoBuffer, guest_buffers: SpanList },
}

/// One request that was handed to the ring.
pub struct PendingLinuxRawRequest {
    pub queue_index: usize,
    pub head_index: u16,
    pub direction: LinuxRawDirection,
    pub data: LinuxRawRequestData,
    /// Host address of the status byte.
    pub status_ptr: usize,
    pub data_len: usize,
    pub offset: u64,
    pub completed: usize,
}

/// The spans that are left of `spans` once `skip` bytes of them are done. Empty spans go too.
pub open spec fn advanced(spans: Seq<LinuxRawFileBuffer>, skip: nat) -> Seq<LinuxRawFileBuffer>
    decreases spans.len(),
{
    if spans.len() == 0 {
        Seq::empty()
    } else {
        let done = total_len(spans.drop_last());
        let last = spans.last();
        let front = advanced(spans.drop_last(), skip);
        if done + last.len <= skip || last.len == 0 {
            front
        } else if done <= skip {
            front.push(
                LinuxRawFileBuffer {
                    ptr: (last.ptr + (skip - done)) as usize,
                    len: (last.len - (skip - done)) as usize,
                },
            )
        } else {
            front.push(last)
        }
    }
}

/// The data of a request after its iovecs were built for `completed` bytes.
pub open spec fn rebuilt(data: LinuxRawRequestData, completed: nat) -> bool {
    match data {
        LinuxRawRequestData::Guest { buffers, iovecs } => iovecs@ == advanced(buffers@, completed),
        LinuxRawRequestData::Bounce { .. } => true,
    }
}

/// Two values of a request's data that differ in the iovecs alone.
pub open spec fn same_but_iovecs(a: LinuxRawRequestData, b: LinuxRawRequestData) -> bool {
    match (a, b) {
        (
            LinuxRawRequestData::Guest { buffers: x, .. },
            LinuxRawRequestData::Guest { buffers: y, .. },
        ) => x == y,
        (LinuxRawRequestData::Bounce { .. }, LinuxRawRequestData::Bounce { .. }) => a == b,
        _ => false,
    }
}

impl PendingLinuxRawRequest {
    /// No more bytes are done than the request has.
    pub open spec fn valid(self) -> bool {
        &&& self.completed <= self.data_len
        &&& match self.data {
            LinuxRawRequestData::Guest { buffers, .. } => all_in_bounds(buffers@),
            LinuxRawRequestData::Bounce { .. } => true,
        }
    }

    /// The cursor stands before the end of the guest spans, or there are none to walk.
    pub open spec fn cursor_inside(self) -> bool {
        match self.data {
            LinuxRawRequestData::Guest { buffers, .. } => self.completed < total_len(buffers@),
            LinuxRawRequestData::Bounce { .. } => true,
        }
    }

    /// Bytes that are not done yet.
    pub fn remaining(&self) -> (r: usize)
        requires
            self.completed <= self.data_len,
        ensures
            r == self.data_len - self.completed,
    {
        self.data_len - self.completed
    }

    /// Points the iovecs of a guest-memory request at the bytes that are not done yet.
    pub fn rebuild_iovecs(&mut self) -> (r: Result<(), BufferError>)
        requires
            old(self).valid(),
        ensures
            *final(self) == (PendingLinuxRawRequest { data: final(self).data, ..*old(self) }),
            same_but_iovecs(old(self).data, final(self).data),
            rebuilt(final(self).data, old(self).completed as nat),
            r is Ok <==> old(self).cursor_inside(),
            r is Err ==> r == Err::<(), BufferError>(BufferError::CursorExceeded),
    {
        let skip: usize = self.completed;
        match &mut self.data {
            LinuxRawRequestData::Bounce { .. } => Ok(()),
            LinuxRawRequestData::Guest { buffers, iovecs } => {
                let (list, inside) = advance_spans(buffers.as_slice(), skip);
                *iovecs = list;
                if inside {
                    Ok(())
                } else {
                    Err(BufferError::CursorExceeded)
                }
            },
        }
    }
}

proof fn lemma_advanced_empty(spans: Seq<LinuxRawFileBuffer>, skip: nat)
    ensures
        advanced(spans, skip).len() == 0 <==> total_len(spans) <= skip,
    decreases spans.len(),
{
    if spans.len() > 0 {
        lemma_advanced_empty(spans.drop_last(), skip);
    }
}

/// The spans left of `spans` after `skip` bytes, and whether any byte is left.
pub fn advance_spans(items: &[LinuxRawFileBuffer], skip: usize) -> (r: (SpanList, bool))
    requires
        all_in_bounds(items@),
    ensures
        r.0@ == advanced(items@, skip as nat),
        r.1 == (skip < total_len(items@)),
{
    let mut list = SpanList::new();
    let mut left: usize = skip;
    let mut i: usize = 0;
    while i < items.len()
        invariant
            all_in_bounds(items@),
            i <= items@.len(),
            list@ == advanced(items@.take(i as int), skip as nat),
            left == if total_len(items@.take(i as int)) <= skip {
                skip - total_len(items@.take(i as int))
            } else {
                0
            },
        decreases items@.len() - i,
    {
        let span = items[i];
        assert(items@.take(i + 1).drop_last() =~= items@.take(i as int));
        assert(items@.take(i + 1).last() == span);
        assert(span.in_bounds());
        if left >= span.len {
            left = left - span.len;
        } else {
            list.push(LinuxRawFileBuffer { ptr: span.ptr + left, len: span.len - left });
            left = 0;
        }
        i = i + 1;
    }
    assert(items@.take(i as int) =~= items@);
    proof {
        lemma_advanced_empty(items@, skip as nat);
    }
    let inside = list.len() != 0;
    (list, inside)
}

/// Walking a request forward leaves the addresses that the finished bytes do not take.
pub proof fn advanced_skips_finished_bytes(spans: Seq<LinuxRawFileBuffer>, skip: nat)
    requires
        skip <= total_len(spans),
        all_in_bounds(spans),
    ensures
        all_addresses(advanced(spans, skip)) == all_addresses(spans).skip(skip as int),
        total_len(advanced(spans, skip)) == total_len(spans) - skip,
    decreases spans.len(),
{
    lemma_addresses_len(spans);
    if spans.len() == 0 {
        assert(all_addresses(spans).skip(skip as int) =~= Seq::<int>::empty());
    } else {
        let front = spans.drop_last();
        let last = spans.last();
        let done = total_len(front);
        lemma_addresses_len(front);
        assert(last.in_bounds());
        if done <= skip {
            lemma_advanced_empty(front, skip);
            assert(advanced(front, skip) =~= Seq::empty());
            if done + last.len <= skip || last.len == 0 {
                assert(advanced(spans, skip) =~= Seq::empty());
                assert(all_addresses(spans).skip(skip as int) =~= Seq::<int>::empty());
            } else {
                let rest = LinuxRawFileBuffer {
                    ptr: (last.ptr + (skip - done)) as usize,
                    len: (last.len - (skip - done)) as usize,
                };
                assert(advanced(spans, skip) =~= seq![rest]);
                assert(seq![rest].drop_last() =~= Seq::empty());
                assert(all_addresses(seq![rest].drop_last()) =~= Seq::<int>::empty());
                assert(all_addresses(seq![rest]) =~= rest.addresses());
                assert(total_len(seq![rest].drop_last()) == 0);
                assert(all_addresses(spans).skip(skip as int) =~= rest.addresses());
            }
        } else {
            advanced_skips_finished_bytes(front, skip);
            if last.len == 0 {
                assert(last.addresses() =~= Seq::<int>::empty());
                assert(all_addresses(spans) =~= all_addresses(front));
            } else {
                let tail = advanced(spans, skip);
                assert(tail.drop_last() =~= advanced(front, skip));
                assert(all_addresses(tail) =~= all_addresses(spans).skip(skip as int));
            }
        }
    }
}

/// A list of spans has one address for every byte.
pub proof fn lemma_addresses_len(spans: Seq<LinuxRawFileBuffer>)
    ensures
        all_addresses(spans).len() == total_len(spans),
    decreases spans.len(),
{
    if spans.len() > 0 {
        lemma_addresses_len(spans.drop_last());
    }
}

proof fn lemma_distinct_below(s: Seq<usize>, n: usize)
    requires
        s.no_duplicates(),
        forall|i: int| 0 <= i < s.len() ==> (#[trigger] s[i]) < n,
    ensures
        s.len() <= n,
{
    let ints = s.map_values(|x: usize| x as int);
    let all = vstd::set_lib::set_int_range(0, n as int);
    assert(ints.no_duplicates());
    ints.unique_seq_to_set();
    vstd::set_lib::lemma_int_range(0, n as int);
    assert(ints.to_set().subset_of(all)) by {
        assert forall|x: int| ints.to_set().contains(x) implies all.contains(x) by {
            let k = choose|k: int| 0 <= k < ints.len() && ints[k] == x;
            assert(s[k] < n);
        }
    }
    vstd::set_lib::lemma_len_subset(ints.to_set(), all);
}

/// A slot of the request table.
struct PendingLinuxRawSlot {
    generation: u32,
    request: Option<PendingLinuxRawRequest>,
}

/// The requests in flight, each under an id that no earlier request of its slot had.
pub struct PendingLinuxRawRequests {
    slots: Vec<PendingLinuxRawSlot>,
    free: Vec<usize>,
    len: usize,
}

/// No slot of the request table is free.
#[derive(Clone, Copy, Debug, PartialEq, Eq, Structural)]
pub struct RequestTableFull;

/// The id of a request: its slot's generation above, its slot below.
pub open spec fn request_id(generation: u32, index: int) -> int {
    generation * 0x1_0000_0000 + index
}

/// The slot that an id names.
pub open spec fn id_slot(id: u64) -> int {
    id as int % 0x1_0000_0000
}

/// The generation that an id names.
pub open spec fn id_generation(id: u64) -> int {
    id as int / 0x1_0000_0000
}

/// The generation of a slot after one more request: zero is left out.
pub open spec fn next_generation(generation: u32) -> u32 {
    if generation == u32::MAX {
        1
    } else {
        (generation + 1) as u32
    }
}

impl View for PendingLinuxRawRequests {
    type V = Map<u64, PendingLinuxRawRequest>;

    /// The requests in flight by id.
    closed spec fn view(&self) -> Map<u64, PendingLinuxRawRequest> {
        Map::new(
            |id: u64|
                0 <= id_slot(id) < self.slots@.len() && id_generation(id) != 0
                    && self.slots@[id_slot(id)].generation == id_generation(id)
                    && self.slots@[id_slot(id)].request is Some,
            |id: u64| self.slots@[id_slot(id)].request->Some_0,
        )
    }
}

impl PendingLinuxRawRequests {
    /// Every slot is either free and listed once, or holds a request; `len` counts the latter.
    pub closed spec fn wf(self) -> bool {
        &&& self.slots@.len() == MAX_PENDING_LINUX_RAW_REQUESTS
        &&& self.len + self.free@.len() == MAX_PENDING_LINUX_RAW_REQUESTS
        &&& forall|i: int|
            0 <= i < self.free@.len() ==> (#[trigger] self.free@[i])
                < MAX_PENDING_LINUX_RAW_REQUESTS
        &&& self.free@.no_duplicates()
        &&& forall|s: usize|
            s < MAX_PENDING_LINUX_RAW_REQUESTS ==> (#[trigger] self.slots@[s as int].request is None
                <==> self.free@.contains(s))
        &&& forall|s: int|
            0 <= s < MAX_PENDING_LINUX_RAW_REQUESTS && (
            #[trigger] self.slots@[s]).request is Some ==> self.slots@[s].generation != 0
    }

    /// Requests in flight.
    pub closed spec fn count(self) -> nat {
        self.len as nat
    }

    /// The generation of every slot: how its next id comes about.
    pub closed spec fn generations(self) -> Seq<u32> {
        self.slots@.map_values(|slot: PendingLinuxRawSlot| slot.generation)
    }

    /// The free slots. The last one is taken first.
    pub closed spec fn free_slots(self) -> Seq<usize> {
        self.free@
    }

    /// The slot that the next request takes.
    pub open spec fn next_slot(self) -> int {
        self.free_slots().last() as int
    }

    /// A table with every slot free.
    pub fn new() -> (r: PendingLinuxRawRequests)
        ensures
            r.wf(),
            r.count() == 0,
            r@ == Map::<u64, PendingLinuxRawRequest>::empty(),
            r.free_slots() == Seq::new(
                MAX_PENDING_LINUX_RAW_REQUESTS as nat,
                |i: int| (MAX_PENDING_LINUX_RAW_REQUESTS - 1 - i) as usize,
            ),
            r.next_slot() == 0,
            forall|i: int| 0 <= i < r.generations().len() ==> r.generations()[i] == 0,
    {
        let mut slots: Vec<PendingLinuxRawSlot> = Vec::new();
        let mut free: Vec<usize> = Vec::new();
        let mut i: usize = 0;
        while i < MAX_PENDING_LINUX_RAW_REQUESTS
            invariant
                i <= MAX_PENDING_LINUX_RAW_REQUESTS,
                slots@.len() == i,
                free@.len() == i,
                forall|j: int| 0 <= j < i ==> (#[trigger] slots@[j]).generation == 0,
                forall|j: int| 0 <= j < i ==> (#[trigger] slots@[j]).request is None,
                forall|j: int| 0 <= j < i ==> #[trigger] free@[j] == 63 - j,
            decreases MAX_PENDING_LINUX_RAW_REQUESTS - i,
        {
            slots.push(PendingLinuxRawSlot { generation: 0, request: None });
            free.push(MAX_PENDING_LINUX_RAW_REQUESTS - 1 - i);
            i = i + 1;
        }
        let r = PendingLinuxRawRequests { slots, free, len: 0 };
        assert forall|s: usize| s < MAX_PENDING_LINUX_RAW_REQUESTS implies (
        #[trigger] r.slots@[s as int].request is None <==> r.free@.contains(s)) by {
            assert(r.free@[63 - s] == s);
        }
        assert(r@ =~= Map::<u64, PendingLinuxRawRequest>::empty());
        assert(r.free_slots() =~= Seq::new(
            MAX_PENDING_LINUX_RAW_REQUESTS as nat,
            |i: int| (MAX_PENDING_LINUX_RAW_REQUESTS - 1 - i) as usize,
        ));
        r
    }

    /// Whether no request is in flight.
    pub fn is_empty(&self) -> (r: bool)
        ensures
            r == (self.count() == 0),
    {
        self.len == 0
    }

    /// Whether no further request fits.
    pub fn is_full(&self) -> (r: bool)
        ensures
            r == (self.count() == MAX_PENDING_LINUX_RAW_REQUESTS),
    {
        self.len == MAX_PENDING_LINUX_RAW_REQUESTS
    }

    /// Requests in flight.
    pub fn len(&self) -> (r: usize)
        ensures
            r == self.count(),
    {
        self.len
    }

    /// What `insert` does to the table.
    pub open spec fn inserted(
        self,
        id: u64,
        request: PendingLinuxRawRequest,
        after: PendingLinuxRawRequests,
    ) -> bool {
        let slot = self.next_slot();
        &&& after.wf()
        &&& 0 <= slot < self.generations().len()
        &&& self.free_slots().len() > 0
        &&& after.free_slots() == self.free_slots().drop_last()
        &&& id == request_id(next_generation(self.generations()[slot]), slot)
        &&& !self@.contains_key(id)
        &&& after@ == self@.insert(id, request)
        &&& after.count() == self.count() + 1
        &&& after.generations() == self.generations().update(
            slot,
            next_generation(self.generations()[slot]),
        )
    }

    /// What `remove` does to the table when the id is in flight.
    pub open spec fn removed(self, id: u64, after: PendingLinuxRawRequests) -> bool {
        &&& after.wf()
        &&& after@ == self@.remove(id)
        &&& after.count() == self.count() - 1
        &&& after.generations() == self.generations()
        &&& after.free_slots() == self.free_slots().push(id_slot(id) as usize)
    }

    /// Takes in a request and gives it an id. A full table refuses it.
    pub fn insert(&mut self, request: PendingLinuxRawRequest) -> (r: Result<u64, RequestTableFull>)
        requires
            old(self).wf(),
        ensures
            r is Err <==> old(self).count() == MAX_PENDING_LINUX_RAW_REQUESTS,
            r is Err ==> *final(self) == *old(self),
            r matches Ok(id) ==> old(self).inserted(id, request, *final(self)),
    {
        if self.free.len() == 0 {
            return Err(RequestTableFull);
        }
        match self.free.pop() {
            None => Err(RequestTableFull),
            Some(index) => {
                assert(old(self).free@.contains(index)) by {
                    assert(old(self).free@[old(self).free@.len() - 1] == index);
                }
                let generation: u32 = if self.slots[index].generation == u32::MAX {
                    1
                } else {
                    self.slots[index].generation + 1
                };
                let ghost kept = request;
                self.slots[index] = PendingLinuxRawSlot { generation, request: Some(request) };
                self.len = self.len + 1;
                let id: u64 = (generation as u64) * 0x1_0000_0000 + index as u64;
                proof {
                    let before = *old(self);
                    assert(id_slot(id) == index);
                    assert(id_generation(id) == generation);
                    assert(before.slots@[index as int].request is None);
                    assert forall|s: usize| s < MAX_PENDING_LINUX_RAW_REQUESTS implies (
                    #[trigger] self.slots@[s as int].request is None
                        <==> self.free@.contains(s)) by {
                        assert(before.slots@[s as int].request is None <==> before.free@.contains(
                            s,
                        ));
                        if before.free@.contains(s) {
                            let k = choose|k: int| 0 <= k < before.free@.len()
                                && before.free@[k] == s;
                            if s != index {
                                assert(self.free@[k] == s);
                            }
                        }
                        if self.free@.contains(s) {
                            let k = choose|k: int| 0 <= k < self.free@.len() && self.free@[k] == s;
                            assert(before.free@[k] == s);
                        }
                    }
                    assert(self@ =~= before@.insert(id, kept));
                    assert(self.generations() =~= before.generations().update(
                        index as int,
                        generation,
                    ));
                }
                Ok(id)
            },
        }
    }

    /// The slot and generation that an id names, if a request could have it.
    pub fn decode(id: u64) -> (r: Option<(usize, u32)>)
        ensures
            r is Some <==> id_generation(id) != 0 && id_slot(id) < MAX_PENDING_LINUX_RAW_REQUESTS,
            r matches Some(p) ==> p.0 == id_slot(id) && p.1 == id_generation(id),
    {
        let slot: u64 = id % 0x1_0000_0000;
        let generation: u64 = id / 0x1_0000_0000;
        if generation != 0 && slot < MAX_PENDING_LINUX_RAW_REQUESTS as u64 {
            Some((slot as usize, generation as u32))
        } else {
            None
        }
    }

    /// The request in flight under an id.
    pub fn get_mut(&mut self, id: u64) -> (r: Option<&mut PendingLinuxRawRequest>)
        requires
            old(self).wf(),
        ensures
            r is Some <==> old(self)@.contains_key(id),
            r is None ==> *final(self) == *old(self),
            r matches Some(request) ==> *request == old(self)@[id] && final(self).wf()
                && final(self)@ == old(self)@.insert(id, *final(request))
                && final(self).count() == old(self).count()
                && final(self).free_slots() == old(self).free_slots()
                && final(self).generations() == old(self).generations(),
    {
        match Self::decode(id) {
            None => None,
            Some((index, generation)) => {
                if self.slots[index].generation != generation
                    || self.slots[index].request.is_none() {
                    None
                } else {
                    match &mut self.slots[index].request {
                        None => None,
                        Some(request) => Some(request),
                    }
                }
            },
        }
    }

    /// Takes the request out that is in flight under an id, and frees its slot.
    pub fn remove(&mut self, id: u64) -> (r: Option<PendingLinuxRawRequest>)
        requires
            old(self).wf(),
        ensures
            r is Some <==> old(self)@.contains_key(id),
            r is None ==> *final(self) == *old(self),
            r matches Some(request) ==> request == old(self)@[id] && old(self).removed(
                id,
                *final(self),
            ),
    {
        match Self::decode(id) {
            None => None,
            Some((index, generation)) => {
                if self.slots[index].generation != generation {
                    return None;
                }
                if self.slots[index].request.is_none() {
                    return None;
                }
                let ghost before = *self;
                proof {
                    assert(!before.free@.contains(index)) by {
                        assert(before.slots@[index as int].request is Some);
                    }
                    lemma_distinct_below(before.free@.push(index), MAX_PENDING_LINUX_RAW_REQUESTS);
                }
                let request = self.slots[index].request.take();
                self.free.push(index);
                self.len = self.len - 1;
                proof {
                    assert(self.free@ =~= before.free@.push(index));
                    assert forall|s: usize| s < MAX_PENDING_LINUX_RAW_REQUESTS implies (
                    #[trigger] self.slots@[s as int].request is None
                        <==> self.free@.contains(s)) by {
                        assert(before.slots@[s as int].request is None <==> before.free@.contains(
                            s,
                        ));
                        if before.free@.contains(s) {
                            let k = choose|k: int|
                                0 <= k < before.free@.len() && before.free@[k] == s;
                            assert(self.free@[k] == s);
                        }
                        if s == index {
                            assert(self.free@[self.free@.len() - 1] == s);
                        }
                    }
                    assert(self@ =~= before@.remove(id));
                    assert(self.generations() =~= before.generations());
                }
                request
            },
        }
    }
}

/// An id that was taken out does not name the request that takes its slot next.
pub proof fn stale_id_stays_unknown(
    before: PendingLinuxRawRequests,
    id: u64,
    emptied: PendingLinuxRawRequests,
    new_id: u64,
    request: PendingLinuxRawRequest,
    after: PendingLinuxRawRequests,
)
    requires
        before.wf(),
        before@.contains_key(id),
        before.removed(id, emptied),
        emptied.inserted(new_id, request, after),
    ensures
        new_id != id,
        !after@.contains_key(id),
        after@.contains_key(new_id),
        id_slot(new_id) == id_slot(id),
{
    let slot = id_slot(id);
    assert(before.generations()[slot] == id_generation(id));
    assert(new_id == request_id(next_generation(before.generations()[slot]), slot));
    assert(id == request_id(before.generations()[slot], slot));
}

/// A table that counts no requests holds none.
pub proof fn empty_table_holds_nothing(table: PendingLinuxRawRequests)
    requires
        table.wf(),
        table.count() == 0,
    ensures
        table@ == Map::<u64, PendingLinuxRawRequest>::empty(),
{
    let slots = table.free@.map_values(|slot: usize| slot as int);
    let all = vstd::set_lib::set_int_range(0, MAX_PENDING_LINUX_RAW_REQUESTS as int);
    vstd::set_lib::lemma_int_range(0, MAX_PENDING_LINUX_RAW_REQUESTS as int);
    assert(slots.no_duplicates());
    slots.unique_seq_to_set();
    assert(slots.to_set().subset_of(all)) by {
        assert forall|slot: int| slots.to_set().contains(slot) implies all.contains(slot) by {
            assert(slots.contains(slot));
            let i = choose|i: int| 0 <= i < slots.len() && slots[i] == slot;
            assert(table.free@[i] < MAX_PENDING_LINUX_RAW_REQUESTS);
        }
    }
    vstd::set_lib::lemma_subset_equality(slots.to_set(), all);
    assert forall|id: u64| !table@.contains_key(id) by {
        if table@.contains_key(id) {
            let slot = id_slot(id);
            assert(all.contains(slot));
            assert(slots.to_set().contains(slot));
            assert(slots.contains(slot));
            let i = choose|i: int| 0 <= i < slots.len() && slots[i] == slot;
            let listed = table.free@[i];
            assert(table.free@.contains(listed));
            assert(table.slots@[listed as int].request is None);
        }
    }
    assert(table@ =~= Map::<u64, PendingLinuxRawRequest>::empty());
}

/// A request is found under the id that it was given, and no other request moves: what is taken
/// out under an id is what was put in under it.
pub proof fn requests_are_found_under_their_ids(
    table: &mut PendingLinuxRawRequests,
    request: PendingLinuxRawRequest,
    inserted: Result<u64, RequestTableFull>,
    later: &mut PendingLinuxRawRequests,
    taken: Option<PendingLinuxRawRequest>,
)
    requires
        table.wf(),
        call_ensures(PendingLinuxRawRequests::insert, (table, request), inserted),
        inserted is Ok,
        *later == *final(table),
        call_ensures(PendingLinuxRawRequests::remove, (later, inserted->Ok_0), taken),
    ensures
        taken == Some(request),
        final(later)@ == old(table)@,
        final(later).count() == old(table).count(),
        !final(later)@.contains_key(inserted->Ok_0),
{
    assert(final(later)@ =~= old(table)@);
}

/// A table refuses a request only where sixty-four are in flight.
pub proof fn table_takes_sixty_four(
    table: &mut PendingLinuxRawRequests,
    request: PendingLinuxRawRequest,
    r: Result<u64, RequestTableFull>,
)
    requires
        table.wf(),
        call_ensures(PendingLinuxRawRequests::insert, (table, request), r),
    ensures
        r is Err <==> old(table).count() == 64,
        r is Ok ==> final(table).count() == old(table).count() + 1,
{
}

/// A request that was served in part goes on with the addresses that are left.
pub proof fn partly_served_requests_go_on(
    items: &[LinuxRawFileBuffer],
    skip: usize,
    r: (SpanList, bool),
)
    requires
        all_in_bounds(items@),
        call_ensures(advance_spans, (items, skip), r),
        skip <= all_addresses(items@).len(),
    ensures
        all_addresses(r.0@) == all_addresses(items@).skip(skip as int),
        r.1 <==> skip < all_addresses(items@).len(),
{
    lemma_addresses_len(items@);
    advanced_skips_finished_bytes(items@, skip as nat);
}

} // verus!

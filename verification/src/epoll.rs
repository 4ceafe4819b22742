//! Readiness events and the registry of the handles that they come from.

use std::collections::HashMap;
use vstd::prelude::*;

verus! {

/// Data can be read.
pub const IN: u32 = 0b0000_0001;

/// Data can be written.
pub const OUT: u32 = 0b0000_0010;

/// The source failed.
pub const ERROR: u32 = 0b0000_0100;

/// The peer will send no more.
pub const READ_HANG_UP: u32 = 0b0000_1000;

/// Report a change once.
pub const EDGE_TRIGGERED: u32 = 0b0001_0000;

/// The peer is gone.
pub const HANG_UP: u32 = 0b0010_0000;

/// There is exceptional data.
pub const PRIORITY: u32 = 0b0100_0000;

/// Keep the system awake for the event.
pub const WAKE_UP: u32 = 0b1000_0000;

/// Report one event only.
pub const ONE_SHOT: u32 = 0b0001_0000_0000;

/// Wake one waiter only.
pub const EXCLUSIVE: u32 = 0b0010_0000_0000;

/// Every flag.
pub const ALL_EVENTS: u32 = 0b0011_1111_1111;

/// A set of readiness flags.
#[derive(Clone, Copy, Debug, PartialEq, Eq, Structural)]
pub struct EventSet {
    pub bits: u32,
}

impl EventSet {
    /// No flag.
    pub fn empty() -> (r: EventSet)
        ensures
            r.bits == 0,
    {
        EventSet { bits: 0 }
    }

    /// The known flags of a number.
    pub fn from_bits_truncate(bits: u32) -> (r: EventSet)
        ensures
            r.bits == bits & ALL_EVENTS,
    {
        EventSet { bits: bits & ALL_EVENTS }
    }

    /// The flags as a number.
    pub fn bits(&self) -> (r: u32)
        ensures
            r == self.bits,
    {
        self.bits
    }

    /// Every one of these flags is in the set.
    pub open spec fn has(self, flags: u32) -> bool {
        self.bits & flags == flags
    }

    /// Whether every one of these flags is in the set.
    pub fn contains(&self, flags: u32) -> (r: bool)
        ensures
            r == self.has(flags),
    {
        self.bits & flags == flags
    }

    /// Adds flags to the set.
    pub fn insert(&mut self, flags: u32)
        ensures
            final(self).bits == old(self).bits | flags,
    {
        self.bits = self.bits | flags;
    }
}

/// What a waiter reports of a source.
#[derive(Clone, Copy, Debug, PartialEq, Eq, Structural)]
pub struct WaitEventSet {
    pub readable: bool,
    pub writable: bool,
    pub error: bool,
    pub hang_up: bool,
    pub read_hang_up: bool,
}

/// What a waiter is asked to report: readiness alone.
pub open spec fn wait_set(events: EventSet) -> WaitEventSet {
    WaitEventSet {
        readable: events.has(IN),
        writable: events.has(OUT),
        error: false,
        hang_up: false,
        read_hang_up: false,
    }
}

/// The flags of `set` and no others are in the result, one for each report.
pub open spec fn event_bits(set: WaitEventSet) -> u32 {
    let readable = if set.readable {
        IN
    } else {
        0
    };
    let writable = if set.writable {
        OUT
    } else {
        0
    };
    let error = if set.error {
        ERROR
    } else {
        0
    };
    let hang_up = if set.hang_up {
        HANG_UP
    } else {
        0
    };
    let read_hang_up = if set.read_hang_up {
        READ_HANG_UP
    } else {
        0
    };
    (readable + writable + error + hang_up + read_hang_up) as u32
}

/// What a waiter is asked to report for a set of flags.
pub fn event_set_to_wait_event_set(events: EventSet) -> (r: WaitEventSet)
    ensures
        r == wait_set(events),
{
    WaitEventSet {
        readable: events.contains(IN),
        writable: events.contains(OUT),
        error: false,
        hang_up: false,
        read_hang_up: false,
    }
}

/// The flags for what a waiter reports.
pub fn wait_event_set_to_event_set(set: WaitEventSet) -> (r: EventSet)
    ensures
        r.bits == event_bits(set),
{
    let readable: u32 = if set.readable {
        IN
    } else {
        0
    };
    let writable: u32 = if set.writable {
        OUT
    } else {
        0
    };
    let error: u32 = if set.error {
        ERROR
    } else {
        0
    };
    let hang_up: u32 = if set.hang_up {
        HANG_UP
    } else {
        0
    };
    let read_hang_up: u32 = if set.read_hang_up {
        READ_HANG_UP
    } else {
        0
    };
    let mut epoll_events = EventSet::empty();
    epoll_events.insert(readable);
    epoll_events.insert(writable);
    epoll_events.insert(error);
    epoll_events.insert(hang_up);
    epoll_events.insert(read_hang_up);
    assert((((((0u32 | readable) | writable) | error) | hang_up) | read_hang_up) == readable
        + writable + error + hang_up + read_hang_up) by (bit_vector)
        requires
            readable == 0 || readable == 1,
            writable == 0 || writable == 2,
            error == 0 || error == 4,
            hang_up == 0 || hang_up == 32,
            read_hang_up == 0 || read_hang_up == 8,
    ;
    epoll_events
}

/// Asking for readiness and being told of it: the flag for data comes back exactly when it was in
/// the set that was asked for.
pub proof fn readiness_survives_the_waiter(events: EventSet)
    ensures
        (EventSet { bits: event_bits(wait_set(events)) }).has(IN) == events.has(IN),
        (EventSet { bits: event_bits(wait_set(events)) }).has(OUT) == events.has(OUT),
{
    assert(1u32 & 1u32 == 1u32 && 1u32 & 2u32 == 0u32 && 2u32 & 1u32 == 0u32 && 2u32 & 2u32 == 2u32
        && 3u32 & 1u32 == 1u32 && 3u32 & 2u32 == 2u32 && 0u32 & 1u32 == 0u32 && 0u32 & 2u32 == 0u32)
        by (bit_vector);
}

/// What to do with a registration.
#[derive(Clone, Copy, Debug, PartialEq, Eq, Structural)]
pub enum ControlOperation {
    Add,
    Modify,
    Delete,
}

/// Flags and the number that its owner gave a source.
#[derive(Clone, Copy, Debug, PartialEq, Eq, Structural)]
pub struct EpollEvent {
    pub events: u32,
    pub data: u64,
}

impl Default for EpollEvent {
    fn default() -> (r: EpollEvent)
        ensures
            r == (EpollEvent { events: 0, data: 0 }),
    {
        EpollEvent { events: 0, data: 0 }
    }
}

impl EpollEvent {
    /// An event of a source.
    pub fn new(events: EventSet, data: u64) -> (r: EpollEvent)
        ensures
            r == (EpollEvent { events: events.bits, data }),
    {
        EpollEvent { events: events.bits(), data }
    }

    /// The flags as a number.
    pub fn events(&self) -> (r: u32)
        ensures
            r == self.events,
    {
        self.events
    }

    /// The known flags.
    pub fn event_set(&self) -> (r: EventSet)
        ensures
            r.bits == self.events & ALL_EVENTS,
    {
        EventSet::from_bits_truncate(self.events)
    }

    /// The number of the source.
    pub fn data(&self) -> (r: u64)
        ensures
            r == self.data,
    {
        self.data
    }

    /// The number of the source, as the handle that it stands for.
    pub fn fd(&self) -> (r: usize)
        ensures
            r == self.data as usize,
    {
        #[verifier::truncate]
        (self.data as usize)
    }
}

/// What a waiter reports for one source.
#[derive(Clone, Copy, Debug, PartialEq, Eq, Structural)]
pub struct WaitEvent {
    pub events: WaitEventSet,
    pub token: u64,
}

/// What a change of the registry asks of the waiter.
#[derive(Clone, Copy, Debug, PartialEq, Eq, Structural)]
pub enum WaitChange {
    /// Wait on a handle, and report it under a token.
    Add { handle: usize, token: u64, events: WaitEventSet },
    /// Wait for something else on the source with this token.
    Modify { token: u64, events: WaitEventSet },
    /// Wait on the source with this token no longer.
    Delete { token: u64 },
}

/// The handle is not registered.
#[derive(Clone, Copy, Debug, PartialEq, Eq, Structural)]
pub struct NotRegistered;

/// The registry of an event loop: the token of every handle.
pub struct Epoll {
    registrations: HashMap<usize, u64>,
}

impl View for Epoll {
    type V = Map<usize, u64>;

    /// The token of every registered handle.
    closed spec fn view(&self) -> Map<usize, u64> {
        self.registrations@
    }
}

/// What a waiter has to do for a change of the registry.
pub open spec fn wait_change(
    registrations: Map<usize, u64>,
    operation: ControlOperation,
    handle: usize,
    event: EpollEvent,
) -> Result<WaitChange, NotRegistered> {
    let events = wait_set(EventSet { bits: event.events & ALL_EVENTS });
    match operation {
        ControlOperation::Add => Ok(WaitChange::Add { handle, token: event.data, events }),
        ControlOperation::Modify => if registrations.contains_key(handle) {
            Ok(WaitChange::Modify { token: registrations[handle], events })
        } else {
            Err(NotRegistered)
        },
        ControlOperation::Delete => if registrations.contains_key(handle) {
            Ok(WaitChange::Delete { token: registrations[handle] })
        } else {
            Err(NotRegistered)
        },
    }
}

impl Epoll {
    /// An event loop with nothing registered.
    pub fn new() -> (r: Epoll)
        ensures
            r@ == Map::<usize, u64>::empty(),
    {
        Epoll { registrations: HashMap::new() }
    }

    /// What the waiter has to do for a change. A deletion takes effect at once; an addition does
    /// when `added` reports that the waiter accepted it.
    pub fn ctl(&mut self, operation: ControlOperation, handle: usize, event: &EpollEvent) -> (r:
        Result<WaitChange, NotRegistered>)
        ensures
            r == wait_change(old(self)@, operation, handle, *event),
            final(self)@ == if operation == ControlOperation::Delete {
                old(self)@.remove(handle)
            } else {
                old(self)@
            },
    {
        broadcast use vstd::std_specs::hash::group_hash_axioms;

        let events: WaitEventSet = event_set_to_wait_event_set(event.event_set());
        match operation {
            ControlOperation::Add => Ok(WaitChange::Add { handle, token: event.data, events }),
            ControlOperation::Modify => match self.registrations.get(&handle) {
                None => Err(NotRegistered),
                Some(token) => Ok(WaitChange::Modify { token: *token, events }),
            },
            ControlOperation::Delete => match self.registrations.remove(&handle) {
                None => {
                    assert(old(self)@.remove(handle) =~= old(self)@);
                    Err(NotRegistered)
                },
                Some(token) => Ok(WaitChange::Delete { token }),
            },
        }
    }

    /// The waiter accepted an addition: the handle now has the event's number as its token.
    pub fn added(&mut self, handle: usize, event: &EpollEvent)
        ensures
            final(self)@ == old(self)@.insert(handle, event.data),
    {
        broadcast use vstd::std_specs::hash::group_hash_axioms;

        let _ = self.registrations.insert(handle, event.data);
    }

    /// Most events that one wait reports: what was asked for, and what there is room for.
    pub fn wait_capacity(max_events: usize, room: usize) -> (r: usize)
        ensures
            r == if max_events < room {
                max_events
            } else {
                room
            },
    {
        if max_events < room {
            max_events
        } else {
            room
        }
    }

    /// Hands on the first `count` events that the waiter reported.
    pub fn wait(&self, waited: &[WaitEvent], count: usize, events: &mut Vec<EpollEvent>) -> (r:
        usize)
        requires
            count <= waited@.len(),
            count <= old(events)@.len(),
        ensures
            r == count,
            final(events)@.len() == old(events)@.len(),
            forall|i: int|
                0 <= i < count ==> #[trigger] final(events)@[i] == (EpollEvent {
                    events: event_bits(waited@[i].events),
                    data: waited@[i].token,
                }),
            forall|i: int|
                count <= i < old(events)@.len() ==> #[trigger] final(events)@[i] == old(events)@[i],
    {
        let mut i: usize = 0;
        while i < count
            invariant
                i <= count <= waited@.len(),
                count <= events@.len(),
                events@.len() == old(events)@.len(),
                forall|j: int|
                    0 <= j < i ==> #[trigger] events@[j] == (EpollEvent {
                        events: event_bits(waited@[j].events),
                        data: waited@[j].token,
                    }),
                forall|j: int|
                    i <= j < old(events)@.len() ==> #[trigger] events@[j] == old(events)@[j],
            decreases count - i,
        {
            let event: WaitEvent = waited[i];
            events.set(
                i,
                EpollEvent::new(wait_event_set_to_event_set(event.events), event.token),
            );
            i = i + 1;
        }
        count
    }
}

/// A handle that was added is found under its token, and one that was deleted is not found.
pub proof fn registry_follows_its_changes(
    registrations: Map<usize, u64>,
    handle: usize,
    added: EpollEvent,
    event: EpollEvent,
)
    ensures
        wait_change(
            registrations.insert(handle, added.data),
            ControlOperation::Delete,
            handle,
            event,
        ) == Ok::<WaitChange, NotRegistered>(WaitChange::Delete { token: added.data }),
        wait_change(registrations.remove(handle), ControlOperation::Modify, handle, event) == Err::<
            WaitChange,
            NotRegistered,
        >(NotRegistered),
{
}

/// The waiter is asked for the directions that the caller's set holds, which are its two lowest
/// bits, and for nothing else.
pub proof fn waiter_is_asked_for_the_directions(events: EventSet, r: WaitEventSet)
    requires
        call_ensures(event_set_to_wait_event_set, (events,), r),
    ensures
        r.readable <==> events.bits % 2 == 1,
        r.writable <==> events.bits / 2 % 2 == 1,
        !r.error && !r.hang_up && !r.read_hang_up,
{
    let b = events.bits;
    assert((b & 1u32 == 1) == (b % 2 == 1) && (b & 2u32 == 2) == (b / 2 % 2 == 1)) by (bit_vector);
}

/// What the waiter reports stands in one bit of the caller's set each.
pub proof fn reports_stand_in_a_bit_each(set: WaitEventSet, r: EventSet)
    requires
        call_ensures(wait_event_set_to_event_set, (set,), r),
    ensures
        r.bits % 2 == 1 <==> set.readable,
        r.bits / 2 % 2 == 1 <==> set.writable,
        r.bits / 4 % 2 == 1 <==> set.error,
        r.bits / 8 % 2 == 1 <==> set.read_hang_up,
        r.bits / 16 % 2 == 0,
        r.bits / 32 % 2 == 1 <==> set.hang_up,
        r.bits < 64,
{
}

/// A set holds what was put into it, and what it held before.
pub proof fn sets_hold_what_is_put_in(
    set: &mut EventSet,
    flags: u32,
    asked: u32,
    before: bool,
    after: bool,
    own: bool,
)
    requires
        call_ensures(EventSet::insert, (set, flags), ()),
        call_ensures(EventSet::contains, (&*old(set), asked), before),
        call_ensures(EventSet::contains, (&*final(set), asked), after),
        call_ensures(EventSet::contains, (&*final(set), flags), own),
    ensures
        before ==> after,
        own,
        asked & flags == 0 ==> after == before,
{
    let b = old(set).bits;
    assert((b | flags) & flags == flags) by (bit_vector);
    assert(b & asked == asked ==> (b | flags) & asked == asked) by (bit_vector);
    assert(asked & flags == 0 ==> (b | flags) & asked == b & asked) by (bit_vector);
}

/// Of any bits a set keeps the ten that name an event.
pub proof fn unknown_bits_are_dropped(bits: u32, r: EventSet, event: EpollEvent, set: EventSet)
    requires
        call_ensures(EventSet::from_bits_truncate, (bits,), r),
        call_ensures(EpollEvent::event_set, (&event,), set),
    ensures
        r.bits == bits % 1024,
        set.bits == event.events % 1024,
{
    let e = event.events;
    assert(bits & 0b0011_1111_1111u32 == bits % 1024) by (bit_vector);
    assert(e & 0b0011_1111_1111u32 == e % 1024) by (bit_vector);
}

/// A new event carries the set and the data that it was made of, the data as a descriptor too.
pub proof fn events_carry_their_data(
    events: EventSet,
    data: u64,
    r: EpollEvent,
    bits: u32,
    token: u64,
    fd: usize,
)
    requires
        call_ensures(EpollEvent::new, (events, data), r),
        call_ensures(EpollEvent::events, (&r,), bits),
        call_ensures(EpollEvent::data, (&r,), token),
        call_ensures(EpollEvent::fd, (&r,), fd),
    ensures
        bits == events.bits,
        token == data,
        data <= usize::MAX ==> fd == data,
{
}

/// A handle that was added is known by the data of the event it was added with, and no other
/// handle's data changes.
pub proof fn added_handles_are_known_by_their_data(
    epoll: &mut Epoll,
    handle: usize,
    event: EpollEvent,
    other: usize,
)
    requires
        call_ensures(Epoll::added, (epoll, handle, &event), ()),
        other != handle,
    ensures
        final(epoll)@.contains_key(handle),
        final(epoll)@[handle] == event.data,
        final(epoll)@.contains_key(other) == old(epoll)@.contains_key(other),
        old(epoll)@.contains_key(other) ==> final(epoll)@[other] == old(epoll)@[other],
{
}

/// A change of a handle goes to the waiter under the token that the handle is known by, with the
/// directions of the event. A handle that is not known can only be added, and one that is deleted
/// is no longer known.
pub proof fn changes_go_by_the_known_token(
    epoll: &mut Epoll,
    operation: ControlOperation,
    handle: usize,
    event: EpollEvent,
    r: Result<WaitChange, NotRegistered>,
    set: EventSet,
    asked: WaitEventSet,
    other: usize,
)
    requires
        call_ensures(Epoll::ctl, (epoll, operation, handle, &event), r),
        call_ensures(EpollEvent::event_set, (&event,), set),
        call_ensures(event_set_to_wait_event_set, (set,), asked),
        other != handle,
    ensures
        r is Err <==> !(operation is Add) && !old(epoll)@.contains_key(handle),
        operation is Add ==> r == Ok::<WaitChange, NotRegistered>(
            WaitChange::Add { handle, token: event.data, events: asked },
        ),
        operation is Modify && old(epoll)@.contains_key(handle) ==> r == Ok::<
            WaitChange,
            NotRegistered,
        >(WaitChange::Modify { token: old(epoll)@[handle], events: asked }),
        operation is Delete && old(epoll)@.contains_key(handle) ==> r == Ok::<
            WaitChange,
            NotRegistered,
        >(WaitChange::Delete { token: old(epoll)@[handle] }),
        operation is Delete ==> !final(epoll)@.contains_key(handle),
        !(operation is Delete) ==> final(epoll)@ == old(epoll)@,
        final(epoll)@.contains_key(other) == old(epoll)@.contains_key(other),
        old(epoll)@.contains_key(other) ==> final(epoll)@[other] == old(epoll)@[other],
{
}

/// Each event that the waiter reports stands in its place, with its token and what happened, and
/// the events behind them stay as they were. No more are waited for than there is room.
pub proof fn waited_events_stand_in_their_place(
    epoll: Epoll,
    waited: &[WaitEvent],
    count: usize,
    events: &mut Vec<EpollEvent>,
    r: usize,
    i: int,
    set: EventSet,
)
    requires
        count <= waited@.len(),
        count <= events@.len(),
        call_ensures(Epoll::wait, (&epoll, waited, count, events), r),
        0 <= i < events@.len(),
        i < count ==> call_ensures(wait_event_set_to_event_set, (waited@[i].events,), set),
    ensures
        r == count,
        final(events)@.len() == old(events)@.len(),
        i < count ==> final(events)@[i].data == waited@[i].token && final(events)@[i].events
            == set.bits,
        i >= count ==> final(events)@[i] == old(events)@[i],
{
}

/// As many events are waited for as are asked for and there is room for.
pub proof fn no_more_is_waited_for_than_fits(max_events: usize, room: usize, r: usize)
    requires
        call_ensures(Epoll::wait_capacity, (max_events, room), r),
    ensures
        r <= max_events && r <= room,
        r == max_events || r == room,
{
}

/// A set holds flags where it holds each of them.
pub proof fn sets_hold_every_flag_asked_for(set: EventSet, flags: u32, bit: u32, r: bool)
    requires
        call_ensures(EventSet::contains, (&set, flags), r),
        bit < 32,
        flags >> bit & 1 == 1,
    ensures
        r ==> set.bits >> bit & 1 == 1,
        set.bits >> bit & 1 == 0 ==> !r,
        !r ==> flags & !set.bits != 0,
{
    let b = set.bits;
    assert(b & flags == flags && flags >> bit & 1 == 1 ==> b >> bit & 1 == 1) by (bit_vector)
        requires
            bit < 32,
    ;
    assert(b & flags != flags ==> flags & !b != 0) by (bit_vector);
}

} // verus!

//! What the network worker does with the events that it waits for.

use crate::bytes::{get_le_u16, join_parts, joined, le_u16};
use crate::descriptor::{buffers_follow_each_other, byte_address, chain_len, Descriptor};
use crate::epoll::{EventSet, HANG_UP, IN, OUT, READ_HANG_UP};
use crate::guest_memory::{
    all_mapped, guest_regions, read_at, read_gave, read_gave_byte, write_at, write_took,
    write_took_byte,
};
use crate::net::backend::WriteError;
use crate::net::flow::{flow_key, flow_queue, flow_queue_index};
use vm_memory::GuestMemoryMmap;
use vstd::prelude::*;

verus! {

/// The token of the first receive queue; queue `i` has this one plus `i`.
pub const RX_QUEUE_EVENT_BASE: u64 = 0;

/// The token of the first transmit queue; queue `i` has this one plus `i`.
pub const TX_QUEUE_EVENT_BASE: u64 = 16;

/// The token of the control queue.
pub const CONTROL_QUEUE_EVENT: u64 = 32;

/// The token of the backend.
pub const BACKEND_EVENT: u64 = 33;

/// Pairs of queues that have tokens of their own.
pub const QUEUE_PAIR_TOKENS: usize = 16;

/// Bytes that a frame may have, its header included.
pub const MAX_BUFFER_SIZE: usize = 65562;

/// Bytes in the header before an Ethernet frame.
pub const VNET_HDR_LEN: usize = 12;

/// The class of commands about queue pairs.
pub const VIRTIO_NET_CTRL_MQ: u8 = 4;

/// The command that sets the number of queue pairs.
pub const VIRTIO_NET_CTRL_MQ_VQ_PAIRS_SET: u8 = 0;

/// Status of a command that was carried out.
pub const VIRTIO_NET_OK: u8 = 0;

/// Status of a command that was refused.
pub const VIRTIO_NET_ERR: u8 = 1;

/// Whether a token belongs to a receive queue.
pub fn is_rx_queue_event(source: u64, queue_count: usize) -> (r: bool)
    ensures
        r == (RX_QUEUE_EVENT_BASE <= source < RX_QUEUE_EVENT_BASE + queue_count),
{
    source < queue_count as u64
}

/// Whether a token belongs to a transmit queue.
pub fn is_tx_queue_event(source: u64, queue_count: usize) -> (r: bool)
    ensures
        r == (TX_QUEUE_EVENT_BASE <= source < TX_QUEUE_EVENT_BASE + queue_count),
{
    source >= TX_QUEUE_EVENT_BASE && source - TX_QUEUE_EVENT_BASE < queue_count as u64
}

/// What the worker does for an event.
#[derive(Clone, Copy, Debug, PartialEq, Eq, Structural)]
pub enum NetStep {
    /// The guest offered receive buffers.
    Receive { queue_index: usize },
    /// The guest offered frames.
    Transmit { queue_index: usize },
    /// The guest sent a command.
    Control,
    /// The backend is gone, and the network with it.
    BackendGone,
    /// The backend has frames, or has room for some.
    Backend { readable: bool, writable: bool },
    /// Nothing is registered under this token.
    Ignore,
}

/// The step for an event.
pub open spec fn net_step(source: u64, events: EventSet, queue_pairs: nat) -> NetStep {
    if events.has(IN) && source < queue_pairs {
        NetStep::Receive { queue_index: source as usize }
    } else if events.has(IN) && TX_QUEUE_EVENT_BASE <= source < TX_QUEUE_EVENT_BASE + queue_pairs {
        NetStep::Transmit { queue_index: (source - TX_QUEUE_EVENT_BASE) as usize }
    } else if events.has(IN) && source == CONTROL_QUEUE_EVENT {
        NetStep::Control
    } else if source == BACKEND_EVENT {
        if events.has(HANG_UP) || events.has(READ_HANG_UP) {
            NetStep::BackendGone
        } else {
            NetStep::Backend { readable: events.has(IN), writable: events.has(OUT) }
        }
    } else {
        NetStep::Ignore
    }
}

/// What an event asks of the worker.
pub fn dispatch(source: u64, events: EventSet, queue_pairs: usize) -> (r: NetStep)
    ensures
        r == net_step(source, events, queue_pairs as nat),
{
    let ready: bool = events.contains(IN);
    if ready && is_rx_queue_event(source, queue_pairs) {
        NetStep::Receive { queue_index: source as usize }
    } else if ready && is_tx_queue_event(source, queue_pairs) {
        NetStep::Transmit { queue_index: (source - TX_QUEUE_EVENT_BASE) as usize }
    } else if ready && source == CONTROL_QUEUE_EVENT {
        NetStep::Control
    } else if source == BACKEND_EVENT {
        if events.contains(HANG_UP) || events.contains(READ_HANG_UP) {
            NetStep::BackendGone
        } else {
            NetStep::Backend { readable: ready, writable: events.contains(OUT) }
        }
    } else {
        NetStep::Ignore
    }
}

/// With no more pairs than there are tokens for, every token leads to its own queue.
pub proof fn net_tokens_are_distinct(queue_pairs: nat, queue: u64, events: EventSet)
    requires
        queue_pairs <= QUEUE_PAIR_TOKENS,
        queue < queue_pairs,
        events.has(IN),
    ensures
        net_step((RX_QUEUE_EVENT_BASE + queue) as u64, events, queue_pairs) == (NetStep::Receive {
            queue_index: queue as usize,
        }),
        net_step((TX_QUEUE_EVENT_BASE + queue) as u64, events, queue_pairs) == (NetStep::Transmit {
            queue_index: queue as usize,
        }),
        net_step(CONTROL_QUEUE_EVENT, events, queue_pairs) == NetStep::Control,
        net_step(BACKEND_EVENT, events, queue_pairs) is Backend || net_step(
            BACKEND_EVENT,
            events,
            queue_pairs,
        ) is BackendGone,
{
}

/// The settings of a worker, and what it keeps from one event to the next.
#[derive(Clone, Copy, Debug, PartialEq, Eq, Structural)]
pub struct NetWorker {
    /// Pairs of queues that the device has.
    pub queue_pairs: usize,
    /// Pairs of queues that the guest uses.
    pub active_queue_pairs: usize,
    /// A frame was read that no receive buffer was there for.
    pub rx_has_deferred_frame: bool,
    /// Bytes of the frame that is being sent.
    pub tx_frame_len: usize,
}

/// The pairs that a command asks for, if it is one that sets them to a number that the device has.
pub open spec fn requested_pairs(request: Seq<u8>, queue_pairs: nat) -> Option<usize> {
    if request.len() >= 4 && request[0] == VIRTIO_NET_CTRL_MQ && request[1]
        == VIRTIO_NET_CTRL_MQ_VQ_PAIRS_SET && 0 < le_u16(request, 2) <= queue_pairs {
        Some(le_u16(request, 2) as usize)
    } else {
        None
    }
}

impl NetWorker {
    /// The guest uses at least one pair, and no more than the device has.
    pub open spec fn wf(self) -> bool {
        &&& 1 <= self.active_queue_pairs <= self.queue_pairs
        &&& self.tx_frame_len <= MAX_BUFFER_SIZE
    }

    /// A worker whose guest uses one pair.
    pub fn new(queue_pairs: usize) -> (r: NetWorker)
        requires
            queue_pairs >= 1,
        ensures
            r.wf(),
            r == (NetWorker {
                queue_pairs,
                active_queue_pairs: 1,
                rx_has_deferred_frame: false,
                tx_frame_len: 0,
            }),
    {
        NetWorker {
            queue_pairs,
            active_queue_pairs: 1,
            rx_has_deferred_frame: false,
            tx_frame_len: 0,
        }
    }

    /// Carries a command out, or refuses it. The result is the status that the guest is to see.
    /// `None` stands for a chain that cannot be read.
    pub fn control(&mut self, request: Option<&[u8]>) -> (status: u8)
        requires
            old(self).wf(),
        ensures
            final(self).wf(),
            ({
                let pairs = match request {
                    None => None,
                    Some(bytes) => requested_pairs(bytes@, old(self).queue_pairs as nat),
                };
                &&& status == if pairs is Some {
                    VIRTIO_NET_OK
                } else {
                    VIRTIO_NET_ERR
                }
                &&& *final(self) == (NetWorker {
                    active_queue_pairs: match pairs {
                        Some(count) => count,
                        None => old(self).active_queue_pairs,
                    },
                    ..*old(self)
                })
            }),
    {
        let bytes: &[u8] = match request {
            None => {
                return VIRTIO_NET_ERR;
            },
            Some(bytes) => bytes,
        };
        if bytes.len() < 4 {
            return VIRTIO_NET_ERR;
        }
        let pairs: usize = get_le_u16(bytes, 2) as usize;
        if bytes[0] == VIRTIO_NET_CTRL_MQ && bytes[1] == VIRTIO_NET_CTRL_MQ_VQ_PAIRS_SET && pairs
            > 0 && pairs <= self.queue_pairs {
            self.active_queue_pairs = pairs;
            VIRTIO_NET_OK
        } else {
            VIRTIO_NET_ERR
        }
    }

    /// Whether a transmit queue is served: only those that the guest uses are.
    pub fn serves_tx(&self, queue_index: usize) -> (r: bool)
        ensures
            r == (queue_index < self.active_queue_pairs),
    {
        queue_index < self.active_queue_pairs
    }

    /// Transmit queues that are served once the rest of a frame went to the backend, or did not.
    pub fn queues_after_finished_write(&self, result: Result<(), WriteError>) -> (r: usize)
        ensures
            r == if result is Ok {
                self.active_queue_pairs
            } else {
                0
            },
    {
        match result {
            Ok(()) => self.active_queue_pairs,
            Err(_) => 0,
        }
    }

    /// The receive queue for a frame, whose first bytes are its header.
    pub fn rx_queue_for(&self, frame: &[u8]) -> (r: usize)
        requires
            self.wf(),
            frame@.len() >= VNET_HDR_LEN,
        ensures
            r == flow_queue(flow_key(frame@.skip(VNET_HDR_LEN as int)), self.active_queue_pairs),
            r < self.active_queue_pairs,
    {
        let ethernet = vstd::slice::slice_subrange(frame, VNET_HDR_LEN, frame.len());
        assert(ethernet@ =~= frame@.skip(VNET_HDR_LEN as int));
        flow_queue_index(ethernet, self.active_queue_pairs)
    }
}

/// Bytes that the used ring is told for a command: its status, where that could be written.
pub fn control_used_len(readable: bool, status_written: bool) -> (r: u32)
    ensures
        r == if readable && status_written {
            1u32
        } else {
            0u32
        },
{
    if readable && status_written {
        1
    } else {
        0
    }
}

/// Whether the guest is interrupted after its commands: at least one went into the used ring, and
/// the guest wants to know.
pub fn control_signals(completed: bool, needed: Option<bool>) -> (r: bool)
    ensures
        r == (completed && needed == Some(true)),
{
    completed && match needed {
        Some(needed) => needed,
        None => false,
    }
}

/// A command that is accepted asks for at least one pair, and for no more than the device has.
pub proof fn control_keeps_pairs_in_range(request: Seq<u8>, queue_pairs: nat)
    ensures
        requested_pairs(request, queue_pairs) matches Some(pairs) ==> 1 <= pairs <= queue_pairs,
{
}

// ---- Frames to the guest ----

/// Why a frame did not go into a chain of receive buffers.
#[derive(Clone, Copy, Debug, PartialEq, Eq, Structural)]
pub enum FrontendError {
    DescriptorChainTooSmall,
    EmptyQueue,
    GuestMemory,
    QueueError,
    ReadOnlyDescriptor,
}

/// One write to guest memory.
#[derive(Clone, Copy, Debug, PartialEq, Eq, Structural)]
pub struct FrameWrite {
    /// Guest address.
    pub addr: u64,
    /// Where the bytes stand in the frame.
    pub start: usize,
    /// Bytes to write.
    pub len: usize,
}

/// The writes that take a frame from byte `start` on into a chain, and whether it fits.
pub open spec fn frame_writes(descriptors: Seq<Descriptor>, start: int, frame_len: int) -> (
    Seq<FrameWrite>,
    Result<(), FrontendError>,
)
    decreases descriptors.len(),
{
    if start >= frame_len {
        (Seq::empty(), Ok(()))
    } else if descriptors.len() == 0 {
        (Seq::empty(), Err(FrontendError::DescriptorChainTooSmall))
    } else if !descriptors[0].write_only {
        (Seq::empty(), Err(FrontendError::ReadOnlyDescriptor))
    } else {
        let len = if frame_len - start < descriptors[0].len {
            frame_len - start
        } else {
            descriptors[0].len as int
        };
        let write = FrameWrite { addr: descriptors[0].addr, start: start as usize, len: len as usize };
        let (rest, result) = frame_writes(descriptors.skip(1), start + len, frame_len);
        (seq![write] + rest, result)
    }
}

/// The writes that take a frame into a chain of receive buffers. On an error the writes before it
/// are made all the same.
pub fn plan_frame_writes(descriptors: &[Descriptor], frame_len: usize) -> (r: (
    Vec<FrameWrite>,
    Result<(), FrontendError>,
))
    ensures
        (r.0@, r.1) == frame_writes(descriptors@, 0, frame_len as int),
{
    let mut writes: Vec<FrameWrite> = Vec::new();
    let mut start: usize = 0;
    let mut i: usize = 0;
    let ghost whole = frame_writes(descriptors@, 0, frame_len as int);
    assert(descriptors@.skip(0) =~= descriptors@);
    assert(writes@ + whole.0 =~= whole.0);
    while start < frame_len && i < descriptors.len()
        invariant
            i <= descriptors@.len(),
            start <= frame_len,
            whole == frame_writes(descriptors@, 0, frame_len as int),
            whole == ({
                let rest = frame_writes(descriptors@.skip(i as int), start as int, frame_len as int);
                (writes@ + rest.0, rest.1)
            }),
        decreases descriptors@.len() - i,
    {
        let descriptor: Descriptor = descriptors[i];
        let ghost rest = descriptors@.skip(i as int);
        assert(rest[0] == descriptor);
        assert(rest.skip(1) =~= descriptors@.skip(i + 1));
        if !descriptor.write_only {
            assert(writes@ + Seq::<FrameWrite>::empty() =~= writes@);
            return (writes, Err(FrontendError::ReadOnlyDescriptor));
        }
        let len: usize = if ((frame_len - start) as u64) < descriptor.len as u64 {
            frame_len - start
        } else {
            descriptor.len as usize
        };
        let write = FrameWrite { addr: descriptor.addr, start, len };
        let ghost before = writes@;
        writes.push(write);
        start = start + len;
        i = i + 1;
        proof {
            let tail = frame_writes(descriptors@.skip(i as int), start as int, frame_len as int);
            assert(before + (seq![write] + tail.0) =~= writes@ + tail.0);
        }
    }
    assert(writes@ + Seq::<FrameWrite>::empty() =~= writes@);
    if start < frame_len {
        (writes, Err(FrontendError::DescriptorChainTooSmall))
    } else {
        (writes, Ok(()))
    }
}

/// Writes that follow each other from byte `start` of a frame up to byte `end`.
pub open spec fn consecutive(writes: Seq<FrameWrite>, start: int, end: int) -> bool
    decreases writes.len(),
{
    if writes.len() == 0 {
        start == end
    } else {
        &&& writes[0].start == start
        &&& consecutive(writes.skip(1), start + writes[0].len, end)
    }
}

/// A frame that fits is written from its first byte to its last, without a gap.
pub proof fn fitting_frame_is_written_whole(
    descriptors: Seq<Descriptor>,
    start: int,
    frame_len: int,
)
    requires
        0 <= start <= frame_len <= usize::MAX,
        frame_writes(descriptors, start, frame_len).1 is Ok,
    ensures
        consecutive(frame_writes(descriptors, start, frame_len).0, start, frame_len),
    decreases descriptors.len(),
{
    if start < frame_len {
        let len = if frame_len - start < descriptors[0].len {
            frame_len - start
        } else {
            descriptors[0].len as int
        };
        let (writes, _) = frame_writes(descriptors, start, frame_len);
        let (rest, _) = frame_writes(descriptors.skip(1), start + len, frame_len);
        fitting_frame_is_written_whole(descriptors.skip(1), start + len, frame_len);
        assert(writes.skip(1) =~= rest);
    }
}

/// A chain of writable descriptors takes a frame exactly where it has room for it.
pub proof fn writable_chain_takes_frame(descriptors: Seq<Descriptor>, start: int, frame_len: int)
    requires
        0 <= start <= frame_len,
        forall|i: int| 0 <= i < descriptors.len() ==> (#[trigger] descriptors[i]).write_only,
    ensures
        frame_writes(descriptors, start, frame_len).1 is Ok <==> frame_len - start <= chain_len(
            descriptors,
        ),
    decreases descriptors.len(),
{
    if descriptors.len() > 0 {
        let rest = descriptors.skip(1);
        lemma_chain_len_skip(descriptors);
        assert forall|i: int| 0 <= i < rest.len() implies (#[trigger] rest[i]).write_only by {
            assert(rest[i] == descriptors[i + 1]);
        }
        assert(descriptors[0].write_only);
        if start < frame_len {
            let len = if frame_len - start < descriptors[0].len {
                frame_len - start
            } else {
                descriptors[0].len as int
            };
            writable_chain_takes_frame(rest, start + len, frame_len);
        }
    }
}

proof fn lemma_chain_len_skip(descriptors: Seq<Descriptor>)
    requires
        descriptors.len() > 0,
    ensures
        chain_len(descriptors) == descriptors[0].len + chain_len(descriptors.skip(1)),
    decreases descriptors.len(),
{
    if descriptors.len() > 1 {
        lemma_chain_len_skip(descriptors.drop_last());
        assert(descriptors.drop_last().skip(1) =~= descriptors.skip(1).drop_last());
        assert(descriptors.skip(1).last() == descriptors.last());
    } else {
        assert(descriptors.drop_last() =~= Seq::empty());
        assert(descriptors.skip(1) =~= Seq::empty());
    }
}

/// How a chain of receive buffers ends, and the length that the used ring is told: a chain that
/// could not take the frame is given back empty.
pub fn finish_frame(
    frame_len: usize,
    planned: Result<(), FrontendError>,
    write_failed: bool,
) -> (r: (Result<(), FrontendError>, u32))
    requires
        frame_len <= MAX_BUFFER_SIZE,
    ensures
        r.0 == if write_failed {
            Err(FrontendError::GuestMemory)
        } else {
            planned
        },
        r.1 == if r.0 is Ok {
            frame_len as int
        } else {
            0
        },
{
    let result: Result<(), FrontendError> = if write_failed {
        Err(FrontendError::GuestMemory)
    } else {
        planned
    };
    let used_len: u32 = if result.is_ok() {
        frame_len as u32
    } else {
        0
    };
    (result, used_len)
}

/// Every write goes to mapped guest memory.
pub open spec fn writes_mapped(regions: Seq<(u64, u64)>, writes: Seq<FrameWrite>) -> bool {
    forall|i: int|
        0 <= i < writes.len() ==> all_mapped(
            regions,
            (#[trigger] writes[i]).addr,
            writes[i].len as nat,
        )
}

/// Guest memory took the part of the frame that each write names.
pub open spec fn writes_taken(
    mem: GuestMemoryMmap,
    writes: Seq<FrameWrite>,
    frame: Seq<u8>,
) -> bool {
    forall|i: int|
        0 <= i < writes.len() ==> write_took(
            mem,
            (#[trigger] writes[i]).addr,
            frame.subrange(writes[i].start as int, writes[i].start + writes[i].len),
        )
}

/// The bytes of a frame that a planned write puts into guest memory.
pub fn frame_part<'a>(frame: &'a [u8], write: FrameWrite) -> (r: &'a [u8])
    requires
        write.start + write.len <= frame@.len(),
    ensures
        r@ == frame@.subrange(write.start as int, write.start + write.len),
{
    assert(frame@.len() == frame.len());
    vstd::slice::slice_subrange(frame, write.start, write.start + write.len)
}

/// Copies a frame into a chain of receive buffers. The result goes with the length that the used
/// ring is told. What the guest makes of the bytes is not stated.
pub fn write_frame_to_guest_impl(
    mem: &GuestMemoryMmap,
    descriptors: &[Descriptor],
    frame: &[u8],
) -> (r: (Result<(), FrontendError>, u32))
    requires
        frame@.len() <= MAX_BUFFER_SIZE,
    ensures
        ({
            let (writes, planned) = frame_writes(descriptors@, 0, frame@.len() as int);
            &&& r.0 == if writes_mapped(guest_regions(*mem), writes) {
                planned
            } else {
                Err(FrontendError::GuestMemory)
            }
            &&& r.1 == if r.0 is Ok {
                frame@.len() as int
            } else {
                0
            }
            &&& writes_mapped(guest_regions(*mem), writes) ==> writes_taken(*mem, writes, frame@)
        }),
{
    let (writes, planned) = plan_frame_writes(descriptors, frame.len());
    proof {
        lemma_frame_writes_inside(descriptors@, 0, frame@.len() as int);
    }
    let mut i: usize = 0;
    while i < writes.len()
        invariant
            i <= writes@.len(),
            frame@.len() <= MAX_BUFFER_SIZE,
            (writes@, planned) == frame_writes(descriptors@, 0, frame@.len() as int),
            writes_inside(writes@, frame@.len() as int),
            writes_taken(*mem, writes@.take(i as int), frame@),
            forall|j: int|
                0 <= j < i ==> all_mapped(
                    guest_regions(*mem),
                    (#[trigger] writes@[j]).addr,
                    writes@[j].len as nat,
                ),
        decreases writes@.len() - i,
    {
        let write: FrameWrite = writes[i];
        assert(writes@[i as int].start + writes@[i as int].len <= frame@.len());
        if !write_at(mem, write.addr, frame_part(frame, write)) {
            assert(!all_mapped(
                guest_regions(*mem),
                writes@[i as int].addr,
                writes@[i as int].len as nat,
            ));
            return finish_frame(frame.len(), planned, true);
        }
        i = i + 1;
    }
    assert(writes@.take(i as int) =~= writes@);
    finish_frame(frame.len(), planned, false)
}

/// Every write takes bytes of the frame.
pub open spec fn writes_inside(writes: Seq<FrameWrite>, frame_len: int) -> bool {
    forall|i: int|
        0 <= i < writes.len() ==> (#[trigger] writes[i]).start + writes[i].len <= frame_len
}

proof fn lemma_frame_writes_inside(descriptors: Seq<Descriptor>, start: int, frame_len: int)
    requires
        0 <= start <= frame_len <= usize::MAX,
    ensures
        writes_inside(frame_writes(descriptors, start, frame_len).0, frame_len),
    decreases descriptors.len(),
{
    if start < frame_len && descriptors.len() > 0 && descriptors[0].write_only {
        let len = if frame_len - start < descriptors[0].len {
            frame_len - start
        } else {
            descriptors[0].len as int
        };
        lemma_frame_writes_inside(descriptors.skip(1), start + len, frame_len);
    }
}

/// The attempts to hand one frame to the guest.
#[derive(Clone, Copy, Debug, PartialEq, Eq, Structural)]
pub struct Delivery {
    /// Chains that may still be tried.
    pub attempts_left: u16,
}

/// Where the delivery of a frame stands.
#[derive(Clone, Copy, Debug, PartialEq, Eq, Structural)]
pub enum DeliveryStep {
    /// Try the next chain.
    Attempt,
    /// The frame was handed over, or was not.
    Finished { delivered: bool },
}

impl Delivery {
    /// A delivery that tries as many chains as the queue has.
    pub fn new(queue_size: u16) -> (r: (Delivery, DeliveryStep))
        ensures
            r.0.attempts_left == queue_size,
            r.1 == if queue_size == 0 {
                DeliveryStep::Finished { delivered: false }
            } else {
                DeliveryStep::Attempt
            },
    {
        (
            Delivery { attempts_left: queue_size },
            if queue_size == 0 {
                DeliveryStep::Finished { delivered: false }
            } else {
                DeliveryStep::Attempt
            },
        )
    }

    /// What follows an attempt: a chain that could not take the frame is passed over.
    pub fn attempted(&mut self, result: Result<(), FrontendError>) -> (r: DeliveryStep)
        requires
            old(self).attempts_left > 0,
        ensures
            final(self).attempts_left == old(self).attempts_left - 1,
            r == match result {
                Ok(()) => DeliveryStep::Finished { delivered: true },
                Err(FrontendError::EmptyQueue) => DeliveryStep::Finished { delivered: false },
                Err(_) => if old(self).attempts_left == 1 {
                    DeliveryStep::Finished { delivered: false }
                } else {
                    DeliveryStep::Attempt
                },
            },
    {
        self.attempts_left = self.attempts_left - 1;
        match result {
            Ok(()) => DeliveryStep::Finished { delivered: true },
            Err(FrontendError::EmptyQueue) => DeliveryStep::Finished { delivered: false },
            Err(_) => if self.attempts_left == 0 {
                DeliveryStep::Finished { delivered: false }
            } else {
                DeliveryStep::Attempt
            },
        }
    }
}

/// How a round of receiving ended.
#[derive(Clone, Copy, Debug, PartialEq, Eq, Structural)]
pub enum RxResult {
    Done,
    /// The backend failed with this error number.
    Backend(i32),
    /// The guest could not be interrupted.
    DeviceError,
}

/// Where a round of receiving stands.
#[derive(Clone, Copy, Debug, PartialEq, Eq, Structural)]
pub enum RxPhase {
    /// The frame from the last round is handed to the guest.
    DeliveringDeferred,
    /// A frame is read.
    Reading,
    /// A frame is handed to the guest.
    Delivering,
    /// The guest is interrupted; the round then ends like this.
    Signalling(RxResult),
    /// The round is over.
    Finished,
}

/// What happened in a round of receiving.
#[derive(Clone, Copy, Debug, PartialEq, Eq, Structural)]
pub enum RxEvent {
    /// The delivery of a frame ended.
    Delivered { delivered: bool },
    /// The backend had a frame.
    FrameRead,
    /// The backend had no frame.
    NothingRead,
    /// The backend failed with this error number.
    ReadFailed(i32),
    /// The guest was interrupted, or could not be.
    Signalled { done: bool },
}

/// What is done next in a round of receiving.
#[derive(Clone, Copy, Debug, PartialEq, Eq, Structural)]
pub enum RxAction {
    ReadFrame,
    DeliverFrame,
    Signal,
    Finish(RxResult),
}

/// One round of receiving.
#[derive(Clone, Copy, Debug, PartialEq, Eq, Structural)]
pub struct RxPass {
    /// A frame waits for receive buffers.
    pub deferred: bool,
    /// A frame of this round was handed to the guest.
    pub signal_queue: bool,
    pub phase: RxPhase,
}

impl RxPass {
    /// The end of a round: the guest is interrupted first where it was given a frame.
    pub open spec fn ending(self, result: RxResult) -> (RxPass, RxAction) {
        if self.signal_queue {
            (RxPass { phase: RxPhase::Signalling(result), ..self }, RxAction::Signal)
        } else {
            (RxPass { phase: RxPhase::Finished, ..self }, RxAction::Finish(result))
        }
    }

    /// The first action of a round: a frame from the last round comes first.
    pub open spec fn opening(deferred: bool) -> (RxPass, RxAction) {
        if deferred {
            (
                RxPass { deferred, signal_queue: false, phase: RxPhase::DeliveringDeferred },
                RxAction::DeliverFrame,
            )
        } else {
            (
                RxPass { deferred, signal_queue: false, phase: RxPhase::Reading },
                RxAction::ReadFrame,
            )
        }
    }

    /// The next phase and action. `None` stands for an event that does not belong to the phase.
    pub open spec fn transition(self, event: RxEvent) -> Option<(RxPass, RxAction)> {
        match (self.phase, event) {
            (RxPhase::DeliveringDeferred, RxEvent::Delivered { delivered }) => if delivered {
                Some(
                    (
                        RxPass { deferred: false, phase: RxPhase::Reading, ..self },
                        RxAction::ReadFrame,
                    ),
                )
            } else {
                Some(
                    (
                        RxPass { phase: RxPhase::Finished, ..self },
                        RxAction::Finish(RxResult::Done),
                    ),
                )
            },
            (RxPhase::Reading, RxEvent::FrameRead) => Some(
                (RxPass { phase: RxPhase::Delivering, ..self }, RxAction::DeliverFrame),
            ),
            (RxPhase::Reading, RxEvent::NothingRead) => Some(self.ending(RxResult::Done)),
            (RxPhase::Reading, RxEvent::ReadFailed(code)) => Some(
                self.ending(RxResult::Backend(code)),
            ),
            (RxPhase::Delivering, RxEvent::Delivered { delivered }) => if delivered {
                Some(
                    (
                        RxPass { signal_queue: true, phase: RxPhase::Reading, ..self },
                        RxAction::ReadFrame,
                    ),
                )
            } else {
                Some((RxPass { deferred: true, ..self }).ending(RxResult::Done))
            },
            (RxPhase::Signalling(result), RxEvent::Signalled { done }) => Some(
                (
                    RxPass { phase: RxPhase::Finished, ..self },
                    RxAction::Finish(
                        if done {
                            result
                        } else {
                            RxResult::DeviceError
                        },
                    ),
                ),
            ),
            _ => None,
        }
    }

    /// A round that starts, and its first action.
    pub fn start(deferred: bool) -> (r: (RxPass, RxAction))
        ensures
            r == RxPass::opening(deferred),
    {
        if deferred {
            (
                RxPass { deferred, signal_queue: false, phase: RxPhase::DeliveringDeferred },
                RxAction::DeliverFrame,
            )
        } else {
            (
                RxPass { deferred, signal_queue: false, phase: RxPhase::Reading },
                RxAction::ReadFrame,
            )
        }
    }

    fn end(&mut self, result: RxResult) -> (r: RxAction)
        ensures
            (*final(self), r) == old(self).ending(result),
    {
        if self.signal_queue {
            self.phase = RxPhase::Signalling(result);
            RxAction::Signal
        } else {
            self.phase = RxPhase::Finished;
            RxAction::Finish(result)
        }
    }

    /// What is done next. An event that does not belong to the phase changes nothing.
    pub fn step(&mut self, event: RxEvent) -> (r: Option<RxAction>)
        ensures
            r is Some <==> old(self).transition(event) is Some,
            r is None ==> *final(self) == *old(self),
            r matches Some(action) ==> old(self).transition(event) == Some((*final(self), action)),
    {
        match (self.phase, event) {
            (RxPhase::DeliveringDeferred, RxEvent::Delivered { delivered }) => {
                if delivered {
                    self.deferred = false;
                    self.phase = RxPhase::Reading;
                    Some(RxAction::ReadFrame)
                } else {
                    self.phase = RxPhase::Finished;
                    Some(RxAction::Finish(RxResult::Done))
                }
            },
            (RxPhase::Reading, RxEvent::FrameRead) => {
                self.phase = RxPhase::Delivering;
                Some(RxAction::DeliverFrame)
            },
            (RxPhase::Reading, RxEvent::NothingRead) => Some(self.end(RxResult::Done)),
            (RxPhase::Reading, RxEvent::ReadFailed(code)) => Some(
                self.end(RxResult::Backend(code)),
            ),
            (RxPhase::Delivering, RxEvent::Delivered { delivered }) => {
                if delivered {
                    self.signal_queue = true;
                    self.phase = RxPhase::Reading;
                    Some(RxAction::ReadFrame)
                } else {
                    self.deferred = true;
                    Some(self.end(RxResult::Done))
                }
            },
            (RxPhase::Signalling(result), RxEvent::Signalled { done }) => {
                self.phase = RxPhase::Finished;
                Some(
                    RxAction::Finish(
                        if done {
                            result
                        } else {
                            RxResult::DeviceError
                        },
                    ),
                )
            },
            _ => None,
        }
    }
}

/// A frame is read only while none is waiting, so no frame is lost or overtaken: from the start of
/// a round on, a pass that reads has no deferred frame.
pub proof fn reading_means_nothing_deferred(pass: RxPass, event: RxEvent)
    requires
        pass.phase == RxPhase::Reading || pass.phase == RxPhase::Delivering ==> !pass.deferred,
        pass.transition(event) is Some,
    ensures
        ({
            let (next, action) = pass.transition(event)->Some_0;
            &&& next.phase == RxPhase::Reading || next.phase == RxPhase::Delivering
                ==> !next.deferred
            &&& action == RxAction::ReadFrame ==> !next.deferred
            &&& pass.phase == RxPhase::Delivering && event == (RxEvent::Delivered {
                delivered: false,
            }) ==> next.deferred
        }),
        ({
            let (first, _) = RxPass::opening(pass.deferred);
            first.phase == RxPhase::Reading ==> !first.deferred
        }),
{
}

// ---- Frames from the guest ----

/// One read from guest memory.
#[derive(Clone, Copy, Debug, PartialEq, Eq, Structural)]
pub struct TxRead {
    /// Guest address.
    pub addr: u64,
    /// Where the bytes go in the frame.
    pub start: usize,
    /// Bytes to read.
    pub len: usize,
}

/// A length that is cut off at the size of the frame buffer.
pub open spec fn frame_limit(len: nat) -> nat {
    if len < MAX_BUFFER_SIZE {
        len
    } else {
        MAX_BUFFER_SIZE as nat
    }
}

/// A descriptor of the chain belongs to the device.
pub open spec fn has_write_only(descriptors: Seq<Descriptor>) -> bool {
    exists|i: int| 0 <= i < descriptors.len() && (#[trigger] descriptors[i]).write_only
}

/// The read that descriptor `i` of a chain asks for: descriptors follow each other in the frame
/// buffer, and what does not fit is left out.
pub open spec fn tx_read(descriptors: Seq<Descriptor>, i: int) -> TxRead {
    TxRead {
        addr: descriptors[i].addr,
        start: frame_limit(chain_len(descriptors.take(i))) as usize,
        len: (frame_limit(chain_len(descriptors.take(i + 1))) - frame_limit(
            chain_len(descriptors.take(i)),
        )) as usize,
    }
}

/// The reads that gather the frame of a chain. A chain with a descriptor of the device's own has
/// none.
pub open spec fn tx_reads(descriptors: Seq<Descriptor>) -> Seq<TxRead> {
    if has_write_only(descriptors) {
        Seq::empty()
    } else {
        Seq::new(descriptors.len(), |i: int| tx_read(descriptors, i))
    }
}

/// The reads that gather the frame of a chain.
pub fn plan_tx_reads(descriptors: &[Descriptor]) -> (r: Vec<TxRead>)
    ensures
        r@ == tx_reads(descriptors@),
{
    let mut reads: Vec<TxRead> = Vec::new();
    let mut read_count: usize = 0;
    let mut i: usize = 0;
    assert(descriptors@.take(0) =~= Seq::empty());
    while i < descriptors.len()
        invariant
            i <= descriptors@.len(),
            read_count == frame_limit(chain_len(descriptors@.take(i as int))),
            reads@.len() == i,
            forall|j: int| 0 <= j < i ==> #[trigger] reads@[j] == tx_read(descriptors@, j),
            forall|j: int| 0 <= j < i ==> !(#[trigger] descriptors@[j]).write_only,
        decreases descriptors@.len() - i,
    {
        let descriptor: Descriptor = descriptors[i];
        if descriptor.write_only {
            assert(descriptors@[i as int].write_only);
            let none: Vec<TxRead> = Vec::new();
            assert(none@ =~= tx_reads(descriptors@));
            return none;
        }
        assert(descriptors@.take(i + 1).drop_last() =~= descriptors@.take(i as int));
        let wanted: u64 = read_count as u64 + descriptor.len as u64;
        let limit: usize = if wanted < MAX_BUFFER_SIZE as u64 {
            wanted as usize
        } else {
            MAX_BUFFER_SIZE
        };
        reads.push(TxRead { addr: descriptor.addr, start: read_count, len: limit - read_count });
        read_count = limit;
        i = i + 1;
    }
    assert(reads@ =~= tx_reads(descriptors@));
    reads
}

/// Every read is from mapped guest memory.
pub open spec fn reads_mapped(regions: Seq<(u64, u64)>, reads: Seq<TxRead>) -> bool {
    forall|i: int|
        0 <= i < reads.len() ==> all_mapped(
            regions,
            (#[trigger] reads[i]).addr,
            reads[i].len as nat,
        )
}

/// Bytes of the frame that a chain gives: none where part of it cannot be read.
pub open spec fn gathered_len(regions: Seq<(u64, u64)>, descriptors: Seq<Descriptor>) -> nat {
    if has_write_only(descriptors) || !reads_mapped(regions, tx_reads(descriptors)) {
        0
    } else {
        frame_limit(chain_len(descriptors))
    }
}

/// Each part is what guest memory gave for a read.
pub open spec fn parts_of(mem: GuestMemoryMmap, reads: Seq<TxRead>, parts: Seq<Vec<u8>>) -> bool {
    &&& parts.len() == reads.len()
    &&& forall|i: int|
        0 <= i < reads.len() ==> (#[trigger] parts[i])@.len() == reads[i].len && read_gave(
            mem,
            reads[i].addr,
            reads[i].len,
            parts[i]@,
        )
}

/// The frame is what guest memory gave for the reads, one behind the other.
pub open spec fn gathered_frame(mem: GuestMemoryMmap, reads: Seq<TxRead>, frame: Seq<u8>) -> bool {
    exists|parts: Seq<Vec<u8>>| #[trigger] parts_of(mem, reads, parts) && frame == joined(parts)
}

/// The frame of a chain: its descriptors one after the other, cut off at the size of the frame
/// buffer, and nothing where one of them cannot be read.
pub fn gather_tx_frame(mem: &GuestMemoryMmap, descriptors: &[Descriptor]) -> (frame: Vec<u8>)
    ensures
        frame@.len() == gathered_len(guest_regions(*mem), descriptors@),
        frame@.len() <= MAX_BUFFER_SIZE,
        !has_write_only(descriptors@) && reads_mapped(guest_regions(*mem), tx_reads(descriptors@))
            ==> gathered_frame(*mem, tx_reads(descriptors@), frame@),
{
    let reads: Vec<TxRead> = plan_tx_reads(descriptors);
    let mut parts: Vec<Vec<u8>> = Vec::new();
    let mut i: usize = 0;
    while i < reads.len()
        invariant
            i <= reads@.len(),
            reads@ == tx_reads(descriptors@),
            parts@.len() == i,
            parts_of(*mem, reads@.take(i as int), parts@),
            reads@.len() > 0 ==> reads@.len() == descriptors@.len(),
            i > 0 ==> joined(parts@).len() == frame_limit(
                chain_len(descriptors@.take(i as int)),
            ),
            forall|j: int|
                0 <= j < i ==> all_mapped(
                    guest_regions(*mem),
                    (#[trigger] reads@[j]).addr,
                    reads@[j].len as nat,
                ),
        decreases reads@.len() - i,
    {
        let read: TxRead = reads[i];
        proof {
            assert(read == tx_read(descriptors@, i as int));
            assert(descriptors@.take(i + 1).drop_last() =~= descriptors@.take(i as int));
            if i == 0 {
                assert(descriptors@.take(0) =~= Seq::empty());
            }
        }
        match read_at(mem, read.addr, read.len) {
            None => {
                assert(!all_mapped(
                    guest_regions(*mem),
                    reads@[i as int].addr,
                    reads@[i as int].len as nat,
                ));
                return Vec::new();
            },
            Some(part) => {
                let ghost before = parts@;
                assert(i == 0 ==> joined(before).len() == 0);
                parts.push(part);
                assert(parts@.drop_last() =~= before);
                assert(joined(parts@).len() == joined(before).len() + read.len);
            },
        }
        i = i + 1;
    }
    proof {
        if reads@.len() == 0 {
            if !has_write_only(descriptors@) {
                assert(descriptors@.len() == 0);
            }
        } else {
            assert(descriptors@.take(i as int) =~= descriptors@);
        }
    }
    assert(reads@.take(i as int) =~= reads@);
    join_parts(&parts)
}

/// How a round of sending ended.
#[derive(Clone, Copy, Debug, PartialEq, Eq, Structural)]
pub enum TxResult {
    Done,
    Backend(WriteError),
    QueueError,
    DeviceError,
}

/// Where a round of sending stands.
#[derive(Clone, Copy, Debug, PartialEq, Eq, Structural)]
pub enum TxPhase {
    /// The rest of an earlier frame is written.
    FinishingWrite,
    /// A chain is taken and its frame gathered.
    Popping,
    /// The frame is written.
    Writing,
    /// The chain of a frame goes to the used ring, and the next one follows.
    Using,
    /// The chain of a frame that was written in part goes to the used ring.
    UsingLast,
    /// The chain is put back.
    Undoing,
    /// The queue is asked whether the guest wants a notification.
    Asking,
    /// The guest is interrupted.
    Signalling,
    /// The round is over.
    Finished,
}

/// What happened in a round of sending.
#[derive(Clone, Copy, Debug, PartialEq, Eq)]
pub enum TxEvent {
    /// The rest of an earlier frame was written, or was not.
    WriteFinished { done: bool },
    /// The queue had no chain.
    Empty,
    /// A frame of so many bytes was gathered.
    Gathered { len: usize },
    /// Writing a frame ended like this.
    Written(Result<(), WriteError>),
    /// The used ring took the chain, or did not.
    Used { done: bool },
    /// The chain was put back.
    Undone,
    /// The queue said whether the guest wants a notification.
    Answered { needed: bool },
    /// The guest was interrupted, or could not be.
    Signalled { done: bool },
}

/// What is done next in a round of sending.
#[derive(Clone, Copy, Debug, PartialEq, Eq, Structural)]
pub enum TxAction {
    /// Write the rest of the earlier frame.
    FinishWrite,
    /// Take a chain and gather its frame.
    Pop,
    /// Write the frame to the backend.
    WriteFrame,
    /// Put the chain into the used ring.
    AddUsed,
    /// Put the chain back into the queue.
    UndoPop,
    /// Ask whether the guest wants a notification.
    Ask,
    /// Interrupt the guest.
    Signal,
    Finish(TxResult),
}

/// One round of sending.
#[derive(Clone, Copy, Debug, PartialEq, Eq, Structural)]
pub struct TxPass {
    /// Bytes of the frame that is being sent, or that was sent in part.
    pub frame_len: usize,
    /// A chain went to the used ring.
    pub raise_irq: bool,
    pub phase: TxPhase,
}

impl TxPass {
    /// A round that is over.
    pub open spec fn finished(self, result: TxResult) -> (TxPass, TxAction) {
        (TxPass { phase: TxPhase::Finished, ..self }, TxAction::Finish(result))
    }

    /// The end of a round without an error: the guest is asked about used chains.
    pub open spec fn ending(self) -> (TxPass, TxAction) {
        if self.raise_irq {
            (TxPass { phase: TxPhase::Asking, ..self }, TxAction::Ask)
        } else {
            self.finished(TxResult::Done)
        }
    }

    /// The first action of a round: an unfinished frame comes first.
    pub open spec fn opening(frame_len: usize, unfinished: bool) -> (TxPass, TxAction) {
        if unfinished {
            (
                TxPass { frame_len, raise_irq: false, phase: TxPhase::FinishingWrite },
                TxAction::FinishWrite,
            )
        } else {
            (TxPass { frame_len, raise_irq: false, phase: TxPhase::Popping }, TxAction::Pop)
        }
    }

    /// The next phase and action. `None` stands for an event that does not belong to the phase.
    pub open spec fn transition(self, event: TxEvent) -> Option<(TxPass, TxAction)> {
        match (self.phase, event) {
            (TxPhase::FinishingWrite, TxEvent::WriteFinished { done }) => if done {
                Some((TxPass { phase: TxPhase::Popping, ..self }, TxAction::Pop))
            } else {
                Some(self.finished(TxResult::Done))
            },
            (TxPhase::Popping, TxEvent::Empty) => Some(self.ending()),
            (TxPhase::Popping, TxEvent::Gathered { len }) => Some(
                (
                    TxPass { frame_len: len, phase: TxPhase::Writing, ..self },
                    TxAction::WriteFrame,
                ),
            ),
            (TxPhase::Writing, TxEvent::Written(Ok(()))) => Some(
                (TxPass { frame_len: 0, phase: TxPhase::Using, ..self }, TxAction::AddUsed),
            ),
            (TxPhase::Writing, TxEvent::Written(Err(error))) => match error {
                WriteError::NothingWritten => Some(
                    (TxPass { phase: TxPhase::Undoing, ..self }, TxAction::UndoPop),
                ),
                WriteError::PartialWrite => Some(
                    (TxPass { phase: TxPhase::UsingLast, ..self }, TxAction::AddUsed),
                ),
                WriteError::ProcessNotRunning | WriteError::Internal(_) => Some(
                    self.finished(TxResult::Backend(error)),
                ),
            },
            (TxPhase::Using, TxEvent::Used { done }) => if done {
                Some((TxPass { raise_irq: true, phase: TxPhase::Popping, ..self }, TxAction::Pop))
            } else {
                Some(self.finished(TxResult::QueueError))
            },
            (TxPhase::UsingLast, TxEvent::Used { done }) => if done {
                Some((TxPass { raise_irq: true, ..self }).ending())
            } else {
                Some(self.finished(TxResult::QueueError))
            },
            (TxPhase::Undoing, TxEvent::Undone) => Some(self.ending()),
            (TxPhase::Asking, TxEvent::Answered { needed }) => if needed {
                Some((TxPass { phase: TxPhase::Signalling, ..self }, TxAction::Signal))
            } else {
                Some(self.finished(TxResult::Done))
            },
            (TxPhase::Signalling, TxEvent::Signalled { done }) => Some(
                self.finished(
                    if done {
                        TxResult::Done
                    } else {
                        TxResult::DeviceError
                    },
                ),
            ),
            _ => None,
        }
    }

    /// A round that starts, and its first action.
    pub fn start(frame_len: usize, unfinished: bool) -> (r: (TxPass, TxAction))
        ensures
            r == TxPass::opening(frame_len, unfinished),
    {
        if unfinished {
            (
                TxPass { frame_len, raise_irq: false, phase: TxPhase::FinishingWrite },
                TxAction::FinishWrite,
            )
        } else {
            (TxPass { frame_len, raise_irq: false, phase: TxPhase::Popping }, TxAction::Pop)
        }
    }

    fn finish(&mut self, result: TxResult) -> (r: TxAction)
        ensures
            (*final(self), r) == old(self).finished(result),
    {
        self.phase = TxPhase::Finished;
        TxAction::Finish(result)
    }

    fn end(&mut self) -> (r: TxAction)
        ensures
            (*final(self), r) == old(self).ending(),
    {
        if self.raise_irq {
            self.phase = TxPhase::Asking;
            TxAction::Ask
        } else {
            self.finish(TxResult::Done)
        }
    }

    /// What is done next. An event that does not belong to the phase changes nothing.
    pub fn step(&mut self, event: TxEvent) -> (r: Option<TxAction>)
        ensures
            r is Some <==> old(self).transition(event) is Some,
            r is None ==> *final(self) == *old(self),
            r matches Some(action) ==> old(self).transition(event) == Some((*final(self), action)),
    {
        match (self.phase, event) {
            (TxPhase::FinishingWrite, TxEvent::WriteFinished { done }) => {
                if done {
                    self.phase = TxPhase::Popping;
                    Some(TxAction::Pop)
                } else {
                    Some(self.finish(TxResult::Done))
                }
            },
            (TxPhase::Popping, TxEvent::Empty) => Some(self.end()),
            (TxPhase::Popping, TxEvent::Gathered { len }) => {
                self.frame_len = len;
                self.phase = TxPhase::Writing;
                Some(TxAction::WriteFrame)
            },
            (TxPhase::Writing, TxEvent::Written(Ok(()))) => {
                self.frame_len = 0;
                self.phase = TxPhase::Using;
                Some(TxAction::AddUsed)
            },
            (TxPhase::Writing, TxEvent::Written(Err(error))) => match error {
                WriteError::NothingWritten => {
                    self.phase = TxPhase::Undoing;
                    Some(TxAction::UndoPop)
                },
                WriteError::PartialWrite => {
                    self.phase = TxPhase::UsingLast;
                    Some(TxAction::AddUsed)
                },
                WriteError::ProcessNotRunning | WriteError::Internal(_) => Some(
                    self.finish(TxResult::Backend(error)),
                ),
            },
            (TxPhase::Using, TxEvent::Used { done }) => {
                if done {
                    self.raise_irq = true;
                    self.phase = TxPhase::Popping;
                    Some(TxAction::Pop)
                } else {
                    Some(self.finish(TxResult::QueueError))
                }
            },
            (TxPhase::UsingLast, TxEvent::Used { done }) => {
                if done {
                    self.raise_irq = true;
                    Some(self.end())
                } else {
                    Some(self.finish(TxResult::QueueError))
                }
            },
            (TxPhase::Undoing, TxEvent::Undone) => Some(self.end()),
            (TxPhase::Asking, TxEvent::Answered { needed }) => {
                if needed {
                    self.phase = TxPhase::Signalling;
                    Some(TxAction::Signal)
                } else {
                    Some(self.finish(TxResult::Done))
                }
            },
            (TxPhase::Signalling, TxEvent::Signalled { done }) => Some(
                self.finish(
                    if done {
                        TxResult::Done
                    } else {
                        TxResult::DeviceError
                    },
                ),
            ),
            _ => None,
        }
    }
}

/// A frame that was sent in part keeps its length for the rest, and no other frame is taken in the
/// same round.
pub proof fn partial_write_ends_the_round(pass: TxPass, done: bool)
    requires
        pass.phase == TxPhase::Writing,
    ensures
        ({
            let event = TxEvent::Written(Err(WriteError::PartialWrite));
            let (used, action) = pass.transition(event)->Some_0;
            let (next, then_action) = used.transition(TxEvent::Used { done })->Some_0;
            &&& action == TxAction::AddUsed
            &&& used.frame_len == pass.frame_len
            &&& next.frame_len == pass.frame_len
            &&& then_action != TxAction::Pop
        }),
{
}

proof fn lemma_parts_follow_the_chain(
    mem: GuestMemoryMmap,
    descriptors: Seq<Descriptor>,
    parts: Seq<Vec<u8>>,
    n: int,
    k: int,
)
    requires
        !has_write_only(descriptors),
        parts_of(mem, tx_reads(descriptors), parts),
        0 <= n <= descriptors.len(),
        0 <= k < joined(parts.take(n)).len(),
    ensures
        joined(parts.take(n)).len() == frame_limit(chain_len(descriptors.take(n))),
        read_gave_byte(mem, byte_address(descriptors, k), joined(parts.take(n))[k]),
    decreases n,
{
    if n == 0 {
        assert(parts.take(0) =~= Seq::empty());
    } else {
        let reads = tx_reads(descriptors);
        let front = parts.take(n - 1);
        let part = parts[n - 1]@;
        assert(parts.take(n).drop_last() =~= front);
        assert(parts.take(n).last() == parts[n - 1]);
        lemma_parts_len(mem, descriptors, parts, n - 1);
        lemma_parts_len(mem, descriptors, parts, n);
        assert(reads[n - 1] == tx_read(descriptors, n - 1));
        assert(read_gave(mem, reads[n - 1].addr, reads[n - 1].len, part));
        if k < joined(front).len() {
            lemma_parts_follow_the_chain(mem, descriptors, parts, n - 1, k);
        } else {
            let j = k - joined(front).len();
            assert(descriptors.take(n).drop_last() =~= descriptors.take(n - 1));
            buffers_follow_each_other(descriptors, n - 1, j);
        }
    }
}

proof fn lemma_parts_len(
    mem: GuestMemoryMmap,
    descriptors: Seq<Descriptor>,
    parts: Seq<Vec<u8>>,
    n: int,
)
    requires
        !has_write_only(descriptors),
        parts_of(mem, tx_reads(descriptors), parts),
        0 <= n <= descriptors.len(),
    ensures
        joined(parts.take(n)).len() == frame_limit(chain_len(descriptors.take(n))),
    decreases n,
{
    if n == 0 {
        assert(parts.take(0) =~= Seq::empty());
        assert(descriptors.take(0) =~= Seq::empty());
    } else {
        lemma_parts_len(mem, descriptors, parts, n - 1);
        assert(parts.take(n).drop_last() =~= parts.take(n - 1));
        assert(parts.take(n).last() == parts[n - 1]);
        assert(descriptors.take(n).drop_last() =~= descriptors.take(n - 1));
        assert(tx_reads(descriptors)[n - 1] == tx_read(descriptors, n - 1));
        assert(parts[n - 1]@.len() == tx_reads(descriptors)[n - 1].len);
    }
}

/// Every byte of a frame that the guest sends is what guest memory gave at the address that the
/// chain puts it at, and the frame is as long as the chain, up to what a frame may have.
pub proof fn sent_frame_is_what_guest_memory_gave(
    mem: &GuestMemoryMmap,
    descriptors: &[Descriptor],
    frame: Vec<u8>,
)
    requires
        call_ensures(gather_tx_frame, (mem, descriptors), frame),
        frame@.len() > 0,
    ensures
        forall|i: int| 0 <= i < descriptors@.len() ==> !(#[trigger] descriptors@[i]).write_only,
        chain_len(descriptors@) <= 65562 ==> frame@.len() == chain_len(descriptors@),
        chain_len(descriptors@) > 65562 ==> frame@.len() == 65562,
        forall|k: int|
            0 <= k < frame@.len() ==> read_gave_byte(
                *mem,
                byte_address(descriptors@, k),
                #[trigger] frame@[k],
            ),
{
    let reads = tx_reads(descriptors@);
    let parts = choose|parts: Seq<Vec<u8>>| #[trigger]
        parts_of(*mem, reads, parts) && frame@ == joined(parts);
    let n = descriptors@.len() as int;
    assert(parts.take(n) =~= parts);
    assert forall|k: int| 0 <= k < frame@.len() implies read_gave_byte(
        *mem,
        byte_address(descriptors@, k),
        #[trigger] frame@[k],
    ) by {
        lemma_parts_follow_the_chain(*mem, descriptors@, parts, n, k);
    }
}

/// A chain of readable descriptors whose memory is mapped gives a frame.
pub proof fn mapped_chain_gives_a_frame(
    mem: &GuestMemoryMmap,
    descriptors: &[Descriptor],
    frame: Vec<u8>,
)
    requires
        call_ensures(gather_tx_frame, (mem, descriptors), frame),
        forall|i: int|
            0 <= i < descriptors@.len() ==> !(#[trigger] descriptors@[i]).write_only && all_mapped(
                guest_regions(*mem),
                descriptors@[i].addr,
                descriptors@[i].len as nat,
            ),
    ensures
        chain_len(descriptors@) > 0 ==> frame@.len() > 0,
{
    let reads = tx_reads(descriptors@);
    assert(!has_write_only(descriptors@));
    assert forall|i: int| 0 <= i < reads.len() implies all_mapped(
        guest_regions(*mem),
        (#[trigger] reads[i]).addr,
        reads[i].len as nat,
    ) by {
        assert(reads[i] == tx_read(descriptors@, i));
        assert(!descriptors@[i].write_only);
        assert(descriptors@.take(i + 1).drop_last() =~= descriptors@.take(i));
        assert(reads[i].len <= descriptors@[i].len);
        assert forall|k: int| 0 <= k < reads[i].len implies #[trigger]
            crate::guest_memory::address_mapped(
            guest_regions(*mem),
            (reads[i].addr + k) % 0x1_0000_0000_0000_0000,
        ) by {
            assert(crate::guest_memory::address_mapped(
                guest_regions(*mem),
                (descriptors@[i].addr + k) % 0x1_0000_0000_0000_0000,
            ));
        }
    }
}

proof fn lemma_write_of_byte(descriptors: Seq<Descriptor>, start: int, frame_len: int, k: int)
    requires
        0 <= start <= k < frame_len <= usize::MAX,
        frame_writes(descriptors, start, frame_len).1 is Ok,
    ensures
        exists|i: int|
            0 <= i < frame_writes(descriptors, start, frame_len).0.len() && {
                let write = #[trigger] frame_writes(descriptors, start, frame_len).0[i];
                &&& write.start <= k < write.start + write.len
                &&& write.addr + (k - write.start) == byte_address(descriptors, k - start)
            },
    decreases descriptors.len(),
{
    let (writes, _) = frame_writes(descriptors, start, frame_len);
    let len = writes[0].len;
    if k < start + len {
        assert(writes[0].start <= k < writes[0].start + writes[0].len);
    } else {
        let rest = descriptors.skip(1);
        let (behind, _) = frame_writes(rest, start + len, frame_len);
        lemma_write_of_byte(rest, start + len, frame_len, k);
        let i = choose|i: int|
            0 <= i < behind.len() && {
                let write = #[trigger] behind[i];
                &&& write.start <= k < write.start + write.len
                &&& write.addr + (k - write.start) == byte_address(rest, k - start - len)
            };
        assert(writes[i + 1] == behind[i]);
    }
}

/// Every byte of a frame that was delivered went to the guest address that the chain has for it,
/// and the used ring is told how many there are.
pub proof fn delivered_frame_stands_in_the_chain(
    mem: &GuestMemoryMmap,
    descriptors: &[Descriptor],
    frame: &[u8],
    r: (Result<(), FrontendError>, u32),
)
    requires
        frame@.len() <= MAX_BUFFER_SIZE,
        call_ensures(write_frame_to_guest_impl, (mem, descriptors, frame), r),
        r.0 is Ok,
    ensures
        r.1 == frame@.len(),
        forall|k: int|
            0 <= k < frame@.len() ==> write_took_byte(
                *mem,
                byte_address(descriptors@, k),
                #[trigger] frame@[k],
            ),
{
    let (writes, planned) = frame_writes(descriptors@, 0, frame@.len() as int);
    lemma_frame_writes_inside(descriptors@, 0, frame@.len() as int);
    assert forall|k: int| 0 <= k < frame@.len() implies write_took_byte(
        *mem,
        byte_address(descriptors@, k),
        #[trigger] frame@[k],
    ) by {
        lemma_write_of_byte(descriptors@, 0, frame@.len() as int, k);
        let i = choose|i: int|
            0 <= i < writes.len() && {
                let write = #[trigger] writes[i];
                &&& write.start <= k < write.start + write.len
                &&& write.addr + (k - write.start) == byte_address(descriptors@, k)
            };
        let write = writes[i];
        let bytes = frame@.subrange(write.start as int, write.start + write.len);
        assert(write_took(*mem, write.addr, bytes));
        assert(bytes[k - write.start] == frame@[k]);
    }
}

/// A chain of writable descriptors whose memory is mapped takes every frame that it has room for.
pub proof fn mapped_chain_takes_the_frame(
    mem: &GuestMemoryMmap,
    descriptors: &[Descriptor],
    frame: &[u8],
    r: (Result<(), FrontendError>, u32),
)
    requires
        frame@.len() <= MAX_BUFFER_SIZE,
        frame@.len() <= chain_len(descriptors@),
        call_ensures(write_frame_to_guest_impl, (mem, descriptors, frame), r),
        forall|i: int| 0 <= i < descriptors@.len() ==> (#[trigger] descriptors@[i]).write_only,
        writes_mapped(guest_regions(*mem), frame_writes(descriptors@, 0, frame@.len() as int).0),
    ensures
        r.0 is Ok,
{
    writable_chain_takes_frame(descriptors@, 0, frame@.len() as int);
}

/// The guest sets the pairs of queues with a command of class four and number zero, whose two bytes
/// of data are the number, little-endian. Any other command is refused and changes nothing.
pub proof fn control_sets_the_pairs(worker: &mut NetWorker, request: &[u8], status: u8, pairs: int)
    requires
        worker.wf(),
        call_ensures(NetWorker::control, (worker, Some(request)), status),
        request@.len() >= 4,
        pairs == request@[2] + 256 * request@[3],
    ensures
        status == 0 <==> request@[0] == 4 && request@[1] == 0
            && 1 <= pairs <= old(worker).queue_pairs,
        status == 0 ==> final(worker).active_queue_pairs == pairs,
        status != 0 ==> status == 1 && *final(worker) == *old(worker),
        final(worker).queue_pairs == old(worker).queue_pairs,
        final(worker).rx_has_deferred_frame == old(worker).rx_has_deferred_frame,
        final(worker).tx_frame_len == old(worker).tx_frame_len,
{
}

/// The receive queue of a frame is that of the Ethernet frame behind its header of twelve bytes,
/// among the pairs that the guest uses.
pub proof fn frames_go_to_the_queue_of_their_flow(
    worker: NetWorker,
    frame: &[u8],
    ethernet: &[u8],
    r: usize,
    of_flow: usize,
)
    requires
        worker.wf(),
        frame@.len() >= 12,
        ethernet@ == frame@.skip(12),
        call_ensures(NetWorker::rx_queue_for, (&worker, frame), r),
        call_ensures(flow_queue_index, (ethernet, worker.active_queue_pairs), of_flow),
    ensures
        r == of_flow,
        r < worker.active_queue_pairs,
{
}

/// An event leads to the queue whose token it carries.
pub proof fn events_lead_to_their_queue(
    source: u64,
    events: EventSet,
    queue_pairs: usize,
    r: NetStep,
)
    requires
        call_ensures(dispatch, (source, events, queue_pairs), r),
    ensures
        r is Receive ==> r->Receive_queue_index == source && source < queue_pairs && events.has(IN),
        r is Transmit ==> TX_QUEUE_EVENT_BASE + r->Transmit_queue_index == source
            && r->Transmit_queue_index < queue_pairs && events.has(IN),
        r is Control ==> source == CONTROL_QUEUE_EVENT && events.has(IN),
        r is Backend ==> source == BACKEND_EVENT && r->readable == events.has(IN) && r->writable
            == events.has(OUT) && !events.has(HANG_UP) && !events.has(READ_HANG_UP),
        r is BackendGone ==> source == BACKEND_EVENT && (events.has(HANG_UP) || events.has(
            READ_HANG_UP,
        )),
        events.has(IN) && source < queue_pairs ==> r is Receive,
{
}

/// A round of receiving hands every frame that it reads to the guest before it reads the next one,
/// keeps the frame that does not fit, and interrupts the guest at its end where a frame was handed
/// over.
pub proof fn received_frames_are_delivered(pass: &mut RxPass, event: RxEvent, r: Option<RxAction>)
    requires
        call_ensures(RxPass::step, (pass, event), r),
    ensures
        old(pass).phase is Reading && event is FrameRead ==> r == Some(RxAction::DeliverFrame)
            && final(pass).phase is Delivering
                && final(pass).signal_queue == old(pass).signal_queue,
        old(pass).phase is Delivering && event == (RxEvent::Delivered { delivered: true }) ==> r
            == Some(RxAction::ReadFrame) && final(pass).signal_queue
                && final(pass).phase is Reading,
        old(pass).phase is Delivering && event == (RxEvent::Delivered { delivered: false })
            ==> final(pass).deferred && r == Some(
            if old(pass).signal_queue {
                RxAction::Signal
            } else {
                RxAction::Finish(RxResult::Done)
            },
        ),
        old(pass).phase is DeliveringDeferred && event == (RxEvent::Delivered { delivered: true })
            ==> r == Some(RxAction::ReadFrame) && !final(pass).deferred,
        old(pass).phase is DeliveringDeferred && event == (RxEvent::Delivered { delivered: false })
            ==> r == Some(RxAction::Finish(RxResult::Done))
                && final(pass).deferred == old(pass).deferred,
        old(pass).phase is Reading && event is NothingRead ==> r == Some(
            if old(pass).signal_queue {
                RxAction::Signal
            } else {
                RxAction::Finish(RxResult::Done)
            },
        ),
        old(pass).phase is Reading && event is ReadFailed && !old(pass).signal_queue ==> r == Some(
            RxAction::Finish(RxResult::Backend(event->ReadFailed_0)),
        ),
        old(pass).phase is Reading && event is ReadFailed && old(pass).signal_queue ==> r == Some(
            RxAction::Signal,
        ) && final(pass).phase == RxPhase::Signalling(RxResult::Backend(event->ReadFailed_0)),
        old(pass).phase is Signalling && event == (RxEvent::Signalled { done: true }) ==> r == Some(
            RxAction::Finish(old(pass).phase->Signalling_0),
        ),
        old(pass).phase is Signalling && event == (RxEvent::Signalled { done: false })
            ==> r == Some(
            RxAction::Finish(RxResult::DeviceError),
        ),
{
}

/// A round of sending writes each frame that it takes, gives its chain to the used ring once the
/// backend has it, puts it back where the backend took nothing, and asks the guest about chains that
/// were used.
pub proof fn sent_frames_are_used_once(pass: &mut TxPass, event: TxEvent, r: Option<TxAction>)
    requires
        call_ensures(TxPass::step, (pass, event), r),
    ensures
        old(pass).phase is Popping && event is Gathered ==> r == Some(TxAction::WriteFrame)
            && final(pass).frame_len == event->len && final(pass).phase is Writing
                && final(pass).raise_irq == old(pass).raise_irq,
        old(pass).phase is Writing && event == TxEvent::Written(Ok(())) ==> r == Some(
            TxAction::AddUsed,
        ) && final(pass).phase is Using && final(pass).frame_len == 0,
        old(pass).phase is Writing && event == TxEvent::Written(Err(WriteError::NothingWritten))
            ==> r == Some(TxAction::UndoPop) && final(pass).phase is Undoing
                && final(pass).raise_irq == old(pass).raise_irq,
        old(pass).phase is Writing && event == TxEvent::Written(Err(WriteError::PartialWrite)) ==> r
            == Some(TxAction::AddUsed) && final(pass).phase is UsingLast && final(pass).frame_len
            == old(pass).frame_len,
        old(pass).phase is Writing && event == TxEvent::Written(Err(WriteError::ProcessNotRunning))
            ==> r == Some(
            TxAction::Finish(TxResult::Backend(WriteError::ProcessNotRunning)),
        ),
        old(pass).phase is Using && event == (TxEvent::Used { done: true }) ==> r == Some(
            TxAction::Pop,
        ) && final(pass).raise_irq && final(pass).phase is Popping,
        old(pass).phase is UsingLast && event == (TxEvent::Used { done: true }) ==> r == Some(
            TxAction::Ask,
        ) && final(pass).raise_irq,
        (old(pass).phase is Using || old(pass).phase is UsingLast) && event == (TxEvent::Used {
            done: false,
        }) ==> r == Some(TxAction::Finish(TxResult::QueueError)),
        (old(pass).phase is Popping && event is Empty || old(pass).phase is Undoing && event
            is Undone) ==> r == Some(
            if old(pass).raise_irq {
                TxAction::Ask
            } else {
                TxAction::Finish(TxResult::Done)
            },
        ),
        old(pass).phase is Asking && event is Answered ==> r == Some(
            if event->needed {
                TxAction::Signal
            } else {
                TxAction::Finish(TxResult::Done)
            },
        ),
        old(pass).phase is Signalling && event is Signalled ==> r == Some(
            TxAction::Finish(
                if event->Signalled_done {
                    TxResult::Done
                } else {
                    TxResult::DeviceError
                },
            ),
        ),
        old(pass).phase is FinishingWrite && event is WriteFinished ==> r == Some(
            if event->WriteFinished_done {
                TxAction::Pop
            } else {
                TxAction::Finish(TxResult::Done)
            },
        ),
{
}

/// A round starts with what the last one left: a frame that waits for buffers, or one that was sent
/// in part.
pub proof fn rounds_start_with_what_was_left(
    deferred: bool,
    rx: (RxPass, RxAction),
    frame_len: usize,
    unfinished: bool,
    tx: (TxPass, TxAction),
)
    requires
        call_ensures(RxPass::start, (deferred,), rx),
        call_ensures(TxPass::start, (frame_len, unfinished), tx),
    ensures
        rx.1 == if deferred {
            RxAction::DeliverFrame
        } else {
            RxAction::ReadFrame
        },
        rx.0.deferred == deferred && !rx.0.signal_queue,
        deferred ==> rx.0.phase is DeliveringDeferred,
        !deferred ==> rx.0.phase is Reading,
        tx.1 == if unfinished {
            TxAction::FinishWrite
        } else {
            TxAction::Pop
        },
        tx.0.frame_len == frame_len && !tx.0.raise_irq,
        unfinished ==> tx.0.phase is FinishingWrite,
        !unfinished ==> tx.0.phase is Popping,
{
}

/// A frame is tried on as many chains as the queue has, until one takes it or the queue is empty.
pub proof fn delivery_tries_every_chain(
    delivery: &mut Delivery,
    result: Result<(), FrontendError>,
    r: DeliveryStep,
)
    requires
        delivery.attempts_left > 0,
        call_ensures(Delivery::attempted, (delivery, result), r),
    ensures
        final(delivery).attempts_left + 1 == old(delivery).attempts_left,
        result is Ok ==> r == (DeliveryStep::Finished { delivered: true }),
        result == Err::<(), FrontendError>(FrontendError::EmptyQueue) ==> r == (
        DeliveryStep::Finished { delivered: false }),
        result is Err && !(result->Err_0 is EmptyQueue) && final(delivery).attempts_left > 0 ==> r
            is Attempt,
        result is Err && final(delivery).attempts_left == 0 ==> r == (DeliveryStep::Finished {
            delivered: false,
        }),
{
}

/// A frame is finished with its length where all of it was written, and with nothing where it was
/// not. A control request is answered with one byte where it could be read and answered.
pub proof fn used_lengths_are_what_was_written(
    len: usize,
    planned: Result<(), FrontendError>,
    failed: bool,
    r: (Result<(), FrontendError>, u32),
    readable: bool,
    written: bool,
    used: u32,
    completed: bool,
    needed: Option<bool>,
    signals: bool,
)
    requires
        len <= MAX_BUFFER_SIZE,
        call_ensures(finish_frame, (len, planned, failed), r),
        call_ensures(control_used_len, (readable, written), used),
        call_ensures(control_signals, (completed, needed), signals),
    ensures
        r.0 is Ok <==> planned is Ok && !failed,
        r.0 is Ok ==> r.1 == len,
        r.0 is Err ==> r.1 == 0,
        failed ==> r.0 == Err::<(), FrontendError>(FrontendError::GuestMemory),
        !failed ==> r.0 == planned,
        used == 1 <==> readable && written,
        used <= 1,
        signals <==> completed && needed == Some(true),
{
}

/// What is done next is what the round then waits for: a round of receiving stands where its action
/// belongs, is over once it says so, and takes no event from elsewhere.
pub proof fn receiving_waits_for_what_it_does(pass: &mut RxPass, event: RxEvent, r: Option<RxAction>)
    requires
        call_ensures(RxPass::step, (pass, event), r),
    ensures
        r == Some(RxAction::ReadFrame) ==> final(pass).phase is Reading,
        r == Some(RxAction::DeliverFrame) ==> final(pass).phase is Delivering,
        r == Some(RxAction::Signal) ==> final(pass).phase is Signalling,
        r is Some && r->Some_0 is Finish ==> final(pass).phase is Finished,
        r is None ==> *final(pass) == *old(pass),
        old(pass).phase is Finished ==> r is None,
        old(pass).phase is Reading && event is NothingRead && old(pass).signal_queue
            ==> final(pass).phase == RxPhase::Signalling(RxResult::Done),
        old(pass).phase is Delivering && event == (RxEvent::Delivered { delivered: false })
            && old(pass).signal_queue ==> final(pass).phase == RxPhase::Signalling(RxResult::Done),
        !(event is Delivered) ==> final(pass).deferred == old(pass).deferred
            && final(pass).signal_queue == old(pass).signal_queue,
        old(pass).phase is Delivering && event == (RxEvent::Delivered { delivered: true })
            ==> final(pass).deferred == old(pass).deferred,
        old(pass).phase is Delivering && event == (RxEvent::Delivered { delivered: false })
            ==> final(pass).signal_queue == old(pass).signal_queue,
        old(pass).phase is DeliveringDeferred
            ==> final(pass).signal_queue == old(pass).signal_queue,
{
}

/// What is done next is what the round then waits for: a round of sending stands where its action
/// belongs, is over once it says so, and takes no event from elsewhere.
pub proof fn sending_waits_for_what_it_does(pass: &mut TxPass, event: TxEvent, r: Option<TxAction>)
    requires
        call_ensures(TxPass::step, (pass, event), r),
    ensures
        r == Some(TxAction::Pop) ==> final(pass).phase is Popping,
        r == Some(TxAction::WriteFrame) ==> final(pass).phase is Writing,
        r == Some(TxAction::AddUsed) ==> final(pass).phase is Using || final(pass).phase
            is UsingLast,
        r == Some(TxAction::UndoPop) ==> final(pass).phase is Undoing,
        r == Some(TxAction::Ask) ==> final(pass).phase is Asking,
        r == Some(TxAction::Signal) ==> final(pass).phase is Signalling,
        r != Some(TxAction::FinishWrite),
        r is Some && r->Some_0 is Finish ==> final(pass).phase is Finished,
        r is None ==> *final(pass) == *old(pass),
        old(pass).phase is Finished ==> r is None,
        !(event is Used) ==> final(pass).raise_irq == old(pass).raise_irq,
        event == (TxEvent::Used { done: false }) ==> final(pass).raise_irq == old(pass).raise_irq,
        !(event is Gathered) && !(event is Written && event->Written_0 is Ok)
            ==> final(pass).frame_len == old(pass).frame_len,
        old(pass).phase is Writing && event is Written && event->Written_0 is Err
            && event->Written_0->Err_0 is Internal ==> r == Some(
            TxAction::Finish(TxResult::Backend(event->Written_0->Err_0)),
        ),
{
}

/// A control request that cannot be read, or is too short, is refused and changes nothing.
pub proof fn short_control_requests_are_refused(worker: &mut NetWorker, request: Option<&[u8]>, status: u8)
    requires
        worker.wf(),
        request is None || request->Some_0@.len() < 4,
        call_ensures(NetWorker::control, (worker, request), status),
    ensures
        status == 1,
        *final(worker) == *old(worker),
{
}

} // verus!

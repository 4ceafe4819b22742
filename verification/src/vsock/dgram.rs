//! Datagrams between a guest port and a host service.

use crate::epoll::{EventSet, HANG_UP, IN};
use crate::vsock::packet::{VsockPacket, MAX_PKT_BUF_SIZE};
use vstd::prelude::*;

verus! {

/// Datagrams that one readiness event may receive, so that a busy service leaves time for others.
pub const MAX_RECEIVE_BATCH: usize = 32;

/// What becomes of a proxy.
#[derive(Clone, Copy, Debug, PartialEq, Eq, Structural)]
pub enum ProxyRemoval {
    Keep,
    Immediate,
}

/// What to wait for on the handle of a proxy.
#[derive(Clone, Copy, Debug, PartialEq, Eq, Structural)]
pub struct ProxyPolling {
    pub id: u64,
    pub pollable: i32,
    pub events: EventSet,
}

/// What a proxy asks of the thread that runs it.
#[derive(Clone, Copy, Debug, PartialEq, Eq, Structural)]
pub struct ProxyUpdate {
    /// The guest is to be told of new packets.
    pub signal_queue: bool,
    /// A change of what is waited for.
    pub polling: Option<ProxyPolling>,
    pub remove_proxy: ProxyRemoval,
}

impl Default for ProxyUpdate {
    /// Nothing is asked for.
    fn default() -> (r: ProxyUpdate)
        ensures
            r == no_update(),
    {
        ProxyUpdate { signal_queue: false, polling: None, remove_proxy: ProxyRemoval::Keep }
    }
}

/// Nothing is asked for.
pub open spec fn no_update() -> ProxyUpdate {
    ProxyUpdate { signal_queue: false, polling: None, remove_proxy: ProxyRemoval::Keep }
}

/// One host endpoint of a guest's datagram port.
#[derive(Clone, Copy, Debug, PartialEq, Eq, Structural)]
pub struct DatagramProxy {
    pub id: u64,
    pub cid: u64,
    pub local_port: u32,
    pub peer_port: u32,
    /// The backend's own handle to wait on; without one a notifier stands in.
    pub backend_pollable: Option<i32>,
    /// The handle of the notifier.
    pub notifier_pollable: i32,
}

/// How sending a datagram to the host ended.
#[derive(Clone, Copy, Debug, PartialEq, Eq, Structural)]
pub enum SendOutcome {
    Sent,
    /// The service is busy; the datagram is dropped.
    WouldBlock,
    Failed,
}

/// What an event asks of a proxy.
#[derive(Clone, Copy, Debug, PartialEq, Eq, Structural)]
pub enum DatagramStep {
    /// Give the proxy up.
    Release,
    /// Receive a batch of datagrams.
    ReceiveBatch,
    /// Nothing.
    Ignore,
}

/// What happened in a batch.
#[derive(Clone, Copy, Debug, PartialEq, Eq, Structural)]
pub enum BatchEvent {
    /// The notifier was cleared, or could not be.
    Cleared { done: bool },
    /// The service gave a datagram of so many bytes, cut off or whole.
    Received { len: usize, truncated: bool },
    /// The service has no datagram.
    WouldBlock,
    /// The service failed.
    Failed,
    /// The datagram was put in the guest's queue.
    Delivered,
}

/// What is done next in a batch.
#[derive(Clone, Copy, Debug, PartialEq, Eq, Structural)]
pub enum BatchAction {
    /// Clear the notifier.
    ClearNotifier,
    /// Ask the service for a datagram.
    Receive,
    /// Put the first so many bytes in the guest's queue.
    Deliver { len: usize },
    /// The batch ended well: tells whether the guest got anything.
    Finish { delivered: bool },
    /// The batch failed.
    Abort,
}

/// Where a batch stands.
#[derive(Clone, Copy, Debug, PartialEq, Eq, Structural)]
pub enum BatchPhase {
    Clearing,
    Receiving,
    Delivering,
    Finished,
}

/// One batch of datagrams.
#[derive(Clone, Copy, Debug, PartialEq, Eq, Structural)]
pub struct ReceiveBatch {
    /// Times that the service may still be asked.
    pub left: usize,
    pub delivered: bool,
    pub phase: BatchPhase,
}

impl ReceiveBatch {
    /// The next time that the service is asked, or the end of the batch.
    pub open spec fn proceeding(self) -> (ReceiveBatch, BatchAction) {
        if self.left == 0 {
            (
                ReceiveBatch { phase: BatchPhase::Finished, ..self },
                BatchAction::Finish { delivered: self.delivered },
            )
        } else {
            (
                ReceiveBatch {
                    left: (self.left - 1) as usize,
                    phase: BatchPhase::Receiving,
                    ..self
                },
                BatchAction::Receive,
            )
        }
    }

    /// A batch that failed.
    pub open spec fn aborted(self) -> (ReceiveBatch, BatchAction) {
        (ReceiveBatch { phase: BatchPhase::Finished, ..self }, BatchAction::Abort)
    }

    /// The next phase and action. `None` stands for an event that does not belong to the phase.
    pub open spec fn transition(self, event: BatchEvent) -> Option<(ReceiveBatch, BatchAction)> {
        match (self.phase, event) {
            (BatchPhase::Clearing, BatchEvent::Cleared { done }) => if done {
                Some(self.proceeding())
            } else {
                Some(self.aborted())
            },
            (BatchPhase::Receiving, BatchEvent::WouldBlock) => Some(
                (
                    ReceiveBatch { phase: BatchPhase::Finished, ..self },
                    BatchAction::Finish { delivered: self.delivered },
                ),
            ),
            (BatchPhase::Receiving, BatchEvent::Failed) => Some(self.aborted()),
            (BatchPhase::Receiving, BatchEvent::Received { len, truncated }) => if len
                > MAX_PKT_BUF_SIZE {
                Some(self.aborted())
            } else if truncated {
                Some(self.proceeding())
            } else {
                Some(
                    (
                        ReceiveBatch { phase: BatchPhase::Delivering, ..self },
                        BatchAction::Deliver { len },
                    ),
                )
            },
            (BatchPhase::Delivering, BatchEvent::Delivered) => Some(
                (ReceiveBatch { delivered: true, ..self }).proceeding(),
            ),
            _ => None,
        }
    }

    /// The first action of a batch: a notifier is cleared first.
    pub open spec fn opening(uses_notifier: bool) -> (ReceiveBatch, BatchAction) {
        let batch = ReceiveBatch {
            left: MAX_RECEIVE_BATCH,
            delivered: false,
            phase: BatchPhase::Clearing,
        };
        if uses_notifier {
            (batch, BatchAction::ClearNotifier)
        } else {
            batch.proceeding()
        }
    }

    /// A batch that starts, and its first action.
    pub fn start(uses_notifier: bool) -> (r: (ReceiveBatch, BatchAction))
        ensures
            r == ReceiveBatch::opening(uses_notifier),
    {
        let mut batch = ReceiveBatch {
            left: MAX_RECEIVE_BATCH,
            delivered: false,
            phase: BatchPhase::Clearing,
        };
        if uses_notifier {
            (batch, BatchAction::ClearNotifier)
        } else {
            let action = batch.proceed();
            (batch, action)
        }
    }

    fn proceed(&mut self) -> (r: BatchAction)
        ensures
            (*final(self), r) == old(self).proceeding(),
    {
        if self.left == 0 {
            self.phase = BatchPhase::Finished;
            BatchAction::Finish { delivered: self.delivered }
        } else {
            self.left = self.left - 1;
            self.phase = BatchPhase::Receiving;
            BatchAction::Receive
        }
    }

    /// What is done next. An event that does not belong to the phase changes nothing.
    pub fn step(&mut self, event: BatchEvent) -> (r: Option<BatchAction>)
        ensures
            r is Some <==> old(self).transition(event) is Some,
            r is None ==> *final(self) == *old(self),
            r matches Some(action) ==> old(self).transition(event) == Some((*final(self), action)),
    {
        match (self.phase, event) {
            (BatchPhase::Clearing, BatchEvent::Cleared { done }) => {
                if done {
                    Some(self.proceed())
                } else {
                    self.phase = BatchPhase::Finished;
                    Some(BatchAction::Abort)
                }
            },
            (BatchPhase::Receiving, BatchEvent::WouldBlock) => {
                self.phase = BatchPhase::Finished;
                Some(BatchAction::Finish { delivered: self.delivered })
            },
            (BatchPhase::Receiving, BatchEvent::Failed) => {
                self.phase = BatchPhase::Finished;
                Some(BatchAction::Abort)
            },
            (BatchPhase::Receiving, BatchEvent::Received { len, truncated }) => {
                if len > MAX_PKT_BUF_SIZE {
                    self.phase = BatchPhase::Finished;
                    Some(BatchAction::Abort)
                } else if truncated {
                    Some(self.proceed())
                } else {
                    self.phase = BatchPhase::Delivering;
                    Some(BatchAction::Deliver { len })
                }
            },
            (BatchPhase::Delivering, BatchEvent::Delivered) => {
                self.delivered = true;
                Some(self.proceed())
            },
            _ => None,
        }
    }
}

/// Every time that the service is asked takes one from the times that are left, so a batch asks no
/// more often than it may; a datagram that was cut off is never delivered.
pub proof fn batches_are_bounded(batch: ReceiveBatch, event: BatchEvent)
    requires
        batch.transition(event) is Some,
    ensures
        ({
            let (next, action) = batch.transition(event)->Some_0;
            &&& next.left <= batch.left
            &&& action == BatchAction::Receive ==> next.left == batch.left - 1
            &&& action matches BatchAction::Deliver { len } ==> event == (BatchEvent::Received {
                len,
                truncated: false,
            }) && len <= MAX_PKT_BUF_SIZE
            &&& batch.delivered ==> next.delivered
        }),
{
}

impl DatagramProxy {
    /// A proxy.
    pub fn new(
        id: u64,
        cid: u64,
        local_port: u32,
        peer_port: u32,
        backend_pollable: Option<i32>,
        notifier_pollable: i32,
    ) -> (r: DatagramProxy)
        ensures
            r == (DatagramProxy {
                id,
                cid,
                local_port,
                peer_port,
                backend_pollable,
                notifier_pollable,
            }),
    {
        DatagramProxy { id, cid, local_port, peer_port, backend_pollable, notifier_pollable }
    }

    /// The handle to wait on.
    pub open spec fn waits_on(self) -> i32 {
        match self.backend_pollable {
            Some(handle) => handle,
            None => self.notifier_pollable,
        }
    }

    /// The name of the proxy.
    pub fn id(&self) -> (r: u64)
        ensures
            r == self.id,
    {
        self.id
    }

    /// Whether a notifier stands in for the backend's own handle.
    pub fn uses_notifier(&self) -> (r: bool)
        ensures
            r == self.backend_pollable is None,
    {
        self.backend_pollable.is_none()
    }

    /// The handle to wait on.
    pub fn pollable(&self) -> (r: i32)
        ensures
            r == self.waits_on(),
    {
        match self.backend_pollable {
            Some(handle) => handle,
            None => self.notifier_pollable,
        }
    }

    /// The bytes that a guest's packet sends: its data buffer, or none.
    pub fn outgoing<'a>(&self, packet: &'a VsockPacket) -> (r: Option<&'a [u8]>)
        ensures
            r is Some <==> packet.buffer() is Some,
            r matches Some(data) ==> packet.buffer() == Some(data@),
    {
        packet.buf()
    }

    /// The end of a proxy: it is waited on no longer, and goes.
    pub open spec fn released(self) -> ProxyUpdate {
        ProxyUpdate {
            signal_queue: false,
            polling: Some(
                ProxyPolling {
                    id: self.id,
                    pollable: self.waits_on(),
                    events: EventSet { bits: 0 },
                },
            ),
            remove_proxy: ProxyRemoval::Immediate,
        }
    }

    /// What follows once a datagram was sent, or was not. A busy service loses it.
    pub fn sendmsg(&self, outcome: SendOutcome) -> (r: ProxyUpdate)
        ensures
            r == if outcome == SendOutcome::Failed {
                self.released()
            } else {
                no_update()
            },
    {
        match outcome {
            SendOutcome::Failed => self.release(),
            _ => ProxyUpdate::default(),
        }
    }

    /// Gives the proxy up.
    pub fn release(&self) -> (r: ProxyUpdate)
        ensures
            r == self.released(),
    {
        ProxyUpdate {
            signal_queue: false,
            polling: Some(
                ProxyPolling {
                    id: self.id,
                    pollable: self.pollable(),
                    events: EventSet::empty(),
                },
            ),
            remove_proxy: ProxyRemoval::Immediate,
        }
    }

    /// What an event asks for: a peer that is gone comes before data.
    pub fn process_event(&self, events: EventSet) -> (r: DatagramStep)
        ensures
            r == if events.has(HANG_UP) {
                DatagramStep::Release
            } else if events.has(IN) {
                DatagramStep::ReceiveBatch
            } else {
                DatagramStep::Ignore
            },
    {
        if events.contains(HANG_UP) {
            DatagramStep::Release
        } else if events.contains(IN) {
            DatagramStep::ReceiveBatch
        } else {
            DatagramStep::Ignore
        }
    }

    /// What follows a batch: `delivered` is how it ended, `None` that it failed.
    pub fn batch_done(&self, delivered: Option<bool>) -> (r: ProxyUpdate)
        ensures
            r == match delivered {
                Some(delivered) => ProxyUpdate {
                    signal_queue: delivered,
                    polling: Some(
                        ProxyPolling {
                            id: self.id,
                            pollable: self.waits_on(),
                            events: EventSet { bits: IN },
                        },
                    ),
                    remove_proxy: ProxyRemoval::Keep,
                },
                None => self.released(),
            },
    {
        match delivered {
            Some(delivered) => {
                let mut events = EventSet::empty();
                events.insert(IN);
                assert(0u32 | 1u32 == 1u32) by (bit_vector);
                ProxyUpdate {
                    signal_queue: delivered,
                    polling: Some(
                        ProxyPolling { id: self.id, pollable: self.pollable(), events },
                    ),
                    remove_proxy: ProxyRemoval::Keep,
                }
            },
            None => self.release(),
        }
    }
}

/// A datagram that came whole and fits a packet is put in the guest's queue as it came, one that was
/// cut off is dropped and the next is asked for, and a service without a datagram ends the batch.
pub proof fn whole_datagrams_are_delivered(
    batch: &mut ReceiveBatch,
    event: BatchEvent,
    r: Option<BatchAction>,
)
    requires
        call_ensures(ReceiveBatch::step, (batch, event), r),
    ensures
        old(batch).phase is Receiving && event is Received && event->len <= 65536
            && !event->truncated ==> r == Some(BatchAction::Deliver { len: event->len }),
        old(batch).phase is Receiving && event is Received && event->len <= 65536
            && event->truncated && old(batch).left > 0 ==> r == Some(BatchAction::Receive)
                && final(batch).delivered == old(batch).delivered,
        old(batch).phase is Receiving && event is Received && event->len > 65536 ==> r == Some(
            BatchAction::Abort,
        ),
        old(batch).phase is Receiving && event is WouldBlock ==> r == Some(
            BatchAction::Finish { delivered: old(batch).delivered },
        ),
        old(batch).phase is Receiving && event is Failed ==> r == Some(BatchAction::Abort),
        old(batch).phase is Delivering && event is Delivered && old(batch).left > 0 ==> r == Some(
            BatchAction::Receive,
        ) && final(batch).delivered && final(batch).left + 1 == old(batch).left,
        old(batch).phase is Delivering && event is Delivered && old(batch).left == 0 ==> r == Some(
            BatchAction::Finish { delivered: true },
        ),
        old(batch).phase is Clearing && event == (BatchEvent::Cleared { done: false })
            ==> r == Some(
            BatchAction::Abort,
        ),
        old(batch).phase is Clearing && event == (BatchEvent::Cleared { done: true })
            && old(batch).left > 0 ==> r == Some(BatchAction::Receive),
{
}

/// A batch asks for no more than thirty-two datagrams, and clears its notifier first.
pub proof fn batches_start_bounded(uses_notifier: bool, r: (ReceiveBatch, BatchAction))
    requires
        call_ensures(ReceiveBatch::start, (uses_notifier,), r),
    ensures
        uses_notifier ==> r.1 is ClearNotifier && r.0.left == 32 && r.0.phase is Clearing,
        !uses_notifier ==> r.1 is Receive && r.0.left == 31 && r.0.phase is Receiving,
        !r.0.delivered,
{
}

/// What a proxy asks for: a peer that is gone ends it before its data is looked at, a failure ends
/// it, a busy service loses the datagram, and after a batch it waits for data on its own handle
/// again and tells the guest of what was delivered.
pub proof fn proxies_end_with_their_peer(
    proxy: DatagramProxy,
    events: EventSet,
    step: DatagramStep,
    outcome: SendOutcome,
    sent: ProxyUpdate,
    delivered: Option<bool>,
    done: ProxyUpdate,
    handle: i32,
)
    requires
        call_ensures(DatagramProxy::process_event, (&proxy, events), step),
        call_ensures(DatagramProxy::sendmsg, (&proxy, outcome), sent),
        call_ensures(DatagramProxy::batch_done, (&proxy, delivered), done),
        call_ensures(DatagramProxy::pollable, (&proxy,), handle),
    ensures
        events.has(HANG_UP) ==> step is Release,
        !events.has(HANG_UP) && events.has(IN) ==> step is ReceiveBatch,
        !events.has(HANG_UP) && !events.has(IN) ==> step is Ignore,
        proxy.backend_pollable is Some ==> handle == proxy.backend_pollable->Some_0,
        proxy.backend_pollable is None ==> handle == proxy.notifier_pollable,
        outcome is Failed <==> sent.remove_proxy is Immediate,
        outcome is Failed ==> sent.polling is Some && sent.polling->Some_0.events.bits == 0
            && sent.polling->Some_0.pollable == handle && sent.polling->Some_0.id == proxy.id,
        !(outcome is Failed) ==> sent.polling is None && !sent.signal_queue,
        delivered is None <==> done.remove_proxy is Immediate,
        delivered is Some ==> done.signal_queue == delivered->Some_0 && done.polling is Some
            && done.polling->Some_0.id == proxy.id && done.polling->Some_0.pollable == handle
            && done.polling->Some_0.events.bits == 1,
        delivered is None ==> done.polling is Some && done.polling->Some_0.events.bits == 0,
{
}

/// What is done next is what the batch then waits for: it stands where its action belongs, is over
/// once it says so, and takes no event from elsewhere.
pub proof fn batch_waits_for_what_it_does(
    batch: &mut ReceiveBatch,
    event: BatchEvent,
    r: Option<BatchAction>,
)
    requires
        call_ensures(ReceiveBatch::step, (batch, event), r),
    ensures
        r == Some(BatchAction::Receive) ==> final(batch).phase is Receiving && final(batch).left + 1
            == old(batch).left,
        r is Some && r->Some_0 is Deliver ==> final(batch).phase is Delivering && final(batch).left
            == old(batch).left && final(batch).delivered == old(batch).delivered,
        r is Some && (r->Some_0 is Finish || r->Some_0 is Abort) ==> final(batch).phase is Finished,
        r != Some(BatchAction::ClearNotifier),
        r is None ==> *final(batch) == *old(batch),
        old(batch).phase is Finished ==> r is None,
        !(old(batch).phase is Delivering) ==> final(batch).delivered == old(batch).delivered,
        old(batch).phase is Receiving && event is Received && event->len <= 65536
            && event->truncated && old(batch).left == 0 ==> r == Some(
            BatchAction::Finish { delivered: old(batch).delivered },
        ),
{
}

} // verus!

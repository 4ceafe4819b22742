//! What the block worker does with the events that it waits for.

use crate::block::request::{completion_of, RequestError, VIRTIO_BLK_S_IOERR, VIRTIO_BLK_S_OK};
use crate::block::ring::LinuxRawCompletionPolicy;
use crate::epoll::{EventSet, IN};
use vstd::prelude::*;

verus! {

/// The token of the first queue; queue `i` has this one plus `i`.
pub const QUEUE_EVENT_BASE: u64 = 0;

/// The token of the stop event.
pub const STOP_EVENT: u64 = 64;

/// The token of the ring.
pub const LINUX_RAW_EVENT: u64 = 65;

/// What the worker does next.
#[derive(Clone, Copy, Debug, PartialEq, Eq, Structural)]
pub enum WorkerStep {
    /// Serve a queue without a ring.
    ProcessQueue { queue_index: usize },
    /// Serve a queue through the ring, then submit.
    ProcessRing { queue_index: usize },
    /// Serve a queue through the ring until nothing is in flight.
    DrainLocally { queue_index: usize },
    /// Take completions off the ring, serve every queue, then submit.
    ReapRing,
    /// Finish what is in flight and stop.
    Stop,
    /// Nothing is registered under this token.
    Ignore,
}

/// The step for an event where the ring serves the disk, or could not be set up.
pub open spec fn linux_step(
    source: u64,
    events: EventSet,
    queue_count: nat,
    has_ring: bool,
    policy: LinuxRawCompletionPolicy,
) -> WorkerStep {
    if !events.has(IN) {
        WorkerStep::Ignore
    } else if source < queue_count {
        if !has_ring {
            WorkerStep::ProcessQueue { queue_index: source as usize }
        } else if policy == LinuxRawCompletionPolicy::LocalDrain {
            WorkerStep::DrainLocally { queue_index: source as usize }
        } else {
            WorkerStep::ProcessRing { queue_index: source as usize }
        }
    } else if source == LINUX_RAW_EVENT {
        WorkerStep::ReapRing
    } else if source == STOP_EVENT {
        WorkerStep::Stop
    } else {
        WorkerStep::Ignore
    }
}

/// What an event asks of a worker with a ring.
pub fn dispatch_linux(
    source: u64,
    events: EventSet,
    queue_count: usize,
    has_ring: bool,
    policy: LinuxRawCompletionPolicy,
) -> (r: WorkerStep)
    ensures
        r == linux_step(source, events, queue_count as nat, has_ring, policy),
{
    if !events.contains(IN) {
        return WorkerStep::Ignore;
    }
    if source < queue_count as u64 {
        let queue_index: usize = source as usize;
        if !has_ring {
            WorkerStep::ProcessQueue { queue_index }
        } else if policy.uses_local_drain() {
            WorkerStep::DrainLocally { queue_index }
        } else {
            WorkerStep::ProcessRing { queue_index }
        }
    } else if source == LINUX_RAW_EVENT {
        WorkerStep::ReapRing
    } else if source == STOP_EVENT {
        WorkerStep::Stop
    } else {
        WorkerStep::Ignore
    }
}

/// The step for an event where no ring exists.
pub open spec fn plain_step(source: u64, events: EventSet, queue_count: nat) -> WorkerStep {
    if !events.has(IN) {
        WorkerStep::Ignore
    } else if source < queue_count {
        WorkerStep::ProcessQueue { queue_index: source as usize }
    } else if source == STOP_EVENT {
        WorkerStep::Stop
    } else {
        WorkerStep::Ignore
    }
}

/// What an event asks of a worker without a ring.
pub fn dispatch(source: u64, events: EventSet, queue_count: usize) -> (r: WorkerStep)
    ensures
        r == plain_step(source, events, queue_count as nat),
{
    if !events.contains(IN) {
        return WorkerStep::Ignore;
    }
    if source < queue_count as u64 {
        WorkerStep::ProcessQueue { queue_index: source as usize }
    } else if source == STOP_EVENT {
        WorkerStep::Stop
    } else {
        WorkerStep::Ignore
    }
}

/// The tokens of up to as many queues as a mask marks, of the stop event and of the ring are told
/// apart.
pub proof fn worker_tokens_are_distinct(
    queue_count: nat,
    queue_index: u64,
    has_ring: bool,
    policy: LinuxRawCompletionPolicy,
    events: EventSet,
)
    requires
        queue_count <= 64,
        queue_index < queue_count,
        events.has(IN),
    ensures
        linux_step(STOP_EVENT, events, queue_count, has_ring, policy) == WorkerStep::Stop,
        linux_step(LINUX_RAW_EVENT, events, queue_count, has_ring, policy) == WorkerStep::ReapRing,
        plain_step(STOP_EVENT, events, queue_count) == WorkerStep::Stop,
        plain_step((QUEUE_EVENT_BASE + queue_index) as u64, events, queue_count) == (
        WorkerStep::ProcessQueue { queue_index: queue_index as usize }),
{
}

/// Where a local drain stands.
#[derive(Clone, Copy, Debug, PartialEq, Eq, Structural)]
pub enum LocalDrainStep {
    /// Submit what was admitted and take completions until nothing is in flight, then serve the
    /// queue again.
    SubmitAndDrain,
    /// Nothing is in flight: signal the marked queues.
    Signal,
    /// Nothing is in flight and there is nothing to signal.
    Done,
}

/// What follows once a local drain has served its queue.
pub fn local_drain_step(
    nothing_in_flight: bool,
    batch_completions: bool,
    completed_queues: u64,
) -> (r: LocalDrainStep)
    ensures
        r is SubmitAndDrain <==> !nothing_in_flight,
        r is Signal <==> nothing_in_flight && batch_completions && completed_queues != 0,
{
    if !nothing_in_flight {
        LocalDrainStep::SubmitAndDrain
    } else if batch_completions && completed_queues != 0 {
        LocalDrainStep::Signal
    } else {
        LocalDrainStep::Done
    }
}

/// Where the serving of a queue stands.
#[derive(Clone, Copy, Debug, PartialEq, Eq, Structural)]
pub enum QueuePhase {
    /// A chain is taken off the queue.
    Popping,
    /// A completion is published.
    Publishing,
    /// The queue is asked whether the guest wants a notification.
    Asking,
    /// The queue is asked once more, for all completions together.
    AskingLast,
    /// The guest is interrupted.
    Signalling,
    /// The guest is interrupted for all completions together.
    SignallingLast,
    /// The queue was served.
    Finished,
}

/// What happened while a queue was served.
pub enum QueueEvent {
    /// The queue had no chain left.
    Empty,
    /// A chain or its header could not be read.
    Malformed,
    /// A request was served with this outcome.
    Processed { outcome: Result<usize, RequestError> },
    /// The status was written and the used ring took the completion, or did not.
    Published { added: bool },
    /// The queue said whether the guest wants a notification.
    Answered { needed: bool },
    /// The guest was interrupted, or that failed.
    Signalled,
}

/// What is done next for a queue.
#[derive(Clone, Copy, Debug, PartialEq, Eq, Structural)]
pub enum QueueAction {
    /// Take the next chain, read its header and serve the request.
    Pop,
    /// Write the status and put the chain in the used ring.
    Publish { status: u8, used_len: usize },
    /// Ask whether the guest wants a notification.
    Ask,
    /// Interrupt the guest.
    Signal,
    /// Stop.
    Finish,
}

/// One pass over a queue that is served synchronously.
#[derive(Clone, Copy, Debug, PartialEq, Eq, Structural)]
pub struct QueuePass {
    pub batch_completions: bool,
    pub completed_any: bool,
    pub phase: QueuePhase,
}

impl QueuePass {
    /// The next phase and action, and whether a completion was published, for an event. `None`
    /// stands for an event that does not belong to the phase.
    pub open spec fn transition(self, event: QueueEvent) -> Option<(QueuePass, QueueAction)> {
        match (self.phase, event) {
            (QueuePhase::Popping, QueueEvent::Malformed) => Some((self, QueueAction::Pop)),
            (QueuePhase::Popping, QueueEvent::Processed { outcome }) => Some(
                (
                    QueuePass { phase: QueuePhase::Publishing, ..self },
                    match outcome {
                        Ok(len) => QueueAction::Publish { status: VIRTIO_BLK_S_OK, used_len: len },
                        Err(_) => QueueAction::Publish { status: VIRTIO_BLK_S_IOERR, used_len: 0 },
                    },
                ),
            ),
            (QueuePhase::Popping, QueueEvent::Empty) => if self.batch_completions
                && self.completed_any {
                Some((QueuePass { phase: QueuePhase::AskingLast, ..self }, QueueAction::Ask))
            } else {
                Some((QueuePass { phase: QueuePhase::Finished, ..self }, QueueAction::Finish))
            },
            (QueuePhase::Publishing, QueueEvent::Published { added }) => {
                let completed_any = self.completed_any || added;
                if self.batch_completions {
                    Some(
                        (
                            QueuePass { phase: QueuePhase::Popping, completed_any, ..self },
                            QueueAction::Pop,
                        ),
                    )
                } else {
                    Some(
                        (
                            QueuePass { phase: QueuePhase::Asking, completed_any, ..self },
                            QueueAction::Ask,
                        ),
                    )
                }
            },
            (QueuePhase::Asking, QueueEvent::Answered { needed }) => if needed {
                Some((QueuePass { phase: QueuePhase::Signalling, ..self }, QueueAction::Signal))
            } else {
                Some((QueuePass { phase: QueuePhase::Popping, ..self }, QueueAction::Pop))
            },
            (QueuePhase::AskingLast, QueueEvent::Answered { needed }) => if needed {
                Some((QueuePass { phase: QueuePhase::SignallingLast, ..self }, QueueAction::Signal))
            } else {
                Some((QueuePass { phase: QueuePhase::Finished, ..self }, QueueAction::Finish))
            },
            (QueuePhase::Signalling, QueueEvent::Signalled) => Some(
                (QueuePass { phase: QueuePhase::Popping, ..self }, QueueAction::Pop),
            ),
            (QueuePhase::SignallingLast, QueueEvent::Signalled) => Some(
                (QueuePass { phase: QueuePhase::Finished, ..self }, QueueAction::Finish),
            ),
            _ => None,
        }
    }

    /// A pass that is about to take the first chain.
    pub fn new(batch_completions: bool) -> (r: QueuePass)
        ensures
            r == (QueuePass {
                batch_completions,
                completed_any: false,
                phase: QueuePhase::Popping,
            }),
    {
        QueuePass { batch_completions, completed_any: false, phase: QueuePhase::Popping }
    }

    /// What is done next. An event that does not belong to the phase changes nothing.
    pub fn step(&mut self, event: QueueEvent) -> (r: Option<QueueAction>)
        ensures
            r is Some <==> old(self).transition(event) is Some,
            r is None ==> *final(self) == *old(self),
            r matches Some(action) ==> old(self).transition(event) == Some((*final(self), action)),
    {
        match (self.phase, event) {
            (QueuePhase::Popping, QueueEvent::Malformed) => Some(QueueAction::Pop),
            (QueuePhase::Popping, QueueEvent::Processed { outcome }) => {
                let (status, used_len) = completion_of(&outcome);
                self.phase = QueuePhase::Publishing;
                Some(QueueAction::Publish { status, used_len })
            },
            (QueuePhase::Popping, QueueEvent::Empty) => {
                if self.batch_completions && self.completed_any {
                    self.phase = QueuePhase::AskingLast;
                    Some(QueueAction::Ask)
                } else {
                    self.phase = QueuePhase::Finished;
                    Some(QueueAction::Finish)
                }
            },
            (QueuePhase::Publishing, QueueEvent::Published { added }) => {
                self.completed_any = self.completed_any || added;
                if self.batch_completions {
                    self.phase = QueuePhase::Popping;
                    Some(QueueAction::Pop)
                } else {
                    self.phase = QueuePhase::Asking;
                    Some(QueueAction::Ask)
                }
            },
            (QueuePhase::Asking, QueueEvent::Answered { needed }) => {
                if needed {
                    self.phase = QueuePhase::Signalling;
                    Some(QueueAction::Signal)
                } else {
                    self.phase = QueuePhase::Popping;
                    Some(QueueAction::Pop)
                }
            },
            (QueuePhase::AskingLast, QueueEvent::Answered { needed }) => {
                if needed {
                    self.phase = QueuePhase::SignallingLast;
                    Some(QueueAction::Signal)
                } else {
                    self.phase = QueuePhase::Finished;
                    Some(QueueAction::Finish)
                }
            },
            (QueuePhase::Signalling, QueueEvent::Signalled) => {
                self.phase = QueuePhase::Popping;
                Some(QueueAction::Pop)
            },
            (QueuePhase::SignallingLast, QueueEvent::Signalled) => {
                self.phase = QueuePhase::Finished;
                Some(QueueAction::Finish)
            },
            _ => None,
        }
    }
}

/// A pass that batches completions signals at its end alone, and a pass that published a
/// completion does not end before the queue was asked about it.
pub proof fn batched_pass_asks_once_at_the_end(pass: QueuePass, event: QueueEvent)
    requires
        pass.transition(event) is Some,
        pass.batch_completions,
        pass.phase != QueuePhase::Asking,
        pass.phase != QueuePhase::Signalling,
    ensures
        ({
            let (next, action) = pass.transition(event)->Some_0;
            &&& next.phase != QueuePhase::Asking && next.phase != QueuePhase::Signalling
            &&& action == QueueAction::Signal ==> next.phase == QueuePhase::SignallingLast
            &&& action == QueueAction::Ask ==> next.phase == QueuePhase::AskingLast
                && next.completed_any
            &&& pass.phase == QueuePhase::Popping && action == QueueAction::Finish
                ==> !next.completed_any
        }),
{
}

/// An event of a queue has that queue served: through the ring where there is one, to the end of
/// what is in flight where the policy asks for it. Without data to read nothing is done.
pub proof fn queue_events_serve_their_queue(
    source: u64,
    events: EventSet,
    queue_count: usize,
    has_ring: bool,
    policy: LinuxRawCompletionPolicy,
    ring: WorkerStep,
    plain: WorkerStep,
)
    requires
        call_ensures(dispatch_linux, (source, events, queue_count, has_ring, policy), ring),
        call_ensures(dispatch, (source, events, queue_count), plain),
    ensures
        !events.has(IN) ==> ring is Ignore && plain is Ignore,
        events.has(IN) && source < queue_count ==> {
            &&& plain is ProcessQueue && plain->ProcessQueue_queue_index == source
            &&& !has_ring ==> ring == plain
            &&& has_ring && policy is LocalDrain ==> ring is DrainLocally
                && ring->DrainLocally_queue_index == source
            &&& has_ring && !(policy is LocalDrain) ==> ring is ProcessRing
                && ring->ProcessRing_queue_index == source
        },
        events.has(IN) && source >= queue_count && source == 64 ==> ring is Stop && plain is Stop,
        events.has(IN) && source >= queue_count && source == 65 ==> ring is ReapRing && plain
            is Ignore,
        source >= queue_count && source != 64 && source != 65 ==> ring is Ignore && plain is Ignore,
{
}

/// Every request that was served is published with its outcome before the next chain is taken, a
/// chain that cannot be read is passed over, and where completions are not batched the guest is
/// asked about each and interrupted where it wants to be.
pub proof fn served_requests_are_published(
    pass: &mut QueuePass,
    event: QueueEvent,
    r: Option<QueueAction>,
)
    requires
        call_ensures(QueuePass::step, (pass, event), r),
    ensures
        old(pass).phase is Popping && event is Malformed ==> r == Some(QueueAction::Pop)
            && *final(pass) == *old(pass),
        old(pass).phase is Popping && event is Processed && event->outcome is Ok ==> r == Some(
            QueueAction::Publish { status: 0, used_len: event->outcome->Ok_0 },
        ) && final(pass).phase is Publishing,
        old(pass).phase is Popping && event is Processed && event->outcome is Err ==> r == Some(
            QueueAction::Publish { status: 1, used_len: 0 },
        ) && final(pass).phase is Publishing,
        old(pass).phase is Publishing && event is Published && !old(pass).batch_completions ==> r
            == Some(QueueAction::Ask) && final(pass).phase is Asking,
        old(pass).phase is Publishing && event is Published && old(pass).batch_completions ==> r
            == Some(QueueAction::Pop) && final(pass).phase is Popping && final(pass).completed_any
            == (old(pass).completed_any || event->added),
        old(pass).phase is Asking && event is Answered ==> r == Some(
            if event->needed {
                QueueAction::Signal
            } else {
                QueueAction::Pop
            },
        ),
        old(pass).phase is AskingLast && event is Answered ==> r == Some(
            if event->needed {
                QueueAction::Signal
            } else {
                QueueAction::Finish
            },
        ),
        old(pass).phase is Signalling && event is Signalled ==> r == Some(QueueAction::Pop),
        old(pass).phase is Popping && event is Empty ==> r == Some(
            if old(pass).batch_completions && old(pass).completed_any {
                QueueAction::Ask
            } else {
                QueueAction::Finish
            },
        ),
        final(pass).batch_completions == old(pass).batch_completions,
{
}

/// A local drain goes on while anything is in flight, and signals at its end where there is
/// something to signal.
pub proof fn local_drain_ends_empty(
    nothing_in_flight: bool,
    batch_completions: bool,
    completed_queues: u64,
    r: LocalDrainStep,
)
    requires
        call_ensures(local_drain_step, (nothing_in_flight, batch_completions, completed_queues), r),
    ensures
        !nothing_in_flight ==> r is SubmitAndDrain,
        nothing_in_flight && batch_completions && completed_queues > 0 ==> r is Signal,
        nothing_in_flight && (!batch_completions || completed_queues == 0) ==> r is Done,
{
}

/// What is done next is what the pass then waits for: it stands where its action belongs, is over
/// once it says so, and takes no event from elsewhere.
pub proof fn pass_waits_for_what_it_does(
    pass: &mut QueuePass,
    event: QueueEvent,
    r: Option<QueueAction>,
    batch: bool,
    start: QueuePass,
)
    requires
        call_ensures(QueuePass::step, (pass, event), r),
        call_ensures(QueuePass::new, (batch,), start),
    ensures
        start.phase is Popping && start.batch_completions == batch && !start.completed_any,
        r == Some(QueueAction::Pop) ==> final(pass).phase is Popping,
        r is Some && r->Some_0 is Publish ==> final(pass).phase is Publishing,
        r == Some(QueueAction::Ask) ==> (if old(pass).phase is Popping {
            final(pass).phase is AskingLast
        } else {
            final(pass).phase is Asking
        }),
        r == Some(QueueAction::Signal) ==> (if old(pass).phase is AskingLast {
            final(pass).phase is SignallingLast
        } else {
            final(pass).phase is Signalling
        }),
        r == Some(QueueAction::Finish) ==> final(pass).phase is Finished,
        old(pass).phase is SignallingLast && event is Signalled ==> r == Some(QueueAction::Finish),
        r is None ==> *final(pass) == *old(pass),
        old(pass).phase is Finished ==> r is None,
        !(event is Published) ==> final(pass).completed_any == old(pass).completed_any,
        old(pass).phase is Publishing && event is Published
            ==> final(pass).completed_any == (old(pass).completed_any || event->added),
{
}

} // verus!

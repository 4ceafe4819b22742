//! What the guest metrics device does with the events that it is told of.

use crate::balloon::events::is_plain_readable;
use crate::epoll::{EpollEvent, ALL_EVENTS, IN};
use vstd::prelude::*;

verus! {

/// What an event is for.
#[derive(Clone, Copy, Debug, PartialEq, Eq, Structural)]
pub enum MsbMetricsStep {
    /// The device was set up: register its receive queue.
    Activate,
    /// The receive queue.
    Receive,
    /// Nothing is known of the source.
    Unexpected,
    /// The device was not set up yet.
    Inactive,
}

/// What an event of a source is for.
pub fn process(source: u64, activate: u64, rx: u64, active: bool) -> (r: MsbMetricsStep)
    ensures
        r == if !active {
            MsbMetricsStep::Inactive
        } else if source == activate {
            MsbMetricsStep::Activate
        } else if source == rx {
            MsbMetricsStep::Receive
        } else {
            MsbMetricsStep::Unexpected
        },
{
    if !active {
        MsbMetricsStep::Inactive
    } else if source == activate {
        MsbMetricsStep::Activate
    } else if source == rx {
        MsbMetricsStep::Receive
    } else {
        MsbMetricsStep::Unexpected
    }
}

/// What follows an event of the receive queue.
#[derive(Clone, Copy, Debug, PartialEq, Eq, Structural)]
pub enum RxStep {
    /// The event is not one for reading.
    UnexpectedEvent,
    /// The wakeup could not be taken.
    ReadFailed,
    /// Serve the queue, and signal where a chain was used.
    Serve,
}

/// What follows an event of the receive queue.
pub fn handle_rx_event(event: &EpollEvent, wakeup_taken: bool) -> (r: RxStep)
    ensures
        r == if event.events & ALL_EVENTS != IN {
            RxStep::UnexpectedEvent
        } else if !wakeup_taken {
            RxStep::ReadFailed
        } else {
            RxStep::Serve
        },
{
    if !is_plain_readable(event) {
        RxStep::UnexpectedEvent
    } else if !wakeup_taken {
        RxStep::ReadFailed
    } else {
        RxStep::Serve
    }
}

/// A device that was not set up serves nothing. Otherwise each source is told by its own number,
/// and the receive queue is served by a plain wakeup that could be taken.
pub proof fn sources_are_told_by_their_number(
    source: u64,
    activate: u64,
    rx: u64,
    active: bool,
    r: MsbMetricsStep,
    event: EpollEvent,
    taken: bool,
    step: RxStep,
)
    requires
        call_ensures(process, (source, activate, rx, active), r),
        call_ensures(handle_rx_event, (&event, taken), step),
    ensures
        r is Inactive <==> !active,
        active && source == activate ==> r is Activate,
        active && source == rx && rx != activate ==> r is Receive,
        active && source != rx && source != activate ==> r is Unexpected,
        step is Serve <==> event.events % 1024 == 1 && taken,
        step is UnexpectedEvent <==> event.events % 1024 != 1,
{
    let e = event.events;
    assert(e & 0b0011_1111_1111u32 == e % 1024) by (bit_vector);
}

} // verus!

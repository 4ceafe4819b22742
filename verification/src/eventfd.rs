//! A wake event on a host without event descriptors.

use vstd::prelude::*;

verus! {

/// Reads do not wait.
pub const EFD_NONBLOCK: i32 = 1;

/// Reads take one of the count.
pub const EFD_SEMAPHORE: i32 = 2;

/// The wait found the event signaled.
pub const WAIT_OBJECT_0: u32 = 0;

/// The wait found the event not signaled.
pub const WAIT_TIMEOUT: u32 = 258;

/// What a read of the event comes to.
#[derive(Clone, Copy, Debug, PartialEq, Eq, Structural)]
pub enum EventRead {
    /// The event is reset, and one was read.
    Reset,
    /// The event is not signaled.
    WouldBlock,
    /// The system's last error is reported.
    Fail,
}

/// What a read of the event comes to, after a wait that did not wait.
pub fn read_event(wait: u32) -> (r: EventRead)
    ensures
        r == if wait == WAIT_OBJECT_0 {
            EventRead::Reset
        } else if wait == WAIT_TIMEOUT {
            EventRead::WouldBlock
        } else {
            EventRead::Fail
        },
{
    if wait == WAIT_OBJECT_0 {
        EventRead::Reset
    } else if wait == WAIT_TIMEOUT {
        EventRead::WouldBlock
    } else {
        EventRead::Fail
    }
}

/// A wait that was answered resets the event, one that ran out would have blocked, and any other
/// answer is a failure.
pub proof fn answered_waits_reset_the_event(wait: u32, r: EventRead)
    requires
        call_ensures(read_event, (wait,), r),
    ensures
        r is Reset <==> wait == 0,
        r is WouldBlock <==> wait == 258,
{
}

} // verus!

//! Services that a host offers on a socket port.

use vstd::prelude::*;

verus! {

/// Metadata for a guest-initiated connection to a registered host port.
#[derive(Clone, Copy, Debug, PartialEq, Eq, Structural)]
pub struct VsockConnectRequest {
    /// CID of the guest opening the connection.
    pub guest_cid: u64,
    /// Ephemeral source port selected by the guest.
    pub guest_port: u32,
    /// Host port on which the backend was registered.
    pub host_port: u32,
}

/// Direction requested by a guest shutdown packet.
#[derive(Clone, Copy, Debug, PartialEq, Eq, Structural)]
pub enum VsockShutdown {
    Read,
    Write,
    Both,
}

/// One nonblocking byte stream served by a custom backend.
pub trait VsockStreamBackend: Send {
    /// Reads bytes that should be delivered to the guest.
    fn read(&self, buf: &mut [u8]) -> Result<usize, std::io::Error>;

    /// Consumes bytes received from the guest.
    fn write(&self, buf: &[u8]) -> Result<usize, std::io::Error>;

    /// Applies a guest-requested half-close or full shutdown.
    fn shutdown(&self, how: VsockShutdown) -> Result<(), std::io::Error>;
}

/// How reading a wake event ended.
#[derive(Clone, Copy, Debug, PartialEq, Eq, Structural)]
pub enum WakeRead {
    /// The event was set, and is not any more.
    Taken,
    /// The event was not set.
    WouldBlock,
    /// Reading failed with this error number.
    Failed(i32),
}

/// Whether an event is clear after it was read: one that was not set is clear already.
pub fn cleared(read: WakeRead) -> (r: Result<(), i32>)
    ensures
        r == match read {
            WakeRead::Failed(code) => Err(code),
            _ => Ok(()),
        },
{
    match read {
        WakeRead::Failed(code) => Err(code),
        _ => Ok(()),
    }
}

} // verus!

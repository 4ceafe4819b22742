//! What a network backend can do, and how its reads and writes end.

use vstd::prelude::*;

verus! {

/// Device completes checksums for packets transmitted by the guest.
pub const NET_F_CSUM: u64 = 0x1;

/// Device segments IPv4 TCP packets transmitted by the guest.
pub const NET_F_HOST_TSO4: u64 = 0x800;

/// Device segments IPv6 TCP packets transmitted by the guest.
pub const NET_F_HOST_TSO6: u64 = 0x1000;

/// Why no frame was read. The code is the system's error number.
#[derive(Clone, Copy, Debug, PartialEq, Eq, Structural)]
pub enum ReadError {
    /// There is no frame to be read.
    NothingRead,
    /// Reading failed.
    Internal(i32),
}

/// Why a frame was not written in full. The code is the system's error number.
#[derive(Clone, Copy, Debug, PartialEq, Eq, Structural)]
pub enum WriteError {
    /// Nothing was written; the frame can be dropped or sent again later.
    NothingWritten,
    /// Part of the frame was written; the rest has to follow before the next frame.
    PartialWrite,
    /// The peer is gone.
    ProcessNotRunning,
    /// Writing failed.
    Internal(i32),
}

/// The source and sink of Ethernet frames of a network device.
pub trait NetBackend {
    /// Pairs of queues that the backend can serve.
    fn max_queue_pairs(&self) -> (r: u16)
        default_ensures
            r == 1,
    {
        1
    }

    /// Features of the network device that the backend honours.
    fn supported_features(&self) -> (r: u64)
        default_ensures
            r == 0,
    {
        0
    }

    /// Reads one frame into the buffer and returns its length, header included.
    fn read_frame(&mut self, buf: &mut [u8]) -> Result<usize, ReadError>;

    /// Writes one frame that starts with a header of `hdr_len` bytes.
    fn write_frame(&mut self, hdr_len: usize, buf: &mut [u8]) -> Result<(), WriteError>;

    /// Whether part of a frame is still to be written.
    fn has_unfinished_write(&self) -> bool;

    /// Writes the rest of a frame.
    fn try_finish_write(&mut self, hdr_len: usize, buf: &[u8]) -> Result<(), WriteError>;
}

} // verus!

//! A network backend that exchanges frames with a peer as messages of a named pipe.

use crate::net::worker::{MAX_BUFFER_SIZE, VNET_HDR_LEN};
use std::collections::VecDeque;
use vstd::prelude::*;

verus! {

pub const ERROR_BROKEN_PIPE: i32 = 109;

pub const ERROR_PIPE_BUSY: i32 = 231;

pub const ERROR_NO_DATA: i32 = 232;

pub const ERROR_PIPE_NOT_CONNECTED: i32 = 233;

pub const ERROR_MORE_DATA: i32 = 234;

pub const ERROR_IO_PENDING: i32 = 997;

/// How long, in milliseconds, a free instance of the pipe is waited for.
pub const PIPE_CONNECT_TIMEOUT_MS: u32 = 5000;

/// How often the pipe is opened before it counts as busy.
pub const PIPE_BUSY_RETRIES: usize = 10;

/// The longest frame that is read.
pub const MAX_FRAME_LEN: usize = 65550;

/// What went wrong with the pipe.
#[derive(Clone, Copy, Debug, PartialEq, Eq, Structural)]
pub enum PipeFault {
    /// The system reported this error, or none.
    Os(Option<i32>),
    /// A message was longer than the longest frame.
    FrameExceedsBuffer,
    /// A frame does not fit in the buffer it is read into.
    FrameTooLarge,
    /// A message was written in part.
    ShortWrite,
}

/// Why no frame was read.
#[derive(Clone, Copy, Debug, PartialEq, Eq, Structural)]
pub enum PipeReadError {
    NothingRead,
    Internal(PipeFault),
}

/// Why a frame was not written.
#[derive(Clone, Copy, Debug, PartialEq, Eq, Structural)]
pub enum PipeWriteError {
    NothingWritten,
    ProcessNotRunning,
    Internal(PipeFault),
}

/// The error says that the peer has closed the pipe.
pub open spec fn says_closed(code: Option<i32>) -> bool {
    code == Some(ERROR_BROKEN_PIPE) || code == Some(ERROR_NO_DATA) || code == Some(
        ERROR_PIPE_NOT_CONNECTED,
    )
}

/// Whether the error says that the peer has closed the pipe.
pub fn is_pipe_closed(code: Option<i32>) -> (r: bool)
    ensures
        r == says_closed(code),
{
    match code {
        Some(code) => code == ERROR_BROKEN_PIPE || code == ERROR_NO_DATA || code
            == ERROR_PIPE_NOT_CONNECTED,
        None => false,
    }
}

/// Whether the reader goes on.
#[derive(Clone, Copy, Debug, PartialEq, Eq, Structural)]
pub enum ReaderStep {
    /// Reads the next message, after it has woken the device where `wake` is set.
    Read { wake: bool },
    /// Wakes the device and ends.
    Stop,
}

/// The frames that were read and not taken yet, and what ended the reader.
#[derive(Debug)]
pub struct NamedPipe {
    rx_queue: VecDeque<Vec<u8>>,
    rx_error: Option<PipeFault>,
}

impl NamedPipe {
    /// The frames that were read and not taken yet.
    pub closed spec fn frames(self) -> Seq<Seq<u8>> {
        self.rx_queue@.map_values(|frame: Vec<u8>| frame@)
    }

    /// What ended the reader, until it is reported.
    pub closed spec fn fault(self) -> Option<PipeFault> {
        self.rx_error
    }

    /// A pipe of which nothing was read.
    pub fn new() -> (r: NamedPipe)
        ensures
            r.frames() == Seq::<Seq<u8>>::empty(),
            r.fault() is None,
    {
        let pipe: NamedPipe = NamedPipe { rx_queue: VecDeque::new(), rx_error: None };
        assert(pipe.frames() =~= Seq::empty());
        pipe
    }

    /// The reader has read a message into its buffer, or failed.
    pub fn message_read(&mut self, buffer: Vec<u8>, outcome: Result<usize, Option<i32>>) -> (r:
        ReaderStep)
        requires
            outcome matches Ok(n) ==> n <= buffer@.len(),
        ensures
            match outcome {
                Ok(n) => {
                    &&& final(self).frames() == if n == 0 {
                        old(self).frames()
                    } else {
                        old(self).frames().push(buffer@.take(n as int))
                    }
                    &&& final(self).fault() == old(self).fault()
                    &&& r == (ReaderStep::Read { wake: n != 0 })
                },
                Err(code) => {
                    &&& final(self).frames() == old(self).frames()
                    &&& final(self).fault() == if code == Some(ERROR_MORE_DATA) {
                        Some(PipeFault::FrameExceedsBuffer)
                    } else if says_closed(code) {
                        old(self).fault()
                    } else {
                        Some(PipeFault::Os(code))
                    }
                    &&& r == ReaderStep::Stop
                },
            },
    {
        match outcome {
            Ok(n) => {
                if n == 0 {
                    return ReaderStep::Read { wake: false };
                }
                let mut frame: Vec<u8> = buffer;
                frame.truncate(n);
                assert(frame@ =~= buffer@.take(n as int));
                self.rx_queue.push_back(frame);
                assert(self.frames() =~= old(self).frames().push(buffer@.take(n as int)));
                ReaderStep::Read { wake: true }
            },
            Err(code) => {
                let more: bool = match code {
                    Some(code) => code == ERROR_MORE_DATA,
                    None => false,
                };
                if more {
                    self.rx_error = Some(PipeFault::FrameExceedsBuffer);
                } else if !is_pipe_closed(code) {
                    self.rx_error = Some(PipeFault::Os(code));
                }
                ReaderStep::Stop
            },
        }
    }

    /// Takes the oldest frame, behind an empty header. Tells also whether none is left, so that
    /// the device is not woken again for it.
    pub fn read_frame(&mut self, buf: &mut [u8]) -> (r: (Result<usize, PipeReadError>, bool))
        requires
            old(self).frames().len() > 0 ==> old(buf)@.len() >= VNET_HDR_LEN,
        ensures
            final(buf)@.len() == old(buf)@.len(),
            r.1 == (final(self).frames().len() == 0),
            old(self).frames().len() == 0 ==> {
                &&& r.0 == match old(self).fault() {
                    Some(fault) => Err::<usize, PipeReadError>(PipeReadError::Internal(fault)),
                    None => Err::<usize, PipeReadError>(PipeReadError::NothingRead),
                }
                &&& final(self).frames() == old(self).frames()
                &&& final(self).fault() is None
                &&& final(buf)@ == old(buf)@
            },
            old(self).frames().len() > 0 ==> {
                let frame = old(self).frames()[0];
                let fits = VNET_HDR_LEN + frame.len() <= old(buf)@.len();
                &&& final(self).frames() == old(self).frames().skip(1)
                &&& final(self).fault() == old(self).fault()
                &&& r.0 == if fits {
                    Ok::<usize, PipeReadError>((VNET_HDR_LEN + frame.len()) as usize)
                } else {
                    Err::<usize, PipeReadError>(PipeReadError::Internal(PipeFault::FrameTooLarge))
                }
                &&& forall|i: int|
                    0 <= i < old(buf)@.len() ==> #[trigger] final(buf)@[i] == if i < VNET_HDR_LEN {
                        0u8
                    } else if fits && i < VNET_HDR_LEN + frame.len() {
                        frame[i - VNET_HDR_LEN]
                    } else {
                        old(buf)@[i]
                    }
            },
    {
        let taken: Option<Vec<u8>> = self.rx_queue.pop_front();
        let drained: bool = self.rx_queue.len() == 0;
        match taken {
            None => {
                assert(self.frames() =~= old(self).frames());
                match self.rx_error {
                    Some(fault) => {
                        self.rx_error = None;
                        (Err(PipeReadError::Internal(fault)), drained)
                    },
                    None => (Err(PipeReadError::NothingRead), drained),
                }
            },
            Some(frame) => {
                assert(frame@ == old(self).frames()[0]);
                assert(self.frames() =~= old(self).frames().skip(1));
                let ghost before = buf@;
                let mut i: usize = 0;
                while i < VNET_HDR_LEN
                    invariant
                        i <= VNET_HDR_LEN,
                        VNET_HDR_LEN <= buf@.len(),
                        buf@.len() == before.len(),
                        forall|j: int| 0 <= j < i ==> #[trigger] buf@[j] == 0,
                        forall|j: int| i <= j < buf@.len() ==> #[trigger] buf@[j] == before[j],
                    decreases VNET_HDR_LEN - i,
                {
                    buf[i] = 0;
                    i = i + 1;
                }
                let room: usize = buf.len() - VNET_HDR_LEN;
                if frame.len() > room {
                    return (Err(PipeReadError::Internal(PipeFault::FrameTooLarge)), drained);
                }
                let len: usize = frame.len();
                let end: usize = VNET_HDR_LEN + len;
                let mut k: usize = 0;
                while k < len
                    invariant
                        k <= len,
                        len == frame@.len(),
                        end == VNET_HDR_LEN + len,
                        end <= buf@.len(),
                        buf@.len() == before.len(),
                        forall|j: int| 0 <= j < VNET_HDR_LEN ==> #[trigger] buf@[j] == 0,
                        forall|j: int|
                            VNET_HDR_LEN <= j < VNET_HDR_LEN + k ==> #[trigger] buf@[j] == frame@[j
                                - VNET_HDR_LEN],
                        forall|j: int|
                            VNET_HDR_LEN + k <= j < buf@.len() ==> #[trigger] buf@[j] == before[j],
                    decreases len - k,
                {
                    buf[VNET_HDR_LEN + k] = frame[k];
                    k = k + 1;
                }
                (Ok(end), drained)
            },
        }
    }
}

impl Default for NamedPipe {
    fn default() -> (r: NamedPipe)
        ensures
            r.frames() == Seq::<Seq<u8>>::empty(),
            r.fault() is None,
    {
        NamedPipe::new()
    }
}

/// How much of a buffer is written as one message: everything behind the header.
pub fn frame_to_write(hdr_len: usize, buf_len: usize) -> (r: Result<usize, PipeWriteError>)
    ensures
        r == if buf_len <= hdr_len {
            Err::<usize, PipeWriteError>(PipeWriteError::NothingWritten)
        } else {
            Ok::<usize, PipeWriteError>((buf_len - hdr_len) as usize)
        },
{
    if buf_len <= hdr_len {
        Err(PipeWriteError::NothingWritten)
    } else {
        Ok(buf_len - hdr_len)
    }
}

/// How the write of a message of this length has ended.
pub fn frame_written(frame_len: usize, outcome: Result<usize, Option<i32>>) -> (r: Result<
    (),
    PipeWriteError,
>)
    ensures
        r == match outcome {
            Ok(n) => if n == frame_len {
                Ok::<(), PipeWriteError>(())
            } else {
                Err::<(), PipeWriteError>(PipeWriteError::Internal(PipeFault::ShortWrite))
            },
            Err(code) => if says_closed(code) {
                Err::<(), PipeWriteError>(PipeWriteError::ProcessNotRunning)
            } else {
                Err::<(), PipeWriteError>(PipeWriteError::Internal(PipeFault::Os(code)))
            },
        },
{
    match outcome {
        Ok(n) => if n == frame_len {
            Ok(())
        } else {
            Err(PipeWriteError::Internal(PipeFault::ShortWrite))
        },
        Err(code) => if is_pipe_closed(code) {
            Err(PipeWriteError::ProcessNotRunning)
        } else {
            Err(PipeWriteError::Internal(PipeFault::Os(code)))
        },
    }
}

/// Whether an overlapped operation that was not done at once is waited for, or has failed.
pub fn operation_pending(code: Option<i32>) -> (r: bool)
    ensures
        r == (code == Some(ERROR_IO_PENDING)),
{
    match code {
        Some(code) => code == ERROR_IO_PENDING,
        None => false,
    }
}

/// What is done to open the pipe.
#[derive(Clone, Copy, Debug, PartialEq, Eq, Structural)]
pub enum OpenAction {
    /// Opens the pipe.
    Open,
    /// Waits until an instance of the pipe is free.
    Wait,
    /// Sets the open pipe to message mode, which ends the opening.
    SetMode,
    /// Reports the system's last error.
    Fail,
    /// Reports that the pipe stayed busy.
    TimedOut,
}

/// The opening of a pipe whose server may be busy.
#[derive(Clone, Copy, Debug, PartialEq, Eq, Structural)]
pub struct PipeOpening {
    pub attempts: usize,
}

impl PipeOpening {
    /// The attempts are no more than are allowed.
    pub open spec fn wf(self) -> bool {
        self.attempts <= PIPE_BUSY_RETRIES
    }

    /// Before the first attempt.
    pub fn start() -> (r: PipeOpening)
        ensures
            r.wf(),
            r.attempts == 0,
    {
        PipeOpening { attempts: 0 }
    }

    /// Opens the pipe, unless it was busy too often.
    pub fn next(&mut self) -> (r: OpenAction)
        requires
            old(self).wf(),
        ensures
            final(self).wf(),
            r == if old(self).attempts < PIPE_BUSY_RETRIES {
                OpenAction::Open
            } else {
                OpenAction::TimedOut
            },
            final(self).attempts == old(self).attempts + if r == OpenAction::Open {
                1int
            } else {
                0int
            },
    {
        if self.attempts < PIPE_BUSY_RETRIES {
            self.attempts = self.attempts + 1;
            OpenAction::Open
        } else {
            OpenAction::TimedOut
        }
    }

    /// The pipe was opened, or not with this error.
    pub fn opened(outcome: Result<(), Option<i32>>) -> (r: OpenAction)
        ensures
            r == match outcome {
                Ok(()) => OpenAction::SetMode,
                Err(code) => if code == Some(ERROR_PIPE_BUSY) {
                    OpenAction::Wait
                } else {
                    OpenAction::Fail
                },
            },
    {
        match outcome {
            Ok(()) => OpenAction::SetMode,
            Err(Some(code)) => if code == ERROR_PIPE_BUSY {
                OpenAction::Wait
            } else {
                OpenAction::Fail
            },
            Err(None) => OpenAction::Fail,
        }
    }

    /// The wait for a free instance has ended.
    pub fn waited(&mut self, free: bool) -> (r: OpenAction)
        requires
            old(self).wf(),
        ensures
            final(self).wf(),
            !free ==> r == OpenAction::Fail && *final(self) == *old(self),
            free && old(self).attempts < PIPE_BUSY_RETRIES ==> r == OpenAction::Open
                && final(self).attempts == old(self).attempts + 1,
            free && old(self).attempts == PIPE_BUSY_RETRIES ==> r == OpenAction::TimedOut
                && *final(self) == *old(self),
    {
        if free {
            self.next()
        } else {
            OpenAction::Fail
        }
    }
}

/// The longest frame and its header fill the device's buffer.
pub proof fn longest_frame_fills_the_buffer()
    ensures
        VNET_HDR_LEN + MAX_FRAME_LEN == MAX_BUFFER_SIZE,
{
}

/// A message that was read becomes the last frame, byte for byte. An empty one becomes none.
pub proof fn messages_become_frames_in_order(
    pipe: &mut NamedPipe,
    buffer: Vec<u8>,
    n: usize,
    r: ReaderStep,
    i: int,
    k: int,
)
    requires
        n <= buffer@.len(),
        call_ensures(NamedPipe::message_read, (pipe, buffer, Ok::<usize, Option<i32>>(n)), r),
    ensures
        n == 0 ==> final(pipe).frames() == old(pipe).frames() && r == (ReaderStep::Read {
            wake: false,
        }),
        n > 0 ==> r == (ReaderStep::Read { wake: true })
            && final(pipe).frames().len() == old(pipe).frames().len() + 1
            && final(pipe).frames().last().len() == n,
        n > 0 && 0 <= k < n ==> final(pipe).frames().last()[k] == buffer@[k],
        0 <= i < old(pipe).frames().len() ==> final(pipe).frames()[i] == old(pipe).frames()[i],
        final(pipe).fault() == old(pipe).fault(),
{
}

/// A failed read ends the reader. The peer's closing of the pipe is no fault; a message longer than
/// the buffer and any other error are kept to be reported.
pub proof fn failed_reads_are_kept(
    pipe: &mut NamedPipe,
    buffer: Vec<u8>,
    code: Option<i32>,
    r: ReaderStep,
    closed: bool,
)
    requires
        call_ensures(NamedPipe::message_read, (pipe, buffer, Err::<usize, Option<i32>>(code)), r),
        call_ensures(is_pipe_closed, (code,), closed),
    ensures
        r is Stop,
        final(pipe).frames() == old(pipe).frames(),
        closed <==> code == Some(109i32) || code == Some(232i32) || code == Some(233i32),
        closed ==> final(pipe).fault() == old(pipe).fault(),
        code == Some(234i32) ==> final(pipe).fault() == Some(PipeFault::FrameExceedsBuffer),
        !closed && code != Some(234i32) ==> final(pipe).fault() == Some(PipeFault::Os(code)),
{
}

/// A frame that is taken stands behind an empty header of twelve bytes, the first frame first.
pub proof fn taken_frame_stands_behind_its_header(
    pipe: &mut NamedPipe,
    buf: &mut [u8],
    r: (Result<usize, PipeReadError>, bool),
    k: int,
)
    requires
        12 <= buf@.len() <= usize::MAX,
        call_ensures(NamedPipe::read_frame, (pipe, buf), r),
        pipe.frames().len() > 0,
    ensures
        final(pipe).frames().len() == old(pipe).frames().len() - 1,
        0 <= k < final(pipe).frames().len()
            ==> final(pipe).frames()[k] == old(pipe).frames()[k + 1],
        r.1 <==> old(pipe).frames().len() == 1,
        r.0 is Ok <==> 12 + old(pipe).frames()[0].len() <= old(buf)@.len(),
        r.0 is Ok ==> r.0->Ok_0 == 12 + old(pipe).frames()[0].len(),
        r.0 is Err ==> r.0 == Err::<usize, PipeReadError>(
            PipeReadError::Internal(PipeFault::FrameTooLarge),
        ),
        0 <= k < 12 ==> final(buf)@[k] == 0,
        r.0 is Ok && 0 <= k < old(pipe).frames()[0].len()
            ==> final(buf)@[12 + k] == old(pipe).frames()[0][k],
{
    if r.0 is Ok && 0 <= k < old(pipe).frames()[0].len() {
        assert(final(buf)@[12 + k] == old(pipe).frames()[0][k]);
    }
}

/// Where no frame waits nothing is read, and a fault is reported once.
pub proof fn faults_are_reported_once(
    pipe: &mut NamedPipe,
    buf: &mut [u8],
    r: (Result<usize, PipeReadError>, bool),
)
    requires
        call_ensures(NamedPipe::read_frame, (pipe, buf), r),
        pipe.frames().len() == 0,
    ensures
        final(pipe).fault() is None,
        final(pipe).frames().len() == 0,
        final(buf)@ == old(buf)@,
        r.1,
        old(pipe).fault() is None
            ==> r.0 == Err::<usize, PipeReadError>(PipeReadError::NothingRead),
        old(pipe).fault() is Some ==> r.0 == Err::<usize, PipeReadError>(
            PipeReadError::Internal(old(pipe).fault()->Some_0),
        ),
{
}

/// What lies behind the header is written, and the write is done where all of it was taken.
pub proof fn whole_frames_are_written(
    header: usize,
    len: usize,
    frame: Result<usize, PipeWriteError>,
    outcome: Result<usize, Option<i32>>,
    r: Result<(), PipeWriteError>,
    closed: bool,
)
    requires
        call_ensures(frame_to_write, (header, len), frame),
        frame is Ok,
        call_ensures(frame_written, (frame->Ok_0, outcome), r),
        outcome is Err ==> call_ensures(is_pipe_closed, (outcome->Err_0,), closed),
    ensures
        header + frame->Ok_0 == len,
        frame->Ok_0 > 0,
        r is Ok <==> outcome is Ok && header + outcome->Ok_0 == len,
        outcome is Ok && r is Err ==> r == Err::<(), PipeWriteError>(
            PipeWriteError::Internal(PipeFault::ShortWrite),
        ),
        outcome is Err && closed ==> r == Err::<(), PipeWriteError>(
            PipeWriteError::ProcessNotRunning,
        ),
        outcome is Err && !closed ==> r == Err::<(), PipeWriteError>(
            PipeWriteError::Internal(PipeFault::Os(outcome->Err_0)),
        ),
{
}

/// A buffer with nothing behind the header is not written.
pub proof fn bare_headers_are_not_written(
    header: usize,
    len: usize,
    r: Result<usize, PipeWriteError>,
)
    requires
        call_ensures(frame_to_write, (header, len), r),
    ensures
        r is Err <==> len <= header,
        r is Err ==> r->Err_0 is NothingWritten,
{
}

/// A pipe that is busy is waited for and opened again, ten times in all; any other failure ends
/// the opening.
pub proof fn busy_pipes_are_tried_again(
    opening: &mut PipeOpening,
    free: bool,
    r: OpenAction,
    outcome: Result<(), Option<i32>>,
    after: OpenAction,
    pending: bool,
    code: Option<i32>,
)
    requires
        opening.wf(),
        call_ensures(PipeOpening::waited, (opening, free), r),
        call_ensures(PipeOpening::opened, (outcome,), after),
        call_ensures(operation_pending, (code,), pending),
    ensures
        r is Open <==> free && old(opening).attempts < 10,
        r is Fail <==> !free,
        r is Open ==> final(opening).attempts == old(opening).attempts + 1,
        !(r is Open) ==> final(opening).attempts == old(opening).attempts,
        after is SetMode <==> outcome is Ok,
        after is Wait <==> outcome == Err::<(), Option<i32>>(Some(231)),
        outcome is Err && outcome->Err_0 != Some(231i32) ==> after is Fail,
        pending <==> code == Some(997i32),
{
}

/// The first open is the first attempt of ten.
pub proof fn opening_starts_with_an_attempt(
    start: PipeOpening,
    opening: &mut PipeOpening,
    r: OpenAction,
)
    requires
        opening.wf(),
        call_ensures(PipeOpening::start, (), start),
        call_ensures(PipeOpening::next, (opening,), r),
    ensures
        start.attempts == 0,
        r is Open <==> old(opening).attempts < 10,
        r is Open ==> final(opening).attempts == old(opening).attempts + 1,
        !(r is Open) ==> r is TimedOut && final(opening).attempts == old(opening).attempts,
{
}

} // verus!

//! Waiting, up to a timeout, for a packet to arrive.
//!
//! The driver polls: it reads the clock, and while the timeout has not
//! passed it peeks at the stream. An [`ArrivalWatch`] judges each reading.
use crate::frame::{frame_available, is_frame_of, spec_frame_available};
use crate::reader::{lemma_written_frame_is_available, peek_of};
use crate::{IoErrorKind, PacketReceiveStatus};
use vstd::prelude::*;

verus! {

/// The judgement on one clock reading or one peek.
#[derive(Copy, Clone, Debug, PartialEq, Eq, Structural)]
pub enum WaitVerdict {
    /// Nothing decided yet: peek (again).
    KeepPolling,
    /// The wait is over with this status.
    Done(PacketReceiveStatus),
    /// The wait failed with this kind of error.
    Failed(IoErrorKind),
}

/// A wait for incoming data that gives up after `timeout_nanos` nanoseconds.
#[derive(Debug)]
pub struct ArrivalWatch {
    timeout_nanos: u128,
}

impl View for ArrivalWatch {
    type V = int;

    /// The timeout, in nanoseconds.
    closed spec fn view(&self) -> int {
        self.timeout_nanos as int
    }
}

/// The verdict on a clock reading showing `elapsed` nanoseconds of a wait
/// with the given timeout: time is up only once `elapsed` exceeds it.
pub open spec fn spec_on_clock(timeout: int, elapsed: int) -> WaitVerdict {
    if elapsed > timeout {
        WaitVerdict::Done(PacketReceiveStatus::TimedOut)
    } else {
        WaitVerdict::KeepPolling
    }
}

/// The verdict on a peek: bytes showing a frame ready to read (see
/// [`spec_frame_available`]) mean a packet arrived; fewer bytes, or a peek
/// that would block, mean keep polling; any other failure ends the wait.
pub open spec fn spec_on_peek(outcome: Result<Vec<u8>, IoErrorKind>) -> WaitVerdict {
    match outcome {
        Ok(bytes) => if spec_frame_available(bytes@) {
            WaitVerdict::Done(PacketReceiveStatus::Received)
        } else {
            WaitVerdict::KeepPolling
        },
        Err(kind) => if kind == IoErrorKind::WouldBlock {
            WaitVerdict::KeepPolling
        } else {
            WaitVerdict::Failed(kind)
        },
    }
}

impl ArrivalWatch {
    /// A watch that gives up after `timeout_nanos` nanoseconds.
    pub fn new(timeout_nanos: u128) -> (watch: Self)
        ensures
            watch@ == timeout_nanos,
    {
        ArrivalWatch { timeout_nanos }
    }

    /// Judges a clock reading of `elapsed_nanos` since the wait began.
    pub fn on_clock(&self, elapsed_nanos: u128) -> (verdict: WaitVerdict)
        ensures
            verdict == spec_on_clock(self@, elapsed_nanos as int),
    {
        if elapsed_nanos > self.timeout_nanos {
            WaitVerdict::Done(PacketReceiveStatus::TimedOut)
        } else {
            WaitVerdict::KeepPolling
        }
    }

    /// Judges the outcome of a peek at the stream: the bytes it saw, or the
    /// kind of error it failed with.
    pub fn on_peek(&self, outcome: Result<Vec<u8>, IoErrorKind>) -> (verdict: WaitVerdict)
        ensures
            verdict == spec_on_peek(outcome),
    {
        match outcome {
            Ok(bytes) => if frame_available(bytes.as_slice()) {
                WaitVerdict::Done(PacketReceiveStatus::Received)
            } else {
                WaitVerdict::KeepPolling
            },
            Err(kind) => if kind == IoErrorKind::WouldBlock {
                WaitVerdict::KeepPolling
            } else {
                WaitVerdict::Failed(kind)
            },
        }
    }
}

/// A wait never times out early: while the elapsed time is at most the
/// timeout, a clock reading never ends it; and a wait reports a packet
/// exactly when a peek shows a frame ready to read.
pub proof fn lemma_wait_verdicts(timeout: int, elapsed: int, outcome: Result<Vec<u8>, IoErrorKind>)
    ensures
        elapsed <= timeout ==> spec_on_clock(timeout, elapsed) == WaitVerdict::KeepPolling,
        spec_on_clock(timeout, elapsed) == WaitVerdict::Done(PacketReceiveStatus::TimedOut)
            <==> elapsed > timeout,
        spec_on_peek(outcome) == WaitVerdict::Done(PacketReceiveStatus::Received)
            <==> (outcome is Ok && spec_frame_available(outcome->Ok_0@)),
{
}

/// A clock reading never reports a packet or a failure: it either lets the
/// wait go on or ends it with `TimedOut`. A peek never ends the wait with
/// `TimedOut`: time running out is only ever judged from the clock.
pub proof fn lemma_timeout_only_from_clock(
    timeout: int,
    elapsed: int,
    outcome: Result<Vec<u8>, IoErrorKind>,
)
    ensures
        spec_on_clock(timeout, elapsed) == WaitVerdict::KeepPolling
            || spec_on_clock(timeout, elapsed) == WaitVerdict::Done(PacketReceiveStatus::TimedOut),
        spec_on_peek(outcome) != WaitVerdict::Done(PacketReceiveStatus::TimedOut),
{
}

/// A peek whose bytes do not yet show a frame ready to read (a partial
/// header, or a header whose payload has not started arriving) never ends
/// the wait: it keeps polling, whatever the bytes are.
pub proof fn lemma_partial_frame_keeps_waiting(bytes: Vec<u8>)
    requires
        !spec_frame_available(bytes@),
    ensures
        spec_on_peek(Ok(bytes)) == WaitVerdict::KeepPolling,
{
}

/// A failed peek keeps the wait polling only when it would block; a failure
/// of every other kind ends the wait with that very kind.
pub proof fn lemma_failed_peek_ends_wait(kind: IoErrorKind)
    ensures
        kind == IoErrorKind::WouldBlock ==> spec_on_peek(Err(kind)) == WaitVerdict::KeepPolling,
        kind != IoErrorKind::WouldBlock ==> spec_on_peek(Err(kind)) == WaitVerdict::Failed(kind),
        spec_on_peek(Err(kind)) == WaitVerdict::KeepPolling <==> kind == IoErrorKind::WouldBlock,
{
}

/// A wait on a stream where a written frame is waiting reports the packet,
/// whatever the length of its payload (up to `u32::MAX` bytes).
pub proof fn lemma_waiting_frame_is_noticed(frame: Seq<u8>, payload: Seq<u8>, peeked: Vec<u8>)
    requires
        is_frame_of(frame, payload),
        payload.len() <= u32::MAX,
        peeked@ == peek_of(frame),
    ensures
        spec_on_peek(Ok(peeked)) == WaitVerdict::Done(PacketReceiveStatus::Received),
{
    lemma_written_frame_is_available(frame, payload);
}

} // verus!

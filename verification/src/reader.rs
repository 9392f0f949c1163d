//! Reading one frame off a stream, as a state machine.
//!
//! The driver peeks at the stream, then (when a frame is there) reads the
//! four header bytes, then the payload, reporting each outcome to a
//! [`FrameReader`]. The reader answers with the next thing to do.
use crate::frame::{
    announced_len, frame_available, frame_length, is_frame_of, le_u32_value, spec_frame_available,
    HEADER_LEN, PEEK_LEN,
};
use crate::IoErrorKind;
use vstd::prelude::*;

verus! {

/// Where a frame reader stands.
#[derive(Copy, Clone, Debug, PartialEq, Eq, Structural)]
pub enum ReadPhase {
    /// Waiting for the result of peeking at the stream.
    AwaitingPeek,
    /// Waiting for the four header bytes.
    AwaitingHeader,
    /// Waiting for the `len` payload bytes.
    AwaitingBody { len: u32 },
    /// The read has ended.
    Finished,
}

/// What the driver reports back to the reader.
#[derive(Debug)]
pub enum ReadEvent {
    /// A peek saw these bytes.
    Peeked(Vec<u8>),
    /// The header bytes were read.
    Header(Vec<u8>),
    /// The payload bytes were read.
    Body(Vec<u8>),
    /// The pending operation failed.
    Failed(IoErrorKind),
}

/// What the reader asks the driver to do next.
#[derive(Debug, PartialEq, Eq)]
pub enum ReadAction {
    /// Switch the stream to blocking mode and read the four header bytes.
    ReadHeader,
    /// Read exactly this many payload bytes.
    ReadBody(u32),
    /// A whole packet arrived: these are its payload bytes.
    Deliver(Vec<u8>),
    /// There is no packet to read now.
    NoPacket,
    /// The read failed with this kind of error.
    Fail(IoErrorKind),
}

/// Whether a reader in `phase` can take `event`.
pub open spec fn accepts(phase: ReadPhase, event: ReadEvent) -> bool {
    match phase {
        ReadPhase::AwaitingPeek => event is Peeked || event is Failed,
        ReadPhase::AwaitingHeader => match event {
            ReadEvent::Header(h) => h@.len() == HEADER_LEN,
            ReadEvent::Failed(_) => true,
            _ => false,
        },
        ReadPhase::AwaitingBody { len } => match event {
            ReadEvent::Body(b) => b@.len() == len,
            ReadEvent::Failed(_) => true,
            _ => false,
        },
        ReadPhase::Finished => false,
    }
}

/// The transition table of a frame reader.
///
/// - A peek that shows a frame ready to read (see
///   [`spec_frame_available`]) leads to reading the header; a shorter peek,
///   or one that would block, means no packet;
///   any other peek failure ends the read with that failure.
/// - A header gives the payload length to read; a failed header read fails.
/// - A payload is delivered; a payload read that would block means no
///   packet; any other failure fails.
pub open spec fn spec_step(phase: ReadPhase, event: ReadEvent) -> (ReadPhase, ReadAction) {
    match (phase, event) {
        (ReadPhase::AwaitingPeek, ReadEvent::Peeked(bytes)) =>
            if spec_frame_available(bytes@) {
                (ReadPhase::AwaitingHeader, ReadAction::ReadHeader)
            } else {
                (ReadPhase::Finished, ReadAction::NoPacket)
            },
        (ReadPhase::AwaitingPeek, ReadEvent::Failed(kind)) =>
            if kind == IoErrorKind::WouldBlock {
                (ReadPhase::Finished, ReadAction::NoPacket)
            } else {
                (ReadPhase::Finished, ReadAction::Fail(kind))
            },
        (ReadPhase::AwaitingHeader, ReadEvent::Header(h)) => {
            let len = le_u32_value(h@) as u32;
            (ReadPhase::AwaitingBody { len }, ReadAction::ReadBody(len))
        },
        (ReadPhase::AwaitingHeader, ReadEvent::Failed(kind)) =>
            (ReadPhase::Finished, ReadAction::Fail(kind)),
        (ReadPhase::AwaitingBody { len }, ReadEvent::Body(b)) =>
            (ReadPhase::Finished, ReadAction::Deliver(b)),
        (ReadPhase::AwaitingBody { len }, ReadEvent::Failed(kind)) =>
            if kind == IoErrorKind::WouldBlock {
                (ReadPhase::Finished, ReadAction::NoPacket)
            } else {
                (ReadPhase::Finished, ReadAction::Fail(kind))
            },
        _ => (ReadPhase::Finished, ReadAction::NoPacket),
    }
}

/// A state machine that reads a single frame.
#[derive(Debug)]
pub struct FrameReader {
    phase: ReadPhase,
}

impl View for FrameReader {
    type V = ReadPhase;

    closed spec fn view(&self) -> ReadPhase {
        self.phase
    }
}

impl FrameReader {
    /// A reader about to peek at the stream.
    pub fn new() -> (reader: Self)
        ensures
            reader@ == ReadPhase::AwaitingPeek,
    {
        FrameReader { phase: ReadPhase::AwaitingPeek }
    }

    /// The reader's current phase.
    pub fn phase(&self) -> (phase: ReadPhase)
        ensures
            phase == self@,
    {
        self.phase
    }

    /// Takes the outcome of the pending operation and says what to do next.
    pub fn step(&mut self, event: ReadEvent) -> (action: ReadAction)
        requires
            accepts(old(self)@, event),
        ensures
            (final(self)@, action) == spec_step(old(self)@, event),
    {
        match event {
            ReadEvent::Peeked(bytes) => {
                if frame_available(bytes.as_slice()) {
                    self.phase = ReadPhase::AwaitingHeader;
                    ReadAction::ReadHeader
                } else {
                    self.phase = ReadPhase::Finished;
                    ReadAction::NoPacket
                }
            },
            ReadEvent::Header(h) => {
                let len = frame_length(h.as_slice());
                self.phase = ReadPhase::AwaitingBody { len };
                ReadAction::ReadBody(len)
            },
            ReadEvent::Body(b) => {
                self.phase = ReadPhase::Finished;
                ReadAction::Deliver(b)
            },
            ReadEvent::Failed(kind) => {
                let blocked = kind == IoErrorKind::WouldBlock;
                let header_pending = self.phase == ReadPhase::AwaitingHeader;
                self.phase = ReadPhase::Finished;
                if blocked && !header_pending {
                    ReadAction::NoPacket
                } else {
                    ReadAction::Fail(kind)
                }
            },
        }
    }
}

/// How a reader that is about to peek answers: bytes showing a frame ready
/// to read lead to reading its header; bytes that do not (a partial header,
/// or a header whose payload has not started arriving) end the read with no
/// packet, so a later read picks the frame up. A failed peek means no packet
/// only when it would block; every other failure ends the read with that
/// very kind of failure.
pub proof fn lemma_peek_outcomes(bytes: Vec<u8>, kind: IoErrorKind)
    ensures
        spec_frame_available(bytes@) ==> spec_step(ReadPhase::AwaitingPeek, ReadEvent::Peeked(bytes))
            == (ReadPhase::AwaitingHeader, ReadAction::ReadHeader),
        !spec_frame_available(bytes@) ==> spec_step(ReadPhase::AwaitingPeek, ReadEvent::Peeked(bytes))
            == (ReadPhase::Finished, ReadAction::NoPacket),
        kind == IoErrorKind::WouldBlock ==> spec_step(ReadPhase::AwaitingPeek, ReadEvent::Failed(kind))
            == (ReadPhase::Finished, ReadAction::NoPacket),
        kind != IoErrorKind::WouldBlock ==> spec_step(ReadPhase::AwaitingPeek, ReadEvent::Failed(kind))
            == (ReadPhase::Finished, ReadAction::Fail(kind)),
{
}

/// What every step of a reader guarantees, whatever its phase and event:
/// - a failure is only ever reported for a failed operation, and with the
///   kind that operation failed with; a failed operation always ends the read;
/// - a failed operation is taken as "no packet" only when it would block and
///   no header read was pending; a failed header read always fails;
/// - a payload is only ever delivered right after the body was read, and it
///   is exactly the bytes read, ending the read;
/// - reading a header always asks next for exactly the payload length that
///   header announces.
pub proof fn lemma_step_guarantees(phase: ReadPhase, event: ReadEvent)
    requires
        accepts(phase, event),
    ensures
        spec_step(phase, event).1 is Fail ==> event is Failed
            && spec_step(phase, event).1 == ReadAction::Fail(event->Failed_0),
        event is Failed ==> spec_step(phase, event).0 == ReadPhase::Finished,
        event is Failed ==> (spec_step(phase, event).1 == ReadAction::NoPacket
            <==> (event->Failed_0 == IoErrorKind::WouldBlock && phase != ReadPhase::AwaitingHeader)),
        event is Failed && spec_step(phase, event).1 != ReadAction::NoPacket
            ==> spec_step(phase, event).1 == ReadAction::Fail(event->Failed_0),
        spec_step(phase, event).1 is Deliver ==> event is Body
            && spec_step(phase, event) == (ReadPhase::Finished, ReadAction::Deliver(event->Body_0)),
        event is Body ==> spec_step(phase, event).1 == ReadAction::Deliver(event->Body_0),
        event is Header ==> spec_step(phase, event) == (
            ReadPhase::AwaitingBody { len: le_u32_value(event->Header_0@) as u32 },
            ReadAction::ReadBody(le_u32_value(event->Header_0@) as u32),
        ),
{
}

/// What a peek of at most [`PEEK_LEN`] bytes sees when `frame` waits on the stream.
pub open spec fn peek_of(frame: Seq<u8>) -> Seq<u8> {
    if frame.len() < PEEK_LEN { frame } else { frame.subrange(0, PEEK_LEN as int) }
}

/// A frame that was written is read back whole: a reader that peeks at it,
/// reads its header and then its body delivers exactly the payload that was
/// framed. This holds for every payload of at most `u32::MAX` bytes, the
/// empty one included.
pub proof fn lemma_written_frame_is_read_back(
    frame: Seq<u8>,
    payload: Seq<u8>,
    peeked: Vec<u8>,
    header: Vec<u8>,
    body: Vec<u8>,
)
    requires
        is_frame_of(frame, payload),
        payload.len() <= u32::MAX,
        peeked@ == peek_of(frame),
        header@ == frame.subrange(0, HEADER_LEN as int),
        body@ == frame.subrange(HEADER_LEN as int, frame.len() as int),
    ensures
        spec_step(ReadPhase::AwaitingPeek, ReadEvent::Peeked(peeked))
            == (ReadPhase::AwaitingHeader, ReadAction::ReadHeader),
        accepts(ReadPhase::AwaitingHeader, ReadEvent::Header(header)),
        spec_step(ReadPhase::AwaitingHeader, ReadEvent::Header(header)) == (
            ReadPhase::AwaitingBody { len: payload.len() as u32 },
            ReadAction::ReadBody(payload.len() as u32),
        ),
        accepts(ReadPhase::AwaitingBody { len: payload.len() as u32 }, ReadEvent::Body(body)),
        spec_step(ReadPhase::AwaitingBody { len: payload.len() as u32 }, ReadEvent::Body(body))
            == (ReadPhase::Finished, ReadAction::Deliver(body)),
        body@ == payload,
{
    lemma_written_frame_is_available(frame, payload);
    assert(le_u32_value(header@) == le_u32_value(frame));
    assert(announced_len(payload.len() as int) == payload.len());
}

/// A peek at a written frame shows it ready to read, whatever the length of
/// its payload (up to `u32::MAX` bytes).
pub proof fn lemma_written_frame_is_available(frame: Seq<u8>, payload: Seq<u8>)
    requires
        is_frame_of(frame, payload),
        payload.len() <= u32::MAX,
    ensures
        spec_frame_available(peek_of(frame)),
{
    if payload.len() == 0 {
        assert(announced_len(0) == 0);
        assert(peek_of(frame) == frame);
    } else {
        assert(peek_of(frame).len() == PEEK_LEN);
    }
}

} // verus!

//! Packet-based TCP messaging: the verified core.
//!
//! Every packet travels as a frame: a 4-byte little-endian length followed by
//! that many payload bytes. This crate holds the parts of the protocol that
//! decide what happens: the frame codec, the state machine that reads one
//! frame off a stream, the wait-for-data poll, the client's link status and
//! the server's connection table. The socket work itself is done by the
//! program that drives these pieces.
use vstd::prelude::*;

pub mod frame;
pub mod reader;
pub mod watch;
pub mod client;
pub mod server;

verus! {

/// What a bounded wait for incoming data ended with.
#[derive(Copy, Clone, Debug, PartialEq, Eq, Structural, PartialOrd, Ord)]
pub enum PacketReceiveStatus {
    /// A whole frame is ready to be read: its header and at least one
    /// payload byte, or the header of an empty payload.
    Received,
    /// The timeout passed before any packet showed up.
    TimedOut,
}

/// The kinds of I/O failure that the protocol tells apart.
#[derive(Copy, Clone, Debug, PartialEq, Eq, Structural)]
pub enum IoErrorKind {
    /// A non-blocking operation found nothing to do yet.
    WouldBlock,
    /// The peer aborted the connection.
    ConnectionAborted,
    /// The peer closed the connection and the write had nowhere to go.
    BrokenPipe,
    /// The peer reset the connection.
    ConnectionReset,
    /// The socket is not connected.
    NotConnected,
    /// Any other failure.
    Other,
}

/// Whether a failure of this kind means the peer is gone for good.
pub open spec fn spec_means_lost(kind: IoErrorKind) -> bool {
    kind == IoErrorKind::ConnectionAborted || kind == IoErrorKind::BrokenPipe
        || kind == IoErrorKind::ConnectionReset
}

/// Whether a failure, given by the kind of I/O error behind it (`None`: not
/// an I/O error), means the peer is gone for good.
pub open spec fn spec_failure_means_lost(kind: Option<IoErrorKind>) -> bool {
    match kind {
        Some(k) => spec_means_lost(k),
        None => false,
    }
}

/// The peer counts as gone for good after exactly three kinds of I/O
/// failure: an aborted connection, a broken pipe and a reset connection.
/// Would-block, not-connected and other failures, and failures that are
/// not I/O errors, leave it counted as there.
pub proof fn lemma_lost_kinds(kind: IoErrorKind)
    ensures
        spec_failure_means_lost(Some(kind)) <==> (kind == IoErrorKind::ConnectionAborted
            || kind == IoErrorKind::BrokenPipe || kind == IoErrorKind::ConnectionReset),
        !spec_failure_means_lost(Some(IoErrorKind::WouldBlock)),
        !spec_failure_means_lost(Some(IoErrorKind::NotConnected)),
        !spec_failure_means_lost(Some(IoErrorKind::Other)),
        !spec_failure_means_lost(None),
{
}

/// Whether a failure, given by the kind of I/O error behind it (`None`: not
/// an I/O error), means the peer is gone for good: the connection was
/// aborted or reset by the peer, or the pipe to it is broken.
pub fn failure_means_lost(kind: Option<IoErrorKind>) -> (lost: bool)
    ensures
        lost == spec_failure_means_lost(kind),
{
    match kind {
        Some(IoErrorKind::ConnectionAborted) => true,
        Some(IoErrorKind::BrokenPipe) => true,
        Some(IoErrorKind::ConnectionReset) => true,
        _ => false,
    }
}

} // verus!

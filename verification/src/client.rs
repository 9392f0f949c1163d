//! The client side: its configuration and what it knows of its link.
use crate::{failure_means_lost, spec_failure_means_lost, IoErrorKind, PacketReceiveStatus};
use std::time::Duration;
use vstd::prelude::*;

verus! {

/// How a client connects.
#[derive(Debug)]
pub struct ClientConfig {
    /// How long to try connecting before giving up; `None` waits as long as
    /// the operating system does.
    pub connect_timeout: Option<Duration>,
    /// The TCP keep-alive interval; `None` leaves keep-alive off.
    pub keep_alive_timeout: Option<Duration>,
}

impl Default for ClientConfig {
    /// No connect timeout and no keep-alive.
    fn default() -> (config: Self)
        ensures
            config.connect_timeout is None,
            config.keep_alive_timeout is None,
    {
        ClientConfig { connect_timeout: None, keep_alive_timeout: None }
    }
}

/// Whether a client still counts its connection as up.
///
/// A client starts connected and counts itself disconnected once a send
/// fails because the peer is gone (see [`crate::failure_means_lost`]); nothing
/// connects it again.
#[derive(Debug)]
pub struct LinkStatus {
    is_connected: bool,
}

impl View for LinkStatus {
    type V = bool;

    closed spec fn view(&self) -> bool {
        self.is_connected
    }
}

/// The link status after a send failed; `kind` is the kind of I/O error
/// behind the failure, or `None` when the failure was not an I/O error.
pub open spec fn spec_after_send_failure(connected: bool, kind: Option<IoErrorKind>) -> bool {
    connected && !spec_failure_means_lost(kind)
}

impl LinkStatus {
    /// The status of a freshly connected client.
    pub fn connected() -> (status: Self)
        ensures
            status@,
    {
        LinkStatus { is_connected: true }
    }

    /// Whether the client counts its connection as up.
    pub fn is_connected(&self) -> (up: bool)
        ensures
            up == self@,
    {
        self.is_connected
    }

    /// Takes note of a failed send.
    pub fn record_send_failure(&mut self, kind: Option<IoErrorKind>)
        ensures
            final(self)@ == spec_after_send_failure(old(self)@, kind),
    {
        if failure_means_lost(kind) {
            self.is_connected = false;
        }
    }
}

/// After a bounded wait, whether to go on and read the packet: only when
/// one was seen arriving.
pub fn read_after_wait(status: PacketReceiveStatus) -> (read: bool)
    ensures
        read == (status == PacketReceiveStatus::Received),
{
    status != PacketReceiveStatus::TimedOut
}

/// A failed send leaves the client disconnected when the server is gone (the
/// connection was aborted or reset, or the pipe broke), and leaves its
/// status as it was after any other failure.
pub proof fn lemma_send_failure_outcomes(connected: bool, kind: Option<IoErrorKind>)
    ensures
        kind == Some(IoErrorKind::ConnectionAborted) ==> !spec_after_send_failure(connected, kind),
        kind == Some(IoErrorKind::BrokenPipe) ==> !spec_after_send_failure(connected, kind),
        kind == Some(IoErrorKind::ConnectionReset) ==> !spec_after_send_failure(connected, kind),
        !(kind == Some(IoErrorKind::ConnectionAborted) || kind == Some(IoErrorKind::BrokenPipe)
            || kind == Some(IoErrorKind::ConnectionReset)) ==> spec_after_send_failure(connected, kind)
            == connected,
{
}

/// Once a client counts itself disconnected, no failure brings it back.
pub proof fn lemma_disconnect_is_final(kinds: Seq<Option<IoErrorKind>>)
    ensures
        !kinds.fold_left(false, |up: bool, k: Option<IoErrorKind>| spec_after_send_failure(up, k)),
    decreases kinds.len(),
{
    if kinds.len() > 0 {
        lemma_disconnect_is_final(kinds.drop_last());
    }
}

} // verus!

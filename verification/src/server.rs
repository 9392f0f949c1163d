//! The server side: its configuration and its table of live connections.
use crate::{failure_means_lost, spec_failure_means_lost, IoErrorKind};
use std::time::Duration;
use vstd::prelude::*;

verus! {

/// How a server listens.
#[derive(Clone, Debug)]
pub struct ServerConfig {
    /// The TCP keep-alive interval; `None` leaves keep-alive off.
    pub keep_alive_timeout: Option<Duration>,
}

impl Default for ServerConfig {
    /// No keep-alive.
    fn default() -> (config: Self)
        ensures
            config.keep_alive_timeout is None,
    {
        ServerConfig { keep_alive_timeout: None }
    }
}

/// The address of a peer, by which the server tells its connections apart.
#[derive(Copy, Clone, Debug, PartialEq, Eq, Structural, Hash)]
pub enum PeerAddr {
    /// An IPv4 address, its four octets read big-endian, and a port.
    V4 { ip: u32, port: u16 },
    /// An IPv6 address, its sixteen octets read big-endian, a port, and the
    /// flow label and scope id that IPv6 socket addresses carry.
    V6 { ip: u128, port: u16, flowinfo: u32, scope_id: u32 },
}

/// Whether some entry of `s` is for `addr`.
pub open spec fn has_addr<C>(s: Seq<(PeerAddr, C)>, addr: PeerAddr) -> bool {
    exists|i: int| 0 <= i < s.len() && #[trigger] s[i].0 == addr
}

/// No two entries of `s` share an address.
pub open spec fn unique_addrs<C>(s: Seq<(PeerAddr, C)>) -> bool {
    forall|i: int, j: int| 0 <= i < j < s.len() ==> #[trigger] s[i].0 != #[trigger] s[j].0
}

/// The index of the entry for `addr` in `s`, when there is one.
pub open spec fn position<C>(s: Seq<(PeerAddr, C)>, addr: PeerAddr) -> int
    recommends
        has_addr(s, addr),
{
    choose|i: int| 0 <= i < s.len() && #[trigger] s[i].0 == addr
}

/// The connection that `s` holds for `addr`, if any.
pub open spec fn lookup<C>(s: Seq<(PeerAddr, C)>, addr: PeerAddr) -> Option<C> {
    if has_addr(s, addr) {
        Some(s[position(s, addr)].1)
    } else {
        None
    }
}

/// The entries after adding `conn` under `addr`: an existing entry for the
/// address gets the new connection in its place; otherwise the new entry
/// goes last.
pub open spec fn spec_insert<C>(s: Seq<(PeerAddr, C)>, addr: PeerAddr, conn: C) -> Seq<(PeerAddr, C)> {
    if has_addr(s, addr) {
        s.update(position(s, addr), (addr, conn))
    } else {
        s.push((addr, conn))
    }
}

/// The entries after dropping the one for `addr`, the others keeping their order.
pub open spec fn spec_remove<C>(s: Seq<(PeerAddr, C)>, addr: PeerAddr) -> Seq<(PeerAddr, C)> {
    if has_addr(s, addr) {
        s.remove(position(s, addr))
    } else {
        s
    }
}

/// The entries after an operation on the connection for `addr` failed with
/// an error of kind `kind` (`None`: not an I/O error): a connection whose
/// peer is gone (aborted, reset, broken pipe) is forgotten, any other
/// failure changes nothing.
pub open spec fn spec_after_failure<C>(
    s: Seq<(PeerAddr, C)>,
    addr: PeerAddr,
    kind: Option<IoErrorKind>,
) -> Seq<(PeerAddr, C)> {
    if spec_failure_means_lost(kind) {
        spec_remove(s, addr)
    } else {
        s
    }
}

/// The server's live connections, each under its peer's address, in the
/// order they were accepted.
#[derive(Debug)]
pub struct ConnectionTable<C> {
    entries: Vec<(PeerAddr, C)>,
}

impl<C> View for ConnectionTable<C> {
    type V = Seq<(PeerAddr, C)>;

    closed spec fn view(&self) -> Seq<(PeerAddr, C)> {
        self.entries@
    }
}

impl<C> ConnectionTable<C> {
    /// The table holds at most one connection per address.
    pub open spec fn wf(&self) -> bool {
        unique_addrs(self@)
    }

    /// An empty table.
    pub fn new() -> (table: Self)
        ensures
            table.wf(),
            table@ == Seq::<(PeerAddr, C)>::empty(),
    {
        ConnectionTable { entries: Vec::new() }
    }

    /// The number of connections.
    pub fn len(&self) -> (n: usize)
        ensures
            n == self@.len(),
    {
        self.entries.len()
    }

    /// Where the connection for `addr` stands in the table, if it is there.
    pub fn find(&self, addr: &PeerAddr) -> (found: Option<usize>)
        requires
            self.wf(),
        ensures
            match found {
                Some(i) => i < self@.len() && self@[i as int].0 == *addr && i == position(self@, *addr),
                None => !has_addr(self@, *addr),
            },
    {
        let mut i: usize = 0;
        while i < self.entries.len()
            invariant
                i <= self@.len(),
                self.wf(),
                forall|j: int| 0 <= j < i ==> self@[j].0 != *addr,
            decreases self@.len() - i,
        {
            if self.entries[i].0 == *addr {
                proof {
                    let p = position(self@, *addr);
                    assert(has_addr(self@, *addr)) by {
                        assert(self@[i as int].0 == *addr);
                    }
                    assert(0 <= p < self@.len() && self@[p].0 == *addr);
                    assert(p == i) by {
                        if p != i {
                            if p < i {
                                assert(self@[p].0 != *addr);
                            } else {
                                assert(self@[i as int].0 != self@[p].0);
                            }
                        }
                    }
                }
                return Some(i);
            }
            i = i + 1;
        }
        None
    }

    /// Whether there is a connection for `addr`.
    pub fn contains(&self, addr: &PeerAddr) -> (present: bool)
        requires
            self.wf(),
        ensures
            present == has_addr(self@, *addr),
    {
        self.find(addr).is_some()
    }

    /// The address of the connection at `index`.
    pub fn addr_at(&self, index: usize) -> (addr: PeerAddr)
        requires
            index < self@.len(),
        ensures
            addr == self@[index as int].0,
    {
        self.entries[index].0
    }

    /// Adds `conn` under `addr`, in place of any connection already there.
    pub fn insert(&mut self, addr: PeerAddr, conn: C)
        requires
            old(self).wf(),
        ensures
            final(self).wf(),
            final(self)@ == spec_insert(old(self)@, addr, conn),
    {
        match self.find(&addr) {
            Some(i) => {
                self.entries.set(i, (addr, conn));
            },
            None => {
                self.entries.push((addr, conn));
            },
        }
    }

    /// The connection at `index`, to work on in place.
    pub fn entry_mut(&mut self, index: usize) -> (conn: &mut C)
        requires
            index < old(self)@.len(),
        ensures
            *conn == old(self)@[index as int].1,
            old(self).wf() ==> final(self).wf(),
            final(self)@ == old(self)@.update(index as int, (old(self)@[index as int].0, *final(conn))),
    {
        &mut self.entries[index].1
    }

    /// The connections, in table order.
    pub fn connections(&self) -> (conns: Vec<&C>)
        ensures
            conns@.len() == self@.len(),
            forall|i: int| 0 <= i < self@.len() ==> *conns@[i] == self@[i].1,
    {
        let mut conns: Vec<&C> = Vec::new();
        let mut i: usize = 0;
        while i < self.entries.len()
            invariant
                i <= self@.len(),
                conns@.len() == i,
                forall|j: int| 0 <= j < i ==> *conns@[j] == self@[j].1,
            decreases self@.len() - i,
        {
            conns.push(&self.entries[i].1);
            i = i + 1;
        }
        conns
    }

    /// Where the connection for `addr` stands, or the error an operation on a
    /// missing connection fails with.
    pub fn locate(&self, addr: &PeerAddr) -> (found: Result<usize, IoErrorKind>)
        requires
            self.wf(),
        ensures
            match found {
                Ok(i) => has_addr(self@, *addr) && i == position(self@, *addr),
                Err(kind) => !has_addr(self@, *addr) && kind == IoErrorKind::NotConnected,
            },
    {
        match self.find(addr) {
            Some(i) => Ok(i),
            None => Err(IoErrorKind::NotConnected),
        }
    }

    /// Takes note that an operation on the connection for `addr` failed;
    /// `kind` is the kind of I/O error behind the failure, or `None` when it
    /// was not an I/O error. A connection whose peer is gone is dropped; any
    /// other failure leaves the table as it was. Says whether it dropped one.
    pub fn record_failure(&mut self, addr: &PeerAddr, kind: Option<IoErrorKind>) -> (dropped: bool)
        requires
            old(self).wf(),
        ensures
            final(self).wf(),
            final(self)@ == spec_after_failure(old(self)@, *addr, kind),
            dropped == (spec_failure_means_lost(kind) && has_addr(old(self)@, *addr)),
    {
        if failure_means_lost(kind) {
            self.remove(addr).is_some()
        } else {
            false
        }
    }

    /// Settles a non-blocking accept: a new connection is added under its
    /// peer's address and that address returned; an accept that would block
    /// means no one is waiting; any other failure is passed on.
    pub fn settle_accept(&mut self, accepted: Result<(PeerAddr, C), IoErrorKind>) -> (result: Result<
        Option<PeerAddr>,
        IoErrorKind,
    >)
        requires
            old(self).wf(),
        ensures
            final(self).wf(),
            match accepted {
                Ok((addr, conn)) => result == Ok::<Option<PeerAddr>, IoErrorKind>(Some(addr))
                    && final(self)@ == spec_insert(old(self)@, addr, conn),
                Err(kind) => final(self)@ == old(self)@ && result == if kind == IoErrorKind::WouldBlock {
                    Ok::<Option<PeerAddr>, IoErrorKind>(None)
                } else {
                    Err::<Option<PeerAddr>, IoErrorKind>(kind)
                },
            },
    {
        match accepted {
            Ok((addr, conn)) => {
                self.insert(addr, conn);
                Ok(Some(addr))
            },
            Err(kind) => if kind == IoErrorKind::WouldBlock {
                Ok(None)
            } else {
                Err(kind)
            },
        }
    }

    /// Drops the connection for `addr` and hands it back, if there was one.
    pub fn remove(&mut self, addr: &PeerAddr) -> (removed: Option<C>)
        requires
            old(self).wf(),
        ensures
            final(self).wf(),
            final(self)@ == spec_remove(old(self)@, *addr),
            removed == lookup(old(self)@, *addr),
    {
        match self.find(addr) {
            Some(i) => {
                let (_, conn) = self.entries.remove(i);
                Some(conn)
            },
            None => None,
        }
    }
}

/// The next move of a sweep that asks the connections, in table order, for
/// a packet and stops at the first that has one.
#[derive(Copy, Clone, Debug, PartialEq, Eq, Structural)]
pub enum SweepStep {
    /// Ask the connection at this index.
    Visit(usize),
    /// The sweep is over.
    Stop,
}

/// Where a sweep over `count` connections begins.
pub fn sweep_start(count: usize) -> (step: SweepStep)
    ensures
        step == if count > 0 { SweepStep::Visit(0) } else { SweepStep::Stop },
{
    if count > 0 {
        SweepStep::Visit(0)
    } else {
        SweepStep::Stop
    }
}

/// Where a sweep over `count` connections goes after asking the one at
/// `index`: it stops once that one had a packet, and otherwise goes on to
/// the next connection, if there is one.
pub fn sweep_next(index: usize, count: usize, got_packet: bool) -> (step: SweepStep)
    requires
        index < count,
    ensures
        step == if got_packet || index + 1 >= count {
            SweepStep::Stop
        } else {
            SweepStep::Visit((index + 1) as usize)
        },
{
    if got_packet || index + 1 >= count {
        SweepStep::Stop
    } else {
        SweepStep::Visit(index + 1)
    }
}

/// What the table gives back after a connection is added: the new
/// connection under its address, the same as before under every other
/// address, and one entry more exactly when the address was new.
pub proof fn lemma_insert_then_lookup<C>(s: Seq<(PeerAddr, C)>, addr: PeerAddr, conn: C, other: PeerAddr)
    requires
        unique_addrs(s),
        other != addr,
    ensures
        unique_addrs(spec_insert(s, addr, conn)),
        lookup(spec_insert(s, addr, conn), addr) == Some(conn),
        lookup(spec_insert(s, addr, conn), other) == lookup(s, other),
        spec_insert(s, addr, conn).len() == if has_addr(s, addr) { s.len() } else { s.len() + 1 },
{
    let t = spec_insert(s, addr, conn);
    if has_addr(s, addr) {
        let p = position(s, addr);
        assert(t[p].0 == addr);
        if has_addr(t, other) {
            let q = position(t, other);
            assert(s[q].0 == other);
        }
        if has_addr(s, other) {
            let q = position(s, other);
            assert(t[q].0 == other);
        }
    } else {
        assert(t[s.len() as int].0 == addr);
        if has_addr(t, other) {
            let q = position(t, other);
            assert(s[q].0 == other);
        }
        if has_addr(s, other) {
            let q = position(s, other);
            assert(t[q].0 == other);
        }
    }
    assert(has_addr(t, addr));
    let p = position(t, addr);
    assert(t[p].0 == addr);
}

/// What the table gives back after a connection is dropped: nothing under
/// its address, the same as before under every other address, and one
/// entry fewer exactly when the address was there.
pub proof fn lemma_remove_then_lookup<C>(s: Seq<(PeerAddr, C)>, addr: PeerAddr, other: PeerAddr)
    requires
        unique_addrs(s),
        other != addr,
    ensures
        unique_addrs(spec_remove(s, addr)),
        lookup(spec_remove(s, addr), addr) is None,
        lookup(spec_remove(s, addr), other) == lookup(s, other),
        spec_remove(s, addr).len() == if has_addr(s, addr) { s.len() - 1 } else { s.len() as int },
{
    let t = spec_remove(s, addr);
    if has_addr(s, addr) {
        let p = position(s, addr);
        assert(forall|i: int| 0 <= i < t.len() ==> #[trigger] t[i] == if i < p { s[i] } else { s[i + 1] });
        assert forall|i: int, j: int| 0 <= i < j < t.len() implies #[trigger] t[i].0 != #[trigger] t[j].0 by {
            let si = if i < p { i } else { i + 1 };
            let sj = if j < p { j } else { j + 1 };
            assert(s[si].0 != s[sj].0);
        }
        if has_addr(t, addr) {
            let q = position(t, addr);
            let sq = if q < p { q } else { q + 1 };
            assert(s[sq].0 == addr);
            assert(s[p].0 == addr);
        }
        if has_addr(t, other) {
            let q = position(t, other);
            let sq = if q < p { q } else { q + 1 };
            assert(s[sq] == t[q]);
            assert(has_addr(s, other));
        }
        if has_addr(s, other) {
            let q = position(s, other);
            assert(q != p);
            let tq = if q < p { q } else { q - 1 };
            assert(t[tq] == s[q]);
            assert(has_addr(t, other));
            let r = position(t, other);
            let sr = if r < p { r } else { r + 1 };
            assert(s[sr] == t[r]);
        }
    }
}

/// A connection whose peer is gone is forgotten, and a failure of any
/// other kind keeps every connection.
pub proof fn lemma_failure_keeps_or_forgets<C>(
    s: Seq<(PeerAddr, C)>,
    addr: PeerAddr,
    kind: Option<IoErrorKind>,
    other: PeerAddr,
)
    requires
        unique_addrs(s),
        other != addr,
    ensures
        spec_failure_means_lost(kind) ==> lookup(spec_after_failure(s, addr, kind), addr) is None,
        (kind == Some(IoErrorKind::ConnectionAborted) || kind == Some(IoErrorKind::BrokenPipe)
            || kind == Some(IoErrorKind::ConnectionReset)) ==> lookup(spec_after_failure(s, addr, kind), addr)
            is None,
        !(kind == Some(IoErrorKind::ConnectionAborted) || kind == Some(IoErrorKind::BrokenPipe)
            || kind == Some(IoErrorKind::ConnectionReset)) ==> spec_after_failure(s, addr, kind) == s,
        !spec_failure_means_lost(kind) ==> spec_after_failure(s, addr, kind) == s,
        lookup(spec_after_failure(s, addr, kind), other) == lookup(s, other),
{
    lemma_remove_then_lookup(s, addr, other);
}

} // verus!

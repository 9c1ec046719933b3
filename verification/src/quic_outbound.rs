//! The QUIC outbound transport: a pool of connection slots, each counting
//! the bidirectional streams opened on it, and the `new_stream` protocol
//! that sweeps retired slots, reuses the first slot that can still open a
//! stream, and otherwise dials a fresh connection.
//!
//! The pool is generic in the native connection value it carries; the
//! unverified shell stores the live QUIC connections in the slots,
//! performs the awaits, and hands each outcome back to these functions.

use vstd::prelude::*;

use crate::error::{quic_err, ErrorKind, HandlerError};
use crate::proxy::OutboundConnect;
use crate::session::{IpAddress, SockAddr};

verus! {

/// Hard upper bound on bidirectional streams accepted per pooled
/// connection, bounding head-of-line blocking on one connection.
pub const STREAM_CAP: usize = 128;

/// One pooled connection plus its accounting.
pub struct Slot<C> {
    /// The native connection carried by this slot.
    pub conn: C,
    /// How many bidirectional streams were opened on this connection.
    pub accepted_stream_count: usize,
    /// Once set, the slot is removed on the next sweep and never reused.
    pub retired: bool,
}

impl<C> Slot<C> {
    /// A slot always counts between one stream (it is created only when
    /// its first stream opens) and the cap.
    pub open spec fn wf(self) -> bool {
        1 <= self.accepted_stream_count <= STREAM_CAP
    }
}

/// The slots of `s` that have not been retired, in order.
pub open spec fn live_slots<C>(s: Seq<Slot<C>>) -> Seq<Slot<C>> {
    s.filter(|x: Slot<C>| !x.retired)
}

/// The first index at or after `k` whose slot is below the cap and whose
/// stream opening would succeed, or `slots.len()` when there is none.
pub open spec fn first_reusable_from<C>(slots: Seq<Slot<C>>, outcomes: Seq<bool>, k: int) -> int
    decreases slots.len() - k,
{
    if k < 0 || k >= slots.len() {
        slots.len() as int
    } else if slots[k].accepted_stream_count < STREAM_CAP && outcomes[k] {
        k
    } else {
        first_reusable_from(slots, outcomes, k + 1)
    }
}

/// Whether some live slot can serve one more stream.
pub open spec fn has_reusable<C>(slots: Seq<Slot<C>>, outcomes: Seq<bool>) -> bool {
    first_reusable_from(slots, outcomes, 0) < slots.len()
}

/// One stream was granted: exactly one slot's accepted count has
/// increased by one, or a fresh slot with count one was appended; every
/// other slot keeps its count.
pub open spec fn stream_granted<C>(before: Seq<Slot<C>>, after: Seq<Slot<C>>, i: int) -> bool {
    ||| (after.len() == before.len() && 0 <= i < before.len() && after[i].accepted_stream_count
        == before[i].accepted_stream_count + 1 && (forall|j: int|
        0 <= j < before.len() && j != i ==> (#[trigger] after[j]).accepted_stream_count == before[j].accepted_stream_count))
    ||| (after.len() == before.len() + 1 && i == before.len() && after[i].accepted_stream_count
        == 1 && (forall|j: int|
        0 <= j < before.len() ==> (#[trigger] after[j]).accepted_stream_count == before[j].accepted_stream_count))
}

proof fn lemma_filter_push<A>(s: Seq<A>, x: A, pred: spec_fn(A) -> bool)
    ensures
        s.push(x).filter(pred) == if pred(x) {
            s.filter(pred).push(x)
        } else {
            s.filter(pred)
        },
{
    reveal(Seq::filter);
    assert(s.push(x).drop_last() =~= s);
}

/// The connection pool of one QUIC outbound.
pub struct Pool<C> {
    pub slots: Vec<Slot<C>>,
}

impl<C> Pool<C> {
    /// Every slot's accounting is within bounds.
    pub open spec fn wf(self) -> bool {
        forall|i: int| 0 <= i < self.slots@.len() ==> (#[trigger] self.slots@[i]).wf()
    }

    /// An empty pool.
    pub fn new() -> (r: Pool<C>)
        ensures
            r.slots@.len() == 0,
            r.wf(),
    {
        Pool { slots: Vec::new() }
    }

    /// How many slots the pool holds.
    pub fn slot_count(&self) -> (r: usize)
        ensures
            r == self.slots@.len(),
    {
        self.slots.len()
    }

    /// The accepted stream count of one slot.
    pub fn accepted_at(&self, i: usize) -> (r: usize)
        requires
            i < self.slots@.len(),
        ensures
            r == self.slots@[i as int].accepted_stream_count,
    {
        self.slots[i].accepted_stream_count
    }

    /// Whether one slot has been retired.
    pub fn retired_at(&self, i: usize) -> (r: bool)
        requires
            i < self.slots@.len(),
        ensures
            r == self.slots@[i as int].retired,
    {
        self.slots[i].retired
    }

    /// The native connection of one slot.
    pub fn conn_at(&self, i: usize) -> (r: &C)
        requires
            i < self.slots@.len(),
        ensures
            *r == self.slots@[i as int].conn,
    {
        &self.slots[i].conn
    }

    /// Removes every retired slot, keeping the others in order.
    pub fn sweep(&mut self)
        requires
            old(self).wf(),
        ensures
            final(self).wf(),
            final(self).slots@ == live_slots(old(self).slots@),
    {
        let ghost orig = old(self).slots@;
        let ghost pred = |x: Slot<C>| !x.retired;
        let n = self.slots.len();
        let mut kept: Vec<Slot<C>> = Vec::new();
        let mut i: usize = 0;
        proof {
            reveal(Seq::filter);
            assert(orig.subrange(0, 0).filter(pred) =~= Seq::<Slot<C>>::empty());
        }
        while self.slots.len() > 0
            invariant
                n == orig.len(),
                i <= n,
                i + self.slots@.len() == n,
                self.slots@ == orig.subrange(i as int, orig.len() as int),
                kept@ == orig.subrange(0, i as int).filter(pred),
                pred == (|x: Slot<C>| !x.retired),
                forall|j: int| 0 <= j < orig.len() ==> (#[trigger] orig[j]).wf(),
                forall|j: int| 0 <= j < kept@.len() ==> (#[trigger] kept@[j]).wf(),
            decreases self.slots@.len(),
        {
            let s = self.slots.remove(0);
            proof {
                assert(s == orig[i as int]);
                assert(self.slots@ =~= orig.subrange(i as int + 1, orig.len() as int));
                lemma_filter_push(orig.subrange(0, i as int), orig[i as int], pred);
                assert(orig.subrange(0, i as int).push(orig[i as int]) =~= orig.subrange(
                    0,
                    i as int + 1,
                ));
            }
            if !s.retired {
                kept.push(s);
            }
            i += 1;
        }
        proof {
            assert(orig.subrange(0, orig.len() as int) =~= orig);
        }
        self.slots = kept;
    }

    /// Marks one slot retired; its connection and accounting stay as
    /// they are until the next sweep removes it.
    pub fn retire(&mut self, i: usize)
        requires
            old(self).wf(),
            i < old(self).slots@.len(),
        ensures
            final(self).wf(),
            final(self).slots@.len() == old(self).slots@.len(),
            final(self).slots@[i as int].conn == old(self).slots@[i as int].conn,
            final(self).slots@[i as int].accepted_stream_count == old(self).slots@[
                i as int
            ].accepted_stream_count,
            final(self).slots@[i as int].retired,
            forall|j: int|
                0 <= j < old(self).slots@.len() && j != i ==> #[trigger] final(self).slots@[j] == old(self).slots@[j],
    {
        let mut s = self.slots.remove(i);
        s.retired = true;
        self.slots.insert(i, s);
    }

    /// Records that a bidirectional stream was opened on one slot.
    pub fn record_open_success(&mut self, i: usize)
        requires
            old(self).wf(),
            i < old(self).slots@.len(),
            old(self).slots@[i as int].accepted_stream_count < STREAM_CAP,
        ensures
            final(self).wf(),
            final(self).slots@.len() == old(self).slots@.len(),
            final(self).slots@[i as int].conn == old(self).slots@[i as int].conn,
            final(self).slots@[i as int].accepted_stream_count == old(self).slots@[
                i as int
            ].accepted_stream_count + 1,
            final(self).slots@[i as int].retired == old(self).slots@[i as int].retired,
            forall|j: int|
                0 <= j < old(self).slots@.len() && j != i ==> #[trigger] final(self).slots@[j] == old(self).slots@[j],
    {
        let mut s = self.slots.remove(i);
        s.accepted_stream_count = s.accepted_stream_count + 1;
        self.slots.insert(i, s);
    }

    /// Appends a slot for a freshly dialed connection whose first stream
    /// has just been opened.
    pub fn push_fresh(&mut self, conn: C)
        requires
            old(self).wf(),
        ensures
            final(self).wf(),
            final(self).slots@.len() == old(self).slots@.len() + 1,
            final(self).slots@[old(self).slots@.len() as int].conn == conn,
            final(self).slots@[old(self).slots@.len() as int].accepted_stream_count == 1,
            !final(self).slots@[old(self).slots@.len() as int].retired,
            forall|j: int|
                0 <= j < old(self).slots@.len() ==> #[trigger] final(self).slots@[j] == old(self).slots@[j],
    {
        self.slots.push(Slot { conn, accepted_stream_count: 1, retired: false });
    }

    /// The reuse pass of the `new_stream` protocol, over a swept pool.
    ///
    /// Walks the slots in order; a saturated slot is retired, a slot
    /// whose stream opening fails (per `outcomes`) is retired, and the
    /// first slot below the cap whose opening succeeds has its count
    /// bumped and is returned.
    pub fn reuse_pass(&mut self, outcomes: &Vec<bool>) -> (r: Option<usize>)
        requires
            old(self).wf(),
            outcomes@.len() == old(self).slots@.len(),
            forall|j: int| 0 <= j < old(self).slots@.len() ==> !(#[trigger] old(self).slots@[j]).retired,
        ensures
            final(self).wf(),
            final(self).slots@.len() == old(self).slots@.len(),
            match r {
                Some(i) => {
                    &&& i as int == first_reusable_from(old(self).slots@, outcomes@, 0)
                    &&& i < old(self).slots@.len()
                    &&& final(self).slots@[i as int].conn == old(self).slots@[i as int].conn
                    &&& final(self).slots@[i as int].accepted_stream_count == old(self).slots@[
                        i as int
                    ].accepted_stream_count + 1
                    &&& !final(self).slots@[i as int].retired
                    &&& (forall|j: int|
                        0 <= j < i ==> (#[trigger] final(self).slots@[j]).retired && final(self).slots@[j].conn
                            == old(self).slots@[j].conn && final(self).slots@[j].accepted_stream_count
                            == old(self).slots@[j].accepted_stream_count)
                    &&& (forall|j: int|
                        i < j < old(self).slots@.len() ==> #[trigger] final(self).slots@[j] == old(self).slots@[j])
                },
                None => {
                    &&& first_reusable_from(old(self).slots@, outcomes@, 0) == old(self).slots@.len()
                    &&& (forall|j: int|
                        0 <= j < old(self).slots@.len() ==> (#[trigger] final(self).slots@[j]).retired
                            && final(self).slots@[j].conn == old(self).slots@[j].conn
                            && final(self).slots@[j].accepted_stream_count == old(self).slots@[j].accepted_stream_count)
                },
            },
    {
        let ghost orig = old(self).slots@;
        let n = self.slots.len();
        let mut i: usize = 0;
        while i < n
            invariant
                old(self).wf(),
                n == orig.len(),
                orig == old(self).slots@,
                outcomes@.len() == orig.len(),
                forall|j: int| 0 <= j < orig.len() ==> !(#[trigger] orig[j]).retired,
                i <= n,
                self.wf(),
                self.slots@.len() == orig.len(),
                first_reusable_from(orig, outcomes@, 0) == first_reusable_from(
                    orig,
                    outcomes@,
                    i as int,
                ),
                forall|j: int|
                    0 <= j < i ==> (#[trigger] self.slots@[j]).retired && self.slots@[j].conn
                        == orig[j].conn && self.slots@[j].accepted_stream_count == orig[j].accepted_stream_count,
                forall|j: int| i <= j < orig.len() ==> #[trigger] self.slots@[j] == orig[j],
            decreases n - i,
        {
            let can_take = self.accepted_at(i) < STREAM_CAP && outcomes[i];
            if can_take {
                self.record_open_success(i);
                proof {
                    assert(first_reusable_from(orig, outcomes@, i as int) == i as int);
                }
                return Some(i);
            } else {
                self.retire(i);
                proof {
                    assert(first_reusable_from(orig, outcomes@, i as int) == first_reusable_from(
                        orig,
                        outcomes@,
                        i as int + 1,
                    ));
                }
            }
            i += 1;
        }
        proof {
            assert(first_reusable_from(orig, outcomes@, n as int) == orig.len());
        }
        None
    }
}

/// The outcome of the dial step of `new_stream`: the QUIC handshake
/// failed, the first stream on the fresh connection failed to open, or a
/// connection was established and its first stream opened.
pub enum DialOutcome<C> {
    ConnectFailed(String),
    OpenFailed(String),
    Opened(C),
}

/// A QUIC outbound: the dial target and the connection pool, shared by
/// all concurrent stream requests.
pub struct Manager<C> {
    pub address: String,
    pub port: u16,
    pub server_name: Option<String>,
    pub pool: Pool<C>,
}

impl<C> Manager<C> {
    /// A manager for the given remote endpoint, with an empty pool.
    pub fn new(address: String, port: u16, server_name: Option<String>) -> (r: Manager<C>)
        ensures
            r.address == address,
            r.port == port,
            r.server_name == server_name,
            r.pool.slots@.len() == 0,
            r.pool.wf(),
    {
        Manager { address, port, server_name, pool: Pool::new() }
    }

    /// Picks the address to dial from a DNS result: the first resolved
    /// address paired with the configured port, or `InvalidInput` when
    /// resolution produced no addresses.
    pub fn connect_addr(&self, ips: &Vec<IpAddress>) -> (r: Result<SockAddr, HandlerError>)
        ensures
            ips@.len() == 0 ==> (r matches Err(e) && e.kind == ErrorKind::InvalidInput
                && e.message@ == "could not resolve to any address"@),
            ips@.len() > 0 ==> r == Ok::<SockAddr, HandlerError>(
                SockAddr { ip: ips@[0], port: self.port },
            ),
    {
        if ips.len() == 0 {
            Err(
                HandlerError::new(
                    ErrorKind::InvalidInput,
                    "could not resolve to any address".to_owned(),
                ),
            )
        } else {
            Ok(SockAddr { ip: ips[0], port: self.port })
        }
    }

    /// The name used as SNI for the handshake: the configured server
    /// name when present, the dial address otherwise.
    pub fn sni(&self) -> (r: &String)
        ensures
            match self.server_name {
                Some(n) => r@ == n@,
                None => r@ == self.address@,
            },
    {
        match &self.server_name {
            Some(n) => n,
            None => &self.address,
        }
    }

    /// The whole `new_stream` protocol over the decisions it makes:
    /// sweep retired slots, reuse the first live slot that can open a
    /// stream, and otherwise dial — resolve the address, connect, open
    /// the first stream and append a fresh slot.
    ///
    /// `outcomes[j]` says whether opening a stream on the j-th live slot
    /// would succeed; `lookup` is the DNS result for the target address;
    /// `dial` is the outcome of the handshake and first stream opening.
    /// Returns the index of the slot that granted the stream.
    pub fn new_stream_with(
        &mut self,
        outcomes: &Vec<bool>,
        lookup: Result<Vec<IpAddress>, String>,
        dial: DialOutcome<C>,
    ) -> (r: Result<usize, HandlerError>)
        requires
            old(self).pool.wf(),
            outcomes@.len() == live_slots(old(self).pool.slots@).len(),
        ensures
            final(self).pool.wf(),
            final(self).address == old(self).address,
            final(self).port == old(self).port,
            final(self).server_name == old(self).server_name,
            (r matches Ok(i) ==> stream_granted(
                live_slots(old(self).pool.slots@),
                final(self).pool.slots@,
                i as int,
            )),
            r is Ok <==> (has_reusable(live_slots(old(self).pool.slots@), outcomes@) || (
            lookup matches Ok(ips) && ips@.len() > 0 && dial is Opened)),
            ({
                let live = live_slots(old(self).pool.slots@);
                let after = final(self).pool.slots@;
                &&& (has_reusable(live, outcomes@) ==> {
                    let i = first_reusable_from(live, outcomes@, 0);
                    &&& r == Ok::<usize, HandlerError>(i as usize)
                    &&& after.len() == live.len()
                    &&& after[i].conn == live[i].conn
                    &&& after[i].accepted_stream_count == live[i].accepted_stream_count + 1
                    &&& !after[i].retired
                    &&& (forall|j: int| 0 <= j < i ==> (#[trigger] after[j]).retired)
                    &&& (forall|j: int| i < j < live.len() ==> #[trigger] after[j] == live[j])
                })
                &&& (!has_reusable(live, outcomes@) ==> {
                    &&& (forall|j: int|
                        0 <= j < live.len() ==> (#[trigger] after[j]).retired && after[j].conn
                            == live[j].conn && after[j].accepted_stream_count == live[j].accepted_stream_count)
                    &&& match lookup {
                        Err(m) => after.len() == live.len() && (r matches Err(e) && e.kind
                            == ErrorKind::Other && e.message@ == m@),
                        Ok(ips) => if ips@.len() == 0 {
                            after.len() == live.len() && (r matches Err(e) && e.kind
                                == ErrorKind::InvalidInput && e.message@
                                == "could not resolve to any address"@)
                        } else {
                            match dial {
                                DialOutcome::ConnectFailed(m) => after.len() == live.len() && (
                                r matches Err(e) && e.kind == ErrorKind::Other && e.message@
                                    == m@),
                                DialOutcome::OpenFailed(m) => after.len() == live.len() && (
                                r matches Err(e) && e.kind == ErrorKind::Other && e.message@
                                    == m@),
                                DialOutcome::Opened(c) => after.len() == live.len() + 1 && (
                                r matches Ok(i) && i as int == live.len() && after[
                                    live.len() as int
                                ].conn == c && after[live.len() as int].accepted_stream_count == 1
                                    && !after[live.len() as int].retired),
                            }
                        },
                    }
                })
            }),
    {
        self.pool.sweep();
        let reuse = self.pool.reuse_pass(outcomes);
        match reuse {
            Some(i) => Ok(i),
            None => {
                match lookup {
                    Err(m) => Err(quic_err(m)),
                    Ok(ips) => {
                        if ips.len() == 0 {
                            Err(
                                HandlerError::new(
                                    ErrorKind::InvalidInput,
                                    "could not resolve to any address".to_owned(),
                                ),
                            )
                        } else {
                            match dial {
                                DialOutcome::ConnectFailed(m) => Err(quic_err(m)),
                                DialOutcome::OpenFailed(m) => Err(quic_err(m)),
                                DialOutcome::Opened(c) => {
                                    let idx = self.pool.slot_count();
                                    self.pool.push_fresh(c);
                                    Ok(idx)
                                },
                            }
                        }
                    },
                }
            },
        }
    }
}

impl<C> Handler<C> {
    /// Obtains one bidirectional stream for a flow, per the `new_stream`
    /// protocol of the manager it owns.
    pub fn new_stream_with(
        &mut self,
        outcomes: &Vec<bool>,
        lookup: Result<Vec<IpAddress>, String>,
        dial: DialOutcome<C>,
    ) -> (r: Result<usize, HandlerError>)
        requires
            old(self).manager.pool.wf(),
            outcomes@.len() == live_slots(old(self).manager.pool.slots@).len(),
        ensures
            final(self).manager.pool.wf(),
            (r matches Ok(i) ==> stream_granted(
                live_slots(old(self).manager.pool.slots@),
                final(self).manager.pool.slots@,
                i as int,
            )),
            r is Ok <==> (has_reusable(live_slots(old(self).manager.pool.slots@), outcomes@) || (
            lookup matches Ok(ips) && ips@.len() > 0 && dial is Opened)),
    {
        self.manager.new_stream_with(outcomes, lookup, dial)
    }
}

/// Law: in every well-formed pool state, every slot's accepted stream
/// count is at most the cap.
pub proof fn lemma_pool_cap<C>(p: Pool<C>, i: int)
    requires
        p.wf(),
        0 <= i < p.slots@.len(),
    ensures
        p.slots@[i].accepted_stream_count <= STREAM_CAP,
{
}

/// The QUIC outbound handler: it owns the pool manager and dials by
/// itself, so it asks the framework for no pre-dialed stream.
pub struct Handler<C> {
    pub manager: Manager<C>,
}

impl<C> Handler<C> {
    /// A handler for the given remote endpoint.
    pub fn new(address: String, port: u16, server_name: Option<String>) -> (r: Handler<C>)
        ensures
            r.manager.address == address,
            r.manager.port == port,
            r.manager.server_name == server_name,
            r.manager.pool.slots@.len() == 0,
            r.manager.pool.wf(),
    {
        Handler { manager: Manager::new(address, port, server_name) }
    }

    /// The handler dials by itself.
    pub fn connect_addr(&self) -> (r: Option<OutboundConnect>)
        ensures
            r == Some(OutboundConnect::NoConnect),
    {
        Some(OutboundConnect::NoConnect)
    }
}

} // verus!

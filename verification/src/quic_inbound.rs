//! The QUIC inbound accept pipeline.
//!
//! The inbound side returns a producer of per-stream sessions, driven by
//! polling.  Each poll accepts newly arrived connection attempts, advances
//! every pending handshake, and takes the first bidirectional stream any
//! live connection offers, yielding a session carrying the connection's
//! remote address and the stream's numeric identity.  The producer is
//! exhausted only when the underlying queue has closed and no pending
//! handshake or live connection remains.
//!
//! The machine works on plain connection identities and addresses; the
//! unverified shell keeps the native QUIC values keyed by those
//! identities, performs the polls, and hands the outcomes back in.

use vstd::prelude::*;

use crate::error::HandlerError;
use crate::session::{IpAddress, Session, SockAddr, SocksAddr};

verus! {

/// A live connection as the accept machine sees it: its identity and
/// the peer's address.
#[derive(Clone, Copy, Debug, PartialEq, Eq, Structural)]
pub struct ConnMeta {
    pub id: u64,
    pub remote: SockAddr,
}

/// One poll of the underlying incoming queue.
pub enum InnerPoll {
    /// A new connection attempt arrived, with its identity.
    New(u64),
    /// The queue has closed; nothing more will arrive.
    Closed,
    /// Nothing ready.
    Pending,
}

/// One poll of a pending handshake.
pub enum HandshakePoll {
    /// The handshake completed; the connection is live.
    Done(ConnMeta),
    /// The handshake failed; the attempt is dropped.
    Failed,
    /// Still pending.
    Pending,
}

/// One poll of a live connection's bidirectional stream queue.
pub enum StreamPoll {
    /// A stream arrived, with its numeric identity.
    Stream(u64),
    /// Polling the stream queue failed; the connection is retired.
    Failed,
    /// The stream queue is exhausted; the connection is retired.
    Exhausted,
    /// Nothing ready.
    Pending,
}

/// What one poll of the producer yields.
pub enum PollOutcome {
    /// A per-stream session.
    Item(Session),
    /// The producer is exhausted.
    Finished,
    /// Nothing ready yet.
    Pending,
}

/// The connection identities whose handshakes are still pending, in
/// order.
pub open spec fn pending_connectings(ids: Seq<u64>, hs: Seq<HandshakePoll>) -> Seq<u64>
    decreases ids.len(),
{
    if ids.len() == 0 || hs.len() == 0 {
        Seq::empty()
    } else {
        pending_connectings(ids.drop_last(), hs.drop_last()) + (match hs.last() {
            HandshakePoll::Pending => seq![ids.last()],
            _ => Seq::empty(),
        })
    }
}

/// The connections whose handshakes completed in this poll, in order.
pub open spec fn completed_conns(hs: Seq<HandshakePoll>) -> Seq<ConnMeta>
    decreases hs.len(),
{
    if hs.len() == 0 {
        Seq::empty()
    } else {
        completed_conns(hs.drop_last()) + (match hs.last() {
            HandshakePoll::Done(m) => seq![m],
            _ => Seq::empty(),
        })
    }
}

/// The first index whose connection offers a stream, or `ss.len()` when
/// none does.
pub open spec fn first_stream_index(ss: Seq<StreamPoll>, k: int) -> int
    decreases ss.len() - k,
{
    if k < 0 || k >= ss.len() {
        ss.len() as int
    } else if ss[k] is Stream {
        k
    } else {
        first_stream_index(ss, k + 1)
    }
}

/// The connections among the first `k` that stay after the stream pass:
/// those still pending; a failed or exhausted queue retires its
/// connection.
pub open spec fn kept_prefix(cs: Seq<ConnMeta>, ss: Seq<StreamPoll>, k: int) -> Seq<ConnMeta>
    decreases k,
{
    if k <= 0 {
        Seq::empty()
    } else {
        kept_prefix(cs, ss, k - 1) + (if ss[k - 1] is Pending {
            seq![cs[k - 1]]
        } else {
            Seq::empty()
        })
    }
}

/// The inbound accept machine: handshake-pending attempts, live
/// connections, and whether the underlying queue has closed.
pub struct Incoming {
    pub connectings: Vec<u64>,
    pub conns: Vec<ConnMeta>,
    pub incoming_closed: bool,
}

/// The connection attempts under consideration after the accept step:
/// the pending ones plus the arrival of this poll, if any.
pub open spec fn attempts_after(before: Seq<u64>, inner: InnerPoll) -> Seq<u64> {
    match inner {
        InnerPoll::New(id) => before.push(id),
        _ => before,
    }
}

proof fn lemma_pending_push(ids: Seq<u64>, hs: Seq<HandshakePoll>, id: u64, h: HandshakePoll)
    requires
        ids.len() == hs.len(),
    ensures
        pending_connectings(ids.push(id), hs.push(h)) == pending_connectings(ids, hs) + (
        match h {
            HandshakePoll::Pending => seq![id],
            _ => Seq::<u64>::empty(),
        }),
{
    assert(ids.push(id).drop_last() =~= ids);
    assert(hs.push(h).drop_last() =~= hs);
}

proof fn lemma_fsi_bounds(ss: Seq<StreamPoll>, k: int)
    requires
        0 <= k <= ss.len(),
    ensures
        k <= first_stream_index(ss, k) <= ss.len(),
    decreases ss.len() - k,
{
    if k < ss.len() && !(ss[k] is Stream) {
        lemma_fsi_bounds(ss, k + 1);
    }
}

proof fn lemma_completed_push(hs: Seq<HandshakePoll>, h: HandshakePoll)
    ensures
        completed_conns(hs.push(h)) == completed_conns(hs) + (match h {
            HandshakePoll::Done(m) => seq![m],
            _ => Seq::<ConnMeta>::empty(),
        }),
{
    assert(hs.push(h).drop_last() =~= hs);
}

impl Incoming {
    /// A fresh producer: no pending handshake, no live connection, queue
    /// open.
    pub fn new() -> (r: Incoming)
        ensures
            r.connectings@.len() == 0,
            r.conns@.len() == 0,
            !r.incoming_closed,
    {
        Incoming { connectings: Vec::new(), conns: Vec::new(), incoming_closed: false }
    }

    /// One poll of the producer.
    ///
    /// `inner` is what the underlying incoming queue offered;
    /// `handshakes[k]` is what polling the k-th attempt (arrival of this
    /// poll included) returned; `streams[j]` is what polling the j-th
    /// live connection's stream queue (handshakes completed in this poll
    /// included) would return — the walk stops at the first stream
    /// found, and later entries are not consulted.
    pub fn poll_next(
        &mut self,
        inner: InnerPoll,
        handshakes: &Vec<HandshakePoll>,
        streams: &Vec<StreamPoll>,
    ) -> (r: PollOutcome)
        requires
            old(self).incoming_closed ==> inner is Pending,
            handshakes@.len() == attempts_after(old(self).connectings@, inner).len(),
            streams@.len() == old(self).conns@.len() + completed_conns(handshakes@).len(),
        ensures
            final(self).incoming_closed == (old(self).incoming_closed || inner is Closed),
            final(self).connectings@ == pending_connectings(
                attempts_after(old(self).connectings@, inner),
                handshakes@,
            ),
            ({
                let cs = old(self).conns@ + completed_conns(handshakes@);
                let i = first_stream_index(streams@, 0);
                &&& final(self).conns@ == kept_prefix(cs, streams@, i) + cs.subrange(
                    i,
                    cs.len() as int,
                )
                &&& (i < streams@.len() ==> (streams@[i] matches StreamPoll::Stream(sid)
                    && r matches PollOutcome::Item(sess) && sess.source == cs[i].remote
                    && sess.stream_id == Some(sid) && sess.destination == SocksAddr::Ip(
                    SockAddr { ip: IpAddress::V4(0, 0, 0, 0), port: 0 },
                )))
                &&& (i >= streams@.len() ==> !(r is Item))
            }),
            // The producer is exhausted exactly when no stream was
            // yielded, the underlying queue has closed, and no pending
            // handshake or live connection remains.
            r is Finished <==> (first_stream_index(streams@, 0) >= streams@.len() && final(self).incoming_closed && final(self).connectings@.len() == 0 && final(self).conns@.len() == 0),
    {
        let ghost before = self.connectings@;
        // Accept newly arrived connection attempts, or note the close.
        match inner {
            InnerPoll::New(id) => {
                self.connectings.push(id);
            },
            InnerPoll::Closed => {
                self.incoming_closed = true;
            },
            InnerPoll::Pending => {},
        }
        let ghost attempts = attempts_after(before, inner);
        assert(self.connectings@ == attempts);

        // Advance every pending handshake: completed successes become
        // live connections, failures are dropped, the rest stay.
        let n = self.connectings.len();
        let mut still: Vec<u64> = Vec::new();
        let mut k: usize = 0;
        proof {
            assert(attempts.subrange(0, 0) =~= Seq::<u64>::empty());
            assert(handshakes@.subrange(0, 0) =~= Seq::<HandshakePoll>::empty());
        }
        while k < n
            invariant
                n == attempts.len(),
                n == handshakes@.len(),
                k <= n,
                self.connectings@ == attempts,
                still@ == pending_connectings(
                    attempts.subrange(0, k as int),
                    handshakes@.subrange(0, k as int),
                ),
            decreases n - k,
        {
            match handshakes[k] {
                HandshakePoll::Pending => {
                    still.push(self.connectings[k]);
                },
                _ => {},
            }
            proof {
                lemma_pending_push(
                    attempts.subrange(0, k as int),
                    handshakes@.subrange(0, k as int),
                    attempts[k as int],
                    handshakes@[k as int],
                );
                assert(attempts.subrange(0, k as int).push(attempts[k as int]) =~= attempts.subrange(
                    0,
                    k as int + 1,
                ));
                assert(handshakes@.subrange(0, k as int).push(handshakes@[k as int])
                    =~= handshakes@.subrange(0, k as int + 1));
            }
            k += 1;
        }
        proof {
            assert(attempts.subrange(0, n as int) =~= attempts);
            assert(handshakes@.subrange(0, n as int) =~= handshakes@);
        }
        self.connectings = still;

        let mut k: usize = 0;
        while k < n
            invariant
                n == handshakes@.len(),
                k <= n,
                self.conns@ == old(self).conns@ + completed_conns(handshakes@.subrange(0, k as int)),
                self.connectings@ == pending_connectings(attempts, handshakes@),
                self.incoming_closed == (old(self).incoming_closed || inner is Closed),
            decreases n - k,
        {
            match handshakes[k] {
                HandshakePoll::Done(meta) => {
                    self.conns.push(meta);
                },
                _ => {},
            }
            proof {
                lemma_completed_push(handshakes@.subrange(0, k as int), handshakes@[k as int]);
                assert(handshakes@.subrange(0, k as int).push(handshakes@[k as int])
                    =~= handshakes@.subrange(0, k as int + 1));
            }
            k += 1;
        }
        proof {
            assert(handshakes@.subrange(0, n as int) =~= handshakes@);
        }
        let ghost cs = self.conns@;
        proof {
            lemma_fsi_bounds(streams@, 0);
        }

        // Take the first stream any live connection offers; a failed or
        // exhausted stream queue retires its connection.
        let m = self.conns.len();
        let ghost fsi = first_stream_index(streams@, 0);
        let mut kept: Vec<ConnMeta> = Vec::new();
        let mut found: Option<Session> = None;
        let mut stop: bool = false;
        let mut j: usize = 0;
        while j < m && !stop
            invariant
                m == cs.len(),
                m == streams@.len(),
                self.conns@ == cs,
                j <= m,
                fsi == first_stream_index(streams@, 0),
                0 <= fsi <= m,
                !stop ==> (found is None && kept@ == kept_prefix(cs, streams@, j as int) && fsi
                    == first_stream_index(streams@, j as int)),
                stop ==> (j as int == fsi && fsi < m && kept@ == kept_prefix(cs, streams@, fsi) && (
                streams@[fsi] matches StreamPoll::Stream(sid) && found matches Some(sess)
                    && sess.source == cs[fsi].remote && sess.stream_id == Some(sid)
                    && sess.destination == SocksAddr::Ip(
                    SockAddr { ip: IpAddress::V4(0, 0, 0, 0), port: 0 },
                ))),
            decreases m - j, (if stop { 0int } else { 1int }),
        {
            match streams[j] {
                StreamPoll::Stream(sid) => {
                    let meta = self.conns[j];
                    found = Some(
                        Session {
                            source: meta.remote,
                            destination: SocksAddr::Ip(
                                SockAddr { ip: IpAddress::V4(0, 0, 0, 0), port: 0 },
                            ),
                            stream_id: Some(sid),
                        },
                    );
                    stop = true;
                    proof {
                        assert(first_stream_index(streams@, j as int) == j as int);
                    }
                },
                StreamPoll::Pending => {
                    kept.push(self.conns[j]);
                    proof {
                        assert(first_stream_index(streams@, j as int) == first_stream_index(
                            streams@,
                            j as int + 1,
                        ));
                    }
                    j += 1;
                },
                _ => {
                    proof {
                        assert(first_stream_index(streams@, j as int) == first_stream_index(
                            streams@,
                            j as int + 1,
                        ));
                    }
                    j += 1;
                },
            }
        }
        proof {
            if !stop {
                assert(j == m);
                assert(first_stream_index(streams@, m as int) == m as int);
                assert(fsi == m as int);
                assert(cs.subrange(fsi, fsi) =~= Seq::<ConnMeta>::empty());
            }
            assert(kept@ =~= kept_prefix(cs, streams@, fsi) + cs.subrange(fsi, j as int));
        }
        // Keep the connection that yielded, and everything after it.
        while j < m
            invariant
                m == cs.len(),
                self.conns@ == cs,
                j <= m,
                0 <= fsi <= j,
                kept@ == kept_prefix(cs, streams@, fsi) + cs.subrange(fsi, j as int),
                stop ==> (streams@.len() == m && fsi < m && (streams@[fsi]
                    matches StreamPoll::Stream(sid) && found matches Some(sess) && sess.source
                    == cs[fsi].remote && sess.stream_id == Some(sid) && sess.destination
                    == SocksAddr::Ip(SockAddr { ip: IpAddress::V4(0, 0, 0, 0), port: 0 }))),
                !stop ==> (found is None && fsi == m as int),
            decreases m - j,
        {
            kept.push(self.conns[j]);
            proof {
                assert(cs.subrange(fsi, j as int).push(cs[j as int]) =~= cs.subrange(
                    fsi,
                    j as int + 1,
                ));
            }
            j += 1;
        }
        self.conns = kept;

        match found {
            Some(sess) => PollOutcome::Item(sess),
            None => {
                if self.incoming_closed && self.connectings.len() == 0 && self.conns.len() == 0 {
                    PollOutcome::Finished
                } else {
                    PollOutcome::Pending
                }
            },
        }
    }
}

/// Loads the server material for the inbound endpoint from the bytes of
/// the key and certificate files, key first.  When neither key parser
/// yields a key, loading fails — no empty stand-in key is ever built.
pub fn prepare_server_material(
    key_data: &Vec<u8>,
    key_der: bool,
    cert_data: &Vec<u8>,
    cert_der: bool,
) -> (r: Result<(Vec<u8>, Vec<Vec<u8>>), HandlerError>)
    ensures
        match crate::pem::spec_load_key(key_data@, key_der) {
            Err(m) => r matches Err(e) && e.kind == crate::error::ErrorKind::InvalidInput
                && e.message@ == m,
            Ok(k) => match crate::pem::spec_load_certs(cert_data@, cert_der) {
                Err(m) => r matches Err(e) && e.kind == crate::error::ErrorKind::InvalidInput
                    && e.message@ == m,
                Ok(chain) => r matches Ok(p) && p.0@ == k && p.1.deep_view() == chain,
            },
        },
{
    let key = match crate::pem::load_key(key_data, key_der) {
        Ok(k) => k,
        Err(e) => {
            return Err(e);
        },
    };
    let chain = match crate::pem::load_certs(cert_data, cert_der) {
        Ok(c) => c,
        Err(e) => {
            return Err(e);
        },
    };
    Ok((key, chain))
}

/// The QUIC inbound handler: it holds the paths of the certificate and
/// key files that its server configuration is built from.
pub struct Handler {
    pub certificate: String,
    pub certificate_key: String,
}

impl Handler {
    /// A handler for the given certificate and key files.
    pub fn new(certificate: String, certificate_key: String) -> (r: Handler)
        ensures
            r.certificate@ == certificate@,
            r.certificate_key@ == certificate_key@,
    {
        Handler { certificate, certificate_key }
    }
}

} // verus!

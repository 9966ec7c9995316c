use vstd::prelude::*;
use vstd::seq_lib::*;
use std::collections::HashMap;
use std::sync::Arc;
use mio::Poll;
use mio::net::TcpListener;
use rustls::ServerConfig;
use rustls::ServerConnection;
use crate::backend::Opts;
use crate::backend::spec_timed_out;
use crate::net::AcceptOutcome;
use crate::net::NetStream;
use crate::net::PollEvent;
use crate::net::listener_accept;
use crate::net::new_session;
use crate::net::set_nodelay;
use crate::token::CHANNEL_PROXY;
use crate::token::IndexAllocator;
use crate::token::MAX_INDEX;
use crate::token::MIN_INDEX;
use crate::token::encode_token;
use crate::token::spec_token2index;
use crate::token::token2index;

verus! {

broadcast use vstd::std_specs::hash::group_hash_axioms, vstd::seq_lib::lemma_seq_contains_after_push;

/// How many pending connections one accept pass may take off the queue
/// before yielding back to the event loop. The bound only makes each
/// pass provably finite; it exceeds any backlog the listener can queue,
/// so in practice every pass ends at would-block.
pub const ACCEPT_BURST: usize = 16777216;

/// The paired front connection object: it owns the TLS session and the
/// client-facing transport, and is driven by the reactor through this
/// interface. Its internals are outside this library.
pub trait FrontConn: Sized {
    /// Build the front connection for a freshly accepted client stream.
    fn create(index: usize, token: usize, session: ServerConnection, stream: NetStream) -> Self;

    /// Initial poller registration; false aborts this connection.
    fn setup(&mut self, poll: &Poll, opts: &Opts) -> bool;

    /// Forward one OS readiness notification.
    fn ready(&mut self, poll: &Poll, event: &PollEvent, opts: &mut Opts);

    /// Whether the connection has fully torn itself down.
    fn destroyed(&self) -> bool;

    /// Force an immediate teardown.
    fn close_now(&mut self, poll: &Poll);
}

/// One entry of the reactor's connection table: the front connection
/// object together with the reactor-tracked activity state.
pub struct Connection<F: FrontConn> {
    index: usize,
    last_active: u64,
    timeout_ms: u64,
    front: F,
}

impl<F: FrontConn> Connection<F> {
    /// Logical connection index.
    pub closed spec fn index_spec(self) -> usize {
        self.index
    }

    /// Timestamp of the last delivered event, in milliseconds.
    pub closed spec fn last_active_spec(self) -> u64 {
        self.last_active
    }

    /// Configured idle timeout, in milliseconds.
    pub closed spec fn timeout_ms_spec(self) -> u64 {
        self.timeout_ms
    }

    pub fn new(index: usize, front: F, timeout_ms: u64, now_ms: u64) -> (c: Connection<F>)
        ensures
            c.index_spec() == index,
            c.last_active_spec() == now_ms,
            c.timeout_ms_spec() == timeout_ms,
    {
        Connection { index, last_active: now_ms, timeout_ms, front }
    }

    /// Logical connection index.
    pub fn index(&self) -> (i: usize)
        ensures
            i == self.index_spec(),
    {
        self.index
    }

    /// Initial poller registration of the front connection.
    pub fn setup(&mut self, poll: &Poll, opts: &Opts) -> (ok: bool)
        ensures
            final(self).index_spec() == old(self).index_spec(),
            final(self).last_active_spec() == old(self).last_active_spec(),
            final(self).timeout_ms_spec() == old(self).timeout_ms_spec(),
    {
        self.front.setup(poll, opts)
    }

    /// Forward a readiness notification and record the activity.
    pub fn ready(&mut self, poll: &Poll, event: &PollEvent, opts: &mut Opts, now_ms: u64)
        ensures
            final(self).index_spec() == old(self).index_spec(),
            final(self).last_active_spec() == now_ms,
            final(self).timeout_ms_spec() == old(self).timeout_ms_spec(),
    {
        self.front.ready(poll, event, opts);
        self.last_active = now_ms;
    }

    /// Whether the front connection reports itself fully torn down.
    pub fn destroyed(&self) -> bool {
        self.front.destroyed()
    }

    /// Idle test against the recorded activity and configured timeout.
    pub fn timed_out(&self, now_ms: u64) -> (b: bool)
        ensures
            b == spec_timed_out(self.last_active_spec(), self.timeout_ms_spec(), now_ms),
    {
        now_ms > self.last_active && now_ms - self.last_active > self.timeout_ms
    }

    /// Force an immediate teardown of the front connection.
    pub fn close_now(&mut self, poll: &Poll)
        ensures
            final(self).index_spec() == old(self).index_spec(),
            final(self).last_active_spec() == old(self).last_active_spec(),
            final(self).timeout_ms_spec() == old(self).timeout_ms_spec(),
    {
        self.front.close_now(poll)
    }
}

/// The reactor: owns the listening socket, the shared TLS configuration,
/// the index allocator and the active-connection table.
pub struct TlsServer<F: FrontConn> {
    listener: TcpListener,
    config: Arc<ServerConfig>,
    alloc: IndexAllocator,
    conns: HashMap<usize, Connection<F>>,
    indices: Vec<usize>,
}

impl<F: FrontConn> TlsServer<F> {
    /// The connection table, keyed by logical index.
    pub closed spec fn conns_spec(self) -> Map<usize, Connection<F>> {
        self.conns@
    }

    /// The index the allocator will hand out next.
    pub closed spec fn next_index_spec(self) -> usize {
        self.alloc.next_spec()
    }

    /// An entry that the sweep at time `now` must reclaim: present and
    /// idle for longer than its configured timeout.
    pub open spec fn spec_doomed(self, i: usize, now: u64) -> bool {
        self.conns_spec().contains_key(i) && spec_timed_out(
            self.conns_spec()[i].last_active_spec(),
            self.conns_spec()[i].timeout_ms_spec(),
            now,
        )
    }

    /// Well-formedness: the allocator stays in its bounded range, the
    /// key list mirrors the table's keys exactly, and every entry knows
    /// its own key.
    pub closed spec fn wf(self) -> bool {
        &&& self.alloc.wf()
        &&& self.indices@.no_duplicates()
        &&& forall|i: usize| #[trigger] self.conns@.contains_key(i) ==> self.indices@.contains(i)
        &&& forall|i: usize| #[trigger] self.indices@.contains(i) ==> self.conns@.contains_key(i)
        &&& forall|i: usize| #[trigger] self.conns@.contains_key(i) ==> self.conns@[i].index_spec()
            == i
    }

    pub fn new(listener: TcpListener, config: Arc<ServerConfig>) -> (s: TlsServer<F>)
        ensures
            s.wf(),
            s.conns_spec() == Map::<usize, Connection<F>>::empty(),
            s.next_index_spec() == MIN_INDEX,
    {
        let s = TlsServer {
            listener,
            config,
            alloc: IndexAllocator::new(),
            conns: HashMap::new(),
            indices: Vec::new(),
        };
        proof {
            assert(forall|i: usize| !(#[trigger] s.conns@.contains_key(i)));
            assert(forall|i: usize| !(#[trigger] s.indices@.contains(i)));
        }
        s
    }

    /// Number of active connections in the table.
    pub fn conn_count(&self) -> (n: usize)
        ensures
            n == self.conns_spec().len(),
    {
        self.conns.len()
    }

    /// Whether the table holds a connection under this index.
    pub fn has_conn(&self, index: usize) -> (b: bool)
        ensures
            b == self.conns_spec().contains_key(index),
    {
        self.conns.contains_key(&index)
    }

    /// Allocate the next logical index, wrapping within the reserved
    /// range.
    pub fn next_index(&mut self) -> (index: usize)
        requires
            old(self).wf(),
        ensures
            final(self).wf(),
            final(self).conns_spec() == old(self).conns_spec(),
            index == old(self).next_index_spec(),
            MIN_INDEX <= index <= MAX_INDEX,
            final(self).next_index_spec() == if old(self).next_index_spec() + 1 > MAX_INDEX {
                MIN_INDEX as usize
            } else {
                (old(self).next_index_spec() + 1) as usize
            },
    {
        self.alloc.next_index()
    }

    /// Connection index encoded in a poller token.
    pub fn token2index(&self, token: usize) -> (index: usize)
        ensures
            index == spec_token2index(token),
    {
        token2index(token)
    }

    /// Put a fresh connection into the table under its own index,
    /// replacing any stale entry left from a wrapped index.
    pub fn insert_conn(&mut self, conn: Connection<F>)
        requires
            old(self).wf(),
        ensures
            final(self).wf(),
            final(self).conns_spec() == old(self).conns_spec().insert(conn.index_spec(), conn),
            final(self).next_index_spec() == old(self).next_index_spec(),
    {
        let index = conn.index();
        if !self.conns.contains_key(&index) {
            self.indices.push(index);
            proof {
                assert(forall|x: usize| #[trigger] self.indices@.contains(x) <==> old(self).indices@.contains(x) || x == index);
                assert(!old(self).indices@.contains(index));
                assert forall|j: int, h: int|
                    0 <= j < self.indices@.len() && 0 <= h < self.indices@.len() && j != h implies
                    self.indices@[j] != self.indices@[h] by {
                    if j < self.indices@.len() - 1 && h < self.indices@.len() - 1 {
                        assert(old(self).indices@[j] != old(self).indices@[h]);
                    } else if j == self.indices@.len() - 1 {
                        assert(old(self).indices@.contains(old(self).indices@[h]));
                    } else {
                        assert(old(self).indices@.contains(old(self).indices@[j]));
                    }
                };
                assert(self.indices@.no_duplicates());
            }
        }
        self.conns.insert(index, conn);
    }

    /// Accept pending client connections until none is queued: apply
    /// socket options, allocate a TLS session and a fresh index, build
    /// the paired front connection with its proxy-channel token, and
    /// register it; a connection whose setup fails is torn down at once.
    /// Returns false only on a hard accept failure, which is fatal to
    /// the reactor.
    pub fn accept(&mut self, poll: &Poll, opts: &Opts, now_ms: u64) -> (ok: bool)
        requires
            old(self).wf(),
        ensures
            final(self).wf(),
            forall|i: usize| #[trigger] old(self).conns_spec().contains_key(i) ==> final(self).conns_spec().contains_key(i),
            forall|i: usize| #[trigger] final(self).conns_spec().contains_key(i) ==> old(self).conns_spec().contains_key(i) || MIN_INDEX <= i <= MAX_INDEX,
            forall|i: usize| #[trigger] final(self).conns_spec().contains_key(i) ==> (old(self).conns_spec().contains_key(i) && final(self).conns_spec()[i] == old(self).conns_spec()[i]) || (final(self).conns_spec()[i].index_spec() == i && final(self).conns_spec()[i].timeout_ms_spec() == opts.timeout_ms && final(self).conns_spec()[i].last_active_spec() == now_ms),
    {
        let mut burst: usize = ACCEPT_BURST;
        while burst > 0
            invariant
                self.wf(),
                forall|i: usize| #[trigger] old(self).conns_spec().contains_key(i) ==> self.conns_spec().contains_key(i),
                forall|i: usize| #[trigger] self.conns_spec().contains_key(i) ==> old(self).conns_spec().contains_key(i) || MIN_INDEX <= i <= MAX_INDEX,
                forall|i: usize| #[trigger] self.conns_spec().contains_key(i) ==> (old(self).conns_spec().contains_key(i) && self.conns_spec()[i] == old(self).conns_spec()[i]) || (self.conns_spec()[i].index_spec() == i && self.conns_spec()[i].timeout_ms_spec() == opts.timeout_ms && self.conns_spec()[i].last_active_spec() == now_ms),
            decreases burst,
        {
            burst = burst - 1;
            match listener_accept(&self.listener) {
                AcceptOutcome::Accepted(stream) => {
                    if !set_nodelay(&stream) {
                        continue;
                    }
                    match new_session(&self.config) {
                        Some(session) => {
                            let index = self.next_index();
                            let token = encode_token(index, CHANNEL_PROXY);
                            let front = F::create(index, token, session, NetStream::wrap(stream));
                            let mut conn = Connection::new(index, front, opts.timeout_ms, now_ms);
                            if conn.setup(poll, opts) {
                                self.insert_conn(conn);
                            } else {
                                conn.close_now(poll);
                            }
                        },
                        None => {},
                    }
                },
                AcceptOutcome::WouldBlock => {
                    return true;
                },
                AcceptOutcome::Failed => {
                    return false;
                },
            }
        }
        true
    }

    /// Decode the event's token, forward the event to the connection it
    /// names, and drop the entry once the connection reports itself
    /// destroyed. An event for an unknown index is dropped: it is a
    /// stale notification from an already-removed connection.
    pub fn do_conn_event(&mut self, poll: &Poll, event: &PollEvent, opts: &mut Opts, now_ms: u64)
        requires
            old(self).wf(),
        ensures
            final(self).wf(),
            final(self).next_index_spec() == old(self).next_index_spec(),
            !old(self).conns_spec().contains_key(spec_token2index(event.token)) ==> final(self).conns_spec() == old(self).conns_spec(),
            old(self).conns_spec().contains_key(spec_token2index(event.token)) ==> {
                let i = spec_token2index(event.token);
                ||| (final(self).conns_spec().dom() == old(self).conns_spec().dom() && final(self).conns_spec()[i].last_active_spec() == now_ms && final(self).conns_spec()[i].timeout_ms_spec() == old(self).conns_spec()[i].timeout_ms_spec()
                    && (forall|j: usize|
                    j != i && #[trigger] final(self).conns_spec().contains_key(j) ==> final(self).conns_spec()[j] == old(self).conns_spec()[j]))
                ||| final(self).conns_spec() == old(self).conns_spec().remove(i)
            },
    {
        let index = token2index(event.token);
        match self.conns.remove(&index) {
            Some(mut conn) => {
                conn.ready(poll, event, opts, now_ms);
                if conn.destroyed() {
                    self.remove_index(index);
                } else {
                    self.conns.insert(index, conn);
                    proof {
                        assert(self.conns@.dom() =~= old(self).conns@.dom());
                    }
                }
            },
            None => {},
        }
    }

    /// Drop one index from the key list, keeping the list duplicate-free
    /// and matching the table (whose entry was already removed).
    fn remove_index(&mut self, index: usize)
        requires
            old(self).indices@.no_duplicates(),
        ensures
            final(self).conns_spec() == old(self).conns_spec(),
            final(self).next_index_spec() == old(self).next_index_spec(),
            final(self).indices@.no_duplicates(),
            forall|x: usize| #[trigger] final(self).indices@.contains(x) <==> old(self).indices@.contains(x) && x != index,
            final(self).listener == old(self).listener,
            final(self).config == old(self).config,
    {
        let n = self.indices.len();
        let mut pos: usize = 0;
        while pos < n
            invariant
                n == self.indices@.len(),
                pos <= n,
                *self == *old(self),
                old(self).indices@.no_duplicates(),
                forall|j: int| 0 <= j < pos ==> self.indices@[j] != index,
            decreases n - pos,
        {
            if self.indices[pos] == index {
                self.indices.remove(pos);
                proof {
                    lemma_remove_one(old(self).indices@, pos as int);
                }
                return ;
            }
            pos = pos + 1;
        }
        proof {
            assert(forall|x: usize| #[trigger] self.indices@.contains(x) ==> x != index) by {
                if exists|j: int| 0 <= j < self.indices@.len() && self.indices@[j] == index {
                    let j = choose|j: int|
                        0 <= j < self.indices@.len() && self.indices@[j] == index;
                }
            };
        }
    }

    /// Reclaim idle connections: scan the table for entries whose
    /// recorded activity lies further back than their timeout, force
    /// each to close, and remove them — leaving every other entry
    /// untouched, whatever order the table was scanned in.
    pub fn check_timeout(&mut self, check_active_time: u64, poll: &Poll)
        requires
            old(self).wf(),
        ensures
            final(self).wf(),
            final(self).next_index_spec() == old(self).next_index_spec(),
            forall|i: usize| #[trigger] old(self).conns_spec().contains_key(i) ==> (final(self).conns_spec().contains_key(i) <==> !spec_timed_out(
                old(self).conns_spec()[i].last_active_spec(),
                old(self).conns_spec()[i].timeout_ms_spec(),
                check_active_time,
            )),
            forall|i: usize| #[trigger] final(self).conns_spec().contains_key(i) ==> old(self).conns_spec().contains_key(i) && final(self).conns_spec()[i] == old(self).conns_spec()[i],
    {
        let mut list: Vec<usize> = Vec::new();
        let n = self.indices.len();
        let mut pos: usize = 0;
        while pos < n
            invariant
                n == self.indices@.len(),
                pos <= n,
                *self == *old(self),
                old(self).wf(),
                forall|x: usize| #[trigger] list@.contains(x) ==> old(self).spec_doomed(x, check_active_time),
                forall|j: int|
                    0 <= j < pos ==> old(self).spec_doomed(self.indices@[j], check_active_time) ==> list@.contains(
                        self.indices@[j],
                    ),
            decreases n - pos,
        {
            let idx = self.indices[pos];
            match self.conns.get(&idx) {
                Some(conn) => {
                    if conn.timed_out(check_active_time) {
                        list.push(idx);
                    }
                },
                None => {},
            }
            pos = pos + 1;
        }
        proof {
            assert(forall|i: usize| old(self).spec_doomed(i, check_active_time) ==> #[trigger] list@.contains(i)) by {
                assert forall|i: usize| old(self).spec_doomed(i, check_active_time) implies #[trigger] list@.contains(i) by {
                    assert(old(self).conns@.contains_key(i));
                    assert(old(self).indices@.contains(i));
                    let j = choose|j: int|
                        0 <= j < old(self).indices@.len() && old(self).indices@[j] == i;
                };
            };
        }
        let m = list.len();
        let mut rpos: usize = 0;
        while rpos < m
            invariant
                m == list@.len(),
                rpos <= m,
                forall|x: usize| #[trigger] list@.contains(x) ==> old(self).spec_doomed(x, check_active_time),
                forall|i: usize| old(self).spec_doomed(i, check_active_time) ==> #[trigger] list@.contains(i),
                forall|i: usize| #[trigger] self.conns@.contains_key(i) ==> old(self).conns@.contains_key(i) && self.conns@[i] == old(self).conns@[i],
                forall|i: usize|
                    old(self).conns@.contains_key(i) ==> (#[trigger] self.conns@.contains_key(i)
                        <==> !(exists|j: int| 0 <= j < rpos && list@[j] == i)),
                self.indices == old(self).indices,
                self.alloc == old(self).alloc,
                self.listener == old(self).listener,
                self.config == old(self).config,
                old(self).wf(),
            decreases m - rpos,
        {
            let idx = list[rpos];
            match self.conns.remove(&idx) {
                Some(mut conn) => {
                    conn.close_now(poll);
                },
                None => {},
            }
            rpos = rpos + 1;
        }
        proof {
            assert forall|i: usize| #[trigger] old(self).conns@.contains_key(i) implies (
            self.conns@.contains_key(i) <==> !old(self).spec_doomed(i, check_active_time)) by {
                if old(self).spec_doomed(i, check_active_time) {
                    assert(list@.contains(i));
                    let j = choose|j: int| 0 <= j < list@.len() && list@[j] == i;
                    assert(!self.conns@.contains_key(i));
                }
                if self.conns@.contains_key(i) {
                    assert(!old(self).spec_doomed(i, check_active_time));
                }
                if !old(self).spec_doomed(i, check_active_time) {
                    if exists|j: int| 0 <= j < list@.len() && list@[j] == i {
                        let j = choose|j: int| 0 <= j < list@.len() && list@[j] == i;
                        assert(list@.contains(i));
                        assert(false);
                    }
                    assert(self.conns@.contains_key(i));
                }
            };
        }
        let mut kept: Vec<usize> = Vec::new();
        let k = self.indices.len();
        let mut kpos: usize = 0;
        while kpos < k
            invariant
                k == self.indices@.len(),
                kpos <= k,
                kept@.no_duplicates(),
                self.indices@.no_duplicates(),
                forall|x: usize| #[trigger] kept@.contains(x) ==> self.conns@.contains_key(x),
                forall|x: usize| #[trigger] kept@.contains(x) ==> self.indices@.contains(x),
                forall|j: int|
                    0 <= j < kpos ==> (#[trigger] self.conns@.contains_key(self.indices@[j])
                        ==> kept@.contains(self.indices@[j])),
                forall|j: int|
                    0 <= j < kept@.len() ==> (exists|h: int|
                        0 <= h < kpos && self.indices@[h] == #[trigger] kept@[j]),
            decreases k - kpos,
        {
            let idx = self.indices[kpos];
            if self.conns.contains_key(&idx) {
                proof {
                    assert(!kept@.contains(idx)) by {
                        if exists|j: int| 0 <= j < kept@.len() && kept@[j] == idx {
                            let j = choose|j: int| 0 <= j < kept@.len() && kept@[j] == idx;
                            let h = choose|h: int|
                                0 <= h < kpos && self.indices@[h] == kept@[j];
                            assert(self.indices@[h] == self.indices@[kpos as int]);
                        }
                    };
                }
                kept.push(idx);
            }
            kpos = kpos + 1;
        }
        self.indices = kept;
        proof {
            assert forall|i: usize| #[trigger] self.conns@.contains_key(i) implies
                self.indices@.contains(i) by {
                assert(old(self).conns@.contains_key(i));
                assert(old(self).indices@.contains(i));
                let h = choose|h: int|
                    0 <= h < old(self).indices@.len() && old(self).indices@[h] == i;
            };
        }
    }
}

/// Removing position `p` from a duplicate-free sequence removes exactly
/// the element at `p` from its membership.
proof fn lemma_remove_one(s: Seq<usize>, p: int)
    requires
        0 <= p < s.len(),
        s.no_duplicates(),
    ensures
        s.remove(p).no_duplicates(),
        forall|x: usize| #[trigger] s.remove(p).contains(x) <==> s.contains(x) && x != s[p],
{
    s.remove_ensures(p);
    assert forall|i: int, j: int|
        0 <= i < s.remove(p).len() && 0 <= j < s.remove(p).len() && i != j implies s.remove(p)[i]
        != s.remove(p)[j] by {
        let oi: int = if i < p {
            i
        } else {
            i + 1
        };
        let oj: int = if j < p {
            j
        } else {
            j + 1
        };
        assert(s.remove(p)[i] == s[oi]);
        assert(s.remove(p)[j] == s[oj]);
    };
    assert forall|x: usize| #[trigger] s.remove(p).contains(x) implies s.contains(x) && x != s[p]
        by {
        let j = choose|j: int| 0 <= j < s.remove(p).len() && s.remove(p)[j] == x;
        if j < p {
            assert(s[j] == x);
        } else {
            assert(s[j + 1] == x);
        }
    };
    assert forall|x: usize| s.contains(x) && x != s[p] implies #[trigger] s.remove(p).contains(x)
        by {
        let j = choose|j: int| 0 <= j < s.len() && s[j] == x;
        if j < p {
            assert(s.remove(p)[j] == x);
        } else {
            assert(s.remove(p)[j - 1] == x);
        }
    };
}

} // verus!

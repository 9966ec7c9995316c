use vstd::prelude::*;
use vstd::seq_lib::*;
use mio::Poll;
use crate::net::Interest;
use crate::net::PollEvent;
use crate::status::ConnStatus;

verus! {

/// Shared run-time options handed through the reactor; this core reads
/// only the configured idle timeout, in milliseconds.
pub struct Opts {
    pub timeout_ms: u64,
}

/// The send path of the paired front connection, seen from a backend:
/// it accepts drained backend bytes for encryption towards the client,
/// and a flush trigger. The front connection itself is outside this
/// library.
pub trait FrontSink {
    /// Hand the front connection bytes read from the backend transport.
    fn enqueue(&mut self, data: &[u8]);

    /// Ask the front connection to flush what it has queued.
    fn do_send(&mut self);
}

/// Delivery order over a whole run of `dispatch` calls: when each call
/// extends the delivered-plus-held record by exactly its own bytes, two
/// successive calls extend it by the first chunk followed by the second
/// — chunks are never interleaved or reordered.
pub proof fn lemma_dispatch_order(
    out0: Seq<u8>,
    out1: Seq<u8>,
    out2: Seq<u8>,
    d1: Seq<u8>,
    d2: Seq<u8>,
)
    requires
        out1 == out0 + d1,
        out2 == out1 + d2,
    ensures
        out2 == out0 + (d1 + d2),
{
    assert(out0 + d1 + d2 =~= out0 + (d1 + d2));
}

/// Idle test: has more than `timeout` elapsed between `last` and `now`?
/// A clock that moved backwards reads as not timed out.
pub open spec fn spec_timed_out(last: u64, timeout: u64, now: u64) -> bool {
    now > last && now - last > timeout
}

/// The operations a reactor needs from any backend-side transport kind.
///
/// The model is a pair of byte sequences: `delivered`, the bytes already
/// accepted by the backend socket, and `buffered`, the backpressure-held
/// outbound bytes. Every implementation must keep their concatenation a
/// faithful, in-order record of all dispatched bytes.
pub trait Backend<F: FrontSink>: Sized {
    /// Structural well-formedness of the backend object.
    spec fn wf(&self) -> bool;

    /// Bytes already accepted by the backend socket, oldest first.
    spec fn delivered(&self) -> Seq<u8>;

    /// Outbound bytes held back by backpressure, oldest first.
    spec fn buffered(&self) -> Seq<u8>;

    /// Current lifecycle status.
    spec fn status_spec(&self) -> ConnStatus;

    /// Interest set currently registered with the poller.
    spec fn interest_spec(&self) -> Interest;

    /// Configured idle timeout, in milliseconds.
    spec fn timeout_spec(&self) -> u64;

    /// Advisory bound on `buffered` above which `writable` turns false.
    spec fn capacity_spec(&self) -> int;

    /// React to an OS readiness notification: drain the socket towards
    /// the front connection if readable, flush held bytes if writable.
    /// No new outbound byte enters here, held bytes are never reordered
    /// or dropped, and a `Closed` connection is left untouched.
    fn ready(&mut self, event: &PollEvent, opts: &mut Opts, conn: &mut F)
        requires
            old(self).wf(),
        ensures
            final(self).wf(),
            final(self).timeout_spec() == old(self).timeout_spec(),
            final(self).capacity_spec() == old(self).capacity_spec(),
            final(self).interest_spec() == old(self).interest_spec(),
            old(self).status_spec() is Closed ==> *final(self) == *old(self),
            final(self).status_spec() == old(self).status_spec() || final(self).status_spec()
                is Closing,
            final(self).delivered() + final(self).buffered() == old(self).delivered() + old(self).buffered(),
            !event.writable ==> final(self).delivered() == old(self).delivered() && final(self).buffered() == old(self).buffered(),
            old(self).delivered().is_prefix_of(final(self).delivered()),
            old(self).status_spec() is Shutdown && event.writable ==> (final(self).buffered().len()
                == 0 ==> final(self).status_spec() is Closing) && (final(self).status_spec()
                is Shutdown ==> final(self).buffered().len() > 0),
    ;

    /// Accept new outbound plaintext bytes. If nothing is held, try an
    /// immediate write and hold any remainder; otherwise append after the
    /// held bytes and try to flush them all — new bytes never overtake
    /// old ones. Every byte not yet on the socket stays held, also on a
    /// hard write failure; a `Closed` connection is left untouched.
    fn dispatch(&mut self, data: &[u8], opts: &mut Opts)
        requires
            old(self).wf(),
        ensures
            final(self).wf(),
            final(self).timeout_spec() == old(self).timeout_spec(),
            final(self).capacity_spec() == old(self).capacity_spec(),
            final(self).interest_spec() == old(self).interest_spec(),
            old(self).status_spec() is Closed ==> *final(self) == *old(self),
            final(self).status_spec() == old(self).status_spec() || final(self).status_spec()
                is Closing,
            !(old(self).status_spec() is Closed) ==> final(self).delivered()
                + final(self).buffered() == old(self).delivered() + old(self).buffered() + data@,
            old(self).delivered().is_prefix_of(final(self).delivered()),
            old(self).status_spec() is Shutdown ==> (final(self).buffered().len() == 0 ==> final(self).status_spec() is Closing) && (final(self).status_spec() is Shutdown ==> final(self).buffered().len() > 0),
    ;

    /// Recompute and re-register poller interest: writable exactly when
    /// bytes are held, readable exactly when the caller asks — unless the
    /// connection is already closing or closed, in which case no new
    /// registration occurs.
    fn reregister(&mut self, poll: &Poll, readable: bool)
        requires
            old(self).wf(),
        ensures
            final(self).wf(),
            final(self).timeout_spec() == old(self).timeout_spec(),
            final(self).capacity_spec() == old(self).capacity_spec(),
            final(self).delivered() == old(self).delivered(),
            final(self).buffered() == old(self).buffered(),
            final(self).status_spec() == old(self).status_spec() || final(self).status_spec()
                is Closing,
            !(old(self).status_spec() is Closing) && !(old(self).status_spec() is Closed) ==> final(self).interest_spec() == (Interest {
                readable,
                writable: old(self).buffered().len() > 0,
            }),
            old(self).status_spec() is Closing || old(self).status_spec() is Closed ==> *final(self) == *old(self),
    ;

    /// If the status is `Closing`, deregister, shut the socket down
    /// best-effort, and move to `Closed`; otherwise change nothing.
    /// Idempotent and always safe to call again.
    fn check_close(&mut self, poll: &Poll)
        requires
            old(self).wf(),
        ensures
            final(self).wf(),
            old(self).status_spec() is Closing ==> final(self).status_spec() is Closed && final(self).delivered() == old(self).delivered() && final(self).buffered() == old(self).buffered() && final(self).timeout_spec() == old(self).timeout_spec() && final(self).capacity_spec() == old(self).capacity_spec() && final(self).interest_spec() == old(self).interest_spec(),
            !(old(self).status_spec() is Closing) ==> *final(self) == *old(self),
    ;

    /// Configured idle timeout, in milliseconds.
    fn get_timeout(&self) -> (t: u64)
        ensures
            t == self.timeout_spec(),
    ;

    /// Current lifecycle status.
    fn status(&self) -> (s: ConnStatus)
        ensures
            s == self.status_spec(),
    ;

    /// Graceful close request. With nothing held, go straight through
    /// `Closing` to `Closed`. With held bytes, keep only writable
    /// interest and enter `Shutdown` so the buffer can drain first.
    fn shutdown(&mut self, poll: &Poll)
        requires
            old(self).wf(),
        ensures
            final(self).wf(),
            final(self).timeout_spec() == old(self).timeout_spec(),
            final(self).capacity_spec() == old(self).capacity_spec(),
            final(self).delivered() == old(self).delivered(),
            old(self).buffered().len() == 0 ==> final(self).status_spec() is Closed && final(self).buffered().len() == 0,
            old(self).buffered().len() > 0 ==> final(self).buffered() == old(self).buffered()
                && final(self).interest_spec() == (Interest { readable: false, writable: true })
                && (final(self).status_spec() is Shutdown || final(self).status_spec() is Closed),
    ;

    /// Admission-control signal: true exactly while the held bytes are
    /// below the configured bound. Advisory only — `dispatch` keeps
    /// accepting either way.
    fn writable(&self) -> (b: bool)
        ensures
            b == (self.buffered().len() < self.capacity_spec()),
    ;

    /// Whether the status is `Closing`.
    fn closing(&self) -> (b: bool)
        ensures
            b == (self.status_spec() is Closing),
    {
        self.status().is_closing()
    }

    /// Whether the status is `Closed`.
    fn closed(&self) -> (b: bool)
        ensures
            b == (self.status_spec() is Closed),
    {
        self.status().is_closed()
    }

    /// Idle test against this backend's configured timeout.
    fn timeout(&self, t1: u64, t2: u64) -> (b: bool)
        ensures
            b == spec_timed_out(t1, self.timeout_spec(), t2),
    {
        let t = self.get_timeout();
        t2 > t1 && t2 - t1 > t
    }
}

} // verus!

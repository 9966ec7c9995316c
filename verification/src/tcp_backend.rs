use vstd::prelude::*;
use vstd::seq_lib::*;
use mio::Poll;
use bytes::BytesMut;
use crate::backend::Backend;
use crate::backend::FrontSink;
use crate::backend::Opts;
use crate::buffer::bytes_as_slice;
use crate::buffer::bytes_extend;
use crate::buffer::bytes_is_empty;
use crate::buffer::bytes_len;
use crate::buffer::bytes_new;
use crate::buffer::bytes_split;
use crate::buffer::bytes_view;
use crate::net::Interest;
use crate::net::NetStream;
use crate::net::PollEvent;
use crate::net::poll_deregister;
use crate::net::poll_reregister;
use crate::net::stream_shutdown;
use crate::status::ConnStatus;
use crate::tcp_util::tcp_read;
use crate::tcp_util::tcp_send;

verus! {

/// Fixed capacity of the read scratch buffer: the largest single packet
/// one read attempt may produce.
pub const MAX_PACKET_SIZE: usize = 65536;

/// Advisory bound on held outbound bytes; above it `writable` reports
/// false so callers stop feeding `dispatch`.
pub const MAX_BUFFER_SIZE: usize = 262144;

/// A concrete backend driving a raw non-blocking stream socket paired
/// with an upstream TLS-terminating front connection.
pub struct TcpBackend {
    conn: NetStream,
    status: ConnStatus,
    readiness: Interest,
    index: usize,
    token: usize,
    timeout: u64,
    send_buffer: BytesMut,
    recv_buffer: Vec<u8>,
}

impl TcpBackend {
    /// Bytes already accepted by the backend socket, oldest first.
    pub closed spec fn view_delivered(self) -> Seq<u8> {
        self.conn.written()
    }

    /// Outbound bytes held back by backpressure, oldest first.
    pub closed spec fn view_buffered(self) -> Seq<u8> {
        bytes_view(self.send_buffer)
    }

    pub closed spec fn view_status(self) -> ConnStatus {
        self.status
    }

    pub closed spec fn view_interest(self) -> Interest {
        self.readiness
    }

    pub closed spec fn view_timeout(self) -> u64 {
        self.timeout
    }

    pub closed spec fn view_index(self) -> usize {
        self.index
    }

    pub closed spec fn view_token(self) -> usize {
        self.token
    }

    /// The read scratch buffer keeps its fixed single-packet capacity.
    pub closed spec fn inv(self) -> bool {
        self.recv_buffer@.len() == MAX_PACKET_SIZE
    }

    /// A fresh backend for an established transport: `Established`,
    /// read interest only, nothing buffered.
    pub fn new(conn: NetStream, index: usize, token: usize, timeout: u64) -> (b: TcpBackend)
        ensures
            b.inv(),
            b.view_status() is Established,
            b.view_interest() == (Interest { readable: true, writable: false }),
            b.view_delivered() == conn.written(),
            b.view_buffered() == Seq::<u8>::empty(),
            b.view_timeout() == timeout,
            b.view_index() == index,
            b.view_token() == token,
    {
        let mut recv_buffer: Vec<u8> = Vec::new();
        while recv_buffer.len() < MAX_PACKET_SIZE
            invariant
                recv_buffer@.len() <= MAX_PACKET_SIZE,
            decreases MAX_PACKET_SIZE - recv_buffer@.len(),
        {
            recv_buffer.push(0u8);
        }
        TcpBackend {
            conn,
            timeout,
            status: ConnStatus::Established,
            readiness: Interest { readable: true, writable: false },
            send_buffer: bytes_new(),
            recv_buffer,
            index,
            token,
        }
    }

    /// Logical connection index this backend is bound to.
    pub fn index(&self) -> (i: usize)
        ensures
            i == self.view_index(),
    {
        self.index
    }

    /// Poller registration key this backend registers under.
    pub fn token_key(&self) -> (t: usize)
        ensures
            t == self.view_token(),
    {
        self.token
    }

    /// Number of outbound bytes currently held by backpressure.
    pub fn buffered_len(&self) -> (n: usize)
        ensures
            n == self.view_buffered().len(),
    {
        bytes_len(&self.send_buffer)
    }

    /// Interest set currently registered with the poller.
    pub fn registered_interest(&self) -> (i: Interest)
        ensures
            i == self.view_interest(),
    {
        self.readiness
    }

    /// Drain the socket towards the front connection's send path, then
    /// trigger its flush; a failed read or a peer close moves to
    /// `Closing`.
    fn do_read<F: FrontSink>(&mut self, conn: &mut F)
        requires
            old(self).inv(),
        ensures
            final(self).inv(),
            final(self).view_delivered() == old(self).view_delivered(),
            final(self).view_buffered() == old(self).view_buffered(),
            final(self).view_interest() == old(self).view_interest(),
            final(self).view_timeout() == old(self).view_timeout(),
            final(self).view_index() == old(self).view_index(),
            final(self).view_token() == old(self).view_token(),
            final(self).view_status() == old(self).view_status() || final(self).view_status()
                is Closing,
    {
        if !tcp_read(&mut self.conn, &mut self.recv_buffer, conn) {
            self.status = ConnStatus::Closing;
        }
        conn.do_send();
    }

    /// Write `data` to the socket with nothing currently held: any
    /// unwritten remainder is held back in order — also on a hard write
    /// failure, which moves to `Closing`; a `Shutdown` connection whose
    /// buffer is empty after the attempt completes its drain and moves
    /// to `Closing`.
    fn do_send(&mut self, data: &[u8])
        requires
            old(self).inv(),
            old(self).view_buffered() == Seq::<u8>::empty(),
        ensures
            final(self).inv(),
            final(self).view_interest() == old(self).view_interest(),
            final(self).view_timeout() == old(self).view_timeout(),
            final(self).view_index() == old(self).view_index(),
            final(self).view_token() == old(self).view_token(),
            old(self).view_delivered().is_prefix_of(final(self).view_delivered()),
            final(self).view_delivered() + final(self).view_buffered() == old(self).view_delivered()
                + data@,
            final(self).view_status() == old(self).view_status() || final(self).view_status()
                is Closing,
            old(self).view_status() is Shutdown ==> (final(self).view_buffered().len() == 0
                ==> final(self).view_status() is Closing) && (final(self).view_status() is Shutdown
                ==> final(self).view_buffered().len() > 0),
    {
        if !tcp_send(&mut self.conn, &mut self.send_buffer, data) {
            self.status = ConnStatus::Closing;
            return;
        }
        if matches!(self.status, ConnStatus::Shutdown) {
            if bytes_is_empty(&self.send_buffer) {
                self.status = ConnStatus::Closing;
            }
        }
    }

    /// Re-register the current interest set under this backend's token;
    /// a poller refusal moves to `Closing`.
    fn setup(&mut self, poll: &Poll)
        requires
            old(self).inv(),
        ensures
            final(self).inv(),
            final(self).view_delivered() == old(self).view_delivered(),
            final(self).view_buffered() == old(self).view_buffered(),
            final(self).view_interest() == old(self).view_interest(),
            final(self).view_timeout() == old(self).view_timeout(),
            final(self).view_index() == old(self).view_index(),
            final(self).view_token() == old(self).view_token(),
            final(self).view_status() == old(self).view_status() || final(self).view_status()
                is Closing,
    {
        if !poll_reregister(poll, &self.conn, self.token, self.readiness) {
            self.status = ConnStatus::Closing;
        }
    }
}

impl<F: FrontSink> Backend<F> for TcpBackend {
    open spec fn wf(&self) -> bool {
        self.inv()
    }

    open spec fn delivered(&self) -> Seq<u8> {
        self.view_delivered()
    }

    open spec fn buffered(&self) -> Seq<u8> {
        self.view_buffered()
    }

    open spec fn status_spec(&self) -> ConnStatus {
        self.view_status()
    }

    open spec fn interest_spec(&self) -> Interest {
        self.view_interest()
    }

    open spec fn timeout_spec(&self) -> u64 {
        self.view_timeout()
    }

    open spec fn capacity_spec(&self) -> int {
        MAX_BUFFER_SIZE as int
    }

    fn ready(&mut self, event: &PollEvent, opts: &mut Opts, conn: &mut F)
        ensures
            final(self).view_index() == old(self).view_index(),
            final(self).view_token() == old(self).view_token(),
    {
        if self.status.is_closed() {
            return;
        }
        if event.readable {
            self.do_read(conn);
        }
        if event.writable {
            let nothing: Vec<u8> = Vec::new();
            <TcpBackend as Backend<F>>::dispatch(self, nothing.as_slice(), opts);
        }
        proof {
            assert((old(self).view_delivered() + old(self).view_buffered()) + Seq::<u8>::empty()
                =~= old(self).view_delivered() + old(self).view_buffered());
        }
    }

    fn dispatch(&mut self, data: &[u8], opts: &mut Opts)
        ensures
            final(self).view_index() == old(self).view_index(),
            final(self).view_token() == old(self).view_token(),
    {
        if self.status.is_closed() {
            return;
        }
        if bytes_is_empty(&self.send_buffer) {
            proof {
                assert(bytes_view(self.send_buffer) =~= Seq::<u8>::empty());
                assert(old(self).view_delivered() + old(self).view_buffered() + data@ =~= old(self).view_delivered() + data@);
            }
            self.do_send(data);
        } else {
            bytes_extend(&mut self.send_buffer, data);
            let pending = bytes_split(&mut self.send_buffer);
            let chunk = bytes_as_slice(&pending);
            proof {
                assert(old(self).view_delivered() + old(self).view_buffered() + data@ =~= old(self).view_delivered() + chunk@);
            }
            self.do_send(chunk);
        }
    }

    fn reregister(&mut self, poll: &Poll, readable: bool) {
        match self.status {
            ConnStatus::Closing => {
                poll_deregister(poll, &self.conn);
            },
            ConnStatus::Closed => {},
            _ => {
                let mut changed = false;
                let empty = bytes_is_empty(&self.send_buffer);
                if !empty && !self.readiness.writable {
                    self.readiness.writable = true;
                    changed = true;
                }
                if empty && self.readiness.writable {
                    self.readiness.writable = false;
                    changed = true;
                }
                if readable && !self.readiness.readable {
                    self.readiness.readable = true;
                    changed = true;
                }
                if !readable && self.readiness.readable {
                    self.readiness.readable = false;
                    changed = true;
                }
                if changed {
                    self.setup(poll);
                }
            },
        }
    }

    fn check_close(&mut self, poll: &Poll) {
        if self.status.is_closing() {
            poll_deregister(poll, &self.conn);
            stream_shutdown(&self.conn);
            self.status = ConnStatus::Closed;
        }
    }

    fn get_timeout(&self) -> (t: u64) {
        self.timeout
    }

    fn status(&self) -> (s: ConnStatus) {
        self.status
    }

    fn shutdown(&mut self, poll: &Poll) {
        if bytes_is_empty(&self.send_buffer) {
            self.status = ConnStatus::Closing;
            <TcpBackend as Backend<F>>::check_close(self, poll);
            return;
        }
        self.readiness = Interest { readable: false, writable: true };
        self.status = ConnStatus::Shutdown;
        self.setup(poll);
        <TcpBackend as Backend<F>>::check_close(self, poll);
    }

    fn writable(&self) -> (b: bool) {
        bytes_len(&self.send_buffer) < MAX_BUFFER_SIZE
    }
}

} // verus!

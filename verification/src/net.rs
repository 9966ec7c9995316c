use vstd::prelude::*;
use std::io::Read;
use std::io::Write;
use std::sync::Arc;
#[allow(deprecated)]
use mio::tcp::Shutdown;
use mio::Poll;
use mio::PollOpt;
use mio::Ready;
use mio::Token;
use mio::net::TcpListener;
use mio::net::TcpStream;
use rustls::ServerConfig;
use rustls::ServerConnection;

verus! {

#[verifier::external_type_specification]
#[verifier::external_body]
pub struct ExPoll(Poll);

#[verifier::external_type_specification]
#[verifier::external_body]
pub struct ExTcpStream(TcpStream);

#[verifier::external_type_specification]
#[verifier::external_body]
pub struct ExTcpListener(TcpListener);

#[verifier::external_type_specification]
#[verifier::external_body]
pub struct ExServerConfig(ServerConfig);

#[verifier::external_type_specification]
#[verifier::external_body]
pub struct ExServerConnection(ServerConnection);

/// An interest set: the readiness kinds a socket is registered to be
/// notified for.
#[derive(Clone, Copy, PartialEq, Eq, Structural, Debug)]
pub struct Interest {
    pub readable: bool,
    pub writable: bool,
}

/// A decoded OS readiness notification: the registration key it was
/// delivered for and the readiness kinds it reports.
#[derive(Clone, Copy, PartialEq, Eq, Structural, Debug)]
pub struct PollEvent {
    pub token: usize,
    pub readable: bool,
    pub writable: bool,
}

/// A non-blocking stream socket together with the history of bytes this
/// library has written to it, oldest first. The history is the model that
/// delivery-order contracts speak of.
pub struct NetStream {
    inner: TcpStream,
    written: Ghost<Seq<u8>>,
}

/// What one non-blocking write attempt came to.
pub enum WriteOutcome {
    /// This many leading bytes of the data were accepted by the socket.
    Written(usize),
    /// The socket cannot accept bytes now; nothing was written.
    WouldBlock,
    /// A hard write failure; nothing was written.
    Failed,
}

/// What one non-blocking read attempt came to.
pub enum ReadOutcome {
    /// This many bytes were read into the front of the scratch buffer.
    Data(usize),
    /// The peer closed its sending side.
    Closed,
    /// No byte is available now.
    WouldBlock,
    /// A hard read failure.
    Failed,
}

/// What one accept attempt on the listener came to.
pub enum AcceptOutcome {
    /// A new client stream was accepted.
    Accepted(TcpStream),
    /// No pending connection is queued now.
    WouldBlock,
    /// A hard accept failure: fatal to the reactor.
    Failed,
}

impl NetStream {
    pub closed spec fn written(self) -> Seq<u8> {
        self.written@
    }

    /// Take ownership of a socket; no byte has been written through the
    /// wrapper yet.
    pub fn wrap(inner: TcpStream) -> (s: NetStream)
        ensures
            s.written() == Seq::<u8>::empty(),
    {
        NetStream { inner, written: Ghost(Seq::empty()) }
    }
}

/// Relies on `io::Write::write` for `&mio::net::TcpStream`: a successful
/// write consumes some leading bytes of `data`, a would-block or failed
/// write consumes none.
#[verifier::external_body]
pub(crate) fn stream_write_once(s: &mut NetStream, data: &[u8]) -> (r: WriteOutcome)
    ensures
        match r {
            WriteOutcome::Written(n) => n <= data@.len() && final(s).written() == old(s).written()
                + data@.subrange(0, n as int),
            WriteOutcome::WouldBlock => final(s).written() == old(s).written(),
            WriteOutcome::Failed => final(s).written() == old(s).written(),
        },
{
    match (&s.inner).write(data) {
        Ok(n) => WriteOutcome::Written(n),
        Err(e) if e.kind() == std::io::ErrorKind::WouldBlock => WriteOutcome::WouldBlock,
        Err(_) => WriteOutcome::Failed,
    }
}

/// Relies on `io::Read::read` for `&mio::net::TcpStream`: a successful
/// read fills that many leading bytes of the buffer, zero meaning the
/// peer closed. Reading writes nothing to the socket.
#[verifier::external_body]
pub(crate) fn stream_read_once(s: &mut NetStream, buf: &mut Vec<u8>) -> (r: ReadOutcome)
    ensures
        final(s).written() == old(s).written(),
        final(buf)@.len() == old(buf)@.len(),
        match r {
            ReadOutcome::Data(n) => 1 <= n <= final(buf)@.len(),
            _ => true,
        },
{
    match (&s.inner).read(buf.as_mut_slice()) {
        Ok(0) => ReadOutcome::Closed,
        Ok(n) => ReadOutcome::Data(n),
        Err(e) if e.kind() == std::io::ErrorKind::WouldBlock => ReadOutcome::WouldBlock,
        Err(_) => ReadOutcome::Failed,
    }
}

/// Relies on `mio::net::TcpStream::shutdown`: best-effort full-duplex
/// shutdown; an error is ignored, the peer may already be gone.
#[verifier::external_body]
pub(crate) fn stream_shutdown(s: &NetStream)
{
    let _ = s.inner.shutdown(Shutdown::Both);
}

/// Relies on `mio::Poll::register`: first registration of the stream
/// under the given token with the given interest, edge-triggered.
/// Returns whether the poller accepted it.
#[verifier::external_body]
pub fn poll_register(poll: &Poll, s: &NetStream, token: usize, interest: Interest) -> (ok: bool)
{
    let mut r = Ready::empty();
    if interest.readable {
        r |= Ready::readable();
    }
    if interest.writable {
        r |= Ready::writable();
    }
    poll.register(&s.inner, Token(token), r, PollOpt::edge()).is_ok()
}

/// Relies on `mio::Poll::reregister`: replaces the stream's registered
/// interest under the given token, edge-triggered. Returns whether the
/// poller accepted it.
#[verifier::external_body]
pub(crate) fn poll_reregister(poll: &Poll, s: &NetStream, token: usize, interest: Interest) -> (ok: bool)
{
    let mut r = Ready::empty();
    if interest.readable {
        r |= Ready::readable();
    }
    if interest.writable {
        r |= Ready::writable();
    }
    poll.reregister(&s.inner, Token(token), r, PollOpt::edge()).is_ok()
}

/// Relies on `mio::Poll::deregister`: removes the stream from the
/// poller; an error is ignored, as on an already-removed stream.
#[verifier::external_body]
pub(crate) fn poll_deregister(poll: &Poll, s: &NetStream)
{
    let _ = poll.deregister(&s.inner);
}

/// Relies on `mio::net::TcpListener::accept`: takes one pending client
/// stream off the queue, or reports that none is pending.
#[verifier::external_body]
pub(crate) fn listener_accept(l: &TcpListener) -> (r: AcceptOutcome)
{
    match l.accept() {
        Ok((stream, _)) => AcceptOutcome::Accepted(stream),
        Err(e) if e.kind() == std::io::ErrorKind::WouldBlock => AcceptOutcome::WouldBlock,
        Err(_) => AcceptOutcome::Failed,
    }
}

/// Relies on `mio::net::TcpStream::set_nodelay`: turns Nagle's algorithm
/// off for the stream. Returns whether the option was applied.
#[verifier::external_body]
pub(crate) fn set_nodelay(s: &TcpStream) -> (ok: bool)
{
    s.set_nodelay(true).is_ok()
}

/// Relies on `rustls::ServerConnection::new`: a fresh server-side TLS
/// session bound to the shared configuration, or nothing if the
/// configuration cannot back a session.
#[verifier::external_body]
pub(crate) fn new_session(config: &Arc<ServerConfig>) -> (r: Option<ServerConnection>)
{
    ServerConnection::new(config.clone()).ok()
}

} // verus!

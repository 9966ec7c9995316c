use std::sync::Arc;
use mio::Poll;
use mio::net::TcpListener;
use mio::net::TcpStream;
use rustls::ServerConfig;
use rustls::ServerConnection;
use tls_reactor::backend::Opts;
use tls_reactor::net::NetStream;
use tls_reactor::net::PollEvent;
use tls_reactor::reactor::Connection;
use tls_reactor::reactor::FrontConn;
use tls_reactor::reactor::TlsServer;
use tls_reactor::token::CHANNEL_PROXY;
use tls_reactor::token::MIN_INDEX;
use tls_reactor::token::encode_token;

/// A minimal front connection; the sweep tests construct it directly,
/// the accept tests let the reactor build it from the session and the
/// stream.
struct StubFront {
    held: Option<(ServerConnection, NetStream)>,
}

impl FrontConn for StubFront {
    fn create(_index: usize, _token: usize, session: ServerConnection, stream: NetStream) -> Self {
        StubFront { held: Some((session, stream)) }
    }
    fn setup(&mut self, _poll: &Poll, _opts: &Opts) -> bool {
        true
    }
    fn ready(&mut self, _poll: &Poll, _event: &PollEvent, _opts: &mut Opts) {}
    fn destroyed(&self) -> bool {
        false
    }
    fn close_now(&mut self, _poll: &Poll) {
        self.held = None;
    }
}

fn stub() -> StubFront {
    StubFront { held: None }
}

fn test_config() -> Arc<ServerConfig> {
    let ck = rcgen::generate_simple_self_signed(vec!["localhost".to_string()]).unwrap();
    let cert_der = ck.cert.der().to_vec();
    let key_der = ck.signing_key.serialize_der();
    let provider = rustls::crypto::ring::default_provider();
    let config = ServerConfig::builder_with_provider(Arc::new(provider))
        .with_safe_default_protocol_versions()
        .unwrap()
        .with_no_client_auth()
        .with_single_cert(
            vec![cert_der.into()],
            rustls::pki_types::PrivateKeyDer::Pkcs8(key_der.into()),
        )
        .unwrap();
    Arc::new(config)
}

fn opts() -> Opts {
    Opts { timeout_ms: 2000 }
}

/// A reactor over a bound (never connected) listener, with `n` stub
/// connections planted in its table at time 1000 and a 2000 ms timeout.
fn server_with_stub_conns(n: usize) -> (TlsServer<StubFront>, Poll) {
    let addr = "127.0.0.1:0".parse().unwrap();
    let listener = TcpListener::bind(&addr).unwrap();
    let poll = Poll::new().unwrap();
    let mut server: TlsServer<StubFront> = TlsServer::new(listener, test_config());
    for k in 0..n {
        let index = server.next_index();
        assert_eq!(index, MIN_INDEX + k);
        server.insert_conn(Connection::new(index, stub(), 2000, 1000));
    }
    (server, poll)
}

#[test]
fn planted_connections_are_visible() {
    let (server, _poll) = server_with_stub_conns(2);
    assert_eq!(server.conn_count(), 2);
    assert!(server.has_conn(MIN_INDEX));
    assert!(server.has_conn(MIN_INDEX + 1));
    assert!(!server.has_conn(MIN_INDEX + 2));
}

#[test]
fn server_next_index_advances() {
    let addr = "127.0.0.1:0".parse().unwrap();
    let listener = TcpListener::bind(&addr).unwrap();
    let mut server: TlsServer<StubFront> = TlsServer::new(listener, test_config());
    assert_eq!(server.next_index(), MIN_INDEX);
    assert_eq!(server.next_index(), MIN_INDEX + 1);
    assert_eq!(server.token2index(encode_token(7, CHANNEL_PROXY)), 7);
}

#[test]
fn stale_event_is_dropped() {
    let (mut server, poll) = server_with_stub_conns(1);
    let mut o = opts();
    let stale = PollEvent {
        token: encode_token(999, CHANNEL_PROXY),
        readable: true,
        writable: false,
    };
    server.do_conn_event(&poll, &stale, &mut o, 1500);
    assert_eq!(server.conn_count(), 1);
    assert!(server.has_conn(MIN_INDEX));
}

#[test]
fn timeout_sweep_removes_only_idle_connections() {
    // Two connections planted at time 1000 with a 2000 ms timeout.
    let (mut server, poll) = server_with_stub_conns(2);
    let mut o = opts();
    assert!(server.has_conn(2));
    assert!(server.has_conn(3));

    // Connection 3 sees an event at time 5000 and becomes active again.
    let ev = PollEvent { token: encode_token(3, CHANNEL_PROXY), readable: false, writable: false };
    server.do_conn_event(&poll, &ev, &mut o, 5000);
    assert_eq!(server.conn_count(), 2);

    // At 6500: connection 2 idled 5500 ms (> 2000), connection 3 idled
    // 1500 ms. Only connection 2 is reclaimed.
    server.check_timeout(6500, &poll);
    assert_eq!(server.conn_count(), 1);
    assert!(!server.has_conn(2));
    assert!(server.has_conn(3));

    // A sweep before anything else times out changes nothing more.
    server.check_timeout(6600, &poll);
    assert_eq!(server.conn_count(), 1);
    assert!(server.has_conn(3));

    // Much later the remaining connection is reclaimed too.
    server.check_timeout(100_000, &poll);
    assert_eq!(server.conn_count(), 0);
}

#[test]
fn timeout_sweep_boundary_is_strict() {
    let (mut server, poll) = server_with_stub_conns(1);
    // Planted at 1000 with timeout 2000: at exactly 3000 the idle time
    // equals the timeout and the connection survives.
    server.check_timeout(3000, &poll);
    assert_eq!(server.conn_count(), 1);
    // One millisecond later it is reclaimed.
    server.check_timeout(3001, &poll);
    assert_eq!(server.conn_count(), 0);
}

#[test]
fn accept_assigns_indices_from_minimum() {
    // This test needs real loopback connections; it reports and stops
    // where the environment offers none.
    let addr = "127.0.0.1:0".parse().unwrap();
    let listener = TcpListener::bind(&addr).unwrap();
    let local = listener.local_addr().unwrap();
    let poll = Poll::new().unwrap();
    let mut server: TlsServer<StubFront> = TlsServer::new(listener, test_config());
    let mut clients = Vec::new();
    for _ in 0..2 {
        match TcpStream::connect(&local) {
            Ok(c) => clients.push(c),
            Err(_) => {
                println!("no loopback networking here; nothing to exercise");
                return;
            }
        }
    }
    let o = opts();
    let mut tries: usize = 0;
    while server.conn_count() < 2 {
        assert!(server.accept(&poll, &o, 1000), "accept reported a hard failure");
        tries += 1;
        assert!(tries < 100_000_000, "accept starved");
    }
    assert_eq!(server.conn_count(), 2);
    assert!(server.has_conn(MIN_INDEX));
    assert!(server.has_conn(MIN_INDEX + 1));
}

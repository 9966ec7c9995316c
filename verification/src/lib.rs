//! Connection-multiplexing core of a TLS-terminating forwarding proxy:
//! a single-threaded, non-blocking reactor that accepts client connections,
//! pairs each with a front connection object, and moves bytes to and from
//! backend transports while enforcing backpressure, lifecycle correctness
//! and idle-timeout reclamation.

pub mod status;
pub mod token;
pub mod buffer;
pub mod net;
pub mod backend;
pub mod tcp_util;
pub mod tcp_backend;
pub mod reactor;

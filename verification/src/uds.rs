//! Unix domain sockets driven by the reactor.

pub mod datagram;

//! The decision logic of a KCP transport: packet headers, the connection handshake,
//! session bookkeeping of a listener, and the buffering of a byte stream.
//!
//! Everything here is free of I/O. A runtime performs the calls into the KCP engine, the
//! sockets, the channels and the clock, and hands the results back as plain values.

pub mod addr;
pub mod config;
pub mod conv;
pub mod error;
pub mod ffi;
pub mod frame;
pub mod halfclose;
pub mod protocol;
mod random;
pub mod session;
pub mod stream;
pub mod transport;
pub mod udp;

pub use crate::config::{KcpConfig, KcpNoDelayConfig};
pub use crate::error::ErrorKind;
pub use crate::protocol::Kcp;
pub use crate::stream::KcpStream;
pub use crate::udp::KcpUdpStream;

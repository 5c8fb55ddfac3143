//! Ways to carry packets.

pub mod duplex;
pub mod merge;
pub mod mpsc;
pub mod udp;

pub use crate::transport::duplex::DuplexTransport;
pub use crate::transport::merge::MergeTransport;
pub use crate::transport::mpsc::{MpscTransport, UnboundedSink};
pub use crate::transport::udp::{UdpMpscTransport, UdpTransport};

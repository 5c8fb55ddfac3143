//! Addresses of the other ends.

use crate::error::ErrorKind;
use vstd::prelude::*;

verus! {

/// The address of a socket.
#[derive(Clone, Copy, Debug, PartialEq, Eq, Structural)]
pub enum PeerAddr {
    V4 { ip: u32, port: u16 },
    V6 { ip6: u128, port: u16, flowinfo: u32, scope_id: u32 },
}

impl PeerAddr {
    /// The address to bind a socket to that talks to this one: any address of the same family,
    /// any port.
    pub fn local(&self) -> (addr: PeerAddr)
        ensures
            addr == match *self {
                PeerAddr::V4 { .. } => PeerAddr::V4 { ip: 0, port: 0 },
                PeerAddr::V6 { .. } => PeerAddr::V6 { ip6: 0, port: 0, flowinfo: 0, scope_id: 0 },
            },
    {
        match self {
            PeerAddr::V4 { .. } => PeerAddr::V4 { ip: 0, port: 0 },
            PeerAddr::V6 { .. } => PeerAddr::V6 { ip6: 0, port: 0, flowinfo: 0, scope_id: 0 },
        }
    }

    /// The first of the addresses that a name stands for; there has to be one.
    pub fn resolved(first: Option<PeerAddr>) -> (r: Result<PeerAddr, ErrorKind>)
        ensures
            r == match first {
                Some(addr) => Ok::<PeerAddr, ErrorKind>(addr),
                None => Err(ErrorKind::AddrNotAvailable),
            },
    {
        match first {
            Some(addr) => Ok(addr),
            None => Err(ErrorKind::AddrNotAvailable),
        }
    }
}

} // verus!

//! A listener that shares one UDP socket among its connections.

pub mod laws;
pub mod sessions;
pub mod state;
pub mod steps;
pub mod task;

use crate::config::KcpConfig;
use crate::error::ErrorKind;
use crate::udp::sessions::SessionState;
use crate::udp::state::Point;
use crate::udp::task::Task;
use std::sync::Arc;
use vstd::prelude::*;

verus! {

/// A listener for connections.
pub struct KcpUdpStream {
    /// What drives it.
    pub task: Task,
    /// How many connections may wait for the user.
    pub backlog: usize,
}

impl KcpUdpStream {
    /// A listener; at least eight connections may wait for the user.
    pub fn socket_listen(config: Arc<KcpConfig>, backlog: usize) -> (listener: KcpUdpStream)
        ensures
            listener.backlog == if backlog > 8 {
                backlog
            } else {
                8
            },
            listener.task@.config == *config,
            !listener.task@.closing,
            listener.task@.sessions == Map::<u32, SessionState>::empty(),
            listener.task@.ids == Map::<Seq<u8>, u32>::empty(),
            listener.task@.at == Point::Created,
            listener.task@.wf(),
    {
        KcpUdpStream {
            task: Task::new(config),
            backlog: if backlog > 8 {
                backlog
            } else {
                8
            },
        }
    }

    /// The next connection; there is none once the listener has closed.
    pub fn accept<T>(next: Option<T>) -> (r: Result<T, ErrorKind>)
        ensures
            r == match next {
                Some(connection) => Ok::<T, ErrorKind>(connection),
                None => Err(ErrorKind::NotConnected),
            },
    {
        match next {
            Some(connection) => Ok(connection),
            None => Err(ErrorKind::NotConnected),
        }
    }
}

} // verus!

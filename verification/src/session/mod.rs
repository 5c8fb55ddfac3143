//! A connection between two fixed addresses, without a handshake.

pub mod laws;
pub mod state;
pub mod steps;
pub mod task;

use crate::addr::PeerAddr;
use crate::error::ErrorKind;
use crate::protocol::Kcp;
use crate::session::state::TaskState;
use crate::session::task::Task;
use bytes::Bytes;
use vstd::prelude::*;

verus! {

/// What the task tells the user.
#[derive(Debug)]
pub enum Data {
    /// Who the other end is.
    Connect { peer_addr: PeerAddr, conv: u32 },
    /// A frame has come.
    Frame(Bytes),
}

/// What a message of the task means to a user who asks for a frame.
#[derive(Debug)]
pub enum Next {
    /// Here is the frame; `None` if there will be no more.
    Ready(Option<Bytes>),
    /// Ask for another message.
    Again,
}

/// The user's end of a connection.
#[derive(Clone, Copy, Debug, PartialEq, Eq, Structural)]
pub struct KcpStream {
    pub peer_addr: PeerAddr,
    pub conv: u32,
    pub mtu: u32,
    pub is_closed: bool,
}

/// A connection that is being opened.
pub struct Opening {
    /// The user's end.
    pub stream: KcpStream,
    /// What drives the connection.
    pub task: Task,
    /// How many messages of the user may wait for the task.
    pub msg_capacity: usize,
    /// How many frames may wait for the user.
    pub data_capacity: usize,
}

impl KcpStream {
    /// A connection with the other end at `peer_addr`. As many messages may wait as the windows
    /// of the engine hold.
    pub fn new(kcp: &Kcp, peer_addr: PeerAddr) -> (opening: Opening)
        ensures
            opening.stream == (KcpStream {
                peer_addr,
                conv: 0,
                mtu: kcp@.cb.mtu,
                is_closed: false,
            }),
            opening.task@ == TaskState::created(peer_addr),
            opening.msg_capacity == kcp@.cb.snd_wnd,
            opening.data_capacity == kcp@.cb.rcv_wnd,
    {
        let cb = kcp.control_block();
        Opening {
            stream: KcpStream { peer_addr, conv: 0, mtu: cb.mtu, is_closed: false },
            task: Task::new(peer_addr),
            msg_capacity: cb.snd_wnd as usize,
            data_capacity: cb.rcv_wnd as usize,
        }
    }

    /// The error of a user who tells the task something: the task may be gone.
    pub fn message_result(taken: bool) -> (r: Result<(), ErrorKind>)
        ensures
            r == if taken {
                Ok::<(), ErrorKind>(())
            } else {
                Err(ErrorKind::NotConnected)
            },
    {
        if taken {
            Ok(())
        } else {
            Err(ErrorKind::NotConnected)
        }
    }

    /// What a message of the task means to a user who asks for a frame; `None` if there are no
    /// more messages. Who the other end is, is noted.
    pub fn poll_next(&mut self, data: Option<Data>) -> (next: Next)
        ensures
            match data {
                Some(Data::Connect { peer_addr, conv }) => {
                    &&& next == Next::Again
                    &&& *final(self) == (KcpStream { peer_addr, conv, ..*old(self) })
                },
                Some(Data::Frame(frame)) => {
                    &&& next == Next::Ready(Some(frame))
                    &&& *final(self) == *old(self)
                },
                None => {
                    &&& next == Next::Ready(None)
                    &&& *final(self) == *old(self)
                },
            },
    {
        match data {
            Some(Data::Connect { peer_addr, conv }) => {
                self.peer_addr = peer_addr;
                self.conv = conv;
                Next::Again
            },
            Some(Data::Frame(frame)) => Next::Ready(Some(frame)),
            None => Next::Ready(None),
        }
    }

    /// Closes the connection; tells whether it has been open until now.
    pub fn close(&mut self) -> (was_open: bool)
        ensures
            was_open == !old(self).is_closed,
            *final(self) == (KcpStream { is_closed: true, ..*old(self) }),
    {
        let was_open: bool = !self.is_closed;
        self.is_closed = true;
        was_open
    }
}

} // verus!

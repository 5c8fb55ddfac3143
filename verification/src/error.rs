//! The ways in which an operation can be refused.

use vstd::prelude::*;

verus! {

/// Why an operation was refused. Each variant corresponds to the I/O error kind of the same name.
#[derive(Clone, Copy, Debug, PartialEq, Eq, Structural)]
pub enum ErrorKind {
    /// A buffer is too small, a frame is too large, or an argument is out of range.
    InvalidInput,
    /// A packet belongs to another conversation.
    NotFound,
    /// A packet is malformed or carries an unrecognised command.
    InvalidData,
    /// The engine could not allocate its buffers.
    OutOfMemory,
    /// The other end is gone.
    NotConnected,
    /// The other end did not answer in time.
    TimedOut,
    /// A name stands for no address.
    AddrNotAvailable,
}

} // verus!

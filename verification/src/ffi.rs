//! Constants of the KCP engine, and the part of its control block that decisions are made on.

use vstd::prelude::*;

verus! {

pub const IKCP_LOG_OUTPUT: u32 = 1;
pub const IKCP_LOG_INPUT: u32 = 2;
pub const IKCP_LOG_SEND: u32 = 4;
pub const IKCP_LOG_RECV: u32 = 8;
pub const IKCP_LOG_IN_DATA: u32 = 16;
pub const IKCP_LOG_IN_ACK: u32 = 32;
pub const IKCP_LOG_IN_PROBE: u32 = 64;
pub const IKCP_LOG_IN_WINS: u32 = 128;
pub const IKCP_LOG_OUT_DATA: u32 = 256;
pub const IKCP_LOG_OUT_ACK: u32 = 512;
pub const IKCP_LOG_OUT_PROBE: u32 = 1024;
pub const IKCP_LOG_OUT_WINS: u32 = 2048;
pub const IKCP_RTO_NDL: u32 = 30;
pub const IKCP_RTO_MIN: u32 = 100;
pub const IKCP_RTO_DEF: u32 = 200;
pub const IKCP_RTO_MAX: u32 = 60000;
pub const IKCP_CMD_PUSH: u32 = 81;
pub const IKCP_CMD_ACK: u32 = 82;
pub const IKCP_CMD_WASK: u32 = 83;
pub const IKCP_CMD_WINS: u32 = 84;
pub const IKCP_ASK_SEND: u32 = 1;
pub const IKCP_ASK_TELL: u32 = 2;
pub const IKCP_WND_SND: u32 = 32;
pub const IKCP_WND_RCV: u32 = 256;
pub const IKCP_MTU_DEF: u32 = 1400;
pub const IKCP_ACK_FAST: u32 = 3;
pub const IKCP_INTERVAL: u32 = 100;
/// Length of a segment header.
pub const IKCP_OVERHEAD: u32 = 24;
pub const IKCP_DEADLINK: u32 = 20;
pub const IKCP_THRESH_INIT: u32 = 2;
pub const IKCP_THRESH_MIN: u32 = 2;
pub const IKCP_PROBE_INIT: u32 = 7000;
pub const IKCP_PROBE_LIMIT: u32 = 120000;
pub const IKCP_FASTACK_LIMIT: u32 = 5;

/// The numbers of the engine's control block that decisions read or write.
#[derive(Clone, Copy, Debug, PartialEq, Eq, Structural)]
pub struct IKCPCB {
    /// Conversation number.
    pub conv: u32,
    /// Maximum transmission unit.
    pub mtu: u32,
    /// Link state; all bits are set once the link is dead.
    pub state: u32,
    /// Send window, in segments.
    pub snd_wnd: u32,
    /// Receive window, in segments.
    pub rcv_wnd: u32,
    /// Time of the last update, in milliseconds.
    pub current: u32,
    /// Segments received out of order.
    pub nrcv_buf: u32,
    /// Segments received in order and not yet fetched.
    pub nrcv_que: u32,
    /// Segments queued and not yet sent.
    pub nsnd_que: u32,
    /// Stream mode.
    pub stream: i32,
    /// Enabled log messages.
    pub logmask: i32,
}

} // verus!

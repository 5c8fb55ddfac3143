//! The state machine that drives one connection.
//!
//! [`Task::step`] takes what the last [`Action`] led to and says what to do next. Between two
//! steps the runtime performs the action: it calls into the KCP engine, the transport, the
//! channels to the user, or the clock, and brings the [`Kcp`] up to date.

use crate::config::{KcpConfig, KcpNoDelayConfig};
use crate::error::ErrorKind;
use crate::protocol::Kcp;
use crate::stream::state::{
    Action, ActionState, Event, Handshake, Point, Purpose, TaskState, Then, Tuning,
};
use crate::stream::{same_bytes, strip_prefix, KcpStream};
use bytes::Bytes;
use std::sync::Arc;
use vstd::prelude::*;

verus! {

/// Drives one connection.
pub struct Task {
    config: Arc<KcpConfig>,
    hs: Handshake,
    flags: u32,
    hs_end_time: u32,
    last_io_time: u32,
    session_id: Vec<u8>,
    tx_frame: Option<Bytes>,
    packet: Vec<u8>,
    left: u32,
    at: Point,
}

impl View for Task {
    type V = TaskState;

    closed spec fn view(&self) -> TaskState {
        TaskState {
            config: *self.config,
            client: self.flags & Task::CLIENT != 0,
            flush: self.flags & Task::FLUSH != 0,
            fin_recved: self.flags & Task::FIN_RECVED != 0,
            input_closed: self.flags & Task::INPUT_CLOSED != 0,
            hs: self.hs,
            hs_end_time: self.hs_end_time,
            last_io_time: self.last_io_time,
            session_id: self.session_id@,
            tx_frame: self.tx_frame,
            packet: self.packet@,
            left: self.left,
            at: self.at,
        }
    }
}

impl Task {
    const CLIENT: u32 = 0x01;

    const FLUSH: u32 = 0x02;

    const FIN_RECVED: u32 = 0x04;

    const INPUT_CLOSED: u32 = 0x08;

    /// Flag of a command: the sender closes the connection.
    pub const KCP_FIN: u8 = 0x20;

    /// Command: the sender has dropped the connection.
    pub const KCP_RESET: u8 = 0x08;

    /// How long to wait for the other end while a connection is being closed, in seconds.
    pub const DISCONNECT_TIMEOUT: u32 = 10;

    /// A task that has not begun.
    pub fn new(config: Arc<KcpConfig>) -> (task: Task)
        ensures
            task@ == TaskState::created(*config),
            task@.wf(),
    {
        let task = Task {
            config,
            hs: Handshake::Syn,
            flags: 0,
            hs_end_time: 0,
            last_io_time: 0,
            session_id: Vec::new(),
            tx_frame: None,
            packet: Vec::new(),
            left: 0,
            at: Point::Created,
        };
        assert(0u32 & 1 == 0 && 0u32 & 2 == 0 && 0u32 & 4 == 0 && 0u32 & 8 == 0) by (bit_vector);
        assert(task@ =~= TaskState::created(*config));
        task
    }

    /// The packet at hand.
    pub fn packet(&self) -> (packet: &[u8])
        ensures
            packet@ == self@.packet,
    {
        self.packet.as_slice()
    }

    /// How far the connection has come.
    pub fn handshake(&self) -> (hs: Handshake)
        ensures
            hs == self@.hs,
    {
        self.hs
    }

    /// Whether this end opened the connection.
    pub fn is_client(&self) -> (is: bool)
        ensures
            is == self@.client,
    {
        self.flags & Task::CLIENT != 0
    }

    fn has(&self, state: u32) -> (has: bool)
        ensures
            has == (self.flags & state != 0),
    {
        self.flags & state != 0
    }

    fn mark_client(&mut self)
        ensures
            final(self)@ == (TaskState { client: true, ..old(self)@ }),
    {
        let f: u32 = self.flags;
        assert((f | 1) & 1 != 0 && (f | 1) & 2 == f & 2 && (f | 1) & 4 == f & 4 && (f | 1) & 8 == f
            & 8) by (bit_vector);
        self.flags |= Task::CLIENT;
    }

    fn mark_flush(&mut self)
        ensures
            final(self)@ == (TaskState { flush: true, ..old(self)@ }),
    {
        let f: u32 = self.flags;
        assert((f | 2) & 2 != 0 && (f | 2) & 1 == f & 1 && (f | 2) & 4 == f & 4 && (f | 2) & 8 == f
            & 8) by (bit_vector);
        self.flags |= Task::FLUSH;
    }

    fn clear_flush(&mut self)
        ensures
            final(self)@ == (TaskState { flush: false, ..old(self)@ }),
    {
        if self.has(Task::FLUSH) {
            let f: u32 = self.flags;
            assert(f & 2 != 0 ==> (f ^ 2) & 2 == 0 && (f ^ 2) & 1 == f & 1 && (f ^ 2) & 4 == f & 4
                && (f ^ 2) & 8 == f & 8) by (bit_vector);
            self.flags ^= Task::FLUSH;
        }
    }

    fn mark_fin_recved(&mut self)
        ensures
            final(self)@ == (TaskState { fin_recved: true, ..old(self)@ }),
    {
        let f: u32 = self.flags;
        assert((f | 4) & 4 != 0 && (f | 4) & 1 == f & 1 && (f | 4) & 2 == f & 2 && (f | 4) & 8 == f
            & 8) by (bit_vector);
        self.flags |= Task::FIN_RECVED;
    }

    fn mark_input_closed(&mut self)
        ensures
            final(self)@ == (TaskState { input_closed: true, ..old(self)@ }),
    {
        let f: u32 = self.flags;
        assert((f | 8) & 8 != 0 && (f | 8) & 1 == f & 1 && (f | 8) & 2 == f & 2 && (f | 8) & 4 == f
            & 4) by (bit_vector);
        self.flags |= Task::INPUT_CLOSED;
    }

    /// The engine settings of the connection.
    pub fn kcp_apply_config(&self) -> (tuning: Tuning)
        ensures
            tuning == self@.tuning(),
            tuning.stream == self@.config.stream,
            tuning.mtu == self@.config.mtu,
            tuning.snd_wnd == self@.config.snd_wnd,
            tuning.rcv_wnd == self@.config.rcv_wnd,
            tuning.nodelay == self@.config.nodelay,
    {
        Tuning {
            stream: self.config.stream,
            mtu: self.config.mtu,
            snd_wnd: self.config.snd_wnd,
            rcv_wnd: self.config.rcv_wnd,
            nodelay: self.config.nodelay,
        }
    }

    /// Begins: the engine is set up, with delays that suit the handshake.
    pub fn start(&mut self) -> (action: Action)
        requires
            old(self)@.wf(),
            old(self)@.at == Point::Created,
        ensures
            final(self)@ == (TaskState { at: Point::Configuring, ..old(self)@ }),
            final(self)@.wf(),
            action@ == (ActionState::Configure {
                tuning: old(self)@.tuning(),
                handshake: KcpNoDelayConfig { nodelay: true, interval: 100, resend: 0, nc: false },
            }),
            action@ matches ActionState::Configure { tuning, .. } && {
                &&& tuning.stream == old(self)@.config.stream
                &&& tuning.mtu == old(self)@.config.mtu
                &&& tuning.snd_wnd == old(self)@.config.snd_wnd
                &&& tuning.rcv_wnd == old(self)@.config.rcv_wnd
                &&& tuning.nodelay == old(self)@.config.nodelay
            },
    {
        self.at = Point::Configuring;
        Action::Configure {
            tuning: self.kcp_apply_config(),
            handshake: KcpNoDelayConfig { nodelay: true, interval: 100, resend: 0, nc: false },
        }
    }

    /// The SYN frame and the FIN frame of the session.
    fn handshake_frame(&self) -> (frame: Vec<u8>)
        ensures
            frame@ == self@.handshake_frame(),
    {
        let mut frame: Vec<u8> = vstd::slice::slice_to_vec(&*self.config.session_key);
        let mut i: usize = 0;
        while i < self.session_id.len()
            invariant
                i <= self.session_id@.len(),
                frame@ == crate::frame::content(self.config.session_key) + self.session_id@.take(
                    i as int,
                ),
            decreases self.session_id@.len() - i,
        {
            frame.push(self.session_id[i]);
            i += 1;
            assert(self.session_id@.take(i as int) =~= self.session_id@.take(i - 1).push(
                self.session_id@[i - 1],
            ));
        }
        assert(self.session_id@.take(i as int) =~= self.session_id@);
        frame
    }

    /// Whether the other end has to confirm something before a deadline.
    pub fn is_fin_handshake(&self) -> (is: bool)
        ensures
            is == self@.in_fin_handshake(),
    {
        self.hs == Handshake::FinPending || self.hs == Handshake::FinSent
    }

    /// Takes the closing of the connection as far as it goes without sending anything; returns
    /// whether the FIN frame is due.
    fn fin_transite_state(&mut self, kcp: &Kcp, now: u32) -> (due: bool)
        ensures
            due == old(self)@.fin_due(kcp@),
            final(self)@ == old(self)@.fin_advanced(kcp@, now),
    {
        let mut due: bool = false;
        loop
            invariant_except_break
                !due,
                self@.fin_due(kcp@) == old(self)@.fin_due(kcp@),
                self@.fin_advanced(kcp@, now) == old(self)@.fin_advanced(kcp@, now),
            ensures
                due == old(self)@.fin_due(kcp@),
                self@ == old(self)@.fin_advanced(kcp@, now),
            decreases 6 - self@.hs.rank(),
        {
            match self.hs {
                Handshake::Syn => {
                    self.hs = Handshake::Disconnected;
                },
                Handshake::Connected => {
                    self.hs_end_time = now.wrapping_add(Task::DISCONNECT_TIMEOUT * 1000);
                    self.hs = Handshake::FinPending;
                },
                Handshake::FinPending => {
                    due = self.has(Task::INPUT_CLOSED) && kcp.get_waitsnd() == 0;
                    break;
                },
                Handshake::FinSent => {
                    if kcp.get_waitsnd() > 0 {
                        break;
                    }
                    self.hs = Handshake::FinWaitPeer;
                },
                Handshake::FinWaitPeer => {
                    if !self.has(Task::FIN_RECVED) || kcp.nrcv_que() > 0 || kcp.nrcv_buf() > 0 {
                        break;
                    }
                    self.hs = Handshake::Disconnected;
                },
                Handshake::Disconnected => {
                    break;
                },
            }
        }
        due
    }

    /// The packet as it goes out.
    fn outgoing(&self, packet: Vec<u8>) -> (out: Vec<u8>)
        ensures
            out@ == crate::stream::state::outgoing(self@.hs, packet@),
    {
        let mut out: Vec<u8> = packet;
        if self.hs == Handshake::FinSent && Kcp::read_payload_data(out.as_slice()).is_some() {
            let cmd: u8 = Kcp::read_cmd(out.as_slice()) | Task::KCP_FIN;
            Kcp::write_cmd(out.as_mut_slice(), cmd);
        }
        out
    }

    fn round(&mut self, kcp: &mut Kcp, now: u32) -> (action: Action)
        ensures
            crate::stream::state::is_turn(
                final(self)@,
                final(kcp)@,
                action@,
                old(self)@.round(old(kcp)@, now),
            ),
    {
        reveal(TaskState::round);
        if kcp.has_ouput() {
            self.feed(kcp)
        } else {
            self.decide(kcp, now)
        }
    }

    fn feed(&mut self, kcp: &mut Kcp) -> (action: Action)
        requires
            old(kcp)@.output.len() > 0,
        ensures
            crate::stream::state::is_turn(
                final(self)@,
                final(kcp)@,
                action@,
                old(self)@.feed(old(kcp)@),
            ),
    {
        reveal(TaskState::feed);
        match kcp.pop_output() {
            Some(packet) => {
                let packet: Vec<u8> = self.outgoing(packet);
                self.at = Point::Feeding;
                Action::Feed(packet)
            },
            None => Action::FlushSink,
        }
    }

    /// Whether the connection is to be given up.
    fn is_over(&self, kcp: &Kcp) -> (over: bool)
        ensures
            over == self@.is_over(kcp@),
    {
        let millis: u128 = self.config.session_expire.as_millis();
        let expire: u32 = if millis < u32::MAX as u128 {
            millis as u32
        } else {
            u32::MAX
        };
        self.hs == Handshake::Disconnected || kcp.is_dead_link() || kcp.duration_since(
            self.last_io_time,
        ) >= expire
    }

    fn decide(&mut self, kcp: &mut Kcp, now: u32) -> (action: Action)
        ensures
            crate::stream::state::is_turn(
                final(self)@,
                final(kcp)@,
                action@,
                old(self)@.decide(old(kcp)@, now),
            ),
    {
        reveal(TaskState::decide);
        if self.is_over(kcp) {
            self.finish(kcp)
        } else {
            self.at = Point::Checking { current: now };
            Action::Check { current: now }
        }
    }

    fn checked(&mut self, kcp: &mut Kcp, current: u32, at: u32) -> (action: Action)
        ensures
            crate::stream::state::is_turn(
                final(self)@,
                final(kcp)@,
                action@,
                old(self)@.checked(old(kcp)@, current, at),
            ),
    {
        reveal(TaskState::checked);
        let d: u32 = at.wrapping_sub(current);
        let mut interval: u32 = if d < 60000 {
            d
        } else {
            60000
        };
        if self.is_fin_handshake() {
            let timeout: u32 = self.hs_end_time.wrapping_sub(current);
            if 0 < timeout && timeout < 0x8000_0000 {
                if timeout < interval {
                    interval = timeout;
                }
            } else {
                self.hs = Handshake::Disconnected;
            }
        }
        if interval == 0 {
            self.at = Point::Updating;
            Action::Update { current }
        } else {
            self.at = Point::Waiting;
            Action::Wait {
                interval,
                input: !self.has(Task::INPUT_CLOSED) && !kcp.is_send_queue_full(),
                output: self.tx_frame.is_some(),
            }
        }
    }

    fn close_input(&mut self, kcp: &mut Kcp, now: u32) -> (action: Action)
        ensures
            crate::stream::state::is_turn(
                final(self)@,
                final(kcp)@,
                action@,
                old(self)@.close_input(old(kcp)@, now),
            ),
    {
        reveal(TaskState::close_input);
        self.mark_input_closed();
        self.fin(kcp, now, Then::InputClosed)
    }

    fn fin(&mut self, kcp: &mut Kcp, now: u32, then: Then) -> (action: Action)
        requires
            then == Then::FinPacket ==> old(self)@.packet.len() > 4,
        ensures
            crate::stream::state::is_turn(
                final(self)@,
                final(kcp)@,
                action@,
                old(self)@.fin(old(kcp)@, now, then),
            ),
    {
        reveal(TaskState::fin);
        let due: bool = self.fin_transite_state(kcp, now);
        if due {
            self.mark_flush();
            self.at = Point::Finishing { then };
            Action::SendHandshake(self.handshake_frame())
        } else {
            self.after_fin(kcp, now, then)
        }
    }

    fn fin_sent(&mut self, kcp: &mut Kcp, now: u32, then: Then) -> (action: Action)
        requires
            then == Then::FinPacket ==> old(self)@.packet.len() > 4,
        ensures
            crate::stream::state::is_turn(
                final(self)@,
                final(kcp)@,
                action@,
                old(self)@.fin_sent(old(kcp)@, now, then),
            ),
    {
        reveal(TaskState::fin_sent);
        self.clear_flush();
        self.last_io_time = kcp.current();
        self.hs = Handshake::FinSent;
        let _ = self.fin_transite_state(kcp, now);
        self.after_fin(kcp, now, then)
    }

    fn after_fin(&mut self, kcp: &mut Kcp, now: u32, then: Then) -> (action: Action)
        requires
            then == Then::FinPacket ==> old(self)@.packet.len() > 4,
        ensures
            crate::stream::state::is_turn(
                final(self)@,
                final(kcp)@,
                action@,
                old(self)@.after_fin(old(kcp)@, now, then),
            ),
    {
        reveal(TaskState::after_fin);
        match then {
            Then::InputClosed => self.kcp_flush(kcp, now),
            Then::FinPacket => {
                let cmd: u8 = Kcp::read_cmd(self.packet.as_slice()) ^ Task::KCP_FIN;
                Kcp::write_cmd(self.packet.as_mut_slice(), cmd);
                self.at = Point::FinEntering;
                Action::Input
            },
            Then::PacketsDone => self.fetch(kcp, now),
        }
    }

    fn kcp_flush(&mut self, kcp: &mut Kcp, now: u32) -> (action: Action)
        ensures
            crate::stream::state::is_turn(
                final(self)@,
                final(kcp)@,
                action@,
                old(self)@.flush_engine(old(kcp)@, now),
            ),
    {
        reveal(TaskState::flush_engine);
        if self.has(Task::FLUSH) {
            self.clear_flush();
            self.at = Point::Flushing;
            Action::Flush
        } else {
            self.round(kcp, now)
        }
    }

    fn process_input(&mut self, kcp: &mut Kcp, now: u32, ok: bool) -> (action: Action)
        ensures
            crate::stream::state::is_turn(
                final(self)@,
                final(kcp)@,
                action@,
                old(self)@.frame_sent(old(kcp)@, now, ok),
            ),
    {
        reveal(TaskState::frame_sent);
        if ok && (self.config.nodelay.nodelay || kcp.nsnd_que() > 1) {
            self.mark_flush();
        }
        if !kcp.is_send_queue_full() {
            self.at = Point::TryingInput;
            Action::TryInput
        } else {
            self.kcp_flush(kcp, now)
        }
    }

    fn deliver(&mut self, kcp: &mut Kcp) -> (action: Action)
        ensures
            crate::stream::state::is_turn(
                final(self)@,
                final(kcp)@,
                action@,
                old(self)@.deliver(old(kcp)@),
            ),
    {
        reveal(TaskState::deliver);
        match self.tx_frame.take() {
            Some(frame) => {
                self.at = Point::Delivering;
                Action::Deliver(frame)
            },
            None => self.kcp_recv(kcp, Purpose::Drain),
        }
    }

    fn kcp_recv(&mut self, kcp: &mut Kcp, purpose: Purpose) -> (action: Action)
        ensures
            crate::stream::state::is_turn(
                final(self)@,
                final(kcp)@,
                action@,
                old(self)@.receive(old(kcp)@, purpose),
            ),
    {
        reveal(TaskState::receive);
        let fin: bool = self.has(Task::FIN_RECVED) && kcp.nrcv_que() == 1 && kcp.nrcv_buf() == 0;
        self.at = Point::Receiving { purpose, fin };
        Action::Recv
    }

    fn enter(&mut self, kcp: &mut Kcp, packet: Vec<u8>) -> (action: Action)
        ensures
            crate::stream::state::is_turn(
                final(self)@,
                final(kcp)@,
                action@,
                old(self)@.enter(old(kcp)@, packet@),
            ),
    {
        reveal(TaskState::enter);
        self.packet = packet;
        self.at = Point::Entering;
        Action::Input
    }

    fn next_packet(&mut self, kcp: &mut Kcp, now: u32) -> (action: Action)
        ensures
            crate::stream::state::is_turn(
                final(self)@,
                final(kcp)@,
                action@,
                old(self)@.next_packet(old(kcp)@, now),
            ),
    {
        reveal(TaskState::next_packet);
        if self.left > 0 {
            self.left -= 1;
            self.at = Point::Polling;
            Action::PollPacket
        } else {
            self.packets_done(kcp, now)
        }
    }

    fn syn_handshake_input(&mut self, kcp: &mut Kcp, now: u32) -> (action: Action)
        ensures
            crate::stream::state::is_turn(
                final(self)@,
                final(kcp)@,
                action@,
                old(self)@.foreign_packet(old(kcp)@, now),
            ),
    {
        reveal(TaskState::foreign_packet);
        if let Some(conv) = Kcp::read_conv(self.packet.as_slice()) {
            if self.is_client() {
                if self.hs == Handshake::Syn && conv != KcpStream::SYN_CONV {
                    self.at = Point::SwitchedEntering { mine: kcp.conv() };
                    kcp.set_conv(conv);
                    return Action::Input;
                }
            } else if conv == KcpStream::SYN_CONV {
                self.at = Point::SwitchedEntering { mine: kcp.conv() };
                kcp.set_conv(conv);
                return Action::Input;
            }
        }
        self.next_packet(kcp, now)
    }

    fn switched(&mut self, kcp: &mut Kcp, now: u32, mine: u32, ok: bool) -> (action: Action)
        ensures
            crate::stream::state::is_turn(
                final(self)@,
                final(kcp)@,
                action@,
                old(self)@.switched(old(kcp)@, now, mine, ok),
            ),
    {
        reveal(TaskState::switched);
        if !self.is_client() {
            kcp.set_conv(mine);
        } else if !ok || kcp.get_waitsnd() > 0 {
            kcp.set_conv(KcpStream::SYN_CONV);
        }
        self.next_packet(kcp, now)
    }

    fn flagged_packet(&mut self, kcp: &mut Kcp, now: u32) -> (action: Action)
        requires
            old(self)@.packet.len() > 4,
        ensures
            crate::stream::state::is_turn(
                final(self)@,
                final(kcp)@,
                action@,
                old(self)@.flagged_packet(old(kcp)@, now),
            ),
    {
        reveal(TaskState::flagged_packet);
        let cmd: u8 = Kcp::read_cmd(self.packet.as_slice());
        if cmd & Task::KCP_RESET != 0 {
            self.hs = Handshake::Disconnected;
            self.next_packet(kcp, now)
        } else if cmd & Task::KCP_FIN != 0 {
            if self.has(Task::FIN_RECVED) {
                self.fin(kcp, now, Then::FinPacket)
            } else {
                self.mark_fin_recved();
                self.at = Point::ClosingInput;
                Action::CloseInput
            }
        } else {
            self.next_packet(kcp, now)
        }
    }

    fn kcp_input(&mut self, kcp: &mut Kcp, now: u32, r: Result<(), ErrorKind>) -> (action: Action)
        requires
            r is Ok || r == Err::<(), ErrorKind>(ErrorKind::NotFound) || old(self)@.packet.len() > 4,
        ensures
            crate::stream::state::is_turn(
                final(self)@,
                final(kcp)@,
                action@,
                old(self)@.entered(old(kcp)@, now, r),
            ),
    {
        reveal(TaskState::entered);
        match r {
            Ok(_) => {
                self.mark_flush();
                self.next_packet(kcp, now)
            },
            Err(ErrorKind::NotFound) => self.syn_handshake_input(kcp, now),
            Err(_) => self.flagged_packet(kcp, now),
        }
    }

    fn packets_done(&mut self, kcp: &mut Kcp, now: u32) -> (action: Action)
        ensures
            crate::stream::state::is_turn(
                final(self)@,
                final(kcp)@,
                action@,
                old(self)@.packets_done(old(kcp)@, now),
            ),
    {
        reveal(TaskState::packets_done);
        if self.hs == Handshake::Syn {
            self.kcp_recv(kcp, Purpose::Syn)
        } else {
            self.after_syn(kcp, now)
        }
    }

    fn after_syn(&mut self, kcp: &mut Kcp, now: u32) -> (action: Action)
        ensures
            crate::stream::state::is_turn(
                final(self)@,
                final(kcp)@,
                action@,
                old(self)@.after_syn(old(kcp)@, now),
            ),
    {
        reveal(TaskState::after_syn);
        if self.is_fin_handshake() {
            self.fin(kcp, now, Then::PacketsDone)
        } else {
            self.fetch(kcp, now)
        }
    }

    fn fetch(&mut self, kcp: &mut Kcp, now: u32) -> (action: Action)
        ensures
            crate::stream::state::is_turn(
                final(self)@,
                final(kcp)@,
                action@,
                old(self)@.fetch(old(kcp)@, now),
            ),
    {
        reveal(TaskState::fetch);
        if self.tx_frame.is_none() {
            self.kcp_recv(kcp, Purpose::Fetch)
        } else {
            self.kcp_flush(kcp, now)
        }
    }

    /// The session ID in a SYN frame, if the frame carries the right key and an ID of the right
    /// length.
    fn syn_session_id<'a>(&self, frame: &'a [u8]) -> (id: Option<&'a [u8]>)
        ensures
            id is Some <==> self@.syn_session_id(frame@) is Some,
            id matches Some(i) ==> self@.syn_session_id(frame@) == Some(i@),
    {
        match strip_prefix(frame, &*self.config.session_key) {
            Some(id) => if id.len() == self.config.session_id_len {
                Some(id)
            } else {
                None
            },
            None => None,
        }
    }

    fn syn_handshake_recv(&mut self, kcp: &mut Kcp, now: u32, frame: Bytes) -> (action: Action)
        ensures
            crate::stream::state::is_turn(
                final(self)@,
                final(kcp)@,
                action@,
                old(self)@.syn_received(old(kcp)@, now, crate::frame::content(frame)),
            ),
    {
        reveal(TaskState::syn_received);
        if let Some(id) = self.syn_session_id(&*frame) {
            if !self.is_client() || same_bytes(self.session_id.as_slice(), id) {
                self.session_id = vstd::slice::slice_to_vec(id);
                self.at = Point::Tuning;
                return Action::SetNodelay(self.config.nodelay);
            }
        }
        self.hs = Handshake::Disconnected;
        self.after_syn(kcp, now)
    }

    fn received(
        &mut self,
        kcp: &mut Kcp,
        now: u32,
        purpose: Purpose,
        frame: Option<Bytes>,
    ) -> (action: Action)
        ensures
            crate::stream::state::is_turn(
                final(self)@,
                final(kcp)@,
                action@,
                old(self)@.received(old(kcp)@, now, purpose, frame),
            ),
    {
        reveal(TaskState::received);
        match purpose {
            Purpose::Syn => match frame {
                Some(frame) => self.syn_handshake_recv(kcp, now, frame),
                None => self.after_syn(kcp, now),
            },
            Purpose::Drain => match frame {
                Some(frame) => {
                    self.tx_frame = Some(frame);
                    self.at = Point::Reserving;
                    Action::TryReserve
                },
                None => self.round(kcp, now),
            },
            Purpose::Fetch => {
                self.tx_frame = frame;
                self.kcp_flush(kcp, now)
            },
        }
    }

    fn tuned(&mut self, kcp: &mut Kcp) -> (action: Action)
        ensures
            crate::stream::state::is_turn(
                final(self)@,
                final(kcp)@,
                action@,
                old(self)@.tuned(old(kcp)@),
            ),
    {
        reveal(TaskState::tuned);
        if self.is_client() {
            self.connected(kcp)
        } else {
            self.mark_flush();
            self.at = Point::Answering;
            Action::SendHandshake(self.handshake_frame())
        }
    }

    fn connected(&mut self, kcp: &mut Kcp) -> (action: Action)
        ensures
            crate::stream::state::is_turn(
                final(self)@,
                final(kcp)@,
                action@,
                old(self)@.connected(old(kcp)@),
            ),
    {
        reveal(TaskState::connected);
        self.hs = Handshake::Connected;
        self.at = Point::Notifying;
        Action::NotifyConnected { conv: kcp.conv() }
    }

    fn finish(&mut self, kcp: &mut Kcp) -> (action: Action)
        ensures
            crate::stream::state::is_turn(
                final(self)@,
                final(kcp)@,
                action@,
                old(self)@.finish(old(kcp)@),
            ),
    {
        reveal(TaskState::finish);
        self.tx_frame = None;
        self.at = Point::Closing;
        Action::CloseChannels
    }

    fn closed(&mut self, kcp: &mut Kcp) -> (action: Action)
        ensures
            crate::stream::state::is_turn(
                final(self)@,
                final(kcp)@,
                action@,
                old(self)@.closed(old(kcp)@),
            ),
    {
        reveal(TaskState::closed);
        if KcpStream::is_valid_conv(kcp.conv()) {
            self.at = Point::Resetting;
            Action::SendReset(kcp.write_ack_head(Task::KCP_RESET, 0))
        } else {
            self.report(kcp)
        }
    }

    fn report(&mut self, kcp: &mut Kcp) -> (action: Action)
        ensures
            crate::stream::state::is_turn(
                final(self)@,
                final(kcp)@,
                action@,
                old(self)@.report(old(kcp)@),
            ),
    {
        reveal(TaskState::report);
        self.at = Point::Reporting;
        Action::ReportDisconnect { conv: kcp.conv() }
    }

    fn configured(&mut self, kcp: &mut Kcp, now: u32, id: Vec<u8>) -> (action: Action)
        ensures
            crate::stream::state::is_turn(
                final(self)@,
                final(kcp)@,
                action@,
                old(self)@.configured(old(kcp)@, now, id@),
            ),
    {
        reveal(TaskState::configured);
        self.last_io_time = kcp.current();
        if kcp.conv() == KcpStream::SYN_CONV {
            self.mark_client();
            self.session_id = id;
            self.mark_flush();
            self.at = Point::Greeting;
            Action::SendHandshake(self.handshake_frame())
        } else {
            self.round(kcp, now)
        }
    }

    fn fed(&mut self, kcp: &mut Kcp, ok: bool) -> (action: Action)
        ensures
            crate::stream::state::is_turn(
                final(self)@,
                final(kcp)@,
                action@,
                old(self)@.fed(old(kcp)@, ok),
            ),
    {
        reveal(TaskState::fed);
        if !ok {
            kcp.clear_output();
        }
        if kcp.has_ouput() {
            self.feed(kcp)
        } else {
            self.at = Point::FlushingSink;
            Action::FlushSink
        }
    }

    fn flushed(&mut self, kcp: &Kcp)
        ensures
            final(self)@ == old(self)@.flushed(kcp@),
    {
        self.clear_flush();
        self.last_io_time = kcp.current();
    }

    fn send(&mut self, kcp: &mut Kcp, frame: Bytes) -> (action: Action)
        ensures
            crate::stream::state::is_turn(
                final(self)@,
                final(kcp)@,
                action@,
                old(self)@.send(old(kcp)@, frame),
            ),
    {
        reveal(TaskState::send);
        self.at = Point::SendingFrame;
        Action::Send(frame)
    }

    fn woken(&mut self, kcp: &mut Kcp, now: u32, event: Event) -> (action: Action)
        ensures
            crate::stream::state::is_turn(
                final(self)@,
                final(kcp)@,
                action@,
                old(self)@.woken(old(kcp)@, now, event@),
            ),
    {
        reveal(TaskState::woken);
        match event {
            Event::Input(Some(frame)) => self.send(kcp, frame),
            Event::Input(None) => self.close_input(kcp, now),
            Event::Permit(true) => self.deliver(kcp),
            Event::Packet(Some(packet)) => {
                self.left = if self.config.rcv_wnd > 0 {
                    self.config.rcv_wnd - 1
                } else {
                    0
                };
                self.enter(kcp, packet)
            },
            Event::Timeout => self.round(kcp, now),
            _ => self.finish(kcp),
        }
    }

    fn notified(&mut self, kcp: &mut Kcp, now: u32, ok: bool) -> (action: Action)
        ensures
            crate::stream::state::is_turn(
                final(self)@,
                final(kcp)@,
                action@,
                old(self)@.notified(old(kcp)@, now, ok),
            ),
    {
        reveal(TaskState::notified);
        if !ok {
            self.hs = Handshake::Disconnected;
        }
        self.after_syn(kcp, now)
    }

    fn stop(&mut self, kcp: &mut Kcp) -> (action: Action)
        ensures
            crate::stream::state::is_turn(
                final(self)@,
                final(kcp)@,
                action@,
                old(self)@.stop(old(kcp)@),
            ),
    {
        reveal(TaskState::stop);
        self.at = Point::Stopped;
        Action::Stop
    }

    /// Takes the event to which the last action led, at the time `now` of the engine's clock, and
    /// says what to do next.
    pub fn step(&mut self, kcp: &mut Kcp, now: u32, event: Event) -> (action: Action)
        requires
            old(self)@.wf(),
            old(self)@.awaits(event@),
        ensures
            crate::stream::state::is_turn(
                final(self)@,
                final(kcp)@,
                action@,
                old(self)@.turn(old(kcp)@, now, event@),
            ),
            final(self)@.wf(),
    {
        proof {
            crate::stream::laws::law_steps_go_forward(self@, kcp@, now, event@);
        }
        match self.at {
            Point::Configuring => match event {
                Event::Configured(id) => self.configured(kcp, now, id),
                _ => self.stop(kcp),
            },
            Point::Greeting | Point::Flushing => {
                self.flushed(kcp);
                self.round(kcp, now)
            },
            Point::Feeding => match event {
                Event::Fed(ok) => self.fed(kcp, ok),
                _ => self.finish(kcp),
            },
            Point::FlushingSink => match event {
                Event::Done => self.decide(kcp, now),
                _ => self.finish(kcp),
            },
            Point::Checking { current } => match event {
                Event::Checked(at) => self.checked(kcp, current, at),
                _ => self.stop(kcp),
            },
            Point::Updating => self.round(kcp, now),
            Point::Waiting => self.woken(kcp, now, event),
            Point::SendingFrame => match event {
                Event::FrameSent(ok) => self.process_input(kcp, now, ok),
                _ => self.stop(kcp),
            },
            Point::TryingInput => match event {
                Event::MoreInput(frame) => self.send(kcp, frame),
                Event::NoInput => self.kcp_flush(kcp, now),
                _ => self.close_input(kcp, now),
            },
            Point::Delivering => self.kcp_recv(kcp, Purpose::Drain),
            Point::Reserving => match event {
                Event::Reserved(true) => self.deliver(kcp),
                _ => self.round(kcp, now),
            },
            Point::Receiving { purpose, fin } => match event {
                Event::Received(frame) => self.received(
                    kcp,
                    now,
                    purpose,
                    if fin {
                        None
                    } else {
                        frame
                    },
                ),
                _ => self.stop(kcp),
            },
            Point::Entering => match event {
                Event::InputDone(r) => self.kcp_input(kcp, now, r),
                _ => self.stop(kcp),
            },
            Point::SwitchedEntering { mine } => match event {
                Event::InputDone(r) => self.switched(kcp, now, mine, r.is_ok()),
                _ => self.stop(kcp),
            },
            Point::FinEntering => self.next_packet(kcp, now),
            Point::Polling => match event {
                Event::Polled(Some(packet)) => self.enter(kcp, packet),
                _ => self.packets_done(kcp, now),
            },
            Point::ClosingInput => self.fin(kcp, now, Then::FinPacket),
            Point::Finishing { then } => self.fin_sent(kcp, now, then),
            Point::Tuning => self.tuned(kcp),
            Point::Answering => {
                self.flushed(kcp);
                self.connected(kcp)
            },
            Point::Notifying => match event {
                Event::Notified(ok) => self.notified(kcp, now, ok),
                _ => self.stop(kcp),
            },
            Point::Closing => self.closed(kcp),
            Point::Resetting => self.report(kcp),
            Point::Reporting | Point::Created | Point::Stopped => self.stop(kcp),
        }
    }
}

} // verus!

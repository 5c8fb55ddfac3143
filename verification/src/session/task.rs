//! The state machine that drives a connection without a handshake.

use crate::addr::PeerAddr;
use crate::protocol::Kcp;
use crate::session::state::{Action, ActionState, Event, Message, Point, TaskState};
use bytes::Bytes;
use vstd::prelude::*;

verus! {

/// Drives one connection.
pub struct Task {
    peer_addr: PeerAddr,
    rx_buf_len: usize,
    tx_frame: Option<Bytes>,
    sent: bool,
    received: u32,
    at: Point,
}

impl View for Task {
    type V = TaskState;

    closed spec fn view(&self) -> TaskState {
        TaskState {
            peer_addr: self.peer_addr,
            buffer: self.rx_buf_len as int,
            tx_frame: self.tx_frame,
            sent: self.sent,
            received: self.received,
            at: self.at,
        }
    }
}

impl Task {
    /// A task that has not begun.
    pub fn new(peer_addr: PeerAddr) -> (task: Task)
        ensures
            task@ == TaskState::created(peer_addr),
            task@.wf(),
    {
        Task {
            peer_addr,
            rx_buf_len: 0,
            tx_frame: None,
            sent: false,
            received: 0,
            at: Point::Created,
        }
    }

    /// The size that the buffer for packets has to have.
    pub fn rx_buf_len(&self) -> (len: usize)
        ensures
            len == self@.buffer,
    {
        self.rx_buf_len
    }

    /// The first action.
    pub fn start(&mut self) -> (action: Action)
        requires
            old(self)@.at == Point::Created,
        ensures
            action@ == ActionState::Initialize,
            final(self)@ == (TaskState { at: Point::Initializing, ..old(self)@ }),
            final(self)@.wf(),
    {
        self.at = Point::Initializing;
        Action::Initialize
    }

    fn kcp_mut_changed(&mut self, kcp: &Kcp)
        ensures
            final(self)@ == old(self)@.grown(kcp@),
    {
        let mtu: usize = kcp.control_block().mtu as usize;
        if self.rx_buf_len < mtu {
            self.rx_buf_len = mtu;
        }
    }

    fn round(&mut self, kcp: &mut Kcp, now: u32) -> (action: Action)
        ensures
            crate::session::state::is_turn(
                final(self)@,
                final(kcp)@,
                action@,
                old(self)@.round(old(kcp)@, now),
            ),
    {
        match kcp.pop_output() {
            Some(packet) => {
                self.at = Point::SendingPacket;
                Action::SendTo(packet)
            },
            None => {
                self.at = Point::Checking { current: now };
                Action::Check { current: now }
            },
        }
    }

    /// A packet was sent, or could not be sent.
    fn kcp_output(&mut self, kcp: &mut Kcp, now: u32, ok: bool) -> (action: Action)
        ensures
            crate::session::state::is_turn(
                final(self)@,
                final(kcp)@,
                action@,
                old(self)@.sent_to(old(kcp)@, now, ok),
            ),
    {
        if !ok {
            kcp.clear_output();
        }
        self.round(kcp, now)
    }

    fn checked(&mut self, kcp: &Kcp, current: u32, at: u32) -> (action: Action)
        ensures
            crate::session::state::is_turn(
                final(self)@,
                kcp@,
                action@,
                old(self)@.checked(kcp@, current, at),
            ),
    {
        let interval: u32 = at.wrapping_sub(current);
        if interval == 0 {
            self.at = Point::Updating;
            Action::Update { current }
        } else {
            self.at = Point::Waiting;
            Action::Wait {
                interval,
                input: !kcp.is_send_queue_full(),
                output: self.tx_frame.is_some(),
            }
        }
    }

    fn process_msg(&mut self, kcp: &mut Kcp, now: u32, msg: Message) -> (action: Action)
        ensures
            crate::session::state::is_turn(
                final(self)@,
                final(kcp)@,
                action@,
                old(self)@.process_msg(old(kcp)@, now, msg),
            ),
    {
        match msg {
            Message::Frame(data) => {
                self.at = Point::SendingFrame { len: data.len() };
                Action::Send(data)
            },
            Message::Mtu(mtu) => {
                self.at = Point::SettingMtu;
                Action::SetMtu(mtu)
            },
            Message::Flush => {
                self.sent = true;
                self.processed(kcp, now)
            },
        }
    }

    fn processed(&mut self, kcp: &mut Kcp, now: u32) -> (action: Action)
        ensures
            crate::session::state::is_turn(
                final(self)@,
                final(kcp)@,
                action@,
                old(self)@.processed(old(kcp)@, now),
            ),
    {
        if !kcp.is_send_queue_full() {
            self.at = Point::TryingMessage;
            Action::TryMessage
        } else {
            self.messages_done(kcp, now)
        }
    }

    fn messages_done(&mut self, kcp: &mut Kcp, now: u32) -> (action: Action)
        ensures
            crate::session::state::is_turn(
                final(self)@,
                final(kcp)@,
                action@,
                old(self)@.messages_done(old(kcp)@, now),
            ),
    {
        if self.sent {
            self.at = Point::Flushing;
            Action::Flush
        } else {
            self.round(kcp, now)
        }
    }

    fn deliver(&mut self, kcp: &Kcp) -> (action: Action)
        ensures
            crate::session::state::is_turn(
                final(self)@,
                kcp@,
                action@,
                old(self)@.deliver(kcp@),
            ),
    {
        match self.tx_frame.take() {
            Some(frame) => {
                self.at = Point::Delivering;
                Action::Deliver(frame)
            },
            None => {
                self.at = Point::Receiving { drain: true };
                Action::Recv
            },
        }
    }

    fn received(
        &mut self,
        kcp: &mut Kcp,
        now: u32,
        drain: bool,
        frame: Option<Bytes>,
    ) -> (action: Action)
        ensures
            crate::session::state::is_turn(
                final(self)@,
                final(kcp)@,
                action@,
                old(self)@.received(old(kcp)@, now, drain, frame),
            ),
    {
        let some: bool = frame.is_some();
        self.tx_frame = frame;
        if !drain {
            self.at = Point::Flushing;
            Action::Flush
        } else if some {
            self.at = Point::Reserving;
            Action::TryReserve
        } else {
            self.round(kcp, now)
        }
    }

    fn kcp_input(&mut self, kcp: &Kcp) -> (action: Action)
        ensures
            crate::session::state::is_turn(
                final(self)@,
                kcp@,
                action@,
                old(self)@.entered(kcp@),
            ),
    {
        if self.received < kcp.control_block().rcv_wnd {
            self.at = Point::Polling;
            Action::PollPacket
        } else {
            self.packets_done(kcp)
        }
    }

    fn polled(&mut self, kcp: &Kcp, event: Event) -> (action: Action)
        requires
            old(self)@.received < kcp@.cb.rcv_wnd,
        ensures
            crate::session::state::is_turn(
                final(self)@,
                kcp@,
                action@,
                old(self)@.polled(kcp@, event),
            ),
    {
        match event {
            Event::Packet(addr) => {
                if addr == self.peer_addr {
                    self.received += 1;
                    self.at = Point::Entering;
                    Action::Input
                } else {
                    self.kcp_input(kcp)
                }
            },
            _ => self.packets_done(kcp),
        }
    }

    fn packets_done(&mut self, kcp: &Kcp) -> (action: Action)
        ensures
            crate::session::state::is_turn(
                final(self)@,
                kcp@,
                action@,
                old(self)@.packets_done(kcp@),
            ),
    {
        if self.tx_frame.is_none() {
            self.at = Point::Receiving { drain: false };
            Action::Recv
        } else {
            self.at = Point::Flushing;
            Action::Flush
        }
    }

    fn woken(&mut self, kcp: &mut Kcp, now: u32, event: Event) -> (action: Action)
        ensures
            crate::session::state::is_turn(
                final(self)@,
                final(kcp)@,
                action@,
                old(self)@.woken(old(kcp)@, now, event),
            ),
    {
        match event {
            Event::Message(msg) => {
                self.sent = false;
                self.process_msg(kcp, now, msg)
            },
            Event::Permit => self.deliver(kcp),
            Event::Packet(addr) => {
                if addr == self.peer_addr {
                    self.received = 1;
                    self.at = Point::Entering;
                    Action::Input
                } else {
                    self.round(kcp, now)
                }
            },
            Event::Cancelled => self.stop(),
            _ => self.round(kcp, now),
        }
    }

    fn stop(&mut self) -> (action: Action)
        ensures
            final(self)@ == (TaskState { at: Point::Stopped, ..old(self)@ }),
            action@ == ActionState::Stop,
    {
        self.at = Point::Stopped;
        Action::Stop
    }

    /// What to do next. `now` is the time in milliseconds.
    pub fn step(&mut self, kcp: &mut Kcp, now: u32, event: Event) -> (action: Action)
        requires
            old(self)@.wf(),
            old(self)@.awaits(old(kcp)@, event),
        ensures
            crate::session::state::is_turn(
                final(self)@,
                final(kcp)@,
                action@,
                old(self)@.turn(old(kcp)@, now, event),
            ),
            final(self)@.wf(),
    {
        match self.at {
            Point::Initializing => {
                self.kcp_mut_changed(kcp);
                self.round(kcp, now)
            },
            Point::SendingPacket => match event {
                Event::SentTo(ok) => self.kcp_output(kcp, now, ok),
                _ => self.kcp_output(kcp, now, false),
            },
            Point::Checking { current } => match event {
                Event::Checked(at) => self.checked(kcp, current, at),
                _ => self.stop(),
            },
            Point::Updating | Point::Flushing => self.round(kcp, now),
            Point::Waiting => self.woken(kcp, now, event),
            Point::SendingFrame { len } => {
                if let Event::FrameSent(true) = event {
                    if len > 0 {
                        self.sent = true;
                    }
                }
                self.processed(kcp, now)
            },
            Point::SettingMtu => {
                if let Event::MtuSet(true) = event {
                    self.kcp_mut_changed(kcp);
                }
                self.processed(kcp, now)
            },
            Point::TryingMessage => match event {
                Event::Message(msg) => self.process_msg(kcp, now, msg),
                _ => self.messages_done(kcp, now),
            },
            Point::Delivering => {
                self.at = Point::Receiving { drain: true };
                Action::Recv
            },
            Point::Receiving { drain } => match event {
                Event::Received(frame) => self.received(kcp, now, drain, frame),
                _ => self.stop(),
            },
            Point::Reserving => match event {
                Event::Reserved(true) => self.deliver(kcp),
                _ => self.round(kcp, now),
            },
            Point::Entering => self.kcp_input(kcp),
            Point::Polling => self.polled(kcp, event),
            Point::Created | Point::Stopped => self.stop(),
        }
    }
}

} // verus!

//! The states of a connection, and what each event leads to.

use crate::config::{KcpConfig, KcpNoDelayConfig};
use crate::error::ErrorKind;
use crate::ffi::IKCPCB;
use crate::protocol::KcpState;
use crate::stream::KcpStream;
use bytes::Bytes;
use vstd::prelude::*;

verus! {

/// How far a connection has come.
#[derive(Clone, Copy, Debug, PartialEq, Eq, Structural)]
pub enum Handshake {
    /// Waiting for the SYN frame of the other end.
    Syn,
    /// Established.
    Connected,
    /// To be closed: waiting until everything sent is confirmed.
    FinPending,
    /// The FIN frame is sent: waiting until it is confirmed.
    FinSent,
    /// Waiting for the FIN frame of the other end.
    FinWaitPeer,
    /// Over.
    Disconnected,
}

impl Handshake {
    /// The place of a state in the order in which they follow each other.
    pub open spec fn rank(self) -> int {
        match self {
            Handshake::Syn => 0,
            Handshake::Connected => 1,
            Handshake::FinPending => 2,
            Handshake::FinSent => 3,
            Handshake::FinWaitPeer => 4,
            Handshake::Disconnected => 5,
        }
    }
}

/// What follows once a FIN frame is on its way.
#[derive(Clone, Copy, Debug, PartialEq, Eq, Structural)]
pub enum Then {
    /// The user has closed the input.
    InputClosed,
    /// A packet with the FIN flag is at hand.
    FinPacket,
    /// A batch of packets has been handled.
    PacketsDone,
}

/// What a frame is fetched for.
#[derive(Clone, Copy, Debug, PartialEq, Eq, Structural)]
pub enum Purpose {
    /// It is the SYN frame.
    Syn,
    /// To be delivered right away.
    Drain,
    /// To be kept for delivery.
    Fetch,
}

/// The action that the task waits for.
#[derive(Clone, Copy, Debug, PartialEq, Eq, Structural)]
pub enum Point {
    /// Not started.
    Created,
    /// The engine is being set up.
    Configuring,
    /// The SYN frame of a client is being sent.
    Greeting,
    /// A packet is being handed to the transport.
    Feeding,
    /// The transport is being flushed.
    FlushingSink,
    /// The engine is asked when it has to be updated.
    Checking { current: u32 },
    /// The engine is being updated.
    Updating,
    /// Waiting for something to happen.
    Waiting,
    /// A frame of the user is being sent.
    SendingFrame,
    /// Looking for another frame of the user.
    TryingInput,
    /// The engine is being flushed.
    Flushing,
    /// A frame is being delivered to the user.
    Delivering,
    /// Looking for room to deliver another frame.
    Reserving,
    /// A frame is being fetched; `fin` tells the FIN frame from others.
    Receiving { purpose: Purpose, fin: bool },
    /// A packet is being fed to the engine.
    Entering,
    /// A packet is being fed to the engine under another conversation number; `mine` is the
    /// engine's own.
    SwitchedEntering { mine: u32 },
    /// A packet whose FIN flag has been cleared is being fed to the engine.
    FinEntering,
    /// Looking for another packet.
    Polling,
    /// The input channel is being closed.
    ClosingInput,
    /// The FIN frame is being sent.
    Finishing { then: Then },
    /// The engine's delays are being set.
    Tuning,
    /// The SYN frame of a server is being sent.
    Answering,
    /// The user is being told of the connection.
    Notifying,
    /// The channels are being closed.
    Closing,
    /// The RESET packet is being sent.
    Resetting,
    /// The end is being reported.
    Reporting,
    /// Over.
    Stopped,
}

/// The engine settings of a connection.
#[derive(Clone, Copy, Debug, PartialEq, Eq, Structural)]
pub struct Tuning {
    pub stream: bool,
    pub mtu: u32,
    pub snd_wnd: u32,
    pub rcv_wnd: u32,
    pub nodelay: KcpNoDelayConfig,
}

/// What the runtime has to do next.
#[derive(Debug)]
pub enum Action {
    /// Initialise the engine and apply `tuning`, then set the delays to `handshake`.
    Configure { tuning: Tuning, handshake: KcpNoDelayConfig },
    /// Send this frame, update the engine to the present time, flush it.
    SendHandshake(Vec<u8>),
    /// Hand this packet to the transport.
    Feed(Vec<u8>),
    /// Flush the transport.
    FlushSink,
    /// Ask the engine when it has to be updated.
    Check { current: u32 },
    /// Update the engine.
    Update { current: u32 },
    /// Wait: for a packet, for cancellation, for `interval` milliseconds to pass, if `input` for a
    /// frame of the user, if `output` for room to deliver a frame to the user.
    Wait { interval: u32, input: bool, output: bool },
    /// Send this frame.
    Send(Bytes),
    /// Look whether the user has another frame.
    TryInput,
    /// Update the engine to the present time and flush it.
    Flush,
    /// Deliver this frame to the user; there is room for it.
    Deliver(Bytes),
    /// Look whether there is room to deliver a frame.
    TryReserve,
    /// Fetch a frame from the engine.
    Recv,
    /// Feed the packet at hand to the engine.
    Input,
    /// Look whether there is another packet.
    PollPacket,
    /// Take no more frames into the channel from the user.
    CloseInput,
    /// Set the engine's delays.
    SetNodelay(KcpNoDelayConfig),
    /// Tell the user that the connection stands.
    NotifyConnected { conv: u32 },
    /// Close the channels to and from the user and discard what is left in them.
    CloseChannels,
    /// Send this packet over the transport.
    SendReset(Vec<u8>),
    /// Report the end of the conversation.
    ReportDisconnect { conv: u32 },
    /// Nothing any more.
    Stop,
}

/// What the last action led to.
#[derive(Debug)]
pub enum Event {
    /// It is done.
    Done,
    /// The engine is set up; the bytes are a session ID to be used by a client.
    Configured(Vec<u8>),
    /// Whether the transport took the packet.
    Fed(bool),
    /// When the engine has to be updated.
    Checked(u32),
    /// A frame of the user; `None` if there will be no more.
    Input(Option<Bytes>),
    /// There is room to deliver a frame, or there never will be.
    Permit(bool),
    /// A packet; `None` if there will be no more.
    Packet(Option<Vec<u8>>),
    /// The time is up.
    Timeout,
    /// The task is cancelled.
    Cancelled,
    /// Whether the engine took the frame.
    FrameSent(bool),
    /// Another frame of the user.
    MoreInput(Bytes),
    /// The user has no other frame at present.
    NoInput,
    /// The user will have no other frame.
    InputClosed,
    /// Whether there is room to deliver a frame.
    Reserved(bool),
    /// A frame, if the engine has one.
    Received(Option<Bytes>),
    /// What the engine made of the packet.
    InputDone(Result<(), ErrorKind>),
    /// Another packet, if there is one at present.
    Polled(Option<Vec<u8>>),
    /// Whether the user could be told.
    Notified(bool),
}

/// An [`Action`] as contracts see it.
#[verifier::ext_equal]
pub enum ActionState {
    Configure { tuning: Tuning, handshake: KcpNoDelayConfig },
    SendHandshake(Seq<u8>),
    Feed(Seq<u8>),
    FlushSink,
    Check { current: u32 },
    Update { current: u32 },
    Wait { interval: u32, input: bool, output: bool },
    Send(Bytes),
    TryInput,
    Flush,
    Deliver(Bytes),
    TryReserve,
    Recv,
    Input,
    PollPacket,
    CloseInput,
    SetNodelay(KcpNoDelayConfig),
    NotifyConnected { conv: u32 },
    CloseChannels,
    SendReset(Seq<u8>),
    ReportDisconnect { conv: u32 },
    Stop,
}

impl View for Action {
    type V = ActionState;

    open spec fn view(&self) -> ActionState {
        match *self {
            Action::Configure { tuning, handshake } => ActionState::Configure { tuning, handshake },
            Action::SendHandshake(frame) => ActionState::SendHandshake(frame@),
            Action::Feed(packet) => ActionState::Feed(packet@),
            Action::FlushSink => ActionState::FlushSink,
            Action::Check { current } => ActionState::Check { current },
            Action::Update { current } => ActionState::Update { current },
            Action::Wait { interval, input, output } => ActionState::Wait {
                interval,
                input,
                output,
            },
            Action::Send(frame) => ActionState::Send(frame),
            Action::TryInput => ActionState::TryInput,
            Action::Flush => ActionState::Flush,
            Action::Deliver(frame) => ActionState::Deliver(frame),
            Action::TryReserve => ActionState::TryReserve,
            Action::Recv => ActionState::Recv,
            Action::Input => ActionState::Input,
            Action::PollPacket => ActionState::PollPacket,
            Action::CloseInput => ActionState::CloseInput,
            Action::SetNodelay(nodelay) => ActionState::SetNodelay(nodelay),
            Action::NotifyConnected { conv } => ActionState::NotifyConnected { conv },
            Action::CloseChannels => ActionState::CloseChannels,
            Action::SendReset(packet) => ActionState::SendReset(packet@),
            Action::ReportDisconnect { conv } => ActionState::ReportDisconnect { conv },
            Action::Stop => ActionState::Stop,
        }
    }
}

/// An [`Event`] as contracts see it.
#[verifier::ext_equal]
pub enum EventState {
    Done,
    Configured(Seq<u8>),
    Fed(bool),
    Checked(u32),
    Input(Option<Bytes>),
    Permit(bool),
    Packet(Option<Seq<u8>>),
    Timeout,
    Cancelled,
    FrameSent(bool),
    MoreInput(Bytes),
    NoInput,
    InputClosed,
    Reserved(bool),
    Received(Option<Bytes>),
    InputDone(Result<(), ErrorKind>),
    Polled(Option<Seq<u8>>),
    Notified(bool),
}

impl View for Event {
    type V = EventState;

    open spec fn view(&self) -> EventState {
        match *self {
            Event::Done => EventState::Done,
            Event::Configured(id) => EventState::Configured(id@),
            Event::Fed(ok) => EventState::Fed(ok),
            Event::Checked(at) => EventState::Checked(at),
            Event::Input(frame) => EventState::Input(frame),
            Event::Permit(ok) => EventState::Permit(ok),
            Event::Packet(packet) => EventState::Packet(
                match packet {
                    Some(p) => Some(p@),
                    None => None,
                },
            ),
            Event::Timeout => EventState::Timeout,
            Event::Cancelled => EventState::Cancelled,
            Event::FrameSent(ok) => EventState::FrameSent(ok),
            Event::MoreInput(frame) => EventState::MoreInput(frame),
            Event::NoInput => EventState::NoInput,
            Event::InputClosed => EventState::InputClosed,
            Event::Reserved(ok) => EventState::Reserved(ok),
            Event::Received(frame) => EventState::Received(frame),
            Event::InputDone(r) => EventState::InputDone(r),
            Event::Polled(packet) => EventState::Polled(
                match packet {
                    Some(p) => Some(p@),
                    None => None,
                },
            ),
            Event::Notified(ok) => EventState::Notified(ok),
        }
    }
}

/// A task as contracts see it.
#[verifier::ext_equal]
pub struct TaskState {
    pub config: KcpConfig,
    /// This end opened the connection.
    pub client: bool,
    /// The engine is to be flushed.
    pub flush: bool,
    /// A packet with the FIN flag has come.
    pub fin_recved: bool,
    /// The user will send no more.
    pub input_closed: bool,
    pub hs: Handshake,
    /// When to give up waiting for the other end to confirm.
    pub hs_end_time: u32,
    /// When the engine was last flushed.
    pub last_io_time: u32,
    pub session_id: Seq<u8>,
    /// A frame that waits for room to be delivered.
    pub tx_frame: Option<Bytes>,
    /// The packet at hand.
    pub packet: Seq<u8>,
    /// How many more packets to take in a row.
    pub left: u32,
    pub at: Point,
}

/// What one step leads to.
#[verifier::ext_equal]
pub struct Turn {
    pub task: TaskState,
    pub kcp: KcpState,
    pub action: ActionState,
}

/// Whether a step led to such a task, engine state and action.
pub open spec fn is_turn(task: TaskState, kcp: KcpState, action: ActionState, turn: Turn) -> bool {
    task == turn.task && kcp == turn.kcp && action == turn.action
}

/// The packet as it goes out: while the FIN frame is on its way, packets with a payload are
/// flagged.
pub open spec fn outgoing(hs: Handshake, packet: Seq<u8>) -> Seq<u8> {
    if hs == Handshake::FinSent && crate::protocol::packet_payload(packet) is Some {
        packet.update(4, packet[4] | 0x20)
    } else {
        packet
    }
}

/// The engine's state with another conversation number.
pub open spec fn with_conv(kcp: KcpState, conv: u32) -> KcpState {
    KcpState { cb: IKCPCB { conv, ..kcp.cb }, ..kcp }
}

impl TaskState {
    /// A task before its first step.
    pub open spec fn created(config: KcpConfig) -> TaskState {
        TaskState {
            config,
            client: false,
            flush: false,
            fin_recved: false,
            input_closed: false,
            hs: Handshake::Syn,
            hs_end_time: 0,
            last_io_time: 0,
            session_id: Seq::empty(),
            tx_frame: None,
            packet: Seq::empty(),
            left: 0,
            at: Point::Created,
        }
    }

    /// The engine settings of the connection.
    pub open spec fn tuning(self) -> Tuning {
        Tuning {
            stream: self.config.stream,
            mtu: self.config.mtu,
            snd_wnd: self.config.snd_wnd,
            rcv_wnd: self.config.rcv_wnd,
            nodelay: self.config.nodelay,
        }
    }

    /// The SYN frame and the FIN frame of a session: its key and its ID.
    pub open spec fn handshake_frame(self) -> Seq<u8> {
        crate::frame::content(self.config.session_key) + self.session_id
    }

    /// The session ID in a SYN frame, if the frame carries the right key and an ID of the right
    /// length.
    pub open spec fn syn_session_id(self, frame: Seq<u8>) -> Option<Seq<u8>> {
        match crate::stream::without_prefix(frame, crate::frame::content(self.config.session_key)) {
            Some(id) => if id.len() == self.config.session_id_len {
                Some(id)
            } else {
                None
            },
            None => None,
        }
    }

    /// Whether the other end has to confirm something before a deadline.
    pub open spec fn in_fin_handshake(self) -> bool {
        self.hs == Handshake::FinPending || self.hs == Handshake::FinSent
    }

    /// Whether the next frame of the engine is the FIN frame.
    pub open spec fn at_fin_frame(self, kcp: KcpState) -> bool {
        self.fin_recved && kcp.cb.nrcv_que == 1 && kcp.cb.nrcv_buf == 0
    }

    /// How far the closing of the connection can go without sending anything.
    pub open spec fn fin_target(self, kcp: KcpState) -> Handshake {
        match self.hs {
            Handshake::Syn | Handshake::Disconnected => Handshake::Disconnected,
            Handshake::Connected | Handshake::FinPending => Handshake::FinPending,
            Handshake::FinSent | Handshake::FinWaitPeer => {
                if self.hs == Handshake::FinSent && kcp.waitsnd > 0 {
                    Handshake::FinSent
                } else if self.fin_recved && kcp.cb.nrcv_que == 0 && kcp.cb.nrcv_buf == 0 {
                    Handshake::Disconnected
                } else {
                    Handshake::FinWaitPeer
                }
            },
        }
    }

    /// Whether the FIN frame is due: the user has closed the input and everything sent is
    /// confirmed.
    pub open spec fn fin_due(self, kcp: KcpState) -> bool {
        (self.hs == Handshake::Connected || self.hs == Handshake::FinPending) && self.input_closed
            && kcp.waitsnd == 0
    }

    /// The task once the closing has gone as far as it can without sending anything. The
    /// deadline is set when the closing begins.
    pub open spec fn fin_advanced(self, kcp: KcpState, now: u32) -> TaskState {
        TaskState {
            hs: self.fin_target(kcp),
            hs_end_time: if self.hs == Handshake::Connected {
                ((now + 10_000) % 0x1_0000_0000) as u32
            } else {
                self.hs_end_time
            },
            ..self
        }
    }

    /// For how many milliseconds nothing may be sent before the connection expires, as far as the
    /// clock can count.
    pub open spec fn expire_millis(self) -> int {
        let millis = self.config.session_expire.spec_as_millis();
        if millis < u32::MAX {
            millis
        } else {
            u32::MAX as int
        }
    }

    /// Whether the connection is to be given up: it is over, the engine has given up, or nothing
    /// has been sent for too long.
    pub open spec fn is_over(self, kcp: KcpState) -> bool {
        ||| self.hs == Handshake::Disconnected
        ||| kcp.cb.state == u32::MAX
        ||| crate::protocol::elapsed(kcp.cb.current, self.last_io_time) >= self.expire_millis()
    }

    /// The beginning of a round: packets go out first.
    #[verifier::opaque]
    pub open spec fn round(self, kcp: KcpState, now: u32) -> Turn {
        if kcp.output.len() > 0 {
            self.feed(kcp)
        } else {
            self.decide(kcp, now)
        }
    }

    /// The oldest packet goes out.
    #[verifier::opaque]
    pub open spec fn feed(self, kcp: KcpState) -> Turn {
        Turn {
            task: TaskState { at: Point::Feeding, ..self },
            kcp: KcpState { output: kcp.output.skip(1), ..kcp },
            action: ActionState::Feed(outgoing(self.hs, kcp.output[0])),
        }
    }

    /// Nothing is left to go out: stop, or find out how long to wait.
    #[verifier::opaque]
    pub open spec fn decide(self, kcp: KcpState, now: u32) -> Turn {
        if self.is_over(kcp) {
            self.finish(kcp)
        } else {
            Turn {
                task: TaskState { at: Point::Checking { current: now }, ..self },
                kcp,
                action: ActionState::Check { current: now },
            }
        }
    }

    /// How long to wait at most: until the engine has to be updated, and no longer than a minute.
    pub open spec fn engine_wait(current: u32, at: u32) -> int {
        let d = (at - current) % 0x1_0000_0000;
        if d < 60_000 {
            d
        } else {
            60_000
        }
    }

    /// Whether the deadline of the closing still lies ahead.
    pub open spec fn deadline_ahead(self, current: u32) -> bool {
        0 < (self.hs_end_time - current) % 0x1_0000_0000 < 0x8000_0000
    }

    /// The engine has to be updated at the time `at`.
    #[verifier::opaque]
    pub open spec fn checked(self, kcp: KcpState, current: u32, at: u32) -> Turn {
        let wait = TaskState::engine_wait(current, at);
        let rest = (self.hs_end_time - current) % 0x1_0000_0000;
        let interval = if self.in_fin_handshake() && self.deadline_ahead(current) && rest < wait {
            rest
        } else {
            wait
        };
        let task = TaskState {
            hs: if self.in_fin_handshake() && !self.deadline_ahead(current) {
                Handshake::Disconnected
            } else {
                self.hs
            },
            ..self
        };
        if interval == 0 {
            Turn {
                task: TaskState { at: Point::Updating, ..task },
                kcp,
                action: ActionState::Update { current },
            }
        } else {
            Turn {
                task: TaskState { at: Point::Waiting, ..task },
                kcp,
                action: ActionState::Wait {
                    interval: interval as u32,
                    input: !self.input_closed && kcp.cb.nsnd_que < kcp.cb.snd_wnd,
                    output: self.tx_frame is Some,
                },
            }
        }
    }

    /// The user will send no more: the connection is to be closed.
    #[verifier::opaque]
    pub open spec fn close_input(self, kcp: KcpState, now: u32) -> Turn {
        (TaskState { input_closed: true, ..self }).fin(kcp, now, Then::InputClosed)
    }

    /// The closing goes as far as it can; the FIN frame is sent if it is due.
    #[verifier::opaque]
    pub open spec fn fin(self, kcp: KcpState, now: u32, then: Then) -> Turn {
        let task = self.fin_advanced(kcp, now);
        if self.fin_due(kcp) {
            Turn {
                task: TaskState { flush: true, at: Point::Finishing { then }, ..task },
                kcp,
                action: ActionState::SendHandshake(self.handshake_frame()),
            }
        } else {
            task.after_fin(kcp, now, then)
        }
    }

    /// The FIN frame is on its way.
    #[verifier::opaque]
    pub open spec fn fin_sent(self, kcp: KcpState, now: u32, then: Then) -> Turn {
        (TaskState {
            flush: false,
            last_io_time: kcp.cb.current,
            hs: Handshake::FinSent,
            ..self
        }).fin_advanced(kcp, now).after_fin(kcp, now, then)
    }

    /// What follows the closing.
    #[verifier::opaque]
    pub open spec fn after_fin(self, kcp: KcpState, now: u32, then: Then) -> Turn {
        match then {
            Then::InputClosed => self.flush_engine(kcp, now),
            Then::FinPacket => Turn {
                task: TaskState {
                    packet: self.packet.update(4, self.packet[4] ^ 0x20),
                    at: Point::FinEntering,
                    ..self
                },
                kcp,
                action: ActionState::Input,
            },
            Then::PacketsDone => self.fetch(kcp, now),
        }
    }

    /// The engine is flushed if that is called for, and the next round begins.
    #[verifier::opaque]
    pub open spec fn flush_engine(self, kcp: KcpState, now: u32) -> Turn {
        if self.flush {
            Turn {
                task: TaskState { flush: false, at: Point::Flushing, ..self },
                kcp,
                action: ActionState::Flush,
            }
        } else {
            self.round(kcp, now)
        }
    }

    /// The engine took a frame of the user, or refused it.
    #[verifier::opaque]
    pub open spec fn frame_sent(self, kcp: KcpState, now: u32, ok: bool) -> Turn {
        let task = TaskState {
            flush: self.flush || (ok && (self.config.nodelay.nodelay || kcp.cb.nsnd_que > 1)),
            ..self
        };
        if kcp.cb.nsnd_que < kcp.cb.snd_wnd {
            Turn {
                task: TaskState { at: Point::TryingInput, ..task },
                kcp,
                action: ActionState::TryInput,
            }
        } else {
            task.flush_engine(kcp, now)
        }
    }

    /// The frame at hand is delivered; without one, the next is fetched.
    #[verifier::opaque]
    pub open spec fn deliver(self, kcp: KcpState) -> Turn {
        match self.tx_frame {
            Some(frame) => Turn {
                task: TaskState { tx_frame: None, at: Point::Delivering, ..self },
                kcp,
                action: ActionState::Deliver(frame),
            },
            None => self.receive(kcp, Purpose::Drain),
        }
    }

    /// A frame is fetched.
    #[verifier::opaque]
    pub open spec fn receive(self, kcp: KcpState, purpose: Purpose) -> Turn {
        Turn {
            task: TaskState {
                at: Point::Receiving { purpose, fin: self.at_fin_frame(kcp) },
                ..self
            },
            kcp,
            action: ActionState::Recv,
        }
    }

    /// A packet has come: it is fed to the engine.
    #[verifier::opaque]
    pub open spec fn enter(self, kcp: KcpState, packet: Seq<u8>) -> Turn {
        Turn {
            task: TaskState { packet, at: Point::Entering, ..self },
            kcp,
            action: ActionState::Input,
        }
    }

    /// Another packet, if one may follow.
    #[verifier::opaque]
    pub open spec fn next_packet(self, kcp: KcpState, now: u32) -> Turn {
        if self.left > 0 {
            Turn {
                task: TaskState { left: (self.left - 1) as u32, at: Point::Polling, ..self },
                kcp,
                action: ActionState::PollPacket,
            }
        } else {
            self.packets_done(kcp, now)
        }
    }

    /// The packet belongs to another conversation. While the connection is being opened it may
    /// be part of the handshake: a client tries the number that the server has chosen, a server
    /// takes what comes under the number of the handshake.
    #[verifier::opaque]
    pub open spec fn foreign_packet(self, kcp: KcpState, now: u32) -> Turn {
        match crate::protocol::packet_conv(self.packet) {
            Some(conv) if (self.client && self.hs == Handshake::Syn && conv != KcpStream::SYN_CONV)
                || (!self.client && conv == KcpStream::SYN_CONV) => Turn {
                task: TaskState { at: Point::SwitchedEntering { mine: kcp.cb.conv }, ..self },
                kcp: with_conv(kcp, conv),
                action: ActionState::Input,
            },
            _ => self.next_packet(kcp, now),
        }
    }

    /// The packet was fed under another conversation number. A client keeps the number if the
    /// engine took the packet and everything sent is confirmed; else it goes back to that of
    /// the handshake. A server goes back to its own.
    #[verifier::opaque]
    pub open spec fn switched(self, kcp: KcpState, now: u32, mine: u32, ok: bool) -> Turn {
        let conv = if !self.client {
            mine
        } else if !ok || kcp.waitsnd > 0 {
            KcpStream::SYN_CONV
        } else {
            kcp.cb.conv
        };
        self.next_packet(with_conv(kcp, conv), now)
    }

    /// The engine does not recognise the command: it may be flagged. RESET ends the connection;
    /// FIN closes it, and the packet is fed again without the flag.
    #[verifier::opaque]
    pub open spec fn flagged_packet(self, kcp: KcpState, now: u32) -> Turn {
        let cmd = self.packet[4];
        if cmd & 0x08 != 0 {
            (TaskState { hs: Handshake::Disconnected, ..self }).next_packet(kcp, now)
        } else if cmd & 0x20 != 0 {
            if self.fin_recved {
                self.fin(kcp, now, Then::FinPacket)
            } else {
                Turn {
                    task: TaskState { fin_recved: true, at: Point::ClosingInput, ..self },
                    kcp,
                    action: ActionState::CloseInput,
                }
            }
        } else {
            self.next_packet(kcp, now)
        }
    }

    /// What the engine made of the packet.
    #[verifier::opaque]
    pub open spec fn entered(self, kcp: KcpState, now: u32, r: Result<(), ErrorKind>) -> Turn {
        match r {
            Ok(_) => (TaskState { flush: true, ..self }).next_packet(kcp, now),
            Err(ErrorKind::NotFound) => self.foreign_packet(kcp, now),
            Err(_) => self.flagged_packet(kcp, now),
        }
    }

    /// A batch of packets has been handled. While the connection is being opened the SYN frame
    /// may have come.
    #[verifier::opaque]
    pub open spec fn packets_done(self, kcp: KcpState, now: u32) -> Turn {
        if self.hs == Handshake::Syn {
            self.receive(kcp, Purpose::Syn)
        } else {
            self.after_syn(kcp, now)
        }
    }

    /// The closing goes on, if it has begun.
    #[verifier::opaque]
    pub open spec fn after_syn(self, kcp: KcpState, now: u32) -> Turn {
        if self.in_fin_handshake() {
            self.fin(kcp, now, Then::PacketsDone)
        } else {
            self.fetch(kcp, now)
        }
    }

    /// A frame is fetched unless one waits for delivery already.
    #[verifier::opaque]
    pub open spec fn fetch(self, kcp: KcpState, now: u32) -> Turn {
        if self.tx_frame is None {
            self.receive(kcp, Purpose::Fetch)
        } else {
            self.flush_engine(kcp, now)
        }
    }

    /// The SYN frame of the other end: a client compares the session ID with its own, a server
    /// adopts it.
    #[verifier::opaque]
    pub open spec fn syn_received(self, kcp: KcpState, now: u32, frame: Seq<u8>) -> Turn {
        match self.syn_session_id(frame) {
            Some(id) if !self.client || id == self.session_id => Turn {
                task: TaskState { session_id: id, at: Point::Tuning, ..self },
                kcp,
                action: ActionState::SetNodelay(self.config.nodelay),
            },
            _ => (TaskState { hs: Handshake::Disconnected, ..self }).after_syn(kcp, now),
        }
    }

    /// A frame has been fetched; the FIN frame is kept from the user.
    #[verifier::opaque]
    pub open spec fn received(
        self,
        kcp: KcpState,
        now: u32,
        purpose: Purpose,
        frame: Option<Bytes>,
    ) -> Turn {
        match (purpose, frame) {
            (Purpose::Syn, Some(frame)) => self.syn_received(
                kcp,
                now,
                crate::frame::content(frame),
            ),
            (Purpose::Syn, None) => self.after_syn(kcp, now),
            (Purpose::Drain, Some(frame)) => Turn {
                task: TaskState { tx_frame: Some(frame), at: Point::Reserving, ..self },
                kcp,
                action: ActionState::TryReserve,
            },
            (Purpose::Drain, None) => self.round(kcp, now),
            (Purpose::Fetch, frame) => (TaskState { tx_frame: frame, ..self }).flush_engine(
                kcp,
                now,
            ),
        }
    }

    /// The delays are set: a server sends its SYN frame, a client is connected.
    #[verifier::opaque]
    pub open spec fn tuned(self, kcp: KcpState) -> Turn {
        if self.client {
            self.connected(kcp)
        } else {
            Turn {
                task: TaskState { flush: true, at: Point::Answering, ..self },
                kcp,
                action: ActionState::SendHandshake(self.handshake_frame()),
            }
        }
    }

    /// The connection stands.
    #[verifier::opaque]
    pub open spec fn connected(self, kcp: KcpState) -> Turn {
        Turn {
            task: TaskState { hs: Handshake::Connected, at: Point::Notifying, ..self },
            kcp,
            action: ActionState::NotifyConnected { conv: kcp.cb.conv },
        }
    }

    /// The end: a frame that waits for delivery is dropped.
    #[verifier::opaque]
    pub open spec fn finish(self, kcp: KcpState) -> Turn {
        Turn {
            task: TaskState { tx_frame: None, at: Point::Closing, ..self },
            kcp,
            action: ActionState::CloseChannels,
        }
    }

    /// The channels are closed: the other end is told, if there is a conversation with it.
    #[verifier::opaque]
    pub open spec fn closed(self, kcp: KcpState) -> Turn {
        if crate::stream::valid_conv(kcp.cb.conv) {
            Turn {
                task: TaskState { at: Point::Resetting, ..self },
                kcp,
                action: ActionState::SendReset(
                    crate::protocol::ack_head(kcp.cb.conv, 0x08, 0),
                ),
            }
        } else {
            self.report(kcp)
        }
    }

    /// The end is reported.
    #[verifier::opaque]
    pub open spec fn report(self, kcp: KcpState) -> Turn {
        Turn {
            task: TaskState { at: Point::Reporting, ..self },
            kcp,
            action: ActionState::ReportDisconnect { conv: kcp.cb.conv },
        }
    }

    /// The engine is set up. A client begins the handshake.
    #[verifier::opaque]
    pub open spec fn configured(self, kcp: KcpState, now: u32, id: Seq<u8>) -> Turn {
        let task = TaskState { last_io_time: kcp.cb.current, ..self };
        if kcp.cb.conv == KcpStream::SYN_CONV {
            let task = TaskState { client: true, session_id: id, ..task };
            Turn {
                task: TaskState { flush: true, at: Point::Greeting, ..task },
                kcp,
                action: ActionState::SendHandshake(task.handshake_frame()),
            }
        } else {
            task.round(kcp, now)
        }
    }

    /// The transport took a packet, or failed: then the others are discarded.
    #[verifier::opaque]
    pub open spec fn fed(self, kcp: KcpState, ok: bool) -> Turn {
        let kcp = if ok {
            kcp
        } else {
            KcpState { output: Seq::empty(), ..kcp }
        };
        if kcp.output.len() > 0 {
            self.feed(kcp)
        } else {
            Turn {
                task: TaskState { at: Point::FlushingSink, ..self },
                kcp,
                action: ActionState::FlushSink,
            }
        }
    }

    /// The engine has been flushed.
    pub open spec fn flushed(self, kcp: KcpState) -> TaskState {
        TaskState { flush: false, last_io_time: kcp.cb.current, ..self }
    }

    /// A frame of the user is sent.
    #[verifier::opaque]
    pub open spec fn send(self, kcp: KcpState, frame: Bytes) -> Turn {
        Turn {
            task: TaskState { at: Point::SendingFrame, ..self },
            kcp,
            action: ActionState::Send(frame),
        }
    }

    /// The waiting is over.
    #[verifier::opaque]
    pub open spec fn woken(self, kcp: KcpState, now: u32, event: EventState) -> Turn {
        match event {
            EventState::Input(Some(frame)) => self.send(kcp, frame),
            EventState::Input(None) => self.close_input(kcp, now),
            EventState::Permit(true) => self.deliver(kcp),
            EventState::Packet(Some(packet)) => (TaskState {
                left: if self.config.rcv_wnd > 0 {
                    (self.config.rcv_wnd - 1) as u32
                } else {
                    0
                },
                ..self
            }).enter(kcp, packet),
            EventState::Timeout => self.round(kcp, now),
            _ => self.finish(kcp),
        }
    }

    /// The user has been told of the connection, or is gone.
    #[verifier::opaque]
    pub open spec fn notified(self, kcp: KcpState, now: u32, ok: bool) -> Turn {
        (TaskState {
            hs: if ok {
                self.hs
            } else {
                Handshake::Disconnected
            },
            ..self
        }).after_syn(kcp, now)
    }

    /// Nothing follows.
    #[verifier::opaque]
    pub open spec fn stop(self, kcp: KcpState) -> Turn {
        Turn {
            task: TaskState { at: Point::Stopped, ..self },
            kcp,
            action: ActionState::Stop,
        }
    }

    /// Whether an event answers the action that the task waits for. A session ID has the
    /// configured length. The engine rejects the data of a packet only after it has read its
    /// header.
    pub open spec fn awaits(self, event: EventState) -> bool {
        match self.at {
            Point::Configuring => event matches EventState::Configured(id) && id.len()
                == self.config.session_id_len,
            Point::Greeting | Point::FlushingSink | Point::Updating | Point::Flushing
            | Point::Delivering | Point::ClosingInput | Point::Finishing { .. } | Point::Tuning
            | Point::Answering | Point::Closing | Point::Resetting | Point::Reporting => event is Done
                || (self.at == Point::FlushingSink && event is Cancelled),
            Point::Feeding => event is Fed || event is Cancelled,
            Point::Checking { .. } => event is Checked,
            Point::Waiting => (event is Input && !self.input_closed) || (event is Permit
                && self.tx_frame is Some) || event is Packet || event is Timeout
                || event is Cancelled,
            Point::SendingFrame => event is FrameSent,
            Point::TryingInput => event is MoreInput || event is NoInput || event is InputClosed,
            Point::Reserving => event is Reserved,
            Point::Receiving { .. } => event is Received,
            Point::Entering => match event {
                EventState::InputDone(Ok(_)) => true,
                EventState::InputDone(Err(e)) => e == ErrorKind::NotFound || (e
                    == ErrorKind::InvalidData && self.packet.len() > 4),
                _ => false,
            },
            Point::SwitchedEntering { .. } | Point::FinEntering => event is InputDone,
            Point::Polling => event is Polled,
            Point::Notifying => event is Notified,
            Point::Created | Point::Stopped => false,
        }
    }

    /// A connection has a session ID of the right length once it stands, a client from the
    /// beginning.
    pub open spec fn has_id(self) -> bool {
        (self.client || 1 <= self.hs.rank() <= 4) ==> self.session_id.len()
            == self.config.session_id_len
    }

    /// What the task keeps up between steps.
    pub open spec fn wf(self) -> bool {
        &&& self.has_id()
        &&& match self.at {
            Point::Created | Point::Configuring => self.hs == Handshake::Syn && !self.client,
            Point::Greeting => self.hs == Handshake::Syn && self.client,
            // the connection is about to stand
            Point::Tuning | Point::Answering => self.hs == Handshake::Syn && self.session_id.len()
                == self.config.session_id_len,
            Point::Notifying => self.hs == Handshake::Connected,
            // the FIN frame is due
            Point::Finishing { then } => self.hs == Handshake::FinPending && self.input_closed && (
            then == Then::FinPacket ==> self.packet.len() > 4),
            Point::ClosingInput => self.fin_recved && self.packet.len() > 4,
            // no frame is fetched over another
            Point::Receiving { purpose: Purpose::Syn, .. } => self.hs == Handshake::Syn,
            Point::Receiving { .. } | Point::Delivering => self.tx_frame is None,
            Point::Reserving => self.tx_frame is Some,
            // the user may still send
            Point::SendingFrame | Point::TryingInput => !self.input_closed,
            _ => true,
        }
    }

    /// What an event leads to.
    pub open spec fn turn(self, kcp: KcpState, now: u32, event: EventState) -> Turn {
        match self.at {
            Point::Configuring => match event {
                EventState::Configured(id) => self.configured(kcp, now, id),
                _ => self.stop(kcp),
            },
            Point::Greeting | Point::Flushing => self.flushed(kcp).round(kcp, now),
            Point::Feeding => match event {
                EventState::Fed(ok) => self.fed(kcp, ok),
                _ => self.finish(kcp),
            },
            Point::FlushingSink => match event {
                EventState::Done => self.decide(kcp, now),
                _ => self.finish(kcp),
            },
            Point::Checking { current } => match event {
                EventState::Checked(at) => self.checked(kcp, current, at),
                _ => self.stop(kcp),
            },
            Point::Updating => self.round(kcp, now),
            Point::Waiting => self.woken(kcp, now, event),
            Point::SendingFrame => match event {
                EventState::FrameSent(ok) => self.frame_sent(kcp, now, ok),
                _ => self.stop(kcp),
            },
            Point::TryingInput => match event {
                EventState::MoreInput(frame) => self.send(kcp, frame),
                EventState::NoInput => self.flush_engine(kcp, now),
                _ => self.close_input(kcp, now),
            },
            Point::Delivering => self.receive(kcp, Purpose::Drain),
            Point::Reserving => match event {
                EventState::Reserved(true) => self.deliver(kcp),
                _ => self.round(kcp, now),
            },
            Point::Receiving { purpose, fin } => match event {
                EventState::Received(frame) => self.received(
                    kcp,
                    now,
                    purpose,
                    if fin {
                        None
                    } else {
                        frame
                    },
                ),
                _ => self.stop(kcp),
            },
            Point::Entering => match event {
                EventState::InputDone(r) => self.entered(kcp, now, r),
                _ => self.stop(kcp),
            },
            Point::SwitchedEntering { mine } => match event {
                EventState::InputDone(r) => self.switched(kcp, now, mine, r is Ok),
                _ => self.stop(kcp),
            },
            Point::FinEntering => self.next_packet(kcp, now),
            Point::Polling => match event {
                EventState::Polled(Some(packet)) => self.enter(kcp, packet),
                _ => self.packets_done(kcp, now),
            },
            Point::ClosingInput => self.fin(kcp, now, Then::FinPacket),
            Point::Finishing { then } => self.fin_sent(kcp, now, then),
            Point::Tuning => self.tuned(kcp),
            Point::Answering => self.flushed(kcp).connected(kcp),
            Point::Notifying => match event {
                EventState::Notified(ok) => self.notified(kcp, now, ok),
                _ => self.stop(kcp),
            },
            Point::Closing => self.closed(kcp),
            Point::Resetting => self.report(kcp),
            Point::Reporting | Point::Created | Point::Stopped => self.stop(kcp),
        }
    }
}

} // verus!

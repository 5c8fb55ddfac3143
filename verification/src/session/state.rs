//! The states of a connection without a handshake, and what each event leads to.

use crate::addr::PeerAddr;
use crate::protocol::KcpState;
use bytes::Bytes;
use vstd::prelude::*;

verus! {

/// What a user tells the task.
#[derive(Debug)]
pub enum Message {
    /// Send this frame.
    Frame(Bytes),
    /// Set the transmission unit.
    Mtu(u32),
    /// Send what there is.
    Flush,
}

/// The action that the task waits for.
#[derive(Clone, Copy, Debug, PartialEq, Eq, Structural)]
pub enum Point {
    /// Not started.
    Created,
    /// The engine is being set up.
    Initializing,
    /// A packet is being sent.
    SendingPacket,
    /// The engine is asked when it has to be updated.
    Checking { current: u32 },
    /// The engine is being updated.
    Updating,
    /// Waiting for something to happen.
    Waiting,
    /// A frame of so many bytes is being sent.
    SendingFrame { len: usize },
    /// The transmission unit is being set.
    SettingMtu,
    /// Looking for another message of the user.
    TryingMessage,
    /// The engine is being flushed.
    Flushing,
    /// A frame is being delivered to the user.
    Delivering,
    /// A frame is being fetched; `drain` tells that it is to be delivered right away.
    Receiving { drain: bool },
    /// Looking for room to deliver another frame.
    Reserving,
    /// A packet is being fed to the engine.
    Entering,
    /// Looking for another packet.
    Polling,
    /// Over.
    Stopped,
}

/// What the runtime has to do next.
#[derive(Debug)]
pub enum Action {
    /// Initialise the engine, with all its logs.
    Initialize,
    /// Send this packet to the other end.
    SendTo(Vec<u8>),
    /// Ask the engine when it has to be updated.
    Check { current: u32 },
    /// Update the engine.
    Update { current: u32 },
    /// Wait: for a packet, for cancellation, for `interval` milliseconds to pass, if `input` for a
    /// message of the user, if `output` for room to deliver a frame to the user.
    Wait { interval: u32, input: bool, output: bool },
    /// Send this frame.
    Send(Bytes),
    /// Set the transmission unit.
    SetMtu(u32),
    /// Look whether the user has another message.
    TryMessage,
    /// Update the engine to the present time and flush it.
    Flush,
    /// Deliver this frame to the user; there is room for it.
    Deliver(Bytes),
    /// Fetch a frame from the engine.
    Recv,
    /// Look whether there is room to deliver a frame.
    TryReserve,
    /// Feed the packet in the buffer to the engine.
    Input,
    /// Look whether there is another packet.
    PollPacket,
    /// Cancel the connection and take no more messages.
    Stop,
}

/// What the last action led to.
#[derive(Debug)]
pub enum Event {
    /// It is done.
    Done,
    /// Whether the packet was sent.
    SentTo(bool),
    /// When the engine has to be updated.
    Checked(u32),
    /// A message of the user.
    Message(Message),
    /// There is room to deliver a frame.
    Permit,
    /// A packet from this address is in the buffer.
    Packet(PeerAddr),
    /// No packet could be received.
    NoPacket,
    /// The time is up.
    Timeout,
    /// The task is cancelled.
    Cancelled,
    /// Whether the engine took the frame.
    FrameSent(bool),
    /// Whether the engine took the transmission unit.
    MtuSet(bool),
    /// The user has no other message at present.
    NoMessage,
    /// A frame, if the engine has one.
    Received(Option<Bytes>),
    /// Whether there is room to deliver a frame.
    Reserved(bool),
}

/// An [`Action`] as contracts see it.
#[verifier::ext_equal]
pub enum ActionState {
    Initialize,
    SendTo(Seq<u8>),
    Check { current: u32 },
    Update { current: u32 },
    Wait { interval: u32, input: bool, output: bool },
    Send(Bytes),
    SetMtu(u32),
    TryMessage,
    Flush,
    Deliver(Bytes),
    Recv,
    TryReserve,
    Input,
    PollPacket,
    Stop,
}

impl View for Action {
    type V = ActionState;

    open spec fn view(&self) -> ActionState {
        match *self {
            Action::Initialize => ActionState::Initialize,
            Action::SendTo(packet) => ActionState::SendTo(packet@),
            Action::Check { current } => ActionState::Check { current },
            Action::Update { current } => ActionState::Update { current },
            Action::Wait { interval, input, output } => ActionState::Wait {
                interval,
                input,
                output,
            },
            Action::Send(frame) => ActionState::Send(frame),
            Action::SetMtu(mtu) => ActionState::SetMtu(mtu),
            Action::TryMessage => ActionState::TryMessage,
            Action::Flush => ActionState::Flush,
            Action::Deliver(frame) => ActionState::Deliver(frame),
            Action::Recv => ActionState::Recv,
            Action::TryReserve => ActionState::TryReserve,
            Action::Input => ActionState::Input,
            Action::PollPacket => ActionState::PollPacket,
            Action::Stop => ActionState::Stop,
        }
    }
}

/// A task as contracts see it.
#[verifier::ext_equal]
pub struct TaskState {
    pub peer_addr: PeerAddr,
    /// The size of the buffer for packets.
    pub buffer: int,
    /// A frame that waits for room to be delivered.
    pub tx_frame: Option<Bytes>,
    /// Something is to be sent at once.
    pub sent: bool,
    /// How many packets have been taken in a row.
    pub received: u32,
    pub at: Point,
}

/// What one step leads to.
#[verifier::ext_equal]
pub struct Turn {
    pub task: TaskState,
    pub kcp: KcpState,
    pub action: ActionState,
}

/// Whether a step led to such a task, engine state and action.
pub open spec fn is_turn(task: TaskState, kcp: KcpState, action: ActionState, turn: Turn) -> bool {
    task == turn.task && kcp == turn.kcp && action == turn.action
}

impl TaskState {
    /// A task before its first step.
    pub open spec fn created(peer_addr: PeerAddr) -> TaskState {
        TaskState {
            peer_addr,
            buffer: 0,
            tx_frame: None,
            sent: false,
            received: 0,
            at: Point::Created,
        }
    }

    /// The task with a buffer that holds any packet of the transmission unit.
    pub open spec fn grown(self, kcp: KcpState) -> TaskState {
        TaskState {
            buffer: if self.buffer < kcp.cb.mtu {
                kcp.cb.mtu as int
            } else {
                self.buffer
            },
            ..self
        }
    }

    /// An action without consequences for the engine.
    pub open spec fn goes(self, kcp: KcpState, at: Point, action: ActionState) -> Turn {
        Turn { task: TaskState { at, ..self }, kcp, action }
    }

    /// The beginning of a round: packets go out first, one after the other; then the engine is
    /// asked when it has to be updated.
    pub open spec fn round(self, kcp: KcpState, now: u32) -> Turn {
        if kcp.output.len() > 0 {
            Turn {
                task: TaskState { at: Point::SendingPacket, ..self },
                kcp: KcpState { output: kcp.output.skip(1), ..kcp },
                action: ActionState::SendTo(kcp.output[0]),
            }
        } else {
            self.goes(kcp, Point::Checking { current: now }, ActionState::Check { current: now })
        }
    }

    /// A packet was sent; where that failed, the others are discarded.
    pub open spec fn sent_to(self, kcp: KcpState, now: u32, ok: bool) -> Turn {
        if ok {
            self.round(kcp, now)
        } else {
            self.round(KcpState { output: Seq::empty(), ..kcp }, now)
        }
    }

    /// The engine has to be updated at the time `at`.
    pub open spec fn checked(self, kcp: KcpState, current: u32, at: u32) -> Turn {
        let interval = (at - current) % 0x1_0000_0000;
        if interval == 0 {
            self.goes(kcp, Point::Updating, ActionState::Update { current })
        } else {
            self.goes(
                kcp,
                Point::Waiting,
                ActionState::Wait {
                    interval: interval as u32,
                    input: kcp.cb.nsnd_que < kcp.cb.snd_wnd,
                    output: self.tx_frame is Some,
                },
            )
        }
    }

    /// A message is acted on.
    pub open spec fn process_msg(self, kcp: KcpState, now: u32, msg: Message) -> Turn {
        match msg {
            Message::Frame(data) => self.goes(
                kcp,
                Point::SendingFrame { len: crate::frame::content(data).len() as usize },
                ActionState::Send(data),
            ),
            Message::Mtu(mtu) => self.goes(kcp, Point::SettingMtu, ActionState::SetMtu(mtu)),
            Message::Flush => (TaskState { sent: true, ..self }).processed(kcp, now),
        }
    }

    /// A message has been acted on: another is looked for while the engine takes frames.
    pub open spec fn processed(self, kcp: KcpState, now: u32) -> Turn {
        if kcp.cb.nsnd_que < kcp.cb.snd_wnd {
            self.goes(kcp, Point::TryingMessage, ActionState::TryMessage)
        } else {
            self.messages_done(kcp, now)
        }
    }

    /// Messages have been acted on: the engine is flushed if there is something to send.
    pub open spec fn messages_done(self, kcp: KcpState, now: u32) -> Turn {
        if self.sent {
            self.goes(kcp, Point::Flushing, ActionState::Flush)
        } else {
            self.round(kcp, now)
        }
    }

    /// The frame that waits is delivered; without one, the next is fetched.
    pub open spec fn deliver(self, kcp: KcpState) -> Turn {
        match self.tx_frame {
            Some(frame) => (TaskState { tx_frame: None, ..self }).goes(
                kcp,
                Point::Delivering,
                ActionState::Deliver(frame),
            ),
            None => self.goes(kcp, Point::Receiving { drain: true }, ActionState::Recv),
        }
    }

    /// A frame has been fetched.
    pub open spec fn received(
        self,
        kcp: KcpState,
        now: u32,
        drain: bool,
        frame: Option<Bytes>,
    ) -> Turn {
        let task = TaskState { tx_frame: frame, ..self };
        if !drain {
            task.goes(kcp, Point::Flushing, ActionState::Flush)
        } else if frame is Some {
            task.goes(kcp, Point::Reserving, ActionState::TryReserve)
        } else {
            task.round(kcp, now)
        }
    }

    /// A packet has been fed to the engine: another is looked for, up to the receive window.
    pub open spec fn entered(self, kcp: KcpState) -> Turn {
        if self.received < kcp.cb.rcv_wnd {
            self.goes(kcp, Point::Polling, ActionState::PollPacket)
        } else {
            self.packets_done(kcp)
        }
    }

    /// Another packet has been looked for; one from another address is passed over.
    pub open spec fn polled(self, kcp: KcpState, event: Event) -> Turn {
        match event {
            Event::Packet(addr) => if addr == self.peer_addr {
                (TaskState { received: (self.received + 1) as u32, ..self }).goes(
                    kcp,
                    Point::Entering,
                    ActionState::Input,
                )
            } else {
                self.entered(kcp)
            },
            _ => self.packets_done(kcp),
        }
    }

    /// A batch of packets has been handled: a frame is fetched unless one waits already, and the
    /// engine is flushed.
    pub open spec fn packets_done(self, kcp: KcpState) -> Turn {
        if self.tx_frame is None {
            self.goes(kcp, Point::Receiving { drain: false }, ActionState::Recv)
        } else {
            self.goes(kcp, Point::Flushing, ActionState::Flush)
        }
    }

    /// The waiting is over.
    pub open spec fn woken(self, kcp: KcpState, now: u32, event: Event) -> Turn {
        match event {
            Event::Message(msg) => (TaskState { sent: false, ..self }).process_msg(kcp, now, msg),
            Event::Permit => self.deliver(kcp),
            Event::Packet(addr) => if addr == self.peer_addr {
                (TaskState { received: 1, ..self }).goes(kcp, Point::Entering, ActionState::Input)
            } else {
                self.round(kcp, now)
            },
            Event::Cancelled => self.goes(kcp, Point::Stopped, ActionState::Stop),
            _ => self.round(kcp, now),
        }
    }

    /// Whether an event answers the action that the task waits for.
    pub open spec fn awaits(self, kcp: KcpState, event: Event) -> bool {
        match self.at {
            Point::Initializing | Point::Updating | Point::Flushing | Point::Delivering
            | Point::Entering => event is Done,
            Point::SendingPacket => event is SentTo,
            Point::Checking { .. } => event is Checked,
            Point::Waiting => event is Message || (event is Permit && self.tx_frame is Some)
                || event is Packet || event is NoPacket || event is Timeout || event is Cancelled,
            Point::SendingFrame { .. } => event is FrameSent,
            Point::SettingMtu => event is MtuSet,
            Point::TryingMessage => event is Message || event is NoMessage,
            Point::Receiving { .. } => event is Received,
            Point::Reserving => event is Reserved,
            // the receive window has not changed since the last packet
            Point::Polling => self.received < kcp.cb.rcv_wnd && (event is Packet
                || event is NoPacket),
            Point::Created | Point::Stopped => false,
        }
    }

    /// What the task keeps up between steps.
    pub open spec fn wf(self) -> bool {
        match self.at {
            Point::Receiving { .. } | Point::Delivering => self.tx_frame is None,
            Point::Reserving => self.tx_frame is Some,
            _ => true,
        }
    }

    /// What an event leads to.
    pub open spec fn turn(self, kcp: KcpState, now: u32, event: Event) -> Turn {
        match self.at {
            Point::Initializing => self.grown(kcp).round(kcp, now),
            Point::SendingPacket => self.sent_to(kcp, now, event == Event::SentTo(true)),
            Point::Checking { current } => match event {
                Event::Checked(at) => self.checked(kcp, current, at),
                _ => self.goes(kcp, Point::Stopped, ActionState::Stop),
            },
            Point::Updating | Point::Flushing => self.round(kcp, now),
            Point::Waiting => self.woken(kcp, now, event),
            Point::SendingFrame { len } => (TaskState {
                sent: self.sent || (event == Event::FrameSent(true) && len > 0),
                ..self
            }).processed(kcp, now),
            Point::SettingMtu => if event == Event::MtuSet(true) {
                self.grown(kcp).processed(kcp, now)
            } else {
                self.processed(kcp, now)
            },
            Point::TryingMessage => match event {
                Event::Message(msg) => self.process_msg(kcp, now, msg),
                _ => self.messages_done(kcp, now),
            },
            Point::Delivering => self.goes(
                kcp,
                Point::Receiving { drain: true },
                ActionState::Recv,
            ),
            Point::Receiving { drain } => match event {
                Event::Received(frame) => self.received(kcp, now, drain, frame),
                _ => self.goes(kcp, Point::Stopped, ActionState::Stop),
            },
            Point::Reserving => if event == Event::Reserved(true) {
                self.deliver(kcp)
            } else {
                self.round(kcp, now)
            },
            Point::Entering => self.entered(kcp),
            Point::Polling => self.polled(kcp, event),
            Point::Created | Point::Stopped => self.goes(kcp, Point::Stopped, ActionState::Stop),
        }
    }
}

} // verus!

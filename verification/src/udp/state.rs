//! The states of a listener, and what each event leads to.

use crate::addr::PeerAddr;
use crate::config::KcpConfig;
use crate::conv::HistoryState;
use crate::stream::KcpStream;
use crate::udp::sessions::SessionState;
use vstd::prelude::*;

verus! {

/// What a connection tells its listener.
#[derive(Clone, Copy, Debug, PartialEq, Eq, Structural)]
pub enum Message {
    /// It stands.
    Connect { conv: u32 },
    /// It is over.
    Disconnect { conv: u32 },
}

/// The action that the listener waits for.
#[derive(Clone, Copy, Debug, PartialEq, Eq, Structural)]
pub enum Point {
    /// Not started.
    Created,
    /// Looking for a message, while the listener is closing.
    Draining,
    /// Waiting for something to happen.
    Waiting,
    /// Looking for room in the backlog.
    Reserving,
    /// A connection is being set up.
    Opening { conv: u32 },
    /// A packet is being handed to its connection.
    Delivering,
    /// Looking for another packet.
    Polling,
    /// The connections are being cancelled.
    Cancelling,
    /// A message is being acted on.
    Handling { drained: bool },
    /// A packet is being handed to the socket; `last` tells that the listener has closed.
    Feeding { last: bool },
    /// Looking for another packet to be sent.
    TryingOutgoing { last: bool },
    /// The socket is being flushed.
    Flushing { last: bool },
    /// The channels are being closed.
    Closing,
    /// Over.
    Stopped,
}

/// What the runtime has to do next.
#[derive(Debug)]
pub enum Action {
    /// Look whether there is a message.
    TryMessage,
    /// Wait: for a packet, for a packet to be sent, for a message, if `cancel` for cancellation.
    Wait { cancel: bool },
    /// Look whether there is room in the backlog, and keep it.
    Reserve,
    /// Open a connection in the room that was kept. So many packets may wait for it.
    Open { conv: u32, peer_addr: PeerAddr, capacity: usize },
    /// Hand this packet to the connection.
    Deliver { conv: u32, packet: Vec<u8> },
    /// Look whether there is another packet.
    PollPacket,
    /// Cancel the listener and all its connections.
    Cancel,
    /// If `join`, wait until the connection is set up; then hand it to the user together with
    /// the address, if there is one.
    Hand { conv: u32, join: bool, with: Option<PeerAddr> },
    /// Forget the connection; if `join`, cancel it and wait until it is gone.
    Kill { conv: u32, join: bool },
    /// Hand the packet at hand to the socket.
    Feed,
    /// Look whether there is another packet to be sent.
    TryOutgoing,
    /// Flush the socket.
    Flush,
    /// Take no more messages and no more packets.
    CloseChannels,
    /// Nothing any more.
    Stop,
}

/// What the last action led to.
#[derive(Debug)]
pub enum Event {
    /// It is done.
    Done,
    /// There is a message.
    Message(Message),
    /// There is no message at present.
    NoMessage,
    /// A packet, and where it comes from.
    Packet(Vec<u8>, PeerAddr),
    /// The socket failed to receive.
    Broken,
    /// There will be no more packets.
    Ended,
    /// There is no packet at present.
    NoPacket,
    /// Whether there is room in the backlog.
    Reserved(bool),
    /// There is a packet to be sent.
    Outgoing,
    /// There is no packet to be sent at present.
    NoOutgoing,
    /// The listener is cancelled.
    Cancelled,
}

/// An [`Action`] as contracts see it.
#[verifier::ext_equal]
pub enum ActionState {
    TryMessage,
    Wait { cancel: bool },
    Reserve,
    Open { conv: u32, peer_addr: PeerAddr, capacity: usize },
    Deliver { conv: u32, packet: Seq<u8> },
    PollPacket,
    Cancel,
    Hand { conv: u32, join: bool, with: Option<PeerAddr> },
    Kill { conv: u32, join: bool },
    Feed,
    TryOutgoing,
    Flush,
    CloseChannels,
    Stop,
}

impl View for Action {
    type V = ActionState;

    open spec fn view(&self) -> ActionState {
        match *self {
            Action::TryMessage => ActionState::TryMessage,
            Action::Wait { cancel } => ActionState::Wait { cancel },
            Action::Reserve => ActionState::Reserve,
            Action::Open { conv, peer_addr, capacity } => ActionState::Open {
                conv,
                peer_addr,
                capacity,
            },
            Action::Deliver { conv, packet } => ActionState::Deliver { conv, packet: packet@ },
            Action::PollPacket => ActionState::PollPacket,
            Action::Cancel => ActionState::Cancel,
            Action::Hand { conv, join, with } => ActionState::Hand { conv, join, with },
            Action::Kill { conv, join } => ActionState::Kill { conv, join },
            Action::Feed => ActionState::Feed,
            Action::TryOutgoing => ActionState::TryOutgoing,
            Action::Flush => ActionState::Flush,
            Action::CloseChannels => ActionState::CloseChannels,
            Action::Stop => ActionState::Stop,
        }
    }
}

/// An [`Event`] as contracts see it.
#[verifier::ext_equal]
pub enum EventState {
    Done,
    Message(Message),
    NoMessage,
    Packet(Seq<u8>, PeerAddr),
    Broken,
    Ended,
    NoPacket,
    Reserved(bool),
    Outgoing,
    NoOutgoing,
    Cancelled,
}

impl View for Event {
    type V = EventState;

    open spec fn view(&self) -> EventState {
        match *self {
            Event::Done => EventState::Done,
            Event::Message(msg) => EventState::Message(msg),
            Event::NoMessage => EventState::NoMessage,
            Event::Packet(packet, addr) => EventState::Packet(packet@, addr),
            Event::Broken => EventState::Broken,
            Event::Ended => EventState::Ended,
            Event::NoPacket => EventState::NoPacket,
            Event::Reserved(ok) => EventState::Reserved(ok),
            Event::Outgoing => EventState::Outgoing,
            Event::NoOutgoing => EventState::NoOutgoing,
            Event::Cancelled => EventState::Cancelled,
        }
    }
}

/// Where a packet belongs.
pub enum Route {
    /// To this connection.
    Existing(u32),
    /// It opens a connection with this session ID.
    Fresh(Seq<u8>),
    /// Nowhere.
    Nothing,
}

/// A listener as contracts see it.
#[verifier::ext_equal]
pub struct ListenerState {
    pub config: KcpConfig,
    /// No new connections are accepted.
    pub closing: bool,
    pub sessions: Map<u32, SessionState>,
    /// The conversation numbers by session ID.
    pub ids: Map<Seq<u8>, u32>,
    /// The packet at hand, and where it comes from.
    pub packet: Seq<u8>,
    pub peer: PeerAddr,
    /// How many more packets to handle in a row.
    pub left: usize,
    pub at: Point,
}

/// What one step leads to.
#[verifier::ext_equal]
pub struct Turn {
    pub task: ListenerState,
    pub history: HistoryState,
    pub action: ActionState,
}

/// Whether a step led to such a listener, history and action.
pub open spec fn is_turn(
    task: ListenerState,
    history: HistoryState,
    action: ActionState,
    turn: Turn,
) -> bool {
    task == turn.task && history == turn.history && action == turn.action
}

impl ListenerState {
    /// Sessions and session IDs belong together one to one; session IDs have the configured
    /// length.
    pub open spec fn consistent(self) -> bool {
        &&& forall|conv: u32| #[trigger]
            self.sessions.contains_key(conv) ==> {
                let s = self.sessions[conv];
                &&& s.conv == conv
                &&& crate::stream::valid_conv(conv)
                &&& s.session_id.len() == self.config.session_id_len
                &&& self.ids.contains_pair(s.session_id, conv)
            }
        &&& forall|id: Seq<u8>| #[trigger]
            self.ids.contains_key(id) ==> {
                &&& self.sessions.contains_key(self.ids[id])
                &&& self.sessions[self.ids[id]].session_id == id
            }
    }

    /// What the listener keeps up between steps.
    pub open spec fn wf(self) -> bool {
        &&& self.consistent()
        &&& match self.at {
            Point::Draining => self.closing,
            Point::Reserving => self.route(self.packet, self.peer) is Fresh,
            Point::Opening { conv } => self.sessions.contains_key(conv),
            Point::TryingOutgoing { last } => self.left > 0 && (last ==> self.has_closed()),
            Point::Feeding { last } | Point::Flushing { last } => last ==> self.has_closed(),
            Point::Closing | Point::Stopped => self.has_closed(),
            _ => true,
        }
    }

    /// Whether the listener is closing and has no connections left.
    pub open spec fn has_closed(self) -> bool {
        self.closing && self.sessions == Map::<u32, SessionState>::empty()
    }

    /// Where a packet belongs. The conversation number decides, then the session ID; a packet
    /// from another address than that of the connection is refused. A packet that belongs to no
    /// connection opens one if it comes under the number of the handshake with the session key
    /// and an ID of the right length, unless the listener is closing.
    pub open spec fn route(self, packet: Seq<u8>, peer: PeerAddr) -> Route {
        match crate::protocol::packet_conv(packet) {
            None => Route::Nothing,
            Some(conv) => if self.sessions.contains_key(conv) {
                if self.sessions[conv].peer_addr == peer {
                    Route::Existing(conv)
                } else {
                    Route::Nothing
                }
            } else {
                match crate::stream::packet_session_id(
                    packet,
                    crate::frame::content(self.config.session_key),
                ) {
                    None => Route::Nothing,
                    Some(id) => if self.ids.contains_key(id) {
                        let mine = self.ids[id];
                        if (conv == mine || conv == KcpStream::SYN_CONV)
                            && self.sessions[mine].peer_addr == peer {
                            Route::Existing(mine)
                        } else {
                            Route::Nothing
                        }
                    } else if self.closing || conv != KcpStream::SYN_CONV || id.len()
                        != self.config.session_id_len {
                        Route::Nothing
                    } else {
                        Route::Fresh(id)
                    },
                }
            },
        }
    }

    /// The beginning of a round.
    pub open spec fn round(self, history: HistoryState) -> Turn {
        if self.closing {
            Turn {
                task: ListenerState { at: Point::Draining, ..self },
                history,
                action: ActionState::TryMessage,
            }
        } else {
            self.wait(history)
        }
    }

    /// Something is waited for.
    pub open spec fn wait(self, history: HistoryState) -> Turn {
        Turn {
            task: ListenerState { at: Point::Waiting, ..self },
            history,
            action: ActionState::Wait { cancel: !self.closing },
        }
    }

    /// A message is acted on: a connection that stands is handed to the user, one that is over
    /// is forgotten and its number put aside.
    pub open spec fn handle(
        self,
        history: HistoryState,
        now: u64,
        msg: Message,
        drained: bool,
    ) -> Turn {
        match msg {
            Message::Connect { conv } => if self.sessions.contains_key(conv) {
                let s = self.sessions[conv];
                Turn {
                    task: ListenerState {
                        sessions: self.sessions.insert(
                            conv,
                            SessionState { stream_permit: false, task: false, ..s },
                        ),
                        at: Point::Handling { drained },
                        ..self
                    },
                    history,
                    action: ActionState::Hand {
                        conv,
                        join: s.task,
                        with: if s.stream_permit {
                            Some(s.peer_addr)
                        } else {
                            None
                        },
                    },
                }
            } else {
                self.handled(history, drained)
            },
            Message::Disconnect { conv } => if self.sessions.contains_key(conv) {
                let s = self.sessions[conv];
                Turn {
                    task: ListenerState {
                        sessions: self.sessions.remove(conv),
                        ids: self.ids.remove(s.session_id),
                        at: Point::Handling { drained },
                        ..self
                    },
                    history: history.filled(now, seq![s.conv]),
                    action: ActionState::Kill { conv, join: s.task },
                }
            } else {
                self.handled(history, drained)
            },
        }
    }

    /// A message has been acted on.
    pub open spec fn handled(self, history: HistoryState, drained: bool) -> Turn {
        if drained {
            self.wait(history)
        } else {
            self.round(history)
        }
    }

    /// A packet has come.
    pub open spec fn packet(self, history: HistoryState, packet: Seq<u8>, peer: PeerAddr) -> Turn {
        let task = ListenerState { packet, peer, ..self };
        match self.route(packet, peer) {
            Route::Existing(conv) => task.deliver(history, conv),
            Route::Nothing => task.poll(history),
            Route::Fresh(_) => Turn {
                task: ListenerState { at: Point::Reserving, ..task },
                history,
                action: ActionState::Reserve,
            },
        }
    }

    /// The packet at hand is handed to its connection.
    pub open spec fn deliver(self, history: HistoryState, conv: u32) -> Turn {
        Turn {
            task: ListenerState { packet: Seq::empty(), at: Point::Delivering, ..self },
            history,
            action: ActionState::Deliver { conv, packet: self.packet },
        }
    }

    /// Another packet is looked for.
    pub open spec fn poll(self, history: HistoryState) -> Turn {
        Turn {
            task: ListenerState { at: Point::Polling, ..self },
            history,
            action: ActionState::PollPacket,
        }
    }

    /// Another packet has been looked for. What comes after the last packet of a row is lost.
    pub open spec fn polled(self, history: HistoryState, event: EventState) -> Turn {
        if self.left == 0 {
            self.round(history)
        } else {
            let task = ListenerState { left: (self.left - 1) as usize, ..self };
            match event {
                EventState::Packet(packet, peer) => task.packet(history, packet, peer),
                EventState::Ended => task.ended(history),
                _ => self.round(history),
            }
        }
    }

    /// There will be no more packets.
    pub open spec fn ended(self, history: HistoryState) -> Turn {
        Turn {
            task: ListenerState { closing: true, at: Point::Cancelling, ..self },
            history,
            action: ActionState::Cancel,
        }
    }

    /// The listener with another session.
    pub open spec fn with_session(self, conv: u32, id: Seq<u8>, peer_addr: PeerAddr) -> ListenerState {
        ListenerState {
            sessions: self.sessions.insert(
                conv,
                SessionState { conv, session_id: id, peer_addr, stream_permit: true, task: true },
            ),
            ids: self.ids.insert(id, conv),
            ..self
        }
    }

    /// Whether a number can be given to a new connection.
    pub open spec fn is_free(self, history: HistoryState, conv: u32) -> bool {
        crate::stream::valid_conv(conv) && !self.sessions.contains_key(conv) && !crate::conv::holds(
            history.entries,
            conv,
        )
    }

    /// What room in the backlog leads to: a connection with a number that is free, whichever it
    /// is. If no number is free the packet is ignored.
    pub open spec fn opened(self, history: HistoryState, now: u64, turn: Turn) -> bool {
        let updated = history.updated(now);
        match (self.route(self.packet, self.peer), turn.action) {
            (Route::Fresh(id), ActionState::Open { conv, peer_addr, capacity }) => {
                &&& self.is_free(updated, conv)
                &&& peer_addr == self.peer
                &&& capacity == self.config.snd_wnd
                &&& turn.task == (ListenerState {
                    at: Point::Opening { conv },
                    ..self.with_session(conv, id, self.peer)
                })
                &&& turn.history == updated
            },
            (Route::Fresh(_), _) => {
                &&& forall|conv: u32| !#[trigger] self.is_free(updated, conv)
                &&& turn == self.poll(updated)
            },
            _ => turn == self.poll(history),
        }
    }

    /// Packets are sent: the one at hand, and at most so many more.
    pub open spec fn outgoing(self, history: HistoryState) -> Turn {
        Turn {
            task: ListenerState {
                left: crate::config::LISTENER_TASK_LOOP,
                at: Point::Feeding { last: false },
                ..self
            },
            history,
            action: ActionState::Feed,
        }
    }

    /// Another packet is sent, if one may follow.
    pub open spec fn try_send(self, history: HistoryState, last: bool) -> Turn {
        if self.left > 0 {
            Turn {
                task: ListenerState { at: Point::TryingOutgoing { last }, ..self },
                history,
                action: ActionState::TryOutgoing,
            }
        } else {
            self.flush(history, last)
        }
    }

    /// The socket is flushed.
    pub open spec fn flush(self, history: HistoryState, last: bool) -> Turn {
        Turn {
            task: ListenerState { at: Point::Flushing { last }, ..self },
            history,
            action: ActionState::Flush,
        }
    }

    /// While the listener is closing there is no message: it has closed once it has no
    /// connections.
    pub open spec fn drained(self, history: HistoryState) -> Turn {
        if self.sessions == Map::<u32, SessionState>::empty() {
            Turn {
                task: ListenerState { at: Point::Closing, ..self },
                history,
                action: ActionState::CloseChannels,
            }
        } else {
            self.wait(history)
        }
    }

    /// The waiting is over.
    pub open spec fn woken(self, history: HistoryState, now: u64, event: EventState) -> Turn {
        match event {
            EventState::Packet(packet, peer) => (ListenerState {
                left: (crate::config::LISTENER_TASK_LOOP - 1) as usize,
                ..self
            }).packet(history, packet, peer),
            EventState::Ended => self.ended(history),
            EventState::Outgoing => self.outgoing(history),
            EventState::Message(msg) => self.handle(history, now, msg, false),
            EventState::Cancelled => (ListenerState { closing: true, ..self }).round(history),
            _ => self.round(history),
        }
    }

    /// Nothing follows.
    pub open spec fn stop(self, history: HistoryState) -> Turn {
        Turn {
            task: ListenerState { at: Point::Stopped, ..self },
            history,
            action: ActionState::Stop,
        }
    }

    /// Whether an event answers the action that the listener waits for.
    pub open spec fn awaits(self, event: EventState) -> bool {
        match self.at {
            Point::Draining => event is Message || event is NoMessage,
            Point::Waiting => event is Packet || event is Broken || event is Ended || event is Outgoing
                || event is Message || (event is Cancelled && !self.closing),
            Point::Reserving => event is Reserved,
            Point::Polling => event is Packet || event is Broken || event is Ended
                || event is NoPacket,
            Point::TryingOutgoing { .. } => event is Outgoing || event is NoOutgoing,
            Point::Opening { .. } | Point::Delivering | Point::Cancelling | Point::Handling { .. }
            | Point::Feeding { .. } | Point::Flushing { .. } | Point::Closing => event is Done,
            Point::Created | Point::Stopped => false,
        }
    }

    /// What an event leads to. Where there is room for a new connection, its number is left
    /// open: see [`ListenerState::opened`].
    pub open spec fn turn(self, history: HistoryState, now: u64, event: EventState) -> Turn {
        match self.at {
            Point::Draining => match event {
                EventState::Message(msg) => self.handle(history, now, msg, true),
                _ => self.drained(history),
            },
            Point::Waiting => self.woken(history, now, event),
            Point::Reserving => self.poll(history),
            Point::Opening { conv } => self.deliver(history, conv),
            Point::Delivering => self.poll(history),
            Point::Polling => self.polled(history, event),
            Point::Cancelling => self.round(history),
            Point::Handling { drained } => self.handled(history, drained),
            Point::Feeding { last } => self.try_send(history, last),
            Point::TryingOutgoing { last } => match event {
                EventState::Outgoing => Turn {
                    task: ListenerState {
                        left: (self.left - 1) as usize,
                        at: Point::Feeding { last },
                        ..self
                    },
                    history,
                    action: ActionState::Feed,
                },
                _ => self.flush(history, last),
            },
            Point::Flushing { last } => if last {
                self.stop(history)
            } else {
                self.round(history)
            },
            Point::Closing => (ListenerState { left: usize::MAX, ..self }).try_send(history, true),
            Point::Created => self.round(history),
            Point::Stopped => self.stop(history),
        }
    }
}

} // verus!

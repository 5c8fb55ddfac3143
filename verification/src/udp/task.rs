//! The state machine that drives a listener.
//!
//! [`Task::step`] takes what the last [`Action`] led to and says what to do next. Between two
//! steps the runtime performs the action on its sockets, channels and tasks.

use crate::addr::PeerAddr;
use crate::config::{Duration, KcpConfig, LISTENER_CONV_TIMEOUT, LISTENER_TASK_LOOP};
use crate::conv::{ConvHistory, HistoryState};
use crate::stream::KcpStream;
use crate::udp::sessions::{
    ids_get, ids_insert, ids_new, ids_remove, sessions_contains_key, sessions_get,
    sessions_get_mut, sessions_insert, sessions_is_empty, sessions_new, sessions_remove, Session,
    SessionState,
};
use crate::udp::state::{Action, ActionState, Event, ListenerState, Message, Point, Route, Turn};
use bytes::Bytes;
use hashlink::LinkedHashMap;
use std::sync::Arc;
use vstd::prelude::*;

verus! {

/// Drives a listener.
pub struct Task {
    config: Arc<KcpConfig>,
    is_closing: bool,
    conv_map: LinkedHashMap<u32, Session>,
    sid_map: LinkedHashMap<Bytes, u32>,
    packet: Vec<u8>,
    peer: PeerAddr,
    left: usize,
    at: Point,
}

/// A session as contracts see it.
pub open spec fn state_of() -> spec_fn(Session) -> SessionState {
    |s: Session| s@
}

impl View for Task {
    type V = ListenerState;

    closed spec fn view(&self) -> ListenerState {
        ListenerState {
            config: *self.config,
            closing: self.is_closing,
            sessions: crate::udp::sessions::sessions_of(self.conv_map).map_values(state_of()),
            ids: crate::udp::sessions::ids_of(self.sid_map),
            packet: self.packet@,
            peer: self.peer,
            left: self.left,
            at: self.at,
        }
    }
}

/// Where a packet belongs.
#[derive(Debug)]
enum Found<'a> {
    /// To this connection.
    Existing(u32),
    /// It opens a connection with this session ID.
    Fresh(&'a [u8]),
    /// Nowhere.
    Nothing,
}

/// A [`Found`] as contracts see it.
spec fn route_of(found: Found) -> Route {
    match found {
        Found::Existing(conv) => Route::Existing(conv),
        Found::Fresh(id) => Route::Fresh(id@),
        Found::Nothing => Route::Nothing,
    }
}

impl Task {
    /// A listener without connections.
    pub fn new(config: Arc<KcpConfig>) -> (task: Task)
        ensures
            task@.config == *config,
            !task@.closing,
            task@.sessions == Map::<u32, SessionState>::empty(),
            task@.ids == Map::<Seq<u8>, u32>::empty(),
            task@.at == Point::Created,
            task@.wf(),
    {
        let task = Task {
            config,
            is_closing: false,
            conv_map: sessions_new(),
            sid_map: ids_new(),
            packet: Vec::new(),
            peer: PeerAddr::V4 { ip: 0, port: 0 },
            left: 0,
            at: Point::Created,
        };
        assert(task@.sessions =~= Map::<u32, SessionState>::empty());
        task
    }

    /// The history of a listener that is given none.
    pub fn conv_cache() -> (history: ConvHistory)
        ensures
            history@ == (HistoryState {
                entries: Seq::empty(),
                timeout: Duration { secs: 120, nanos: 0 },
            }),
            history@.wf(),
    {
        ConvHistory::new(0, Duration::from_secs(LISTENER_CONV_TIMEOUT))
    }

    /// The first action.
    pub fn start(&mut self) -> (action: Action)
        requires
            old(self)@.wf(),
            old(self)@.at == Point::Created,
        ensures
            final(self)@ == (ListenerState {
                at: if old(self)@.closing {
                    Point::Draining
                } else {
                    Point::Waiting
                },
                ..old(self)@
            }),
            final(self)@.wf(),
            action@ == if old(self)@.closing {
                ActionState::TryMessage
            } else {
                ActionState::Wait { cancel: true }
            },
    {
        self.round()
    }

    fn round(&mut self) -> (action: Action)
        ensures
            final(self)@ == (ListenerState {
                at: if old(self)@.closing {
                    Point::Draining
                } else {
                    Point::Waiting
                },
                ..old(self)@
            }),
            action@ == if old(self)@.closing {
                ActionState::TryMessage
            } else {
                ActionState::Wait { cancel: true }
            },
    {
        if self.is_closing {
            self.at = Point::Draining;
            Action::TryMessage
        } else {
            self.wait()
        }
    }

    fn wait(&mut self) -> (action: Action)
        ensures
            final(self)@ == (ListenerState { at: Point::Waiting, ..old(self)@ }),
            action@ == (ActionState::Wait { cancel: !old(self)@.closing }),
    {
        self.at = Point::Waiting;
        Action::Wait { cancel: !self.is_closing }
    }

    fn handled(&mut self, history: &ConvHistory, drained: bool) -> (action: Action)
        ensures
            crate::udp::state::is_turn(
                final(self)@,
                history@,
                action@,
                old(self)@.handled(history@, drained),
            ),
    {
        if drained {
            self.wait()
        } else {
            self.round()
        }
    }

    /// Acts on a message.
    fn process_msg(
        &mut self,
        history: &mut ConvHistory,
        now: u64,
        msg: Message,
        drained: bool,
    ) -> (action: Action)
        requires
            old(self)@.consistent(),
            old(history)@.wf(),
        ensures
            crate::udp::state::is_turn(
                final(self)@,
                final(history)@,
                action@,
                old(self)@.handle(old(history)@, now, msg, drained),
            ),
            final(history)@.wf(),
    {
        match msg {
            Message::Connect { conv } => {
                match sessions_get_mut(&mut self.conv_map, conv) {
                    Some(session) => {
                        let join: bool = session.task;
                        let with: Option<PeerAddr> = if session.stream_permit {
                            Some(session.peer_addr)
                        } else {
                            None
                        };
                        session.task = false;
                        session.stream_permit = false;
                        self.at = Point::Handling { drained };
                        proof {
                            let s = old(self)@.sessions[conv];
                            assert(self@.sessions =~= old(self)@.sessions.insert(
                                conv,
                                SessionState { stream_permit: false, task: false, ..s },
                            ));
                        }
                        Action::Hand { conv, join, with }
                    },
                    None => self.handled(history, drained),
                }
            },
            Message::Disconnect { conv } => {
                match sessions_remove(&mut self.conv_map, conv) {
                    Some(session) => {
                        assert(self@.sessions =~= old(self)@.sessions.remove(conv));
                        self.kill_session(history, now, &session);
                        self.at = Point::Handling { drained };
                        Action::Kill { conv, join: session.task }
                    },
                    None => self.handled(history, drained),
                }
            },
        }
    }

    /// Puts the number of a session aside and forgets its ID.
    fn kill_session(&mut self, history: &mut ConvHistory, now: u64, session: &Session)
        requires
            old(history)@.wf(),
        ensures
            final(self)@ == (ListenerState {
                ids: old(self)@.ids.remove(session@.session_id),
                ..old(self)@
            }),
            final(history)@ == old(history)@.filled(now, seq![session.conv]),
            final(history)@.wf(),
    {
        history.add(now, session.conv);
        ids_remove(&mut self.sid_map, &session.session_id);
    }

    /// Where a packet belongs.
    fn get_session<'a>(&self, packet: &'a [u8], peer_addr: &PeerAddr) -> (found: Found<'a>)
        requires
            self@.consistent(),
        ensures
            route_of(found) == self@.route(packet@, *peer_addr),
    {
        let pkt_conv: u32 = match KcpStream::read_conv(packet) {
            Some(x) => {
                match sessions_get(&self.conv_map, x) {
                    Some(s) => {
                        assert(self@.sessions.contains_pair(x, s@));
                        if s.peer_addr == *peer_addr {
                            return Found::Existing(x);
                        }
                        return Found::Nothing;
                    },
                    None => x,
                }
            },
            None => return Found::Nothing,
        };
        let session_id = match KcpStream::read_session_id(packet, &self.config.session_key) {
            Some(x) => x,
            None => return Found::Nothing,
        };
        match ids_get(&self.sid_map, session_id) {
            Some(conv) => {
                if conv == pkt_conv || pkt_conv == KcpStream::SYN_CONV {
                    if let Some(s) = sessions_get(&self.conv_map, conv) {
                        assert(self@.sessions.contains_pair(conv, s@));
                        if s.peer_addr == *peer_addr {
                            return Found::Existing(conv);
                        }
                    }
                }
                Found::Nothing
            },
            None => {
                if self.is_closing || pkt_conv != KcpStream::SYN_CONV || session_id.len()
                    != self.config.session_id_len {
                    Found::Nothing
                } else {
                    Found::Fresh(session_id)
                }
            },
        }
    }

    fn poll(&mut self) -> (action: Action)
        ensures
            final(self)@ == (ListenerState { at: Point::Polling, ..old(self)@ }),
            action@ == ActionState::PollPacket,
    {
        self.at = Point::Polling;
        Action::PollPacket
    }

    fn deliver(&mut self, conv: u32) -> (action: Action)
        ensures
            final(self)@ == (ListenerState {
                packet: Seq::empty(),
                at: Point::Delivering,
                ..old(self)@
            }),
            action@ == (ActionState::Deliver { conv, packet: old(self)@.packet }),
    {
        let mut packet: Vec<u8> = Vec::new();
        std::mem::swap(&mut packet, &mut self.packet);
        self.at = Point::Delivering;
        Action::Deliver { conv, packet }
    }

    fn take_packet(
        &mut self,
        history: &ConvHistory,
        packet: Vec<u8>,
        peer: PeerAddr,
    ) -> (action: Action)
        requires
            old(self)@.consistent(),
        ensures
            crate::udp::state::is_turn(
                final(self)@,
                history@,
                action@,
                old(self)@.packet(history@, packet@, peer),
            ),
    {
        self.packet = packet;
        self.peer = peer;
        match self.get_session(&self.packet, &self.peer) {
            Found::Existing(conv) => self.deliver(conv),
            Found::Nothing => self.poll(),
            Found::Fresh(_) => {
                self.at = Point::Reserving;
                Action::Reserve
            },
        }
    }

    /// There is room for a new connection.
    fn open(&mut self, history: &mut ConvHistory, now: u64) -> (action: Action)
        requires
            old(self)@.consistent(),
            old(history)@.wf(),
        ensures
            old(self)@.opened(
                old(history)@,
                now,
                (Turn { task: final(self)@, history: final(history)@, action: action@ }),
            ),
            final(history)@.wf(),
    {
        match self.get_session(&self.packet, &self.peer) {
            Found::Fresh(id) => {
                let session_id = Bytes::copy_from_slice(id);
                let map = &self.conv_map;
                let in_use = |x: &u32| -> (b: bool)
                    ensures
                        b == crate::udp::sessions::sessions_of(*map).contains_key(*x),
                    { sessions_contains_key(map, *x) };
                match history.try_allocate(now, in_use) {
                    Some(conv) => {
                        ids_insert(&mut self.sid_map, session_id.clone(), conv);
                        let peer_addr: PeerAddr = self.peer;
                        sessions_insert(
                            &mut self.conv_map,
                            conv,
                            Session {
                                conv,
                                session_id,
                                peer_addr,
                                stream_permit: true,
                                task: true,
                            },
                        );
                        self.at = Point::Opening { conv };
                        proof {
                            let with = old(self)@.with_session(conv, id@, peer_addr);
                            assert(self@.sessions =~= with.sessions);
                        }
                        Action::Open { conv, peer_addr, capacity: self.config.snd_wnd as usize }
                    },
                    None => {
                        proof {
                            assert forall|conv: u32| !#[trigger] old(self)@.is_free(
                                history@,
                                conv,
                            ) by {
                                if crate::stream::valid_conv(conv) && !crate::conv::holds(
                                    history@.entries,
                                    conv,
                                ) {
                                    assert(call_ensures(in_use, (&conv,), true));
                                }
                            }
                        }
                        self.poll()
                    },
                }
            },
            _ => self.poll(),
        }
    }

    fn ended(&mut self) -> (action: Action)
        ensures
            final(self)@ == (ListenerState { closing: true, at: Point::Cancelling, ..old(self)@ }),
            action@ == ActionState::Cancel,
    {
        self.is_closing = true;
        self.at = Point::Cancelling;
        Action::Cancel
    }

    fn polled(&mut self, history: &ConvHistory, event: Event) -> (action: Action)
        requires
            old(self)@.consistent(),
        ensures
            crate::udp::state::is_turn(
                final(self)@,
                history@,
                action@,
                old(self)@.polled(history@, event@),
            ),
    {
        if self.left == 0 {
            return self.round();
        }
        match event {
            Event::Packet(packet, peer) => {
                self.left -= 1;
                self.take_packet(history, packet, peer)
            },
            Event::Ended => {
                self.left -= 1;
                self.ended()
            },
            _ => self.round(),
        }
    }

    fn try_send(&mut self, history: &ConvHistory, last: bool) -> (action: Action)
        ensures
            crate::udp::state::is_turn(
                final(self)@,
                history@,
                action@,
                old(self)@.try_send(history@, last),
            ),
    {
        if self.left > 0 {
            self.at = Point::TryingOutgoing { last };
            Action::TryOutgoing
        } else {
            self.flush(last)
        }
    }

    fn flush(&mut self, last: bool) -> (action: Action)
        ensures
            final(self)@ == (ListenerState { at: Point::Flushing { last }, ..old(self)@ }),
            action@ == ActionState::Flush,
    {
        self.at = Point::Flushing { last };
        Action::Flush
    }

    fn drained(&mut self, history: &ConvHistory) -> (action: Action)
        ensures
            crate::udp::state::is_turn(
                final(self)@,
                history@,
                action@,
                old(self)@.drained(history@),
            ),
    {
        let empty: bool = sessions_is_empty(&self.conv_map);
        proof {
            let sessions = crate::udp::sessions::sessions_of(self.conv_map);
            if empty {
                assert(self@.sessions =~= Map::<u32, SessionState>::empty());
            } else if self@.sessions == Map::<u32, SessionState>::empty() {
                assert forall|conv: u32| !sessions.contains_key(conv) by {
                    assert(!self@.sessions.contains_key(conv));
                }
                assert(sessions =~= Map::<u32, Session>::empty());
            }
        }
        if empty {
            self.at = Point::Closing;
            Action::CloseChannels
        } else {
            self.wait()
        }
    }

    fn woken(&mut self, history: &mut ConvHistory, now: u64, event: Event) -> (action: Action)
        requires
            old(self)@.consistent(),
            old(history)@.wf(),
        ensures
            crate::udp::state::is_turn(
                final(self)@,
                final(history)@,
                action@,
                old(self)@.woken(old(history)@, now, event@),
            ),
            final(history)@.wf(),
    {
        match event {
            Event::Packet(packet, peer) => {
                self.left = LISTENER_TASK_LOOP - 1;
                self.take_packet(history, packet, peer)
            },
            Event::Ended => self.ended(),
            Event::Outgoing => {
                self.left = LISTENER_TASK_LOOP;
                self.at = Point::Feeding { last: false };
                Action::Feed
            },
            Event::Message(msg) => self.process_msg(history, now, msg, false),
            Event::Cancelled => {
                self.is_closing = true;
                self.round()
            },
            _ => self.round(),
        }
    }

    /// What to do next. `now` is the time in nanoseconds.
    pub fn step(&mut self, history: &mut ConvHistory, now: u64, event: Event) -> (action: Action)
        requires
            old(self)@.wf(),
            old(self)@.awaits(event@),
            old(history)@.wf(),
        ensures
            if old(self)@.at == Point::Reserving && event@ == crate::udp::state::EventState::Reserved(
                true,
            ) {
                old(self)@.opened(
                    old(history)@,
                    now,
                    (Turn { task: final(self)@, history: final(history)@, action: action@ }),
                )
            } else {
                crate::udp::state::is_turn(
                    final(self)@,
                    final(history)@,
                    action@,
                    old(self)@.turn(old(history)@, now, event@),
                )
            },
            final(self)@.wf(),
            final(history)@.wf(),
    {
        proof {
            crate::udp::laws::law_listener_stays_consistent(self@, history@, now, event@);
            if self@.at == Point::Reserving {
                assert forall|turn: Turn| #[trigger] self@.opened(
                    history@,
                    now,
                    turn,
                ) implies turn.task.wf() by {
                    crate::udp::laws::law_opening_keeps_consistent(self@, history@, now, turn);
                }
            }
        }
        match self.at {
            Point::Draining => match event {
                Event::Message(msg) => self.process_msg(history, now, msg, true),
                _ => self.drained(history),
            },
            Point::Waiting => self.woken(history, now, event),
            Point::Reserving => match event {
                Event::Reserved(true) => self.open(history, now),
                _ => self.poll(),
            },
            Point::Opening { conv } => self.deliver(conv),
            Point::Delivering => self.poll(),
            Point::Polling => self.polled(history, event),
            Point::Cancelling | Point::Created => self.round(),
            Point::Handling { drained } => self.handled(history, drained),
            Point::Feeding { last } => self.try_send(history, last),
            Point::TryingOutgoing { last } => match event {
                Event::Outgoing => {
                    self.left -= 1;
                    self.at = Point::Feeding { last };
                    Action::Feed
                },
                _ => self.flush(last),
            },
            Point::Flushing { last } => {
                if last {
                    self.stop()
                } else {
                    self.round()
                }
            },
            Point::Closing => {
                self.left = usize::MAX;
                self.try_send(history, true)
            },
            Point::Stopped => self.stop(),
        }
    }

    fn stop(&mut self) -> (action: Action)
        ensures
            final(self)@ == (ListenerState { at: Point::Stopped, ..old(self)@ }),
            action@ == ActionState::Stop,
    {
        self.at = Point::Stopped;
        Action::Stop
    }
}

} // verus!

//! What the steps of a listener do, in terms of what they start from.

use crate::addr::PeerAddr;
use crate::conv::HistoryState;
use crate::udp::sessions::SessionState;
use crate::udp::state::{ActionState, EventState, ListenerState, Message, Point, Turn};
use vstd::prelude::*;

verus! {

/// Whether the listener is ready to take a packet: it waits for one, or looks for another one of a
/// row that has not come to its end.
pub open spec fn takes_packets(task: ListenerState) -> bool {
    task.at == Point::Waiting || (task.at == Point::Polling && task.left > 0)
}

/// How many more packets may follow one that is taken: a row has 1024.
pub open spec fn may_follow(task: ListenerState) -> int {
    if task.at == Point::Waiting {
        1023
    } else {
        task.left - 1
    }
}

/// A round begins: a listener that is closing looks for a message first; any other waits, for its
/// cancellation too.
pub open spec fn comes_round(task: ListenerState, history: HistoryState, turn: Turn) -> bool {
    &&& turn.history == history
    &&& task.closing ==> {
        &&& turn.action is TryMessage
        &&& turn.task == ListenerState { at: Point::Draining, ..task }
    }
    &&& !task.closing ==> {
        &&& turn.action == ActionState::Wait { cancel: true }
        &&& turn.task == ListenerState { at: Point::Waiting, ..task }
    }
}

/// A packet is handed to the connection with this number; nothing is kept of it.
pub open spec fn hands_on(
    task: ListenerState,
    history: HistoryState,
    conv: u32,
    packet: Seq<u8>,
    turn: Turn,
) -> bool {
    &&& turn.action == ActionState::Deliver { conv, packet }
    &&& turn.history == history
    &&& turn.task == ListenerState { packet: Seq::empty(), at: Point::Delivering, ..task }
}

/// Nothing comes of a packet: another is looked for.
pub open spec fn looks_for_packet(task: ListenerState, history: HistoryState, turn: Turn) -> bool {
    &&& turn.action is PollPacket
    &&& turn.history == history
    &&& turn.task == ListenerState { at: Point::Polling, ..task }
}

/// The listener once it has taken a packet.
pub open spec fn with_packet(task: ListenerState, packet: Seq<u8>, peer: PeerAddr) -> ListenerState {
    ListenerState { packet, peer, left: may_follow(task) as usize, ..task }
}

/// A connection gets the packets of its other end: one with the number of a session is handed to
/// that connection if it comes from the address of the session, whatever else is known of the
/// session: whether it has been set up, and whether it has been handed to the user. From another
/// address it goes nowhere.
pub proof fn law_connection_gets_its_packets(
    task: ListenerState,
    history: HistoryState,
    now: u64,
    conv: u32,
    packet: Seq<u8>,
    peer: PeerAddr,
)
    requires
        takes_packets(task),
        task.sessions.contains_key(conv),
        packet.len() >= 24,
        crate::protocol::le32_at(packet, 0) == conv,
    ensures
        ({
            let turn = task.turn(history, now, EventState::Packet(packet, peer));
            let taken = with_packet(task, packet, peer);
            &&& task.sessions[conv].peer_addr == peer ==> hands_on(
                taken,
                history,
                conv,
                packet,
                turn,
            )
            &&& task.sessions[conv].peer_addr != peer ==> looks_for_packet(taken, history, turn)
        }),
{
    crate::protocol::law_packet_begins_with_its_number(packet, conv);
}

/// The session ID that a packet carries behind the session key, if its payload begins with that.
pub open spec fn greets(task: ListenerState, packet: Seq<u8>, n: int, id: Seq<u8>) -> bool {
    crate::protocol::carries(packet, n, crate::frame::content(task.config.session_key) + id)
}

proof fn lemma_greeting(task: ListenerState, packet: Seq<u8>, n: int, id: Seq<u8>)
    requires
        greets(task, packet, n, id),
    ensures
        crate::stream::packet_session_id(packet, crate::frame::content(task.config.session_key))
            == Some(id),
{
    let key = crate::frame::content(task.config.session_key);
    crate::protocol::law_payload_is_the_first(packet, n, key + id);
    assert(key =~= (key + id).subrange(0, key.len() as int));
    assert((key + id).skip(key.len() as int) =~= id);
}

/// A connection gets what comes under the number of the handshake with its session ID, too, if it
/// comes from its address; from another address it goes nowhere.
pub proof fn law_connection_gets_its_greeting(
    task: ListenerState,
    history: HistoryState,
    now: u64,
    conv: u32,
    packet: Seq<u8>,
    n: int,
    peer: PeerAddr,
)
    requires
        task.consistent(),
        takes_packets(task),
        task.sessions.contains_key(conv),
        packet.len() >= 24,
        crate::protocol::le32_at(packet, 0) == 0xFFFF_FFFE,
        greets(task, packet, n, task.sessions[conv].session_id),
    ensures
        ({
            let turn = task.turn(history, now, EventState::Packet(packet, peer));
            let taken = with_packet(task, packet, peer);
            &&& task.sessions[conv].peer_addr == peer ==> hands_on(
                taken,
                history,
                conv,
                packet,
                turn,
            )
            &&& task.sessions[conv].peer_addr != peer ==> looks_for_packet(taken, history, turn)
        }),
{
    crate::protocol::law_packet_begins_with_its_number(packet, 0xFFFF_FFFE);
    lemma_greeting(task, packet, n, task.sessions[conv].session_id);
    assert(!task.sessions.contains_key(0xFFFF_FFFE));
}

/// A packet that comes under the number of the handshake, with the session key and the ID of no
/// session, asks for room in the backlog, if the ID has the right length and the listener is not
/// closing; else it goes nowhere. Under another number that no session has it goes nowhere.
pub proof fn law_stranger_asks_for_room(
    task: ListenerState,
    history: HistoryState,
    now: u64,
    conv: u32,
    packet: Seq<u8>,
    n: int,
    id: Seq<u8>,
    peer: PeerAddr,
)
    requires
        task.consistent(),
        takes_packets(task),
        packet.len() >= 24,
        crate::protocol::le32_at(packet, 0) == conv,
        !task.sessions.contains_key(conv),
        greets(task, packet, n, id),
        forall|c: u32|
            task.sessions.contains_key(c) ==> (#[trigger] task.sessions[c]).session_id != id,
    ensures
        ({
            let turn = task.turn(history, now, EventState::Packet(packet, peer));
            let taken = with_packet(task, packet, peer);
            let wanted = conv == 0xFFFF_FFFE && !task.closing && id.len()
                == task.config.session_id_len;
            &&& wanted ==> {
                &&& turn.action is Reserve
                &&& turn.history == history
                &&& turn.task == ListenerState { at: Point::Reserving, ..taken }
            }
            &&& !wanted ==> looks_for_packet(taken, history, turn)
        }),
{
    crate::protocol::law_packet_begins_with_its_number(packet, conv);
    lemma_greeting(task, packet, n, id);
    if task.ids.contains_key(id) {
        assert(task.sessions[task.ids[id]].session_id == id);
    }
}

/// A packet with neither the number of a session nor the session key at the beginning of its
/// payload goes nowhere, nor does one that is too short for a header.
pub proof fn law_other_packets_go_nowhere(
    task: ListenerState,
    history: HistoryState,
    now: u64,
    conv: u32,
    packet: Seq<u8>,
    n: int,
    payload: Seq<u8>,
    peer: PeerAddr,
)
    requires
        takes_packets(task),
    ensures
        ({
            let turn = task.turn(history, now, EventState::Packet(packet, peer));
            let key = crate::frame::content(task.config.session_key);
            let unknown = packet.len() >= 24 && crate::protocol::le32_at(packet, 0) == conv
                && !task.sessions.contains_key(conv);
            let empty = forall|i: int|
                0 <= i && 24 * (i + 1) <= packet.len() ==> !#[trigger] crate::protocol::announces(
                    packet,
                    i,
                );
            let keyless = crate::protocol::carries(packet, n, payload) && !(key.len()
                <= payload.len() && payload.take(key.len() as int) == key);
            packet.len() < 24 || (unknown && (empty || keyless)) ==> looks_for_packet(
                with_packet(task, packet, peer),
                history,
                turn,
            )
        }),
{
    crate::protocol::law_packet_begins_with_its_number(packet, conv);
    if crate::protocol::carries(packet, n, payload) {
        crate::protocol::law_payload_is_the_first(packet, n, payload);
    }
    let empty = forall|i: int|
        0 <= i && 24 * (i + 1) <= packet.len() ==> !#[trigger] crate::protocol::announces(packet, i);
    if empty {
        crate::protocol::law_packet_without_payload(packet);
    }
}

/// After a packet has been handed on, and after no room was found, another is looked for. Once a
/// row has come to its end, or no packet is there, the next round begins; what fails is passed over.
pub proof fn law_rows_come_to_an_end(
    task: ListenerState,
    history: HistoryState,
    now: u64,
    event: EventState,
)
    requires
        task.awaits(event),
    ensures
        task.at == Point::Delivering ==> looks_for_packet(
            task,
            history,
            task.turn(history, now, event),
        ),
        task.at == Point::Reserving && event == EventState::Reserved(false) ==> looks_for_packet(
            task,
            history,
            task.turn(history, now, event),
        ),
        task.at == Point::Polling && task.left == 0 ==> comes_round(
            task,
            history,
            task.turn(history, now, event),
        ),
        task.at == Point::Polling && (event is NoPacket || event is Broken) ==> comes_round(
            task,
            history,
            task.turn(history, now, event),
        ),
        task.at == Point::Waiting && event is Broken ==> comes_round(
            task,
            history,
            task.turn(history, now, event),
        ),
{
}

/// A listener whose socket has come to its end cancels its connections and is closing from then on;
/// so is one that is cancelled.
pub proof fn law_what_closes_a_listener(task: ListenerState, history: HistoryState, now: u64)
    ensures
        takes_packets(task) ==> {
            let turn = task.turn(history, now, EventState::Ended);
            &&& turn.action is Cancel
            &&& turn.history == history
            &&& turn.task == ListenerState {
                closing: true,
                left: turn.task.left,
                at: Point::Cancelling,
                ..task
            }
        },
        task.at == Point::Waiting ==> {
            let turn = task.turn(history, now, EventState::Cancelled);
            &&& turn.action is TryMessage
            &&& turn.history == history
            &&& turn.task == ListenerState { closing: true, at: Point::Draining, ..task }
        },
        task.at == Point::Cancelling ==> comes_round(
            task,
            history,
            task.turn(history, now, EventState::Done),
        ),
{
}

/// The listener only waits, for its cancellation unless it is closing.
pub open spec fn waits(task: ListenerState, history: HistoryState, turn: Turn) -> bool {
    &&& turn.action == ActionState::Wait { cancel: !task.closing }
    &&& turn.history == history
    &&& turn.task == ListenerState { at: Point::Waiting, ..task }
}

/// What follows a message that has been acted on: if it came while the listener was closing the
/// listener waits; else the next round begins.
pub open spec fn goes_on(
    task: ListenerState,
    history: HistoryState,
    drained: bool,
    turn: Turn,
) -> bool {
    &&& drained ==> waits(task, history, turn)
    &&& !drained ==> comes_round(task, history, turn)
}

/// A connection that stands is handed to the user together with its address if room was kept for
/// it, after it has been waited for if it is still being set up. Neither happens again. A message
/// from a connection that is not there has no consequence.
pub proof fn law_connection_that_stands(
    task: ListenerState,
    history: HistoryState,
    now: u64,
    conv: u32,
    other: u32,
)
    requires
        task.at == Point::Waiting || task.at == Point::Draining,
    ensures
        ({
            let turn = task.turn(history, now, EventState::Message(Message::Connect { conv }));
            let drained = task.at == Point::Draining;
            let s = task.sessions[conv];
            if task.sessions.contains_key(conv) {
                &&& turn.action matches ActionState::Hand { conv: c, join, with } && c == conv && join
                    == s.task && (s.stream_permit ==> with == Some(s.peer_addr)) && (
                !s.stream_permit ==> with is None)
                &&& turn.history == history
                &&& turn.task == ListenerState {
                    sessions: turn.task.sessions,
                    at: Point::Handling { drained },
                    ..task
                }
                &&& turn.task.sessions.contains_key(other) == task.sessions.contains_key(other)
                &&& other != conv ==> turn.task.sessions[other] == task.sessions[other]
                &&& turn.task.sessions[conv].conv == s.conv
                &&& turn.task.sessions[conv].session_id == s.session_id
                &&& turn.task.sessions[conv].peer_addr == s.peer_addr
                &&& !turn.task.sessions[conv].stream_permit
                &&& !turn.task.sessions[conv].task
            } else {
                goes_on(task, history, drained, turn)
            }
        }),
{
}

/// A connection that is over is forgotten, under its number and its session ID, and nothing else
/// is; one that is still being set up is waited for. Its number is put aside as of now, behind the
/// others. A message from a connection that is not there has no consequence.
pub proof fn law_connection_that_is_over(
    task: ListenerState,
    history: HistoryState,
    now: u64,
    conv: u32,
    other: u32,
    id: Seq<u8>,
)
    requires
        task.consistent(),
        task.at == Point::Waiting || task.at == Point::Draining,
    ensures
        ({
            let turn = task.turn(history, now, EventState::Message(Message::Disconnect { conv }));
            let drained = task.at == Point::Draining;
            let s = task.sessions[conv];
            if task.sessions.contains_key(conv) {
                &&& turn.action == ActionState::Kill { conv, join: s.task }
                &&& turn.task == ListenerState {
                    sessions: turn.task.sessions,
                    ids: turn.task.ids,
                    at: Point::Handling { drained },
                    ..task
                }
                &&& !turn.task.sessions.contains_key(conv)
                &&& !turn.task.ids.contains_key(s.session_id)
                &&& other != conv ==> turn.task.sessions.contains_key(other)
                    == task.sessions.contains_key(other) && turn.task.sessions[other]
                    == task.sessions[other]
                &&& id != s.session_id ==> turn.task.ids.contains_key(id)
                    == task.ids.contains_key(id) && turn.task.ids[id] == task.ids[id]
                &&& turn.history.entries.len() > 0
                &&& turn.history.entries.last() == (conv, now)
                &&& turn.history == history.filled(now, seq![conv])
                &&& turn.history.timeout == history.timeout
            } else {
                goes_on(task, history, drained, turn)
            }
        }),
{
    if task.sessions.contains_key(conv) {
        let convs = seq![conv];
        assert(convs.drop_last() =~= Seq::empty());
        reveal_with_fuel(crate::conv::all_added, 2);
    }
}

/// Once a message has been acted on the listener goes on.
pub proof fn law_message_is_acted_on_once(
    task: ListenerState,
    history: HistoryState,
    now: u64,
    drained: bool,
)
    requires
        task.at == (Point::Handling { drained }),
    ensures
        goes_on(task, history, drained, task.turn(history, now, EventState::Done)),
{
}

/// A listener that is closing and has no message closes its channels if it has no sessions, and
/// waits otherwise.
pub proof fn law_when_a_listener_has_closed(
    task: ListenerState,
    history: HistoryState,
    now: u64,
    conv: u32,
)
    requires
        task.at == Point::Draining,
    ensures
        ({
            let turn = task.turn(history, now, EventState::NoMessage);
            &&& task.sessions.contains_key(conv) ==> waits(task, history, turn)
            &&& (forall|c: u32| !task.sessions.contains_key(c)) ==> {
                &&& turn.action is CloseChannels
                &&& turn.history == history
                &&& turn.task == ListenerState { at: Point::Closing, ..task }
            }
        }),
{
    if forall|c: u32| !task.sessions.contains_key(c) {
        assert(task.sessions =~= Map::<u32, SessionState>::empty());
    }
}

/// The socket is flushed.
pub open spec fn flushes(
    task: ListenerState,
    history: HistoryState,
    last: bool,
    turn: Turn,
) -> bool {
    &&& turn.action is Flush
    &&& turn.history == history
    &&& turn.task == ListenerState { at: Point::Flushing { last }, ..task }
}

/// Packets of the connections are handed to the socket one by one, each followed by up to 1024
/// more, as long as there are any; then the socket is flushed and the next round begins. A listener
/// that has closed its channels hands over all that is left, and is over after that.
pub proof fn law_packets_are_sent(task: ListenerState, history: HistoryState, now: u64, last: bool)
    ensures
        task.at == Point::Waiting ==> {
            let turn = task.turn(history, now, EventState::Outgoing);
            &&& turn.action is Feed
            &&& turn.history == history
            &&& turn.task == ListenerState {
                left: 1024,
                at: Point::Feeding { last: false },
                ..task
            }
        },
        task.at == Point::Closing ==> {
            let turn = task.turn(history, now, EventState::Done);
            &&& turn.action is TryOutgoing
            &&& turn.history == history
            &&& turn.task == ListenerState {
                left: usize::MAX,
                at: Point::TryingOutgoing { last: true },
                ..task
            }
        },
        task.at == (Point::Feeding { last }) ==> {
            let turn = task.turn(history, now, EventState::Done);
            if task.left == 0 {
                flushes(task, history, last, turn)
            } else {
                &&& turn.action is TryOutgoing
                &&& turn.history == history
                &&& turn.task == ListenerState { at: Point::TryingOutgoing { last }, ..task }
            }
        },
        task.at == (Point::TryingOutgoing { last }) ==> flushes(
            task,
            history,
            last,
            task.turn(history, now, EventState::NoOutgoing),
        ),
        task.at == (Point::TryingOutgoing { last }) && task.left > 0 ==> {
            let turn = task.turn(history, now, EventState::Outgoing);
            &&& turn.action is Feed
            &&& turn.history == history
            &&& turn.task.left == task.left - 1
            &&& turn.task == ListenerState {
                left: turn.task.left,
                at: Point::Feeding { last },
                ..task
            }
        },
        task.at == (Point::Flushing { last: false }) ==> comes_round(
            task,
            history,
            task.turn(history, now, EventState::Done),
        ),
        task.at == (Point::Flushing { last: true }) ==> {
            let turn = task.turn(history, now, EventState::Done);
            &&& turn.action is Stop
            &&& turn.history == history
            &&& turn.task == ListenerState { at: Point::Stopped, ..task }
        },
{
}

/// A connection that is opened gets a number from 1 on, below the two largest, that no session has
/// and that is not among those put aside. It has the address and the session ID of the packet at
/// hand, is still to be set up and to be handed to the user, and is found under its number and its
/// ID. As many packets may wait for it as the send window has room for. All other sessions stay. The
/// packet at hand is then handed to it.
pub proof fn law_what_a_new_connection_is(
    task: ListenerState,
    history: HistoryState,
    now: u64,
    later: u64,
    turn: Turn,
    n: int,
    id: Seq<u8>,
    other: u32,
)
    requires
        task.wf(),
        task.at == Point::Reserving,
        task.opened(history, now, turn),
        greets(task, task.packet, n, id),
    ensures
        turn.action matches ActionState::Open { conv, peer_addr, capacity } ==> {
            let s = turn.task.sessions[conv];
            &&& 1 <= conv <= 0xFFFF_FFFD
            &&& !task.sessions.contains_key(conv)
            &&& forall|i: int|
                0 <= i < turn.history.entries.len() ==> (#[trigger] turn.history.entries[i]).0 != conv
            &&& turn.history == history.updated(now)
            &&& peer_addr == task.peer
            &&& capacity == task.config.snd_wnd
            &&& turn.task.sessions.contains_key(conv)
            &&& s.conv == conv && s.session_id == id && s.peer_addr == task.peer && s.stream_permit
                && s.task
            &&& turn.task.ids.contains_key(id) && turn.task.ids[id] == conv
            &&& other != conv ==> turn.task.sessions.contains_key(other)
                == task.sessions.contains_key(other) && turn.task.sessions[other]
                == task.sessions[other]
            &&& turn.task == ListenerState {
                sessions: turn.task.sessions,
                ids: turn.task.ids,
                at: Point::Opening { conv },
                ..task
            }
            &&& hands_on(
                turn.task,
                turn.history,
                conv,
                task.packet,
                turn.task.turn(turn.history, later, EventState::Done),
            )
        },
        turn.action !is Open ==> {
            &&& looks_for_packet(task, history.updated(now), turn)
            &&& 1 <= other <= 0xFFFF_FFFD ==> task.sessions.contains_key(other) || exists|i: int|
                0 <= i < turn.history.entries.len() && (#[trigger] turn.history.entries[i]).0 == other
        },
{
    lemma_greeting(task, task.packet, n, id);
    if turn.action !is Open {
        assert(!task.is_free(history.updated(now), other));
    } else {
        assert forall|i: int| 0 <= i < turn.history.entries.len() implies (
        #[trigger] turn.history.entries[i]).0 != turn.action->Open_conv by {}
    }
}

/// The action whose answer is waited for at a point.
pub open spec fn goes_with(at: Point, action: ActionState) -> bool {
    match at {
        Point::Created => false,
        Point::Draining => action is TryMessage,
        Point::Waiting => action is Wait,
        Point::Reserving => action is Reserve,
        Point::Opening { .. } => action is Open,
        Point::Delivering => action is Deliver,
        Point::Polling => action is PollPacket,
        Point::Cancelling => action is Cancel,
        Point::Handling { .. } => action is Hand || action is Kill,
        Point::Feeding { .. } => action is Feed,
        Point::TryingOutgoing { .. } => action is TryOutgoing,
        Point::Flushing { .. } => action is Flush,
        Point::Closing => action is CloseChannels,
        Point::Stopped => action is Stop,
    }
}

/// Whether an event is one that an action can lead to.
pub open spec fn can_answer(action: ActionState, event: EventState) -> bool {
    match event {
        EventState::Done => action is Open || action is Deliver || action is Cancel || action is Hand
            || action is Kill || action is Feed || action is Flush || action is CloseChannels,
        EventState::Message(_) => action is TryMessage || action is Wait,
        EventState::NoMessage => action is TryMessage,
        EventState::Packet(..) | EventState::Broken | EventState::Ended => action is Wait
            || action is PollPacket,
        EventState::NoPacket => action is PollPacket,
        EventState::Reserved(_) => action is Reserve,
        EventState::Outgoing => action is Wait || action is TryOutgoing,
        EventState::NoOutgoing => action is TryOutgoing,
        EventState::Cancelled => action matches ActionState::Wait { cancel } && cancel,
    }
}

/// Whatever a step starts from: it leads to the action whose answer is waited for after it, and
/// every event that the action can lead to is one that the listener goes on with. It waits for its
/// cancellation exactly if it is not closing.
pub proof fn law_every_answer_is_awaited(
    task: ListenerState,
    history: HistoryState,
    now: u64,
    event: EventState,
    answer: EventState,
)
    requires
        task.awaits(event),
    ensures
        ({
            let turn = task.turn(history, now, event);
            &&& goes_with(turn.task.at, turn.action)
            &&& can_answer(turn.action, answer) ==> turn.task.awaits(answer)
            &&& turn.action matches ActionState::Wait { cancel } ==> (cancel <==> !turn.task.closing)
        }),
{
}

} // verus!

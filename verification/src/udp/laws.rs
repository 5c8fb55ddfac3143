//! What holds of every listener.

use crate::addr::PeerAddr;
use crate::conv::HistoryState;
use crate::stream::KcpStream;
use crate::udp::sessions::SessionState;
use crate::udp::state::{
    ActionState, EventState, ListenerState, Message, Point, Route, Turn,
};
use vstd::prelude::*;

verus! {

/// Every step leaves sessions and session IDs belonging together one to one. The settings stay,
/// and a listener that is closing goes on closing. Sessions come only where there is room for
/// them and go only with the message that they are over.
pub proof fn law_listener_stays_consistent(
    task: ListenerState,
    history: HistoryState,
    now: u64,
    event: EventState,
)
    requires
        task.wf(),
        task.awaits(event),
        history.wf(),
    ensures
        ({
            let turn = task.turn(history, now, event);
            &&& turn.task.wf()
            &&& turn.task.config == task.config
            &&& task.closing ==> turn.task.closing
            &&& match event {
                EventState::Message(Message::Disconnect { conv }) => turn.task.sessions
                    == task.sessions.remove(conv),
                EventState::Message(Message::Connect { .. }) => turn.task.sessions.dom()
                    == task.sessions.dom() && turn.task.ids == task.ids,
                _ => turn.task.sessions == task.sessions && turn.task.ids == task.ids,
            }
        }),
{
    if let EventState::Message(msg) = event {
        match msg {
            Message::Connect { conv } => {
                if task.sessions.contains_key(conv) {
                    let after = task.turn(history, now, event).task;
                    assert(after.sessions.dom() =~= task.sessions.dom());
                }
            },
            Message::Disconnect { conv } => {
                if task.sessions.contains_key(conv) {
                    let after = task.turn(history, now, event).task;
                    let id = task.sessions[conv].session_id;
                    assert forall|other: Seq<u8>| #[trigger]
                        after.ids.contains_key(other) implies after.sessions.contains_key(
                        after.ids[other],
                    ) && after.sessions[after.ids[other]].session_id == other by {
                        assert(task.ids.contains_key(other));
                    }
                    assert forall|other: u32| #[trigger]
                        after.sessions.contains_key(other) implies after.ids.contains_pair(
                        after.sessions[other].session_id,
                        other,
                    ) by {
                        assert(task.sessions.contains_key(other));
                    }
                } else {
                    assert(task.sessions.remove(conv) =~= task.sessions);
                }
            },
        }
    }
}

/// A new connection leaves sessions and session IDs belonging together one to one.
pub proof fn law_opening_keeps_consistent(
    task: ListenerState,
    history: HistoryState,
    now: u64,
    turn: Turn,
)
    requires
        task.wf(),
        task.at == Point::Reserving,
        task.opened(history, now, turn),
    ensures
        turn.task.wf(),
        turn.task.config == task.config,
        turn.task.closing == task.closing,
{
    if let (Route::Fresh(id), ActionState::Open { conv, .. }) = (
        task.route(task.packet, task.peer),
        turn.action,
    ) {
        let after = turn.task;
        assert forall|other: Seq<u8>| #[trigger]
            after.ids.contains_key(other) implies after.sessions.contains_key(after.ids[other])
            && after.sessions[after.ids[other]].session_id == other by {
            if other != id {
                assert(task.ids.contains_key(other));
            }
        }
        assert forall|other: u32| #[trigger]
            after.sessions.contains_key(other) implies after.ids.contains_pair(
            after.sessions[other].session_id,
            other,
        ) by {
            if other != conv {
                assert(task.sessions.contains_key(other));
            }
        }
    }
}

/// A connection that has been accepted is found again: by its number, and by the packet that
/// opened it should that come once more. From another address neither reaches it.
pub proof fn law_accepted_connection_is_found(
    task: ListenerState,
    history: HistoryState,
    now: u64,
    turn: Turn,
    packet: Seq<u8>,
    peer: PeerAddr,
)
    requires
        task.wf(),
        task.at == Point::Reserving,
        task.opened(history, now, turn),
        turn.action is Open,
    ensures
        ({
            let conv = turn.action->Open_conv;
            &&& crate::protocol::packet_conv(packet) == Some(conv) ==> turn.task.route(packet, peer)
                == if peer == task.peer {
                Route::Existing(conv)
            } else {
                Route::Nothing
            }
            &&& turn.task.route(task.packet, peer) == if peer == task.peer {
                Route::Existing(conv)
            } else {
                Route::Nothing
            }
        }),
{
    law_opening_keeps_consistent(task, history, now, turn);
}

/// Should the packet that opened a connection come again, later on, it is handed to that connection
/// and nothing else happens: no connection is added and no room is asked for. From another address
/// it goes nowhere.
pub proof fn law_repeated_packet_opens_nothing(
    task: ListenerState,
    history: HistoryState,
    now: u64,
    turn: Turn,
    later: ListenerState,
    aside: HistoryState,
    t: u64,
    peer: PeerAddr,
)
    requires
        task.wf(),
        task.at == Point::Reserving,
        task.opened(history, now, turn),
        turn.action is Open,
        later.config == task.config,
        later.sessions == turn.task.sessions,
        later.ids == turn.task.ids,
        later.at == Point::Waiting || (later.at == Point::Polling && later.left > 0),
    ensures
        ({
            let conv = turn.action->Open_conv;
            let again = later.turn(aside, t, EventState::Packet(task.packet, peer));
            &&& again.action == if peer == task.peer {
                ActionState::Deliver { conv, packet: task.packet }
            } else {
                ActionState::PollPacket
            }
            &&& again.task.sessions == later.sessions
            &&& again.task.ids == later.ids
            &&& again.history == aside
        }),
{
    law_opening_keeps_consistent(task, history, now, turn);
}

/// A packet reaches only a connection that is there under its number, and only from the address of
/// that connection. A packet without a whole header, or with the number of a connection but from
/// another address, goes nowhere. Whatever comes of it, the sessions stay as they are.
pub proof fn law_packet_reaches_only_its_connection(
    task: ListenerState,
    history: HistoryState,
    now: u64,
    packet: Seq<u8>,
    peer: PeerAddr,
)
    requires
        task.consistent(),
        task.at == Point::Waiting || (task.at == Point::Polling && task.left > 0),
    ensures
        ({
            let turn = task.turn(history, now, EventState::Packet(packet, peer));
            let foreign = crate::protocol::packet_conv(packet) matches Some(c)
                && task.sessions.contains_key(c) && task.sessions[c].peer_addr != peer;
            &&& turn.action matches ActionState::Deliver { conv, packet: handed } ==> {
                &&& handed == packet
                &&& task.sessions.contains_key(conv)
                &&& task.sessions[conv].conv == conv
                &&& task.sessions[conv].peer_addr == peer
            }
            &&& packet.len() < 24 || foreign ==> turn.action is PollPacket
            &&& turn.task.sessions == task.sessions
            &&& turn.task.ids == task.ids
            &&& turn.history == history
        }),
{
}

/// Whether a packet is one that opens a connection: the listener is not closing, and the packet
/// comes under the number of the handshake with the session key and a session ID of the right
/// length that no connection has.
pub open spec fn opens(task: ListenerState, packet: Seq<u8>, id: Seq<u8>) -> bool {
    &&& !task.closing
    &&& crate::protocol::packet_conv(packet) == Some(KcpStream::SYN_CONV)
    &&& crate::stream::packet_session_id(packet, crate::frame::content(task.config.session_key))
        == Some(id)
    &&& id.len() == task.config.session_id_len
    &&& !task.ids.contains_key(id)
}

/// A connection is added if and only if a packet opens one, there is room in the backlog, and a
/// number is free. It then has the session ID of the packet, the address that the packet comes
/// from, and a number that is valid, that no connection has, and that has not been given up
/// lately. In all other cases the sessions stay as they are.
pub proof fn law_what_opens_a_connection(
    task: ListenerState,
    before: HistoryState,
    t: u64,
    packet: Seq<u8>,
    peer: PeerAddr,
    history: HistoryState,
    now: u64,
    room: bool,
    turn: Turn,
)
    requires
        task.consistent(),
        task.at == Point::Waiting || (task.at == Point::Polling && task.left > 0),
        ({
            let first = task.turn(before, t, EventState::Packet(packet, peer));
            first.action is Reserve ==> if room {
                first.task.opened(history, now, turn)
            } else {
                turn == first.task.turn(history, now, EventState::Reserved(false))
            }
        }),
    ensures
        ({
            let first = task.turn(before, t, EventState::Packet(packet, peer));
            let free = exists|conv: u32| #[trigger] task.is_free(history.updated(now), conv);
            let id = crate::stream::packet_session_id(
                packet,
                crate::frame::content(task.config.session_key),
            )->Some_0;
            &&& first.task.sessions == task.sessions
            &&& first.task.ids == task.ids
            &&& first.action is Reserve <==> opens(task, packet, id)
            &&& first.action is Reserve ==> (turn.action is Open <==> room && free)
            &&& first.action is Reserve && room && free ==> {
                let conv = turn.action->Open_conv;
                &&& task.is_free(history.updated(now), conv)
                &&& turn.task.sessions == task.with_session(conv, id, peer).sessions
                &&& turn.task.ids == task.with_session(conv, id, peer).ids
            }
            &&& first.action is Reserve && !(room && free) ==> {
                &&& turn.task.sessions == task.sessions
                &&& turn.task.ids == task.ids
            }
        }),
{
    let first = task.turn(before, t, EventState::Packet(packet, peer));
    let updated = history.updated(now);
    assert forall|conv: u32| #[trigger] first.task.is_free(updated, conv) == task.is_free(
        updated,
        conv,
    ) by {}
    if first.action is Reserve && room && turn.action is Open {
        assert(task.is_free(updated, turn.action->Open_conv));
    }
    if first.action is Reserve && room && turn.action !is Open {
        assert forall|conv: u32| !#[trigger] task.is_free(updated, conv) by {
            assert(!first.task.is_free(updated, conv));
        }
    }
}

/// A new connection gets a number that no other connection has and that has not been given up
/// lately, and comes to exist beside the others without touching them.
pub proof fn law_new_connection_is_new(
    task: ListenerState,
    history: HistoryState,
    now: u64,
    turn: Turn,
    other: u32,
)
    requires
        task.opened(history, now, turn),
        turn.action is Open,
    ensures
        ({
            let conv = turn.action->Open_conv;
            &&& crate::stream::valid_conv(conv)
            &&& !task.sessions.contains_key(conv)
            &&& turn.task.sessions.contains_key(conv)
            &&& !crate::conv::holds(turn.history.entries, conv)
            &&& other != conv ==> turn.task.sessions.contains_key(other)
                == task.sessions.contains_key(other) && turn.task.sessions[other]
                == task.sessions[other]
        }),
{
}

/// Nothing opens a connection with a listener that is closing, and it goes on closing.
pub proof fn law_closing_listener_accepts_nothing(
    task: ListenerState,
    history: HistoryState,
    now: u64,
    event: EventState,
    packet: Seq<u8>,
    peer: PeerAddr,
)
    requires
        task.wf(),
        task.closing,
        task.awaits(event),
        history.wf(),
    ensures
        !(task.route(packet, peer) is Fresh),
        task.turn(history, now, event).action !is Open,
        task.turn(history, now, event).task.closing,
{
    law_listener_stays_consistent(task, history, now, event);
}

/// A connection that has been accepted and is over leaves nothing behind but its number, which
/// is put aside.
pub proof fn law_ended_connection_is_forgotten(
    task: ListenerState,
    conv: u32,
    id: Seq<u8>,
    peer: PeerAddr,
    history: HistoryState,
    t: u64,
    drained: bool,
)
    requires
        task.consistent(),
        !task.sessions.contains_key(conv),
        !task.ids.contains_key(id),
        crate::stream::valid_conv(conv),
    ensures
        ({
            let turn = task.with_session(conv, id, peer).handle(
                history,
                t,
                Message::Disconnect { conv },
                drained,
            );
            &&& turn.task.sessions == task.sessions
            &&& turn.task.ids == task.ids
            &&& crate::conv::holds_since(turn.history.entries, conv, t)
            &&& turn.action == ActionState::Kill { conv, join: true }
        }),
{
    let with = task.with_session(conv, id, peer);
    let turn = with.handle(history, t, Message::Disconnect { conv }, drained);
    assert(turn.task.sessions =~= task.sessions);
    assert(turn.task.ids =~= task.ids);
    let before = crate::conv::pruned(history.entries, t, history.timeout);
    let convs = seq![conv];
    assert(convs.drop_last() =~= Seq::empty());
    reveal_with_fuel(crate::conv::all_added, 2);
    let rest = crate::conv::without(before, conv);
    assert(turn.history.entries =~= rest.push((conv, t)));
    assert(turn.history.entries[rest.len() as int] == (conv, t));
}

/// The number of a connection that is over is not given to another before its time is over,
/// whatever other numbers are put aside meanwhile.
pub proof fn law_number_rests(
    task: ListenerState,
    ended: HistoryState,
    conv: u32,
    time: u64,
    calls: Seq<(u64, Seq<u32>)>,
    now: u64,
    turn: Turn,
)
    requires
        crate::conv::holds_since(ended.entries, conv, time),
        forall|i: int|
            0 <= i < calls.len() ==> time <= (#[trigger] calls[i]).0 && !crate::conv::expired(
                time,
                calls[i].0,
                ended.timeout,
            ),
        time <= now,
        !crate::conv::expired(time, now, ended.timeout),
        task.opened(
            (HistoryState {
                entries: crate::conv::after(ended.entries, calls, ended.timeout),
                ..ended
            }),
            now,
            turn,
        ),
        turn.action is Open,
    ensures
        turn.action->Open_conv != conv,
{
    crate::conv::law_given_up_number_is_kept(
        ended.entries,
        conv,
        time,
        calls,
        now,
        ended.timeout,
    );
}

/// A connection that stands is handed to the user once, with the address of its other end; told
/// of it again, the listener hands nothing over.
pub proof fn law_connection_is_handed_over_once(
    task: ListenerState,
    history: HistoryState,
    conv: u32,
    id: Seq<u8>,
    peer: PeerAddr,
    t1: u64,
    t2: u64,
    drained: bool,
)
    ensures
        ({
            let msg = Message::Connect { conv };
            let first = task.with_session(conv, id, peer).handle(history, t1, msg, drained);
            let second = first.task.handle(history, t2, msg, drained);
            &&& first.action == ActionState::Hand { conv, join: true, with: Some(peer) }
            &&& second.action == ActionState::Hand { conv, join: false, with: None }
        }),
{
}

/// A listener closes its channels only once it is closing and has no connections left.
pub proof fn law_listener_outlives_its_connections(
    task: ListenerState,
    history: HistoryState,
    now: u64,
    event: EventState,
)
    requires
        task.wf(),
        task.awaits(event),
    ensures
        task.turn(history, now, event).action is CloseChannels ==> task.closing && task.sessions
            == Map::<u32, SessionState>::empty(),
{
}

} // verus!

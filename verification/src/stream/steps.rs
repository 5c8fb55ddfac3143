//! What the steps of a connection do, in terms of what they start from.

use crate::error::ErrorKind;
use crate::ffi::IKCPCB;
use crate::protocol::KcpState;
use crate::stream::state::{
    ActionState, EventState, Handshake, Point, Purpose, TaskState, Then, Tuning, Turn,
};
use bytes::Bytes;
use vstd::prelude::*;

verus! {

/// How many milliseconds ago the engine was last flushed, as of its last update; none where that
/// lies ahead.
pub open spec fn silence(task: TaskState, kcp: KcpState) -> int {
    let d = (kcp.cb.current - task.last_io_time) % 0x1_0000_0000;
    if d < 0x8000_0000 {
        d
    } else {
        0
    }
}

/// Whether a connection has no future: it is over, the engine has given it up, or it has been
/// silent for as many milliseconds as the settings allow, which are counted up to the largest
/// 32-bit number.
pub open spec fn hopeless(task: TaskState, kcp: KcpState) -> bool {
    let expire = task.config.session_expire;
    let millis = (expire.secs * 1_000_000_000 + expire.nanos) / 1_000_000;
    ||| task.hs == Handshake::Disconnected
    ||| kcp.cb.state == 0xFFFF_FFFF
    ||| silence(task, kcp) >= millis
    ||| silence(task, kcp) >= 0xFFFF_FFFF
}

/// A round begins: a packet goes out if there is one; else a hopeless connection is given up, and
/// any other asks the engine how long to wait. Nothing else changes, but that a frame which waits
/// for delivery is dropped with the connection.
pub open spec fn comes_round(task: TaskState, kcp: KcpState, now: u32, turn: Turn) -> bool {
    &&& turn.action is Feed <==> kcp.output.len() > 0
    &&& turn.action is CloseChannels <==> kcp.output.len() == 0 && hopeless(task, kcp)
    &&& !(turn.action is Feed) && !(turn.action is CloseChannels) ==> turn.action
        == ActionState::Check { current: now }
    &&& turn.action is Check ==> turn.task == TaskState {
        at: Point::Checking { current: now },
        ..task
    }
    &&& turn.action is CloseChannels ==> turn.task == TaskState {
        tx_frame: None,
        at: Point::Closing,
        ..task
    }
    &&& turn.action is Feed ==> turn.task == TaskState { at: Point::Feeding, ..task }
    &&& turn.kcp.cb == kcp.cb && turn.kcp.waitsnd == kcp.waitsnd
    &&& turn.action is Feed ==> turn.kcp.output == kcp.output.skip(1)
    &&& !(turn.action is Feed) ==> turn.kcp.output == kcp.output
}

/// What is to be flushed is flushed; a round begins where there is nothing to flush.
pub open spec fn calms_down(task: TaskState, kcp: KcpState, now: u32, turn: Turn) -> bool {
    if task.flush {
        &&& turn.action is Flush
        &&& turn.task == TaskState { flush: false, at: Point::Flushing, ..task }
        &&& turn.kcp == kcp
    } else {
        comes_round(task, kcp, now, turn)
    }
}

/// A frame is asked of the engine. It is taken for the FIN frame of the other end exactly if a FIN
/// packet has come and the frame is the last one that the engine holds.
pub open spec fn asks_for_frame(
    task: TaskState,
    kcp: KcpState,
    purpose: Purpose,
    turn: Turn,
) -> bool {
    &&& turn.action is Recv
    &&& turn.kcp == kcp
    &&& turn.task.at matches Point::Receiving { purpose: p, fin } && p == purpose && (fin
        <==> task.fin_recved && kcp.cb.nrcv_que == 1 && kcp.cb.nrcv_buf == 0)
    &&& turn.task == TaskState { at: turn.task.at, ..task }
}

/// A frame is asked of the engine, unless one waits for delivery.
pub open spec fn looks_for_frame(task: TaskState, kcp: KcpState, now: u32, turn: Turn) -> bool {
    if task.tx_frame is None {
        asks_for_frame(task, kcp, Purpose::Fetch, turn)
    } else {
        calms_down(task, kcp, now, turn)
    }
}

/// How the closing goes on while nothing is sent. A connection that does not stand yet is over. One
/// that stands waits for what it has sent to be confirmed, and then for the FIN frame of the other
/// end, until every frame has been fetched.
pub open spec fn closes_further(
    before: TaskState,
    kcp: KcpState,
    now: u32,
    after: TaskState,
) -> bool {
    &&& before.hs == Handshake::Syn ==> after.hs == Handshake::Disconnected
    &&& before.hs == Handshake::Connected ==> after.hs == Handshake::FinPending
    &&& before.hs == Handshake::FinPending ==> after.hs == Handshake::FinPending
    &&& before.hs == Handshake::FinSent && kcp.waitsnd > 0 ==> after.hs == Handshake::FinSent
    &&& (before.hs == Handshake::FinSent && kcp.waitsnd == 0) || before.hs == Handshake::FinWaitPeer
        ==> after.hs == if before.fin_recved && kcp.cb.nrcv_que == 0 && kcp.cb.nrcv_buf == 0 {
        Handshake::Disconnected
    } else {
        Handshake::FinWaitPeer
    }
    &&& before.hs == Handshake::Disconnected ==> after.hs == Handshake::Disconnected
    // ten seconds from the beginning
    &&& before.hs == Handshake::Connected ==> (after.hs_end_time - now - 10_000) % 0x1_0000_0000
        == 0
    &&& before.hs != Handshake::Connected ==> after.hs_end_time == before.hs_end_time
    &&& after == TaskState { hs: after.hs, hs_end_time: after.hs_end_time, ..before }
}

/// Whether the FIN frame can be sent: the user will send no more, and all that was sent is
/// confirmed.
pub open spec fn can_fin(task: TaskState, kcp: KcpState) -> bool {
    &&& task.hs == Handshake::Connected || task.hs == Handshake::FinPending
    &&& task.input_closed
    &&& kcp.waitsnd == 0
}

/// The FIN frame is sent: the session key and the session ID.
pub open spec fn sends_fin(
    task: TaskState,
    kcp: KcpState,
    now: u32,
    then: Then,
    turn: Turn,
) -> bool {
    &&& turn.action == ActionState::SendHandshake(
        crate::frame::content(task.config.session_key) + task.session_id,
    )
    &&& turn.kcp == kcp
    &&& closes_further(
        (TaskState { flush: true, at: Point::Finishing { then }, ..task }),
        kcp,
        now,
        turn.task,
    )
}

/// A packet has been dealt with: another is looked for as long as one may follow. After the last
/// one, a connection that does not stand yet looks for the SYN frame; one that is being closed goes
/// on with that; then a frame is looked for.
pub open spec fn goes_on_to_packets(task: TaskState, kcp: KcpState, now: u32, turn: Turn) -> bool {
    if task.left > 0 {
        &&& turn.action is PollPacket
        &&& turn.kcp == kcp
        &&& turn.task.left == task.left - 1
        &&& turn.task == TaskState { left: turn.task.left, at: Point::Polling, ..task }
    } else {
        ends_packets(task, kcp, now, turn)
    }
}

/// No packet follows.
pub open spec fn ends_packets(task: TaskState, kcp: KcpState, now: u32, turn: Turn) -> bool {
    if task.hs == Handshake::Syn {
        asks_for_frame(task, kcp, Purpose::Syn, turn)
    } else {
        goes_on_closing(task, kcp, now, turn)
    }
}

/// A closing that is under way goes on; a frame is looked for.
pub open spec fn goes_on_closing(task: TaskState, kcp: KcpState, now: u32, turn: Turn) -> bool {
    if task.hs == Handshake::FinPending || task.hs == Handshake::FinSent {
        if can_fin(task, kcp) {
            sends_fin(task, kcp, now, Then::PacketsDone, turn)
        } else {
            exists|next: TaskState| #[trigger]
                closes_further(task, kcp, now, next) && looks_for_frame(next, kcp, now, turn)
        }
    } else {
        looks_for_frame(task, kcp, now, turn)
    }
}

pub(crate) proof fn lemma_round(t: TaskState, k: KcpState, now: u32)
    ensures
        comes_round(t, k, now, t.round(k, now)),
{
    reveal(TaskState::round);
    reveal(TaskState::feed);
    reveal(TaskState::decide);
    reveal(TaskState::finish);
}

pub(crate) proof fn lemma_flush(t: TaskState, k: KcpState, now: u32)
    ensures
        calms_down(t, k, now, t.flush_engine(k, now)),
{
    reveal(TaskState::flush_engine);
    lemma_round(t, k, now);
}

pub(crate) proof fn lemma_receive(t: TaskState, k: KcpState, purpose: Purpose)
    ensures
        asks_for_frame(t, k, purpose, t.receive(k, purpose)),
{
    reveal(TaskState::receive);
}

proof fn lemma_fetch(t: TaskState, k: KcpState, now: u32)
    ensures
        looks_for_frame(t, k, now, t.fetch(k, now)),
{
    reveal(TaskState::fetch);
    lemma_receive(t, k, Purpose::Fetch);
    lemma_flush(t, k, now);
}

proof fn lemma_advance(t: TaskState, k: KcpState, now: u32)
    ensures
        closes_further(t, k, now, t.fin_advanced(k, now)),
{
    if t.hs == Handshake::Connected {
        let end = (now + 10_000) % 0x1_0000_0000;
        assert((end - now - 10_000) % 0x1_0000_0000 == 0);
    }
}

pub(crate) proof fn lemma_closing(t: TaskState, k: KcpState, now: u32)
    ensures
        goes_on_closing(t, k, now, t.after_syn(k, now)),
{
    reveal(TaskState::after_syn);
    reveal(TaskState::fin);
    reveal(TaskState::after_fin);
    lemma_fetch(t, k, now);
    lemma_advance(t, k, now);
    lemma_fetch(t.fin_advanced(k, now), k, now);
    lemma_advance(
        TaskState { flush: true, at: Point::Finishing { then: Then::PacketsDone }, ..t },
        k,
        now,
    );
}

pub(crate) proof fn lemma_packets(t: TaskState, k: KcpState, now: u32)
    ensures
        ends_packets(t, k, now, t.packets_done(k, now)),
        goes_on_to_packets(t, k, now, t.next_packet(k, now)),
{
    reveal(TaskState::packets_done);
    reveal(TaskState::next_packet);
    lemma_receive(t, k, Purpose::Syn);
    lemma_closing(t, k, now);
}

/// The engine runs with the settings of the connection, each under its own name.
pub proof fn law_engine_runs_with_the_settings(task: TaskState, tuning: Tuning)
    ensures
        tuning == task.tuning() <==> {
            &&& tuning.stream == task.config.stream
            &&& tuning.mtu == task.config.mtu
            &&& tuning.snd_wnd == task.config.snd_wnd
            &&& tuning.rcv_wnd == task.config.rcv_wnd
            &&& tuning.nodelay == task.config.nodelay
        },
{
}

/// A task starts from nothing but its settings.
pub proof fn law_task_starts_fresh(config: crate::config::KcpConfig)
    ensures
        ({
            let task = TaskState::created(config);
            &&& task.config == config
            &&& !task.client && !task.flush && !task.fin_recved && !task.input_closed
            &&& task.hs == Handshake::Syn
            &&& task.session_id == Seq::<u8>::empty()
            &&& task.tx_frame is None
            &&& task.at == Point::Created
        }),
{
}

/// A task whose engine has the number of the handshake is a client. It takes the session ID that it
/// is given, and sends it behind the session key. Clients with different IDs send different frames.
pub proof fn law_client_sends_its_own_id(
    task: TaskState,
    kcp: KcpState,
    now: u32,
    id: Seq<u8>,
    other: Seq<u8>,
)
    requires
        task.at == Point::Configuring,
        kcp.cb.conv == 0xFFFF_FFFE,
    ensures
        ({
            let turn = task.turn(kcp, now, EventState::Configured(id));
            let second = task.turn(kcp, now, EventState::Configured(other));
            &&& turn.action == ActionState::SendHandshake(
                crate::frame::content(task.config.session_key) + id,
            )
            &&& turn.task.client && turn.task.session_id == id
            &&& turn.task.last_io_time == kcp.cb.current
            &&& turn.task == TaskState {
                client: true,
                flush: true,
                session_id: id,
                last_io_time: kcp.cb.current,
                at: Point::Greeting,
                ..task
            }
            &&& turn.kcp == kcp
            &&& id != other && id.len() == other.len() ==> turn.action != second.action
        }),
{
    reveal(TaskState::configured);
    let key = crate::frame::content(task.config.session_key);
    if id != other && id.len() == other.len() {
        assert((key + id).skip(key.len() as int) =~= id);
        assert((key + other).skip(key.len() as int) =~= other);
    }
}

/// A task whose engine has another number is a server: it has no session ID and sends nothing of
/// its own until a client has greeted it.
pub proof fn law_server_waits_to_be_greeted(task: TaskState, kcp: KcpState, now: u32, id: Seq<u8>)
    requires
        task.at == Point::Configuring,
        kcp.cb.conv != 0xFFFF_FFFE,
    ensures
        comes_round(
            (TaskState { last_io_time: kcp.cb.current, ..task }),
            kcp,
            now,
            task.turn(kcp, now, EventState::Configured(id)),
        ),
{
    reveal(TaskState::configured);
    lemma_round(TaskState { last_io_time: kcp.cb.current, ..task }, kcp, now);
}

/// The engine has been flushed, by the greeting of a client or otherwise: that is noted, and a round
/// begins.
pub proof fn law_flushing_is_noted(task: TaskState, kcp: KcpState, now: u32)
    requires
        task.at == Point::Greeting || task.at == Point::Flushing,
    ensures
        comes_round(
            (TaskState { flush: false, last_io_time: kcp.cb.current, ..task }),
            kcp,
            now,
            task.turn(kcp, now, EventState::Done),
        ),
{
    lemma_round(TaskState { flush: false, last_io_time: kcp.cb.current, ..task }, kcp, now);
}

/// An update, a time that is up, and a lack of room or of frames lead to the next round.
pub proof fn law_next_round_begins(task: TaskState, kcp: KcpState, now: u32)
    ensures
        task.at == Point::Updating ==> comes_round(
            task,
            kcp,
            now,
            task.turn(kcp, now, EventState::Done),
        ),
        task.at == Point::Waiting ==> comes_round(
            task,
            kcp,
            now,
            task.turn(kcp, now, EventState::Timeout),
        ),
        task.at == Point::Reserving ==> comes_round(
            task,
            kcp,
            now,
            task.turn(kcp, now, EventState::Reserved(false)),
        ),
        task.at == (Point::Receiving { purpose: Purpose::Drain, fin: false }) ==> comes_round(
            task,
            kcp,
            now,
            task.turn(kcp, now, EventState::Received(None)),
        ),
{
    reveal(TaskState::woken);
    reveal(TaskState::received);
    lemma_round(task, kcp, now);
}

/// A packet that the transport has taken is followed by the next; once none is left, or one has
/// been refused and the others are discarded, the transport is flushed. After that the connection
/// goes on, or is given up if it is hopeless.
pub proof fn law_packets_go_out(task: TaskState, kcp: KcpState, now: u32, ok: bool)
    ensures
        task.at == Point::Feeding ==> {
            let turn = task.turn(kcp, now, EventState::Fed(ok));
            let more = ok && kcp.output.len() > 0;
            &&& turn.action is Feed <==> more
            &&& turn.action is FlushSink <==> !more
            &&& turn.task == TaskState {
                at: if more {
                    Point::Feeding
                } else {
                    Point::FlushingSink
                },
                ..task
            }
            &&& turn.kcp.cb == kcp.cb && turn.kcp.waitsnd == kcp.waitsnd
            &&& more ==> turn.kcp.output == kcp.output.skip(1)
            &&& !more ==> turn.kcp.output.len() == 0
        },
        task.at == Point::FlushingSink ==> {
            let turn = task.turn(kcp, now, EventState::Done);
            &&& hopeless(task, kcp) ==> closes_at_once(task, kcp, turn)
            &&& !hopeless(task, kcp) ==> turn.action == ActionState::Check { current: now }
                && turn.task == TaskState { at: Point::Checking { current: now }, ..task }
            &&& turn.kcp == kcp
        },
{
    reveal(TaskState::fed);
    reveal(TaskState::feed);
    reveal(TaskState::decide);
    reveal(TaskState::finish);
}

/// Every packet goes out as the engine has put it out, but for the FIN flag: while the FIN frame is
/// on its way, and only then, it is set in the packets that carry a payload.
pub proof fn law_packets_go_out_as_they_are(
    task: TaskState,
    kcp: KcpState,
    now: u32,
    event: EventState,
)
    requires
        task.wf(),
        task.awaits(event),
    ensures
        task.turn(kcp, now, event).action matches ActionState::Feed(out) ==> {
            let packet = kcp.output[0];
            let flagged = task.turn(kcp, now, event).task.hs == Handshake::FinSent
                && crate::protocol::packet_payload(packet) is Some;
            &&& out.len() == packet.len()
            &&& forall|i: int| 0 <= i < out.len() && i != 4 ==> #[trigger] out[i] == packet[i]
            &&& !flagged ==> out == packet
            &&& flagged ==> out[4] == packet[4] | 0x20
        },
{
    crate::stream::laws::law_steps_go_forward(task, kcp, now, event);
    if let ActionState::Feed(out) = task.turn(kcp, now, event).action {
        lemma_payload_has_header(kcp.output[0]);
    }
}

/// A packet with a payload has a header.
proof fn lemma_payload_has_header(packet: Seq<u8>)
    ensures
        crate::protocol::packet_payload(packet) is Some ==> packet.len() > 24,
    decreases packet.len(),
{
    if packet.len() >= 24 {
        lemma_payload_has_header(packet.skip(24));
    }
}

/// How long the task waits: until the engine has to be updated, a minute at most, and while a
/// closing has to be confirmed not beyond its deadline. It waits for the user to send exactly if
/// the user may and the send queue is below its window, and for room to deliver a frame exactly if
/// one waits for that. If there is no time to wait the engine is updated at once.
pub proof fn law_what_is_waited_for(task: TaskState, kcp: KcpState, now: u32, current: u32, at: u32)
    requires
        task.at == (Point::Checking { current }),
    ensures
        ({
            let turn = task.turn(kcp, now, EventState::Checked(at));
            let due = (at - current) % 0x1_0000_0000;
            let left = (task.hs_end_time - current) % 0x1_0000_0000;
            let closing = task.hs == Handshake::FinPending || task.hs == Handshake::FinSent;
            let late = closing && (left == 0 || left >= 0x8000_0000);
            &&& turn.action == (ActionState::Update { current }) <==> due == 0
            &&& due != 0 ==> turn.action is Wait
            &&& turn.action matches ActionState::Wait { interval, input, output } ==> {
                &&& 0 < interval <= 60_000 && interval <= due
                &&& closing && !late ==> interval <= left
                &&& interval == 60_000 || interval == due || (closing && !late && interval == left)
                &&& output <==> task.tx_frame is Some
                &&& input <==> !task.input_closed && kcp.cb.nsnd_que < kcp.cb.snd_wnd
            }
            &&& turn.task.hs == if late {
                Handshake::Disconnected
            } else {
                task.hs
            }
            &&& turn.task == TaskState {
                hs: turn.task.hs,
                at: if due == 0 {
                    Point::Updating
                } else {
                    Point::Waiting
                },
                ..task
            }
            &&& turn.kcp == kcp
        }),
{
    reveal(TaskState::checked);
}

/// A frame that waits is delivered as soon as there is room, and the next one is asked for at once.
pub proof fn law_room_means_delivery(task: TaskState, kcp: KcpState, now: u32, frame: Bytes)
    ensures
        task.at == Point::Waiting && task.tx_frame == Some(frame) ==> {
            let turn = task.turn(kcp, now, EventState::Permit(true));
            &&& turn.action == ActionState::Deliver(frame)
            &&& turn.task == TaskState { tx_frame: None, at: Point::Delivering, ..task }
            &&& turn.kcp == kcp
        },
        task.at == Point::Reserving && task.tx_frame == Some(frame) ==> {
            let turn = task.turn(kcp, now, EventState::Reserved(true));
            &&& turn.action == ActionState::Deliver(frame)
            &&& turn.task == TaskState { tx_frame: None, at: Point::Delivering, ..task }
            &&& turn.kcp == kcp
        },
        task.at == Point::Delivering ==> asks_for_frame(
            task,
            kcp,
            Purpose::Drain,
            task.turn(kcp, now, EventState::Done),
        ),
        task.at == (Point::Receiving { purpose: Purpose::Drain, fin: false }) ==> {
            let turn = task.turn(kcp, now, EventState::Received(Some(frame)));
            &&& turn.action is TryReserve
            &&& turn.task == TaskState { tx_frame: Some(frame), at: Point::Reserving, ..task }
            &&& turn.kcp == kcp
        },
        task.at == (Point::Receiving { purpose: Purpose::Fetch, fin: false }) ==> calms_down(
            (TaskState { tx_frame: Some(frame), ..task }),
            kcp,
            now,
            task.turn(kcp, now, EventState::Received(Some(frame))),
        ),
        task.at == (Point::Receiving { purpose: Purpose::Fetch, fin: false }) ==> calms_down(
            (TaskState { tx_frame: None, ..task }),
            kcp,
            now,
            task.turn(kcp, now, EventState::Received(None)),
        ),
{
    reveal(TaskState::woken);
    reveal(TaskState::deliver);
    reveal(TaskState::received);
    lemma_receive(task, kcp, Purpose::Drain);
    lemma_flush(TaskState { tx_frame: Some(frame), ..task }, kcp, now);
    lemma_flush(TaskState { tx_frame: None, ..task }, kcp, now);
}

/// The FIN frame of the other end counts as no frame, whatever it holds and whatever it was fetched
/// for: it neither opens a connection nor reaches the user.
pub proof fn law_fin_frame_counts_as_none(
    task: TaskState,
    kcp: KcpState,
    now: u32,
    frame: Option<Bytes>,
)
    ensures
        task.at == (Point::Receiving { purpose: Purpose::Syn, fin: true }) ==> goes_on_closing(
            task,
            kcp,
            now,
            task.turn(kcp, now, EventState::Received(frame)),
        ),
        task.at == (Point::Receiving { purpose: Purpose::Drain, fin: true }) ==> comes_round(
            task,
            kcp,
            now,
            task.turn(kcp, now, EventState::Received(frame)),
        ),
        task.at == (Point::Receiving { purpose: Purpose::Fetch, fin: true }) ==> calms_down(
            (TaskState { tx_frame: None, ..task }),
            kcp,
            now,
            task.turn(kcp, now, EventState::Received(frame)),
        ),
{
    reveal(TaskState::received);
    lemma_closing(task, kcp, now);
    lemma_round(task, kcp, now);
    lemma_flush(TaskState { tx_frame: None, ..task }, kcp, now);
}

/// A packet that comes is fed to the engine as it is, and others may follow up to the receive
/// window.
pub proof fn law_packets_are_fed_to_the_engine(
    task: TaskState,
    kcp: KcpState,
    now: u32,
    packet: Seq<u8>,
)
    ensures
        task.at == Point::Waiting ==> {
            let turn = task.turn(kcp, now, EventState::Packet(Some(packet)));
            &&& turn.action is Input
            &&& turn.task.packet == packet
            &&& turn.task.left + 1 == if task.config.rcv_wnd > 0 {
                task.config.rcv_wnd as int
            } else {
                1
            }
            &&& turn.task == TaskState {
                packet,
                left: turn.task.left,
                at: Point::Entering,
                ..task
            }
            &&& turn.kcp == kcp
        },
        task.at == Point::Polling ==> {
            let turn = task.turn(kcp, now, EventState::Polled(Some(packet)));
            &&& turn.action is Input
            &&& turn.task == TaskState { packet, at: Point::Entering, ..task }
            &&& turn.kcp == kcp
        },
        task.at == Point::Polling ==> ends_packets(
            task,
            kcp,
            now,
            task.turn(kcp, now, EventState::Polled(None)),
        ),
{
    reveal(TaskState::woken);
    reveal(TaskState::enter);
    lemma_packets(task, kcp, now);
}

/// A packet that the engine takes calls for a flush. One of another conversation is passed over,
/// unless it belongs to the handshake: a client that does not stand yet tries the number of any
/// packet but the number of the handshake, and a server takes what comes under that number. Of a
/// packet whose command the engine does not know, the RESET flag ends the connection, and the FIN
/// flag closes the input the first time and goes on closing after that; any other is passed over.
pub proof fn law_what_becomes_of_a_packet(task: TaskState, kcp: KcpState, now: u32)
    requires
        task.at == Point::Entering,
    ensures
        goes_on_to_packets(
            (TaskState { flush: true, ..task }),
            kcp,
            now,
            task.turn(kcp, now, EventState::InputDone(Ok(()))),
        ),
        ({
            let turn = task.turn(kcp, now, EventState::InputDone(Err(ErrorKind::NotFound)));
            let conv = crate::protocol::le32_at(task.packet, 0);
            let tried = task.packet.len() >= 24 && if task.client {
                task.hs == Handshake::Syn && conv != 0xFFFF_FFFE
            } else {
                conv == 0xFFFF_FFFE
            };
            if tried {
                &&& turn.action is Input
                &&& turn.task == TaskState {
                    at: Point::SwitchedEntering { mine: kcp.cb.conv },
                    ..task
                }
                &&& turn.kcp.cb.conv == conv
                &&& turn.kcp == KcpState {
                    cb: IKCPCB { conv: turn.kcp.cb.conv, ..kcp.cb },
                    ..kcp
                }
            } else {
                goes_on_to_packets(task, kcp, now, turn)
            }
        }),
        ({
            let turn = task.turn(kcp, now, EventState::InputDone(Err(ErrorKind::InvalidData)));
            let cmd = task.packet[4];
            if cmd & 0x08 != 0 {
                goes_on_to_packets(
                    (TaskState { hs: Handshake::Disconnected, ..task }),
                    kcp,
                    now,
                    turn,
                )
            } else if cmd & 0x20 == 0 {
                goes_on_to_packets(task, kcp, now, turn)
            } else if task.fin_recved {
                enters_without_fin(task, kcp, now, turn)
            } else {
                &&& turn.action is CloseInput
                &&& turn.task == TaskState { fin_recved: true, at: Point::ClosingInput, ..task }
                &&& turn.kcp == kcp
            }
        }),
{
    reveal(TaskState::entered);
    reveal(TaskState::foreign_packet);
    reveal(TaskState::flagged_packet);
    lemma_packets(TaskState { flush: true, ..task }, kcp, now);
    lemma_packets(task, kcp, now);
    lemma_packets(TaskState { hs: Handshake::Disconnected, ..task }, kcp, now);
    lemma_fin_packet(task, kcp, now);
    if task.packet.len() >= 24 {
        crate::protocol::law_numbers_are_little_endian(task.packet, 0);
    }
}

/// A packet with the FIN flag takes the closing further and is fed to the engine without the flag,
/// or, if the FIN frame of this end is due, is kept until that is sent.
pub open spec fn enters_without_fin(task: TaskState, kcp: KcpState, now: u32, turn: Turn) -> bool {
    if can_fin(task, kcp) {
        sends_fin(task, kcp, now, Then::FinPacket, turn)
    } else {
        exists|next: TaskState| #[trigger]
            closes_further(task, kcp, now, next) && enters_cleared(next, kcp, turn)
    }
}

/// The packet at hand is fed to the engine once its FIN flag has been turned over.
pub open spec fn enters_cleared(task: TaskState, kcp: KcpState, turn: Turn) -> bool {
    &&& turn.action is Input
    &&& task.packet.len() > 4 ==> {
        &&& turn.task.packet.len() == task.packet.len()
        &&& turn.task.packet[4] == task.packet[4] ^ 0x20
        &&& forall|i: int|
            0 <= i < task.packet.len() && i != 4 ==> #[trigger] turn.task.packet[i]
                == task.packet[i]
    }
    &&& turn.task == TaskState { packet: turn.task.packet, at: Point::FinEntering, ..task }
    &&& turn.kcp == kcp
}

pub(crate) proof fn lemma_fin_packet(t: TaskState, k: KcpState, now: u32)
    ensures
        enters_without_fin(t, k, now, t.fin(k, now, Then::FinPacket)),
{
    reveal(TaskState::fin);
    reveal(TaskState::after_fin);
    lemma_advance(t, k, now);
    lemma_advance(
        TaskState { flush: true, at: Point::Finishing { then: Then::FinPacket }, ..t },
        k,
        now,
    );
}

/// Once the input is closed on account of a FIN packet, the closing goes on; the packet, fed to the
/// engine without its flag, is then dealt with like any other, and calls for no flush.
pub proof fn law_fin_packet_takes_the_closing_further(
    task: TaskState,
    kcp: KcpState,
    now: u32,
    r: Result<(), ErrorKind>,
)
    ensures
        task.at == Point::ClosingInput ==> enters_without_fin(
            task,
            kcp,
            now,
            task.turn(kcp, now, EventState::Done),
        ),
        task.at == Point::FinEntering ==> goes_on_to_packets(
            task,
            kcp,
            now,
            task.turn(kcp, now, EventState::InputDone(r)),
        ),
{
    lemma_fin_packet(task, kcp, now);
    lemma_packets(task, kcp, now);
}

/// A packet was fed under another number. A client keeps that number exactly if the engine took the
/// packet and all that was sent is confirmed, and else has that of the handshake again. A server has
/// its own number again.
pub proof fn law_which_number_is_kept(
    task: TaskState,
    kcp: KcpState,
    now: u32,
    mine: u32,
    r: Result<(), ErrorKind>,
)
    requires
        task.at == (Point::SwitchedEntering { mine }),
    ensures
        exists|next: KcpState|
            {
                &&& next.cb.conv == if !task.client {
                    mine
                } else if r is Ok && kcp.waitsnd == 0 {
                    kcp.cb.conv
                } else {
                    0xFFFF_FFFE
                }
                &&& next == KcpState { cb: IKCPCB { conv: next.cb.conv, ..kcp.cb }, ..kcp }
                &&& #[trigger] goes_on_to_packets(
                    task,
                    next,
                    now,
                    task.turn(kcp, now, EventState::InputDone(r)),
                )
            },
{
    reveal(TaskState::switched);
    let conv = if !task.client {
        mine
    } else if r is Ok && kcp.waitsnd == 0 {
        kcp.cb.conv
    } else {
        0xFFFF_FFFE
    };
    let next = KcpState { cb: IKCPCB { conv, ..kcp.cb }, ..kcp };
    lemma_packets(task, next, now);
    assert(next == crate::stream::state::with_conv(kcp, conv));
}

/// A frame of the user that the engine takes calls for a flush if the settings say so or more than
/// one is queued. As long as the send queue is below its window another is looked for; after the
/// last one what is to be flushed is flushed.
pub proof fn law_frames_of_the_user(
    task: TaskState,
    kcp: KcpState,
    now: u32,
    ok: bool,
    frame: Bytes,
)
    ensures
        task.at == Point::Waiting ==> {
            let turn = task.turn(kcp, now, EventState::Input(Some(frame)));
            &&& turn.action == ActionState::Send(frame)
            &&& turn.task == TaskState { at: Point::SendingFrame, ..task }
            &&& turn.kcp == kcp
        },
        task.at == Point::TryingInput ==> {
            let turn = task.turn(kcp, now, EventState::MoreInput(frame));
            &&& turn.action == ActionState::Send(frame)
            &&& turn.task == TaskState { at: Point::SendingFrame, ..task }
            &&& turn.kcp == kcp
        },
        task.at == Point::TryingInput ==> calms_down(
            task,
            kcp,
            now,
            task.turn(kcp, now, EventState::NoInput),
        ),
        task.at == Point::SendingFrame ==> {
            let turn = task.turn(kcp, now, EventState::FrameSent(ok));
            let flush = task.flush || (ok && task.config.nodelay.nodelay) || (ok
                && kcp.cb.nsnd_que >= 2);
            if kcp.cb.nsnd_que < kcp.cb.snd_wnd {
                &&& turn.action is TryInput
                &&& turn.task == TaskState { flush, at: Point::TryingInput, ..task }
                &&& turn.kcp == kcp
            } else {
                calms_down((TaskState { flush, ..task }), kcp, now, turn)
            }
        },
{
    reveal(TaskState::woken);
    reveal(TaskState::send);
    reveal(TaskState::frame_sent);
    lemma_flush(task, kcp, now);
    lemma_flush(
        TaskState {
            flush: task.flush || (ok && (task.config.nodelay.nodelay || kcp.cb.nsnd_que > 1)),
            ..task
        },
        kcp,
        now,
    );
}

/// A user who will send no more closes the connection: the FIN frame is sent if all that was sent
/// before is confirmed; else the closing goes as far as it can.
pub proof fn law_closing_the_input(task: TaskState, kcp: KcpState, now: u32)
    ensures
        task.at == Point::Waiting ==> closes_input(
            task,
            kcp,
            now,
            task.turn(kcp, now, EventState::Input(None)),
        ),
        task.at == Point::TryingInput ==> closes_input(
            task,
            kcp,
            now,
            task.turn(kcp, now, EventState::InputClosed),
        ),
{
    reveal(TaskState::woken);
    reveal(TaskState::close_input);
    reveal(TaskState::fin);
    reveal(TaskState::after_fin);
    let t = TaskState { input_closed: true, ..task };
    lemma_advance(t, kcp, now);
    lemma_advance(
        TaskState { flush: true, at: Point::Finishing { then: Then::InputClosed }, ..t },
        kcp,
        now,
    );
    lemma_flush(t.fin_advanced(kcp, now), kcp, now);
}

/// The user will send no more.
pub open spec fn closes_input(task: TaskState, kcp: KcpState, now: u32, turn: Turn) -> bool {
    let closed = TaskState { input_closed: true, ..task };
    if can_fin(closed, kcp) {
        sends_fin(closed, kcp, now, Then::InputClosed, turn)
    } else {
        exists|next: TaskState| #[trigger]
            closes_further(closed, kcp, now, next) && calms_down(next, kcp, now, turn)
    }
}

/// Once the FIN frame is on its way that is noted, and the closing goes on from there: to the end,
/// if the other end has confirmed it, has sent its own, and every frame has been fetched. What was
/// left off to send it is taken up again.
pub proof fn law_fin_frame_is_sent(task: TaskState, kcp: KcpState, now: u32, then: Then)
    requires
        task.at == (Point::Finishing { then }),
    ensures
        exists|next: TaskState| #[trigger]
            closes_further(
                (TaskState {
                    flush: false,
                    last_io_time: kcp.cb.current,
                    hs: Handshake::FinSent,
                    ..task
                }),
                kcp,
                now,
                next,
            ) && match then {
                Then::InputClosed => calms_down(
                    next,
                    kcp,
                    now,
                    task.turn(kcp, now, EventState::Done),
                ),
                Then::FinPacket => enters_cleared(
                    next,
                    kcp,
                    task.turn(kcp, now, EventState::Done),
                ),
                Then::PacketsDone => looks_for_frame(
                    next,
                    kcp,
                    now,
                    task.turn(kcp, now, EventState::Done),
                ),
            },
{
    reveal(TaskState::fin_sent);
    reveal(TaskState::after_fin);
    let t = TaskState {
        flush: false,
        last_io_time: kcp.cb.current,
        hs: Handshake::FinSent,
        ..task
    };
    let next = t.fin_advanced(kcp, now);
    lemma_advance(t, kcp, now);
    lemma_flush(next, kcp, now);
    lemma_fetch(next, kcp, now);
}

/// The SYN frame is the session key and a session ID of the right length, which for a client has to
/// be its own. A right one makes the engine run with the delays of the settings; a wrong one ends
/// the connection; where there is none yet, nothing happens.
pub proof fn law_syn_frame(task: TaskState, kcp: KcpState, now: u32, frame: Bytes, id: Seq<u8>)
    requires
        task.at == (Point::Receiving { purpose: Purpose::Syn, fin: false }),
    ensures
        ({
            let turn = task.turn(kcp, now, EventState::Received(Some(frame)));
            let right = crate::frame::content(frame) == crate::frame::content(
                task.config.session_key,
            ) + id && id.len() == task.config.session_id_len && (task.client ==> id
                == task.session_id);
            &&& right ==> turn.action == ActionState::SetNodelay(task.config.nodelay) && turn.task
                == (TaskState { session_id: id, at: Point::Tuning, ..task }) && turn.kcp == kcp
            &&& turn.action is SetNodelay ==> crate::frame::content(frame) == crate::frame::content(
                task.config.session_key,
            ) + turn.task.session_id && turn.task.session_id.len() == task.config.session_id_len
                && (task.client ==> turn.task.session_id == task.session_id)
            &&& turn.action !is SetNodelay ==> goes_on_closing(
                (TaskState { hs: Handshake::Disconnected, ..task }),
                kcp,
                now,
                turn,
            )
        }),
        goes_on_closing(task, kcp, now, task.turn(kcp, now, EventState::Received(None))),
{
    reveal(TaskState::received);
    reveal(TaskState::syn_received);
    lemma_closing(TaskState { hs: Handshake::Disconnected, ..task }, kcp, now);
    lemma_closing(task, kcp, now);
    let key = crate::frame::content(task.config.session_key);
    let data = crate::frame::content(frame);
    let rest = data.skip(key.len() as int);
    if key.is_prefix_of(data) {
        assert(data =~= key + rest);
    }
    if data == key + id {
        assert(key =~= data.subrange(0, key.len() as int));
        assert(rest =~= id);
    }
}

/// Once the delays are set, a client stands. A server answers with the session key and the session
/// ID of the client, and stands after that. The user is told the conversation number; a user who is
/// gone ends the connection.
pub proof fn law_connection_stands(task: TaskState, kcp: KcpState, now: u32, ok: bool)
    ensures
        task.at == Point::Tuning && task.client ==> {
            let turn = task.turn(kcp, now, EventState::Done);
            &&& turn.action == ActionState::NotifyConnected { conv: kcp.cb.conv }
            &&& turn.task == TaskState { hs: Handshake::Connected, at: Point::Notifying, ..task }
            &&& turn.kcp == kcp
        },
        task.at == Point::Tuning && !task.client ==> {
            let turn = task.turn(kcp, now, EventState::Done);
            &&& turn.action == ActionState::SendHandshake(
                crate::frame::content(task.config.session_key) + task.session_id,
            )
            &&& turn.task == TaskState { flush: true, at: Point::Answering, ..task }
            &&& turn.kcp == kcp
        },
        task.at == Point::Answering ==> {
            let turn = task.turn(kcp, now, EventState::Done);
            &&& turn.action == ActionState::NotifyConnected { conv: kcp.cb.conv }
            &&& turn.task == TaskState {
                hs: Handshake::Connected,
                flush: false,
                last_io_time: kcp.cb.current,
                at: Point::Notifying,
                ..task
            }
            &&& turn.kcp == kcp
        },
        task.at == Point::Notifying ==> goes_on_closing(
            (TaskState {
                hs: if ok {
                    task.hs
                } else {
                    Handshake::Disconnected
                },
                ..task
            }),
            kcp,
            now,
            task.turn(kcp, now, EventState::Notified(ok)),
        ),
{
    reveal(TaskState::tuned);
    reveal(TaskState::connected);
    reveal(TaskState::notified);
    lemma_closing(
        TaskState {
            hs: if ok {
                task.hs
            } else {
                Handshake::Disconnected
            },
            ..task
        },
        kcp,
        now,
    );
}

/// The task gives up at once when it is cancelled, when the user is gone, or when no packet can
/// come any more.
pub proof fn law_giving_up_at_once(task: TaskState, kcp: KcpState, now: u32)
    ensures
        task.at == Point::Waiting || task.at == Point::Feeding || task.at == Point::FlushingSink
            ==> closes_at_once(task, kcp, task.turn(kcp, now, EventState::Cancelled)),
        task.at == Point::Waiting ==> closes_at_once(
            task,
            kcp,
            task.turn(kcp, now, EventState::Permit(false)),
        ),
        task.at == Point::Waiting ==> closes_at_once(
            task,
            kcp,
            task.turn(kcp, now, EventState::Packet(None)),
        ),
{
    reveal(TaskState::woken);
    reveal(TaskState::finish);
}

/// The channels are closed; a frame that waits for delivery is dropped.
pub open spec fn closes_at_once(task: TaskState, kcp: KcpState, turn: Turn) -> bool {
    &&& turn.action is CloseChannels
    &&& turn.task == TaskState { tx_frame: None, at: Point::Closing, ..task }
    &&& turn.kcp == kcp
}

/// A task that has given up tells the other end so, with a packet of 24 bytes that carries the
/// conversation number and the RESET command and is zero otherwise, unless its number is zero or
/// one of the two largest; then it reports its end with its number, and stops.
pub proof fn law_last_steps(task: TaskState, kcp: KcpState, now: u32)
    ensures
        task.at == Point::Closing ==> {
            let turn = task.turn(kcp, now, EventState::Done);
            if 1 <= kcp.cb.conv <= 0xFFFF_FFFD {
                &&& turn.task == TaskState { at: Point::Resetting, ..task }
                &&& turn.action matches ActionState::SendReset(packet) && packet.len() == 24
                    && crate::protocol::le32_at(packet, 0) == kcp.cb.conv && packet[4] == 8 && (forall|i: int|
                    5 <= i < 24 ==> #[trigger] packet[i] == 0)
            } else {
                reports_end(task, kcp, turn)
            }
        },
        task.at == Point::Resetting ==> reports_end(
            task,
            kcp,
            task.turn(kcp, now, EventState::Done),
        ),
        task.at == Point::Reporting ==> {
            let turn = task.turn(kcp, now, EventState::Done);
            &&& turn.action is Stop
            &&& turn.task == TaskState { at: Point::Stopped, ..task }
        },
        is_last(task.at) ==> task.turn(kcp, now, EventState::Done).kcp == kcp,
{
    reveal(TaskState::closed);
    reveal(TaskState::report);
    reveal(TaskState::stop);
    let packet = crate::protocol::ack_head(kcp.cb.conv, 0x08, 0);
    let bytes = crate::protocol::le32_bytes(kcp.cb.conv);
    assert(packet[0] == bytes[0] && packet[1] == bytes[1] && packet[2] == bytes[2] && packet[3]
        == bytes[3]);
    let sn = crate::protocol::le32_bytes(0);
    assert(sn =~= seq![0u8, 0u8, 0u8, 0u8]);
    assert forall|i: int| 5 <= i < 24 implies #[trigger] packet[i] == 0 by {}
}

/// Whether the task has given up.
pub open spec fn is_last(at: Point) -> bool {
    at == Point::Closing || at == Point::Resetting || at == Point::Reporting
}

/// The end is reported, with the conversation number.
pub open spec fn reports_end(task: TaskState, kcp: KcpState, turn: Turn) -> bool {
    &&& turn.action == ActionState::ReportDisconnect { conv: kcp.cb.conv }
    &&& turn.task == TaskState { at: Point::Reporting, ..task }
}

} // verus!

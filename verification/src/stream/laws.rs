//! What holds of every connection.

use crate::error::ErrorKind;
use crate::ffi::IKCPCB;
use crate::protocol::KcpState;
use crate::stream::state::{
    ActionState, EventState, Handshake, Point, Purpose, TaskState, Then, Turn,
};
use crate::stream::KcpStream;
use bytes::Bytes;
use vstd::prelude::*;

verus! {

/// What a step keeps up:
/// the task stays well-formed and keeps its settings;
/// the handshake never goes back, and the connection stands from the moment at which the user is
/// told so;
/// what the other end or the user has closed stays closed;
/// no frame of the user is sent after that, and the FIN frame is sent only then and only once
/// everything before it is confirmed;
/// a frame that waits for delivery keeps waiting, is delivered, or is dropped at the end;
/// a connection that is to be given up is not waited for any longer;
/// its channels are closed before its end is reported, and its end is reported before it stops;
/// of the engine's control block nothing changes but the conversation number;
/// packets go out in the order in which the engine puts them out, one at a time, or are discarded
/// all at once.
pub open spec fn goes_forward(task: TaskState, kcp: KcpState, turn: Turn) -> bool {
    &&& turn.task.wf()
    &&& turn.task.config == task.config
    &&& task.hs.rank() <= turn.task.hs.rank()
    &&& task.hs == Handshake::Syn ==> {
        ||| turn.task.hs == Handshake::Syn
        ||| turn.task.hs == Handshake::Disconnected
        ||| turn.action == ActionState::NotifyConnected { conv: kcp.cb.conv }
    }
    &&& turn.action is NotifyConnected ==> task.at is Tuning || task.at is Answering
    &&& task.fin_recved ==> turn.task.fin_recved
    &&& task.input_closed ==> turn.task.input_closed
    &&& turn.action is Send ==> !turn.task.input_closed
    &&& turn.action is SendHandshake && task.hs != Handshake::Syn ==> {
        &&& turn.action == ActionState::SendHandshake(task.handshake_frame())
        &&& turn.task.input_closed
        &&& kcp.waitsnd == 0
    }
    &&& task.tx_frame matches Some(frame) ==> {
        ||| turn.task.tx_frame == Some(frame)
        ||| turn.action == ActionState::Deliver(frame)
        ||| turn.action is CloseChannels
    }
    &&& turn.action is Check ==> !turn.task.is_over(turn.kcp)
    &&& turn.action is CloseChannels <==> turn.task.at == Point::Closing
    &&& turn.action is SendReset <==> turn.task.at == Point::Resetting
    &&& turn.action is ReportDisconnect <==> turn.task.at == Point::Reporting
    &&& turn.action is Stop <==> turn.task.at == Point::Stopped
    &&& turn.action is CloseChannels ==> !is_ending(task)
    &&& turn.action is SendReset ==> task.at == Point::Closing
    &&& turn.action is ReportDisconnect ==> task.at == Point::Closing || task.at
        == Point::Resetting
    &&& turn.action is Stop ==> task.at == Point::Reporting
    &&& turn.kcp.cb == IKCPCB { conv: turn.kcp.cb.conv, ..kcp.cb }
    &&& turn.kcp.waitsnd == kcp.waitsnd
    &&& if turn.action is Feed {
        &&& kcp.output.len() > 0
        &&& turn.kcp.output == kcp.output.skip(1)
        &&& turn.action == ActionState::Feed(
            crate::stream::state::outgoing(turn.task.hs, kcp.output[0]),
        )
    } else {
        turn.kcp.output == kcp.output || turn.kcp.output == Seq::<Seq<u8>>::empty()
    }
}

/// Whether the connection has been given up.
pub open spec fn is_ending(task: TaskState) -> bool {
    task.at == Point::Closing || task.at == Point::Resetting || task.at == Point::Reporting
        || task.at == Point::Stopped
}

/// A frame, if there is one.
pub open spec fn line(frame: Option<Bytes>) -> Seq<Bytes> {
    match frame {
        Some(frame) => seq![frame],
        None => seq![],
    }
}

/// The frames that the user hands over with an event.
pub open spec fn taken(event: EventState) -> Seq<Bytes> {
    match event {
        EventState::Input(frame) => line(frame),
        EventState::MoreInput(frame) => seq![frame],
        _ => seq![],
    }
}

/// The frames for the user that the engine hands over with an event. The SYN frame and the FIN
/// frame are not for the user.
pub open spec fn fetched(task: TaskState, event: EventState) -> Seq<Bytes> {
    match (task.at, event) {
        (Point::Receiving { purpose, fin }, EventState::Received(frame)) => if purpose
            == Purpose::Syn || fin {
            seq![]
        } else {
            line(frame)
        },
        _ => seq![],
    }
}

/// The frames of the user that an action hands to the engine.
pub open spec fn sent(action: ActionState) -> Seq<Bytes> {
    match action {
        ActionState::Send(frame) => seq![frame],
        _ => seq![],
    }
}

/// The frames that an action hands to the user.
pub open spec fn delivered(action: ActionState) -> Seq<Bytes> {
    match action {
        ActionState::Deliver(frame) => seq![frame],
        _ => seq![],
    }
}

/// Whether a step hands on what it gets: the frames of the user at once, those for the user
/// after the one that waits, if any. At the end the frame that waits is dropped.
spec fn passes(task: TaskState, taken: Seq<Bytes>, fetched: Seq<Bytes>, turn: Turn) -> bool {
    &&& sent(turn.action) =~= taken
    &&& turn.action !is CloseChannels ==> line(task.tx_frame) + fetched =~= delivered(turn.action)
        + line(turn.task.tx_frame)
}

proof fn lemma_finish(t: TaskState, k: KcpState)
    requires
        t.has_id(),
        !is_ending(t),
    ensures
        goes_forward(t, k, t.finish(k)),
        passes(t, Seq::empty(), Seq::empty(), t.finish(k)),
{
    reveal(TaskState::finish);
}

proof fn lemma_stop(t: TaskState, k: KcpState)
    requires
        t.has_id(),
        t.at == Point::Reporting,
    ensures
        goes_forward(t, k, t.stop(k)),
        passes(t, Seq::empty(), Seq::empty(), t.stop(k)),
{
    reveal(TaskState::stop);
}

proof fn lemma_decide(t: TaskState, k: KcpState, now: u32)
    requires
        t.has_id(),
        !is_ending(t),
    ensures
        goes_forward(t, k, t.decide(k, now)),
        passes(t, Seq::empty(), Seq::empty(), t.decide(k, now)),
{
    reveal(TaskState::decide);
    lemma_finish(t, k);
}

proof fn lemma_round(t: TaskState, k: KcpState, now: u32)
    requires
        t.has_id(),
        !is_ending(t),
    ensures
        goes_forward(t, k, t.round(k, now)),
        passes(t, Seq::empty(), Seq::empty(), t.round(k, now)),
{
    reveal(TaskState::round);
    reveal(TaskState::feed);
    lemma_decide(t, k, now);
}

proof fn lemma_fed(t: TaskState, k: KcpState, ok: bool)
    requires
        t.has_id(),
        !is_ending(t),
    ensures
        goes_forward(t, k, t.fed(k, ok)),
        passes(t, Seq::empty(), Seq::empty(), t.fed(k, ok)),
{
    reveal(TaskState::fed);
    reveal(TaskState::feed);
}

proof fn lemma_checked(t: TaskState, k: KcpState, current: u32, at: u32)
    requires
        t.has_id(),
        !is_ending(t),
    ensures
        goes_forward(t, k, t.checked(k, current, at)),
        passes(t, Seq::empty(), Seq::empty(), t.checked(k, current, at)),
{
    reveal(TaskState::checked);
}

proof fn lemma_flush_engine(t: TaskState, k: KcpState, now: u32)
    requires
        t.has_id(),
        !is_ending(t),
    ensures
        goes_forward(t, k, t.flush_engine(k, now)),
        passes(t, Seq::empty(), Seq::empty(), t.flush_engine(k, now)),
{
    reveal(TaskState::flush_engine);
    lemma_round(t, k, now);
}

proof fn lemma_receive(t: TaskState, k: KcpState, purpose: Purpose)
    requires
        t.has_id(),
        !is_ending(t),
        purpose == Purpose::Syn ==> t.hs == Handshake::Syn,
        purpose != Purpose::Syn ==> t.tx_frame is None,
    ensures
        goes_forward(t, k, t.receive(k, purpose)),
        passes(t, Seq::empty(), Seq::empty(), t.receive(k, purpose)),
{
    reveal(TaskState::receive);
}

proof fn lemma_fetch(t: TaskState, k: KcpState, now: u32)
    requires
        t.has_id(),
        !is_ending(t),
    ensures
        goes_forward(t, k, t.fetch(k, now)),
        passes(t, Seq::empty(), Seq::empty(), t.fetch(k, now)),
{
    reveal(TaskState::fetch);
    if t.tx_frame is None {
        lemma_receive(t, k, Purpose::Fetch);
    } else {
        lemma_flush_engine(t, k, now);
    }
}

proof fn lemma_after_fin(t: TaskState, k: KcpState, now: u32, then: Then)
    requires
        t.has_id(),
        !is_ending(t),
    ensures
        goes_forward(t, k, t.after_fin(k, now, then)),
        passes(t, Seq::empty(), Seq::empty(), t.after_fin(k, now, then)),
{
    reveal(TaskState::after_fin);
    lemma_flush_engine(t, k, now);
    lemma_fetch(t, k, now);
}

proof fn lemma_fin(t: TaskState, k: KcpState, now: u32, then: Then)
    requires
        t.has_id(),
        !is_ending(t),
        then == Then::FinPacket ==> t.packet.len() > 4,
    ensures
        goes_forward(t, k, t.fin(k, now, then)),
        passes(t, Seq::empty(), Seq::empty(), t.fin(k, now, then)),
{
    reveal(TaskState::fin);
    lemma_after_fin(t.fin_advanced(k, now), k, now, then);
}

proof fn lemma_fin_sent(t: TaskState, k: KcpState, now: u32, then: Then)
    requires
        t.has_id(),
        !is_ending(t),
        t.hs == Handshake::FinPending,
    ensures
        goes_forward(t, k, t.fin_sent(k, now, then)),
        passes(t, Seq::empty(), Seq::empty(), t.fin_sent(k, now, then)),
{
    reveal(TaskState::fin_sent);
    let sent = TaskState {
        flush: false,
        last_io_time: k.cb.current,
        hs: Handshake::FinSent,
        ..t
    };
    lemma_after_fin(sent.fin_advanced(k, now), k, now, then);
}

proof fn lemma_close_input(t: TaskState, k: KcpState, now: u32)
    requires
        t.has_id(),
        !is_ending(t),
    ensures
        goes_forward(t, k, t.close_input(k, now)),
        passes(t, Seq::empty(), Seq::empty(), t.close_input(k, now)),
{
    reveal(TaskState::close_input);
    lemma_fin(TaskState { input_closed: true, ..t }, k, now, Then::InputClosed);
}

proof fn lemma_frame_sent(t: TaskState, k: KcpState, now: u32, ok: bool)
    requires
        t.has_id(),
        !is_ending(t),
        !t.input_closed,
    ensures
        goes_forward(t, k, t.frame_sent(k, now, ok)),
        passes(t, Seq::empty(), Seq::empty(), t.frame_sent(k, now, ok)),
{
    reveal(TaskState::frame_sent);
    let flush = t.flush || (ok && (t.config.nodelay.nodelay || k.cb.nsnd_que > 1));
    lemma_flush_engine(TaskState { flush, ..t }, k, now);
}

proof fn lemma_deliver(t: TaskState, k: KcpState)
    requires
        t.has_id(),
        !is_ending(t),
    ensures
        goes_forward(t, k, t.deliver(k)),
        passes(t, Seq::empty(), Seq::empty(), t.deliver(k)),
{
    reveal(TaskState::deliver);
    if t.tx_frame is None {
        lemma_receive(t, k, Purpose::Drain);
    }
}

proof fn lemma_after_syn(t: TaskState, k: KcpState, now: u32)
    requires
        t.has_id(),
        !is_ending(t),
    ensures
        goes_forward(t, k, t.after_syn(k, now)),
        passes(t, Seq::empty(), Seq::empty(), t.after_syn(k, now)),
{
    reveal(TaskState::after_syn);
    lemma_fin(t, k, now, Then::PacketsDone);
    lemma_fetch(t, k, now);
}

proof fn lemma_packets_done(t: TaskState, k: KcpState, now: u32)
    requires
        t.has_id(),
        !is_ending(t),
    ensures
        goes_forward(t, k, t.packets_done(k, now)),
        passes(t, Seq::empty(), Seq::empty(), t.packets_done(k, now)),
{
    reveal(TaskState::packets_done);
    if t.hs == Handshake::Syn {
        lemma_receive(t, k, Purpose::Syn);
    } else {
        lemma_after_syn(t, k, now);
    }
}

proof fn lemma_next_packet(t: TaskState, k: KcpState, now: u32)
    requires
        t.has_id(),
        !is_ending(t),
    ensures
        goes_forward(t, k, t.next_packet(k, now)),
        passes(t, Seq::empty(), Seq::empty(), t.next_packet(k, now)),
{
    reveal(TaskState::next_packet);
    lemma_packets_done(t, k, now);
}

proof fn lemma_foreign_packet(t: TaskState, k: KcpState, now: u32)
    requires
        t.has_id(),
        !is_ending(t),
    ensures
        goes_forward(t, k, t.foreign_packet(k, now)),
        passes(t, Seq::empty(), Seq::empty(), t.foreign_packet(k, now)),
{
    reveal(TaskState::foreign_packet);
    lemma_next_packet(t, k, now);
}

proof fn lemma_switched(t: TaskState, k: KcpState, now: u32, mine: u32, ok: bool)
    requires
        t.has_id(),
        !is_ending(t),
        t.at is SwitchedEntering,
    ensures
        goes_forward(t, k, t.switched(k, now, mine, ok)),
        passes(t, Seq::empty(), Seq::empty(), t.switched(k, now, mine, ok)),
{
    reveal(TaskState::switched);
    lemma_next_packet(t, crate::stream::state::with_conv(k, mine), now);
    lemma_next_packet(t, crate::stream::state::with_conv(k, KcpStream::SYN_CONV), now);
    lemma_next_packet(t, crate::stream::state::with_conv(k, k.cb.conv), now);
}

proof fn lemma_flagged_packet(t: TaskState, k: KcpState, now: u32)
    requires
        t.has_id(),
        !is_ending(t),
        t.packet.len() > 4,
    ensures
        goes_forward(t, k, t.flagged_packet(k, now)),
        passes(t, Seq::empty(), Seq::empty(), t.flagged_packet(k, now)),
{
    reveal(TaskState::flagged_packet);
    lemma_next_packet(TaskState { hs: Handshake::Disconnected, ..t }, k, now);
    lemma_next_packet(t, k, now);
    lemma_fin(t, k, now, Then::FinPacket);
}

proof fn lemma_entered(t: TaskState, k: KcpState, now: u32, r: Result<(), ErrorKind>)
    requires
        t.has_id(),
        !is_ending(t),
        r == Err::<(), ErrorKind>(ErrorKind::InvalidData) ==> t.packet.len() > 4,
        r matches Err(e) ==> e == ErrorKind::NotFound || e == ErrorKind::InvalidData,
    ensures
        goes_forward(t, k, t.entered(k, now, r)),
        passes(t, Seq::empty(), Seq::empty(), t.entered(k, now, r)),
{
    reveal(TaskState::entered);
    match r {
        Ok(_) => lemma_next_packet(TaskState { flush: true, ..t }, k, now),
        Err(ErrorKind::NotFound) => lemma_foreign_packet(t, k, now),
        Err(_) => lemma_flagged_packet(t, k, now),
    }
}

proof fn lemma_received(t: TaskState, k: KcpState, now: u32, purpose: Purpose, f: Option<Bytes>)
    requires
        t.has_id(),
        !is_ending(t),
        purpose == Purpose::Syn ==> t.hs == Handshake::Syn,
        purpose != Purpose::Syn ==> t.tx_frame is None,
    ensures
        goes_forward(t, k, t.received(k, now, purpose, f)),
        passes(t, Seq::empty(), if purpose == Purpose::Syn { Seq::empty() } else { line(f) }, t.received(k, now, purpose, f)),
{
    reveal(TaskState::received);
    reveal(TaskState::syn_received);
    lemma_after_syn(TaskState { hs: Handshake::Disconnected, ..t }, k, now);
    lemma_after_syn(t, k, now);
    lemma_round(t, k, now);
    lemma_flush_engine(TaskState { tx_frame: f, ..t }, k, now);
}

proof fn lemma_woken(t: TaskState, k: KcpState, now: u32, event: EventState)
    requires
        t.has_id(),
        !is_ending(t),
        t.at == Point::Waiting,
        t.awaits(event),
    ensures
        goes_forward(t, k, t.woken(k, now, event)),
        passes(t, taken(event), fetched(t, event), t.woken(k, now, event)),
{
    reveal(TaskState::woken);
    reveal(TaskState::send);
    reveal(TaskState::enter);
    lemma_close_input(t, k, now);
    lemma_deliver(t, k);
    lemma_round(t, k, now);
    lemma_finish(t, k);
}

proof fn lemma_opening(t: TaskState, k: KcpState, now: u32, event: EventState)
    requires
        t.wf(),
        t.awaits(event),
        t.at == Point::Configuring || t.at == Point::Greeting || t.at == Point::Tuning || t.at
            == Point::Answering || t.at == Point::Notifying,
    ensures
        goes_forward(t, k, t.turn(k, now, event)),
        passes(t, taken(event), fetched(t, event), t.turn(k, now, event)),
{
    reveal(TaskState::configured);
    reveal(TaskState::tuned);
    reveal(TaskState::connected);
    reveal(TaskState::notified);
    lemma_round(TaskState { last_io_time: k.cb.current, ..t }, k, now);
    lemma_round(t.flushed(k), k, now);
    lemma_after_syn(t, k, now);
    lemma_after_syn(TaskState { hs: Handshake::Disconnected, ..t }, k, now);
}

proof fn lemma_ending(t: TaskState, k: KcpState, now: u32, event: EventState)
    requires
        t.wf(),
        t.awaits(event),
        t.at == Point::Closing || t.at == Point::Resetting || t.at == Point::Reporting,
    ensures
        goes_forward(t, k, t.turn(k, now, event)),
        passes(t, taken(event), fetched(t, event), t.turn(k, now, event)),
{
    reveal(TaskState::closed);
    reveal(TaskState::report);
    if t.at == Point::Reporting {
        lemma_stop(t, k);
    }
}

proof fn lemma_packets(t: TaskState, k: KcpState, now: u32, event: EventState)
    requires
        t.wf(),
        t.awaits(event),
        t.at is Entering || t.at is SwitchedEntering || t.at is FinEntering || t.at is Polling
            || t.at is ClosingInput || t.at is Finishing,
    ensures
        goes_forward(t, k, t.turn(k, now, event)),
        passes(t, taken(event), fetched(t, event), t.turn(k, now, event)),
{
    reveal(TaskState::enter);
    match t.at {
        Point::Entering => {
            lemma_entered(t, k, now, event->InputDone_0);
        },
        Point::SwitchedEntering { mine } => {
            lemma_switched(t, k, now, mine, event->InputDone_0 is Ok);
        },
        Point::FinEntering => {
            lemma_next_packet(t, k, now);
        },
        Point::Polling => {
            lemma_packets_done(t, k, now);
        },
        Point::ClosingInput => {
            lemma_fin(t, k, now, Then::FinPacket);
        },
        Point::Finishing { then } => {
            lemma_fin_sent(t, k, now, then);
        },
        _ => {},
    }
}

proof fn lemma_frames(t: TaskState, k: KcpState, now: u32, event: EventState)
    requires
        t.wf(),
        t.awaits(event),
        t.at is SendingFrame || t.at is TryingInput || t.at is Delivering || t.at is Reserving
            || t.at is Receiving || t.at is Waiting,
    ensures
        goes_forward(t, k, t.turn(k, now, event)),
        passes(t, taken(event), fetched(t, event), t.turn(k, now, event)),
{
    match t.at {
        Point::Waiting => {
            lemma_woken(t, k, now, event);
        },
        Point::SendingFrame => {
            lemma_frame_sent(t, k, now, event->FrameSent_0);
        },
        Point::TryingInput => {
            reveal(TaskState::send);
            lemma_flush_engine(t, k, now);
            lemma_close_input(t, k, now);
        },
        Point::Delivering => {
            lemma_receive(t, k, Purpose::Drain);
        },
        Point::Reserving => {
            lemma_deliver(t, k);
            lemma_round(t, k, now);
        },
        Point::Receiving { purpose, fin } => {
            let frame = if fin {
                None
            } else {
                event->Received_0
            };
            lemma_received(t, k, now, purpose, frame);
        },
        _ => {},
    }
}

/// Every step keeps up what [`goes_forward`] says. It hands the frames of the user to the engine
/// at once, and those for the user on after the one that waits, unless the connection ends.
pub proof fn law_steps_go_forward(task: TaskState, kcp: KcpState, now: u32, event: EventState)
    requires
        task.wf(),
        task.awaits(event),
    ensures
        goes_forward(task, kcp, task.turn(kcp, now, event)),
        sent(task.turn(kcp, now, event).action) == taken(event),
        task.turn(kcp, now, event).action !is CloseChannels ==> line(task.tx_frame) + fetched(
            task,
            event,
        ) == delivered(task.turn(kcp, now, event).action) + line(
            task.turn(kcp, now, event).task.tx_frame,
        ),
{
    match task.at {
        Point::Feeding => {
            lemma_finish(task, kcp);
            if let EventState::Fed(ok) = event {
                lemma_fed(task, kcp, ok);
            }
        },
        Point::FlushingSink => {
            lemma_finish(task, kcp);
            lemma_decide(task, kcp, now);
        },
        Point::Checking { current } => {
            lemma_checked(task, kcp, current, event->Checked_0);
        },
        Point::Updating => {
            lemma_round(task, kcp, now);
        },
        Point::Flushing => {
            lemma_round(task.flushed(kcp), kcp, now);
        },
        Point::Configuring
        | Point::Greeting
        | Point::Tuning
        | Point::Answering
        | Point::Notifying => {
            lemma_opening(task, kcp, now, event);
        },
        Point::Closing | Point::Resetting | Point::Reporting => {
            lemma_ending(task, kcp, now, event);
        },
        Point::Entering
        | Point::SwitchedEntering { .. }
        | Point::FinEntering
        | Point::Polling
        | Point::ClosingInput
        | Point::Finishing { .. } => {
            lemma_packets(task, kcp, now, event);
        },
        _ => {
            lemma_frames(task, kcp, now, event);
        },
    }
}

/// A frame opens a connection if and only if it is the session key followed by a session ID of
/// the right length, which for a client is its own; any other frame ends it.
pub proof fn law_only_the_right_frame_opens(task: TaskState, kcp: KcpState, now: u32, frame: Bytes)
    requires
        task.wf(),
        task.at == (Point::Receiving { purpose: Purpose::Syn, fin: false }),
    ensures
        ({
            let key = crate::frame::content(task.config.session_key);
            let data = crate::frame::content(frame);
            let turn = task.turn(kcp, now, EventState::Received(Some(frame)));
            let opens = exists|id: Seq<u8>|
                {
                    &&& data == #[trigger] (key + id)
                    &&& id.len() == task.config.session_id_len
                    &&& task.client ==> id == task.session_id
                };
            &&& opens ==> turn.action == ActionState::SetNodelay(task.config.nodelay)
                && turn.task.at is Tuning && data == key + turn.task.session_id
            &&& !opens ==> turn.task.hs == Handshake::Disconnected
        }),
{
    let key = crate::frame::content(task.config.session_key);
    let data = crate::frame::content(frame);
    reveal(TaskState::received);
    reveal(TaskState::syn_received);
    lemma_after_syn(TaskState { hs: Handshake::Disconnected, ..task }, kcp, now);
    let rest = data.skip(key.len() as int);
    if key.is_prefix_of(data) {
        assert(data =~= key + rest);
    }
    assert forall|id: Seq<u8>| data == #[trigger] (key + id) implies key.is_prefix_of(data) && rest
        == id by {
        assert(key =~= data.subrange(0, key.len() as int));
        assert(rest =~= id);
    }
}

/// Nothing is waited for longer than a minute, nor beyond the deadline of a closing.
pub proof fn law_waiting_is_bounded(
    task: TaskState,
    kcp: KcpState,
    now: u32,
    current: u32,
    at: u32,
)
    requires
        task.at == (Point::Checking { current }),
    ensures
        ({
            let turn = task.turn(kcp, now, EventState::Checked(at));
            turn.action matches ActionState::Wait { interval, .. } ==> {
                &&& 0 < interval <= 60_000
                &&& task.in_fin_handshake() && task.deadline_ahead(current) ==> interval <= (
                task.hs_end_time - current) % 0x1_0000_0000
            }
        }),
{
    reveal(TaskState::checked);
}

/// A closing that has not been confirmed by its deadline is given up.
pub proof fn law_deadline_ends_the_closing(
    task: TaskState,
    kcp: KcpState,
    now: u32,
    current: u32,
    at: u32,
)
    requires
        task.at == (Point::Checking { current }),
        task.in_fin_handshake(),
        !task.deadline_ahead(current),
    ensures
        task.turn(kcp, now, EventState::Checked(at)).task.hs == Handshake::Disconnected,
{
    reveal(TaskState::checked);
}

/// A connection is given up once the engine has given it up, or once nothing has been sent for as
/// long as the settings say.
pub proof fn law_dead_connection_is_given_up(task: TaskState, kcp: KcpState, now: u32)
    requires
        task.at == Point::FlushingSink,
        kcp.cb.state == u32::MAX || crate::protocol::elapsed(kcp.cb.current, task.last_io_time)
            >= task.expire_millis(),
    ensures
        task.turn(kcp, now, EventState::Done).action is CloseChannels,
{
    reveal(TaskState::decide);
    reveal(TaskState::finish);
}

/// Whatever a step starts from, the connection goes on to its next wait only if it is not to be
/// given up: it is not over, the engine has not given it up, and something has been sent lately.
pub proof fn law_only_a_live_connection_goes_on(
    task: TaskState,
    kcp: KcpState,
    now: u32,
    event: EventState,
)
    requires
        task.wf(),
        task.awaits(event),
    ensures
        ({
            let turn = task.turn(kcp, now, event);
            turn.action is Check ==> !turn.task.is_over(turn.kcp)
        }),
{
    law_steps_go_forward(task, kcp, now, event);
}

/// Two ends with the same settings agree: the server adopts the session ID in the SYN frame of
/// the client, and its own SYN frame is then the one that the client expects.
pub proof fn law_handshake_agrees(client: TaskState, server: TaskState)
    requires
        client.wf(),
        client.client,
        crate::frame::content(server.config.session_key) == crate::frame::content(
            client.config.session_key,
        ),
        server.config.session_id_len == client.config.session_id_len,
    ensures
        server.syn_session_id(client.handshake_frame()) == Some(client.session_id),
        ({
            let adopted = TaskState { session_id: client.session_id, ..server };
            &&& adopted.handshake_frame() == client.handshake_frame()
            &&& client.syn_session_id(adopted.handshake_frame()) == Some(client.session_id)
        }),
{
    let key = crate::frame::content(client.config.session_key);
    let frame = client.handshake_frame();
    assert(key =~= frame.subrange(0, key.len() as int));
    assert(frame.skip(key.len() as int) =~= client.session_id);
}

/// A packet that goes out while the FIN frame is on its way is flagged; the other end takes it
/// for a FIN packet, not for a RESET, and by clearing the flag gets the packet back.
pub proof fn law_fin_flag_comes_off(packet: Seq<u8>)
    requires
        crate::protocol::packet_payload(packet) is Some,
        packet[4] & 0x28 == 0,
    ensures
        ({
            let out = crate::stream::state::outgoing(Handshake::FinSent, packet);
            &&& out.len() == packet.len()
            &&& out[4] & 0x20 != 0
            &&& out[4] & 0x08 == 0
            &&& crate::protocol::packet_conv(out) == crate::protocol::packet_conv(packet)
            &&& crate::protocol::packet_payload(out) == crate::protocol::packet_payload(packet)
            &&& out.update(4, out[4] ^ 0x20) == packet
        }),
{
    let out = crate::stream::state::outgoing(Handshake::FinSent, packet);
    let cmd = packet[4];
    assert(cmd & 0x28 == 0 ==> (cmd | 0x20) & 0x20 != 0 && (cmd | 0x20) & 0x08 == 0 && (cmd | 0x20)
        ^ 0x20 == cmd) by (bit_vector);
    crate::protocol::law_write_cmd_keeps_the_rest(packet, cmd | 0x20);
    assert(out.update(4, out[4] ^ 0x20) =~= packet);
}

/// A flagged command is not the command of any segment, and no command of a segment is taken for
/// a flagged one.
pub proof fn law_commands_carry_no_flag(cmd: u8)
    requires
        81 <= cmd <= 84,
    ensures
        cmd & 0x28 == 0,
        cmd & 0x20 == 0,
        cmd & 0x08 == 0,
        !(81 <= cmd | 0x20 <= 84),
{
    assert(81 <= cmd <= 84 ==> cmd & 0x28 == 0 && cmd & 0x20 == 0 && cmd & 0x08 == 0 && !(81 <= (
    cmd | 0x20) && (cmd | 0x20) <= 84)) by (bit_vector);
}

/// The packet with which one end drops the connection ends it at the other: it belongs to the
/// conversation, and once the engine has refused its command the connection is over.
pub proof fn law_reset_ends_the_connection(task: TaskState, kcp: KcpState, now: u32)
    requires
        task.wf(),
        task.at is Entering,
        task.packet == crate::protocol::ack_head(kcp.cb.conv, 0x08, 0),
    ensures
        crate::protocol::packet_conv(task.packet) == Some(kcp.cb.conv),
        task.turn(
            kcp,
            now,
            EventState::InputDone(Err(ErrorKind::InvalidData)),
        ).task.hs == Handshake::Disconnected,
{
    crate::protocol::law_ack_head_reads_back(kcp.cb.conv, 0x08, 0);
    assert(8u8 & 8 != 0) by (bit_vector);
    reveal(TaskState::entered);
    reveal(TaskState::flagged_packet);
    lemma_next_packet(TaskState { hs: Handshake::Disconnected, ..task }, kcp, now);
}

/// Once a connection is over and its packets have gone out, its channels are closed.
pub proof fn law_over_means_closed(task: TaskState, kcp: KcpState, now: u32)
    requires
        task.hs == Handshake::Disconnected,
        task.at == Point::FlushingSink || (task.at == Point::Updating && kcp.output.len() == 0),
    ensures
        task.turn(kcp, now, EventState::Done).action is CloseChannels,
{
    reveal(TaskState::round);
    reveal(TaskState::decide);
    reveal(TaskState::finish);
}

/// Closing the channels is followed by a RESET packet if there is a conversation, by the report
/// of the end, and by nothing else.
pub proof fn law_end_is_reported(task: TaskState, kcp: KcpState, t1: u32, t2: u32, t3: u32)
    requires
        task.at == Point::Closing,
    ensures
        ({
            let conv = kcp.cb.conv;
            let first = task.turn(kcp, t1, EventState::Done);
            let second = first.task.turn(kcp, t2, EventState::Done);
            let third = second.task.turn(kcp, t3, EventState::Done);
            if crate::stream::valid_conv(conv) {
                &&& first.action == ActionState::SendReset(
                    crate::protocol::ack_head(conv, 0x08, 0),
                )
                &&& second.action == ActionState::ReportDisconnect { conv }
                &&& third.action is Stop
            } else {
                &&& first.action == ActionState::ReportDisconnect { conv }
                &&& second.action is Stop
            }
        }),
{
    reveal(TaskState::closed);
    reveal(TaskState::report);
    reveal(TaskState::stop);
}

/// Whatever a step starts from: a task stops only after the report of its end, reports its end only
/// once its channels are closed, and closes its channels only once.
pub proof fn law_end_comes_in_order(task: TaskState, kcp: KcpState, now: u32, event: EventState)
    requires
        task.wf(),
        task.awaits(event),
    ensures
        ({
            let turn = task.turn(kcp, now, event);
            &&& turn.action is Stop ==> task.at == Point::Reporting
            &&& turn.task.at == Point::Reporting ==> turn.action is ReportDisconnect
            &&& turn.action is ReportDisconnect ==> task.at == Point::Closing || task.at
                == Point::Resetting
            &&& turn.task.at == Point::Resetting ==> task.at == Point::Closing
            &&& turn.task.at == Point::Closing ==> turn.action is CloseChannels
            &&& turn.action is CloseChannels ==> !is_ending(task)
            &&& is_ending(task) ==> is_ending(turn.task)
        }),
{
    law_steps_go_forward(task, kcp, now, event);
    reveal(TaskState::closed);
    reveal(TaskState::report);
    reveal(TaskState::stop);
}

/// The closing never goes back and gets beyond the standing connection. Gone on with once more,
/// with the engine as it is, it changes nothing and sends nothing: neither where it sent nothing
/// the first time, nor once the FIN frame that it sent is on its way.
pub proof fn law_closing_settles(task: TaskState, kcp: KcpState, sent: KcpState, a: u32, b: u32)
    ensures
        ({
            let once = task.fin_advanced(kcp, a);
            &&& task.hs.rank() <= once.hs.rank()
            &&& once.hs != Handshake::Syn && once.hs != Handshake::Connected
            &&& !task.fin_due(kcp) ==> !once.fin_due(kcp) && once.fin_advanced(kcp, b) == once
        }),
        ({
            let once = (TaskState { hs: Handshake::FinSent, ..task }).fin_advanced(sent, a);
            &&& Handshake::FinSent.rank() <= once.hs.rank()
            &&& !once.fin_due(sent)
            &&& once.fin_advanced(sent, b) == once
        }),
{
}

/// A server takes a packet under the number of the handshake and goes back to its own number,
/// whatever the engine made of the packet.
pub proof fn law_server_keeps_its_conv(
    task: TaskState,
    kcp: KcpState,
    fed: KcpState,
    t1: u32,
    t2: u32,
    r: Result<(), ErrorKind>,
)
    requires
        task.wf(),
        !task.client,
        task.at is Entering,
        crate::protocol::packet_conv(task.packet) == Some(KcpStream::SYN_CONV),
    ensures
        ({
            let first = task.turn(kcp, t1, EventState::InputDone(Err(ErrorKind::NotFound)));
            let second = first.task.turn(fed, t2, EventState::InputDone(r));
            &&& first.action is Input
            &&& first.kcp.cb.conv == KcpStream::SYN_CONV
            &&& second.kcp.cb.conv == kcp.cb.conv
        }),
{
    reveal(TaskState::entered);
    reveal(TaskState::foreign_packet);
    reveal(TaskState::switched);
    let back = crate::stream::state::with_conv(fed, kcp.cb.conv);
    let first = task.turn(kcp, t1, EventState::InputDone(Err(ErrorKind::NotFound)));
    lemma_conv_stays(first.task, back, t2);
}

/// A client takes the number that the server has chosen if the engine accepts a packet under it
/// and everything sent is confirmed; else it goes back to the number of the handshake.
pub proof fn law_client_adopts_the_conv_of_the_server(
    task: TaskState,
    kcp: KcpState,
    fed: KcpState,
    t1: u32,
    t2: u32,
    conv: u32,
    r: Result<(), ErrorKind>,
)
    requires
        task.wf(),
        task.client,
        task.hs == Handshake::Syn,
        task.at is Entering,
        crate::protocol::packet_conv(task.packet) == Some(conv),
        conv != KcpStream::SYN_CONV,
        fed.cb.conv == conv,
    ensures
        ({
            let first = task.turn(kcp, t1, EventState::InputDone(Err(ErrorKind::NotFound)));
            let second = first.task.turn(fed, t2, EventState::InputDone(r));
            &&& first.action is Input
            &&& first.kcp.cb.conv == conv
            &&& second.kcp.cb.conv == if r is Ok && fed.waitsnd == 0 {
                conv
            } else {
                KcpStream::SYN_CONV
            }
        }),
{
    reveal(TaskState::entered);
    reveal(TaskState::foreign_packet);
    reveal(TaskState::switched);
    let first = task.turn(kcp, t1, EventState::InputDone(Err(ErrorKind::NotFound)));
    lemma_conv_stays(first.task, crate::stream::state::with_conv(fed, conv), t2);
    lemma_conv_stays(first.task, crate::stream::state::with_conv(fed, KcpStream::SYN_CONV), t2);
}

/// Going on to the next packet does not touch the conversation number.
proof fn lemma_conv_stays(t: TaskState, k: KcpState, now: u32)
    ensures
        t.next_packet(k, now).kcp.cb.conv == k.cb.conv,
{
    reveal(TaskState::next_packet);
    reveal(TaskState::packets_done);
    reveal(TaskState::receive);
    reveal(TaskState::after_syn);
    reveal(TaskState::fin);
    reveal(TaskState::after_fin);
    reveal(TaskState::fetch);
    reveal(TaskState::flush_engine);
    reveal(TaskState::round);
    reveal(TaskState::feed);
    reveal(TaskState::decide);
    reveal(TaskState::finish);
}

/// The FIN frame of the other end is fetched from the engine and kept from the user.
pub proof fn law_fin_frame_is_not_delivered(
    task: TaskState,
    kcp: KcpState,
    now: u32,
    purpose: Purpose,
    frame: Option<Bytes>,
)
    requires
        task.at == (Point::Receiving { purpose, fin: true }),
    ensures
        task.turn(kcp, now, EventState::Received(frame)) == task.turn(
            kcp,
            now,
            EventState::Received(None),
        ),
{
}

/// A user who will send no more closes the connection: the FIN frame is sent at once if everything
/// sent is confirmed.
pub proof fn law_closing_sends_the_fin_frame(task: TaskState, kcp: KcpState, now: u32)
    requires
        task.at == Point::Waiting,
        task.hs == Handshake::Connected || task.hs == Handshake::FinPending,
        kcp.waitsnd == 0,
    ensures
        task.turn(kcp, now, EventState::Input(None)).action == ActionState::SendHandshake(
            task.handshake_frame(),
        ),
{
    reveal(TaskState::woken);
    reveal(TaskState::close_input);
    reveal(TaskState::fin);
}

/// A connection is over once its FIN frame is confirmed, that of the other end has come, and every
/// frame has been fetched.
pub proof fn law_closing_completes(task: TaskState, kcp: KcpState, now: u32)
    requires
        task.wf(),
        task.at == Point::Polling,
        task.hs == Handshake::FinSent,
        task.fin_recved,
        kcp.waitsnd == 0,
        kcp.cb.nrcv_que == 0,
        kcp.cb.nrcv_buf == 0,
    ensures
        task.turn(kcp, now, EventState::Polled(None)).task.hs == Handshake::Disconnected,
{
    reveal(TaskState::packets_done);
    reveal(TaskState::after_syn);
    reveal(TaskState::fin);
    reveal(TaskState::after_fin);
    lemma_fetch(task.fin_advanced(kcp, now), kcp, now);
}

/// What a step starts from, besides the task.
pub struct Step {
    pub kcp: KcpState,
    pub now: u32,
    pub event: EventState,
}

/// The task after the steps.
pub open spec fn after(task: TaskState, steps: Seq<Step>) -> TaskState
    decreases steps.len(),
{
    if steps.len() == 0 {
        task
    } else {
        let step = steps[0];
        after(task.turn(step.kcp, step.now, step.event).task, steps.skip(1))
    }
}

/// Whether each event answers the action before it.
pub open spec fn answers(task: TaskState, steps: Seq<Step>) -> bool
    decreases steps.len(),
{
    steps.len() > 0 ==> {
        let step = steps[0];
        &&& task.awaits(step.event)
        &&& answers(task.turn(step.kcp, step.now, step.event).task, steps.skip(1))
    }
}

/// All frames that the user hands over.
pub open spec fn all_taken(steps: Seq<Step>) -> Seq<Bytes>
    decreases steps.len(),
{
    if steps.len() == 0 {
        seq![]
    } else {
        taken(steps[0].event) + all_taken(steps.skip(1))
    }
}

/// All frames for the user that the engine hands over.
pub open spec fn all_fetched(task: TaskState, steps: Seq<Step>) -> Seq<Bytes>
    decreases steps.len(),
{
    if steps.len() == 0 {
        seq![]
    } else {
        let step = steps[0];
        fetched(task, step.event) + all_fetched(
            task.turn(step.kcp, step.now, step.event).task,
            steps.skip(1),
        )
    }
}

/// All frames of the user that the engine gets.
pub open spec fn all_sent(task: TaskState, steps: Seq<Step>) -> Seq<Bytes>
    decreases steps.len(),
{
    if steps.len() == 0 {
        seq![]
    } else {
        let step = steps[0];
        let turn = task.turn(step.kcp, step.now, step.event);
        sent(turn.action) + all_sent(turn.task, steps.skip(1))
    }
}

/// All frames that the user gets.
pub open spec fn all_delivered(task: TaskState, steps: Seq<Step>) -> Seq<Bytes>
    decreases steps.len(),
{
    if steps.len() == 0 {
        seq![]
    } else {
        let step = steps[0];
        let turn = task.turn(step.kcp, step.now, step.event);
        delivered(turn.action) + all_delivered(turn.task, steps.skip(1))
    }
}

/// A connection that has been given up hands nothing on any more.
proof fn lemma_ending_is_silent(task: TaskState, steps: Seq<Step>)
    requires
        is_ending(task),
        answers(task, steps),
    ensures
        is_ending(after(task, steps)),
        all_delivered(task, steps) =~= Seq::empty(),
    decreases steps.len(),
{
    if steps.len() > 0 {
        let step = steps[0];
        reveal(TaskState::closed);
        reveal(TaskState::report);
        reveal(TaskState::stop);
        lemma_ending_is_silent(task.turn(step.kcp, step.now, step.event).task, steps.skip(1));
    }
}

/// How many times the end is reported.
pub open spec fn reports(task: TaskState, steps: Seq<Step>) -> nat
    decreases steps.len(),
{
    if steps.len() == 0 {
        0
    } else {
        let step = steps[0];
        let turn = task.turn(step.kcp, step.now, step.event);
        (if turn.action is ReportDisconnect {
            1nat
        } else {
            0
        }) + reports(turn.task, steps.skip(1))
    }
}

/// How many times the channels are closed.
pub open spec fn closes(task: TaskState, steps: Seq<Step>) -> nat
    decreases steps.len(),
{
    if steps.len() == 0 {
        0
    } else {
        let step = steps[0];
        let turn = task.turn(step.kcp, step.now, step.event);
        (if turn.action is CloseChannels {
            1nat
        } else {
            0
        }) + closes(turn.task, steps.skip(1))
    }
}

/// Whether the end has been reported.
pub open spec fn has_reported(task: TaskState) -> bool {
    task.at == Point::Reporting || task.at == Point::Stopped
}

/// Over any number of steps the channels are closed once, if the connection is given up, and its
/// end is reported once, if it comes to that: a task that has stopped has done each exactly once.
pub proof fn law_end_is_reported_once(task: TaskState, steps: Seq<Step>)
    requires
        task.wf(),
        answers(task, steps),
    ensures
        closes(task, steps) == if is_ending(after(task, steps)) && !is_ending(task) {
            1nat
        } else {
            0
        },
        reports(task, steps) == if has_reported(after(task, steps)) && !has_reported(task) {
            1nat
        } else {
            0
        },
        is_ending(task) ==> is_ending(after(task, steps)),
        has_reported(task) ==> has_reported(after(task, steps)),
    decreases steps.len(),
{
    if steps.len() > 0 {
        let step = steps[0];
        let turn = task.turn(step.kcp, step.now, step.event);
        law_steps_go_forward(task, step.kcp, step.now, step.event);
        law_end_comes_in_order(task, step.kcp, step.now, step.event);
        law_end_is_reported_once(turn.task, steps.skip(1));
        reveal(TaskState::stop);
    }
}

/// Frames pass a connection in order, none is lost on the way, none comes twice: over any number
/// of steps the engine gets the frames that the user has handed over, and the user gets those
/// that the engine has handed over, but for one that waits; when the connection is given up that
/// one is dropped.
pub proof fn law_frames_pass_in_order(task: TaskState, steps: Seq<Step>)
    requires
        task.wf(),
        answers(task, steps),
    ensures
        after(task, steps).wf(),
        all_sent(task, steps) == all_taken(steps),
        all_delivered(task, steps).is_prefix_of(line(task.tx_frame) + all_fetched(task, steps)),
        !is_ending(after(task, steps)) ==> line(task.tx_frame) + all_fetched(task, steps)
            == all_delivered(task, steps) + line(after(task, steps).tx_frame),
    decreases steps.len(),
{
    if steps.len() == 0 {
        assert(line(task.tx_frame) + all_fetched(task, steps) =~= line(task.tx_frame));
        assert(all_delivered(task, steps) + line(task.tx_frame) =~= line(task.tx_frame));
    } else {
        let step = steps[0];
        let turn = task.turn(step.kcp, step.now, step.event);
        let rest = steps.skip(1);
        law_steps_go_forward(task, step.kcp, step.now, step.event);
        law_frames_pass_in_order(turn.task, rest);
        let got = fetched(task, step.event);
        let all = line(task.tx_frame) + all_fetched(task, steps);
        if turn.action is CloseChannels {
            lemma_ending_is_silent(turn.task, rest);
            assert(all_delivered(task, steps) =~= Seq::empty());
        } else {
            let later = line(turn.task.tx_frame) + all_fetched(turn.task, rest);
            assert(all =~= (line(task.tx_frame) + got) + all_fetched(turn.task, rest));
            assert(all =~= delivered(turn.action) + later);
            let d = all_delivered(turn.task, rest);
            assert(d =~= later.subrange(0, d.len() as int));
            assert(all_delivered(task, steps) =~= all.subrange(
                0,
                all_delivered(task, steps).len() as int,
            ));
        }
    }
}

/// The packet that opens a connection carries its session ID: where the first header announces
/// the session key and the ID, as much as follows, the ID is read back.
pub proof fn law_session_id_reads_back(head: Seq<u8>, key: Seq<u8>, id: Seq<u8>, tail: Seq<u8>)
    requires
        head.len() == 24,
        crate::protocol::le32(head, 20) == key.len() + id.len(),
        key.len() + id.len() > 0,
    ensures
        crate::stream::packet_session_id(head + (key + id) + tail, key) == Some(id),
{
    crate::protocol::law_payload_reads_back(head, key + id, tail);
    assert(key =~= (key + id).subrange(0, key.len() as int));
    assert((key + id).skip(key.len() as int) =~= id);
}

} // verus!

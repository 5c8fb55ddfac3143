//! What holds of a step of a connection whatever it starts from.

use crate::error::ErrorKind;
use crate::protocol::KcpState;
use crate::stream::state::{ActionState, EventState, Handshake, Point, Purpose, TaskState, Turn};
use crate::stream::steps;
use bytes::Bytes;
use vstd::prelude::*;

verus! {

/// The action whose answer is waited for at a point.
pub open spec fn goes_with(at: Point, action: ActionState) -> bool {
    match at {
        Point::Created | Point::Configuring => false,
        Point::Greeting | Point::Answering | Point::Finishing { .. } => action is SendHandshake,
        Point::Feeding => action is Feed,
        Point::FlushingSink => action is FlushSink,
        Point::Checking { current } => action == ActionState::Check { current },
        Point::Updating => action is Update,
        Point::Waiting => action is Wait,
        Point::SendingFrame => action is Send,
        Point::TryingInput => action is TryInput,
        Point::Flushing => action is Flush,
        Point::Delivering => action is Deliver,
        Point::Reserving => action is TryReserve,
        Point::Receiving { .. } => action is Recv,
        Point::Entering | Point::SwitchedEntering { .. } | Point::FinEntering => action is Input,
        Point::Polling => action is PollPacket,
        Point::ClosingInput => action is CloseInput,
        Point::Tuning => action is SetNodelay,
        Point::Notifying => action is NotifyConnected,
        Point::Closing => action is CloseChannels,
        Point::Resetting => action is SendReset,
        Point::Reporting => action is ReportDisconnect,
        Point::Stopped => action is Stop,
    }
}

/// A step leads to the action whose answer is waited for after it. A frame that is asked for is
/// marked for what it is; the task waits only once the engine has said how long.
#[verifier::opaque]
spec fn fits(t: TaskState, k: KcpState, turn: Turn) -> bool {
    &&& goes_with(turn.task.at, turn.action)
    &&& turn.action is Wait ==> t.at is Checking
    &&& turn.task.at matches Point::Receiving { fin, .. } ==> (fin <==> turn.task.fin_recved
        && k.cb.nrcv_que == 1 && k.cb.nrcv_buf == 0)
}

proof fn lemma_entered_fits(t: TaskState, k: KcpState, now: u32, event: EventState)
    requires
        t.at == Point::Entering,
        t.awaits(event),
    ensures
        fits(t, k, t.turn(k, now, event)),
{
    reveal(fits);
    reveal(TaskState::entered);
    reveal(TaskState::foreign_packet);
    reveal(TaskState::flagged_packet);
    steps::lemma_packets(TaskState { flush: true, ..t }, k, now);
    steps::lemma_packets(t, k, now);
    steps::lemma_packets(TaskState { hs: Handshake::Disconnected, ..t }, k, now);
    steps::lemma_fin_packet(t, k, now);
}

proof fn lemma_configuring_fits(t: TaskState, k: KcpState, now: u32, event: EventState)
    requires
        t.at is Configuring,
        t.awaits(event),
    ensures
        fits(t, k, t.turn(k, now, event)),
{
    reveal(fits);
    let id = event->Configured_0;
    if k.cb.conv == 0xFFFF_FFFE {
        steps::law_client_sends_its_own_id(t, k, now, id, id);
    } else {
        steps::law_server_waits_to_be_greeted(t, k, now, id);
    }
}

proof fn lemma_greeting_fits(t: TaskState, k: KcpState, now: u32, event: EventState)
    requires
        t.at is Greeting || t.at is Flushing,
        t.awaits(event),
    ensures
        fits(t, k, t.turn(k, now, event)),
{
    reveal(fits);
    steps::law_flushing_is_noted(t, k, now);
}

proof fn lemma_feeding_fits(t: TaskState, k: KcpState, now: u32, event: EventState)
    requires
        t.at is Feeding,
        t.awaits(event),
    ensures
        fits(t, k, t.turn(k, now, event)),
{
    reveal(fits);
    steps::law_giving_up_at_once(t, k, now);
    if let EventState::Fed(ok) = event {
        steps::law_packets_go_out(t, k, now, ok);
    }
}

proof fn lemma_flushing_sink_fits(t: TaskState, k: KcpState, now: u32, event: EventState)
    requires
        t.at is FlushingSink,
        t.awaits(event),
    ensures
        fits(t, k, t.turn(k, now, event)),
{
    reveal(fits);
    steps::law_giving_up_at_once(t, k, now);
    steps::law_packets_go_out(t, k, now, true);
    reveal(TaskState::decide);
    reveal(TaskState::finish);
}

proof fn lemma_checking_fits(t: TaskState, k: KcpState, now: u32, event: EventState)
    requires
        t.at is Checking,
        t.awaits(event),
    ensures
        fits(t, k, t.turn(k, now, event)),
{
    reveal(fits);
    let current = t.at->Checking_current;
    steps::law_what_is_waited_for(t, k, now, current, event->Checked_0);
}

proof fn lemma_updating_fits(t: TaskState, k: KcpState, now: u32, event: EventState)
    requires
        t.at is Updating,
        t.awaits(event),
    ensures
        fits(t, k, t.turn(k, now, event)),
{
    reveal(fits);
    steps::law_next_round_begins(t, k, now);
}

proof fn lemma_waiting_fits(t: TaskState, k: KcpState, now: u32, event: EventState)
    requires
        t.at is Waiting,
        t.awaits(event),
    ensures
        fits(t, k, t.turn(k, now, event)),
{
    reveal(fits);
    steps::law_giving_up_at_once(t, k, now);
    steps::law_next_round_begins(t, k, now);
    steps::law_closing_the_input(t, k, now);
    match event {
        EventState::Input(Some(frame)) => steps::law_frames_of_the_user(t, k, now, true, frame),
        EventState::Packet(Some(packet)) => {
            steps::law_packets_are_fed_to_the_engine(t, k, now, packet)
        },
        EventState::Permit(true) => {
            steps::law_room_means_delivery(t, k, now, t.tx_frame->Some_0)
        },
        _ => {},
    }
}

proof fn lemma_sending_frame_fits(t: TaskState, k: KcpState, now: u32, event: EventState)
    requires
        t.at is SendingFrame,
        t.awaits(event),
    ensures
        fits(t, k, t.turn(k, now, event)),
{
    reveal(fits);
    reveal(TaskState::frame_sent);
    let ok = event->FrameSent_0;
    steps::lemma_flush(
        TaskState {
            flush: t.flush || (ok && (t.config.nodelay.nodelay || k.cb.nsnd_que > 1)),
            ..t
        },
        k,
        now,
    );
}

proof fn lemma_trying_input_fits(t: TaskState, k: KcpState, now: u32, event: EventState)
    requires
        t.at is TryingInput,
        t.awaits(event),
    ensures
        fits(t, k, t.turn(k, now, event)),
{
    reveal(fits);
    steps::law_closing_the_input(t, k, now);
    reveal(TaskState::send);
    steps::lemma_flush(t, k, now);
}

proof fn lemma_delivering_fits(t: TaskState, k: KcpState, now: u32, event: EventState)
    requires
        t.at is Delivering,
        t.awaits(event),
    ensures
        fits(t, k, t.turn(k, now, event)),
{
    reveal(fits);
    steps::lemma_receive(t, k, Purpose::Drain);
}

proof fn lemma_reserving_fits(t: TaskState, k: KcpState, now: u32, event: EventState)
    requires
        t.at is Reserving,
        t.wf(),
        t.awaits(event),
    ensures
        fits(t, k, t.turn(k, now, event)),
{
    reveal(fits);
    steps::law_next_round_begins(t, k, now);
    steps::law_room_means_delivery(t, k, now, t.tx_frame->Some_0);
}

proof fn lemma_receiving_fits(t: TaskState, k: KcpState, now: u32, event: EventState)
    requires
        t.at is Receiving,
        t.awaits(event),
    ensures
        fits(t, k, t.turn(k, now, event)),
{
    reveal(fits);
    let fin = t.at->fin;
    reveal(TaskState::received);
    reveal(TaskState::syn_received);
    let f = if fin {
        None
    } else {
        event->Received_0
    };
    steps::lemma_closing(t, k, now);
    steps::lemma_closing(TaskState { hs: Handshake::Disconnected, ..t }, k, now);
    steps::lemma_round(t, k, now);
    steps::lemma_flush(TaskState { tx_frame: f, ..t }, k, now);
}

proof fn lemma_switched_entering_fits(t: TaskState, k: KcpState, now: u32, event: EventState)
    requires
        t.at is SwitchedEntering,
        t.awaits(event),
    ensures
        fits(t, k, t.turn(k, now, event)),
{
    reveal(fits);
    let mine = t.at->mine;
    reveal(TaskState::switched);
    let r = event->InputDone_0;
    let conv = if !t.client {
        mine
    } else if r is Ok && k.waitsnd == 0 {
        k.cb.conv
    } else {
        0xFFFF_FFFE
    };
    steps::lemma_packets(t, crate::stream::state::with_conv(k, conv), now);
}

proof fn lemma_fin_entering_fits(t: TaskState, k: KcpState, now: u32, event: EventState)
    requires
        t.at is FinEntering || t.at is Polling,
        t.awaits(event),
    ensures
        fits(t, k, t.turn(k, now, event)),
{
    reveal(fits);
    steps::lemma_packets(t, k, now);
    reveal(TaskState::enter);
}

proof fn lemma_closing_input_fits(t: TaskState, k: KcpState, now: u32, event: EventState)
    requires
        t.at is ClosingInput,
        t.awaits(event),
    ensures
        fits(t, k, t.turn(k, now, event)),
{
    reveal(fits);
    steps::lemma_fin_packet(t, k, now);
}

proof fn lemma_finishing_fits(t: TaskState, k: KcpState, now: u32, event: EventState)
    requires
        t.at is Finishing,
        t.awaits(event),
    ensures
        fits(t, k, t.turn(k, now, event)),
{
    reveal(fits);
    let then = t.at->then;
    steps::law_fin_frame_is_sent(t, k, now, then);
}

proof fn lemma_tuning_fits(t: TaskState, k: KcpState, now: u32, event: EventState)
    requires
        t.at is Tuning || t.at is Answering,
        t.awaits(event),
    ensures
        fits(t, k, t.turn(k, now, event)),
{
    reveal(fits);
    steps::law_connection_stands(t, k, now, true);
}

proof fn lemma_notifying_fits(t: TaskState, k: KcpState, now: u32, event: EventState)
    requires
        t.at is Notifying,
        t.awaits(event),
    ensures
        fits(t, k, t.turn(k, now, event)),
{
    reveal(fits);
    steps::law_connection_stands(t, k, now, event->Notified_0);
}

proof fn lemma_closing_fits(t: TaskState, k: KcpState, now: u32, event: EventState)
    requires
        t.at is Closing || t.at is Resetting || t.at is Reporting,
        t.awaits(event),
    ensures
        fits(t, k, t.turn(k, now, event)),
{
    reveal(fits);
    reveal(TaskState::closed);
    reveal(TaskState::report);
    reveal(TaskState::stop);
}

/// What follows a step says which action the step takes.
proof fn lemma_points(t: TaskState, k: KcpState, now: u32, event: EventState)
    requires
        t.wf(),
        t.awaits(event),
    ensures
        fits(t, k, t.turn(k, now, event)),
{
    match t.at {
        Point::Configuring => lemma_configuring_fits(t, k, now, event),
        Point::Greeting | Point::Flushing => lemma_greeting_fits(t, k, now, event),
        Point::Feeding => lemma_feeding_fits(t, k, now, event),
        Point::FlushingSink => lemma_flushing_sink_fits(t, k, now, event),
        Point::Checking { .. } => lemma_checking_fits(t, k, now, event),
        Point::Updating => lemma_updating_fits(t, k, now, event),
        Point::Waiting => lemma_waiting_fits(t, k, now, event),
        Point::SendingFrame => lemma_sending_frame_fits(t, k, now, event),
        Point::TryingInput => lemma_trying_input_fits(t, k, now, event),
        Point::Delivering => lemma_delivering_fits(t, k, now, event),
        Point::Reserving => lemma_reserving_fits(t, k, now, event),
        Point::Receiving { .. } => lemma_receiving_fits(t, k, now, event),
        Point::Entering => lemma_entered_fits(t, k, now, event),
        Point::SwitchedEntering { .. } => lemma_switched_entering_fits(t, k, now, event),
        Point::FinEntering | Point::Polling => lemma_fin_entering_fits(t, k, now, event),
        Point::ClosingInput => lemma_closing_input_fits(t, k, now, event),
        Point::Finishing { .. } => lemma_finishing_fits(t, k, now, event),
        Point::Tuning | Point::Answering => lemma_tuning_fits(t, k, now, event),
        Point::Notifying => lemma_notifying_fits(t, k, now, event),
        Point::Closing | Point::Resetting | Point::Reporting => lemma_closing_fits(t, k, now, event),
        Point::Created | Point::Stopped => {},
    }
}

/// Whatever a step starts from: when the task waits, it waits for room to deliver a frame exactly
/// if one waits for that, and for the user exactly if the user may send and the send queue is below
/// its window.
pub proof fn law_waiting_frame_is_waited_for(
    task: TaskState,
    kcp: KcpState,
    now: u32,
    event: EventState,
)
    requires
        task.wf(),
        task.awaits(event),
    ensures
        task.turn(kcp, now, event).action matches ActionState::Wait { input, output, .. } ==> {
            &&& output <==> task.turn(kcp, now, event).task.tx_frame is Some
            &&& input <==> !task.turn(kcp, now, event).task.input_closed && kcp.cb.nsnd_que
                < kcp.cb.snd_wnd
        },
{
    lemma_points(task, kcp, now, event);
    reveal(fits);
    if let Point::Checking { current } = task.at {
        steps::law_what_is_waited_for(task, kcp, now, current, event->Checked_0);
    }
}

/// Whatever a step starts from: a frame that is asked of the engine is taken for the FIN frame
/// exactly if a FIN packet has come and the engine holds one frame in order and none out of order.
/// All others are for the user, or for the handshake.
pub proof fn law_only_the_last_frame_is_the_fin_frame(
    task: TaskState,
    kcp: KcpState,
    now: u32,
    event: EventState,
)
    requires
        task.wf(),
        task.awaits(event),
    ensures
        ({
            let turn = task.turn(kcp, now, event);
            turn.action is Recv <==> turn.task.at is Receiving
        }),
        ({
            let turn = task.turn(kcp, now, event);
            turn.task.at matches Point::Receiving { fin, .. } ==> (fin <==> turn.task.fin_recved
                && kcp.cb.nrcv_que == 1 && kcp.cb.nrcv_buf == 0)
        }),
{
    lemma_points(task, kcp, now, event);
    reveal(fits);
}

/// Whatever a step starts from: it leads to the action whose answer is waited for after it.
pub proof fn law_action_is_waited_for(task: TaskState, kcp: KcpState, now: u32, event: EventState)
    requires
        task.wf(),
        task.awaits(event),
    ensures
        ({
            let turn = task.turn(kcp, now, event);
            goes_with(turn.task.at, turn.action)
        }),
{
    lemma_points(task, kcp, now, event);
    reveal(fits);
}

/// Whether an event is one that an action can lead to.
pub open spec fn can_answer(action: ActionState, packet: Seq<u8>, event: EventState) -> bool {
    match event {
        EventState::Done => action is SendHandshake || action is FlushSink || action is Update
            || action is Flush || action is Deliver || action is CloseInput || action is SetNodelay
            || action is CloseChannels || action is SendReset || action is ReportDisconnect,
        EventState::Configured(_) => false,
        EventState::Fed(_) => action is Feed,
        EventState::Checked(_) => action is Check,
        EventState::Input(_) => action matches ActionState::Wait { input, .. } && input,
        EventState::Permit(_) => action matches ActionState::Wait { output, .. } && output,
        EventState::Packet(_) | EventState::Timeout => action is Wait,
        EventState::Cancelled => action is Wait || action is Feed || action is FlushSink,
        EventState::FrameSent(_) => action is Send,
        EventState::MoreInput(_) | EventState::NoInput | EventState::InputClosed => action is TryInput,
        EventState::Reserved(_) => action is TryReserve,
        EventState::Received(_) => action is Recv,
        EventState::InputDone(Ok(_)) => action is Input,
        EventState::InputDone(Err(e)) => action is Input && (e == ErrorKind::NotFound || (e
            == ErrorKind::InvalidData && packet.len() > 4)),
        EventState::Polled(_) => action is PollPacket,
        EventState::Notified(_) => action is NotifyConnected,
    }
}

/// Whatever a step starts from: every event that its action can lead to is one that the task goes
/// on with.
pub proof fn law_every_answer_is_awaited(
    task: TaskState,
    kcp: KcpState,
    now: u32,
    event: EventState,
    answer: EventState,
)
    requires
        task.wf(),
        task.awaits(event),
    ensures
        ({
            let turn = task.turn(kcp, now, event);
            can_answer(turn.action, turn.task.packet, answer) ==> turn.task.awaits(answer)
        }),
{
    law_action_is_waited_for(task, kcp, now, event);
    law_waiting_frame_is_waited_for(task, kcp, now, event);
}

/// A frame that is asked for while the engine holds more than one, or before a FIN packet has come,
/// reaches the user: it waits for delivery, unless the connection is given up meanwhile.
pub proof fn law_frames_of_the_engine_are_kept(
    task: TaskState,
    kcp: KcpState,
    now: u32,
    event: EventState,
    after: KcpState,
    later: u32,
    frame: Bytes,
)
    requires
        task.wf(),
        task.awaits(event),
        ({
            let turn = task.turn(kcp, now, event);
            &&& turn.task.at matches Point::Receiving { purpose, .. } && purpose != Purpose::Syn
            &&& !turn.task.fin_recved || kcp.cb.nrcv_que != 1 || kcp.cb.nrcv_buf > 0
        }),
    ensures
        ({
            let asked = task.turn(kcp, now, event).task;
            let turn = asked.turn(after, later, EventState::Received(Some(frame)));
            turn.task.tx_frame == Some(frame) || turn.action is CloseChannels
        }),
{
    law_only_the_last_frame_is_the_fin_frame(task, kcp, now, event);
    steps::law_room_means_delivery(task.turn(kcp, now, event).task, after, later, frame);
}

} // verus!

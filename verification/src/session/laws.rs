//! What holds of every connection without a handshake.

use crate::addr::PeerAddr;
use crate::protocol::KcpState;
use crate::session::state::{ActionState, Event, Message, Point, TaskState};
use bytes::Bytes;
use vstd::prelude::*;

verus! {

/// The frame that the user hands over with an event.
pub open spec fn taken(event: Event) -> Seq<Bytes> {
    match event {
        Event::Message(Message::Frame(frame)) => seq![frame],
        _ => seq![],
    }
}

/// The frame that the engine hands over with an event.
pub open spec fn fetched(event: Event) -> Seq<Bytes> {
    match event {
        Event::Received(Some(frame)) => seq![frame],
        _ => seq![],
    }
}

/// The frame that an action hands to the engine.
pub open spec fn sent(action: ActionState) -> Seq<Bytes> {
    match action {
        ActionState::Send(frame) => seq![frame],
        _ => seq![],
    }
}

/// The frame that an action hands to the user.
pub open spec fn delivered(action: ActionState) -> Seq<Bytes> {
    match action {
        ActionState::Deliver(frame) => seq![frame],
        _ => seq![],
    }
}

/// The frame that waits, if there is one.
pub open spec fn waiting(task: TaskState) -> Seq<Bytes> {
    match task.tx_frame {
        Some(frame) => seq![frame],
        None => seq![],
    }
}

/// What a step starts from, besides the task.
pub struct Step {
    pub kcp: KcpState,
    pub now: u32,
    pub event: Event,
}

/// Whether each event answers the action before it.
pub open spec fn answers(task: TaskState, steps: Seq<Step>) -> bool
    decreases steps.len(),
{
    steps.len() > 0 ==> {
        let step = steps[0];
        &&& task.awaits(step.kcp, step.event)
        &&& answers(task.turn(step.kcp, step.now, step.event).task, steps.skip(1))
    }
}

/// The task after the steps.
pub open spec fn after(task: TaskState, steps: Seq<Step>) -> TaskState
    decreases steps.len(),
{
    if steps.len() == 0 {
        task
    } else {
        let step = steps[0];
        after(task.turn(step.kcp, step.now, step.event).task, steps.skip(1))
    }
}

/// All frames that the user hands over.
pub open spec fn all_taken(steps: Seq<Step>) -> Seq<Bytes>
    decreases steps.len(),
{
    if steps.len() == 0 {
        seq![]
    } else {
        taken(steps[0].event) + all_taken(steps.skip(1))
    }
}

/// All frames that the engine hands over.
pub open spec fn all_fetched(steps: Seq<Step>) -> Seq<Bytes>
    decreases steps.len(),
{
    if steps.len() == 0 {
        seq![]
    } else {
        fetched(steps[0].event) + all_fetched(steps.skip(1))
    }
}

/// All frames that the engine gets.
pub open spec fn all_sent(task: TaskState, steps: Seq<Step>) -> Seq<Bytes>
    decreases steps.len(),
{
    if steps.len() == 0 {
        seq![]
    } else {
        let step = steps[0];
        let turn = task.turn(step.kcp, step.now, step.event);
        sent(turn.action) + all_sent(turn.task, steps.skip(1))
    }
}

/// All frames that the user gets.
pub open spec fn all_delivered(task: TaskState, steps: Seq<Step>) -> Seq<Bytes>
    decreases steps.len(),
{
    if steps.len() == 0 {
        seq![]
    } else {
        let step = steps[0];
        let turn = task.turn(step.kcp, step.now, step.event);
        delivered(turn.action) + all_delivered(turn.task, steps.skip(1))
    }
}

/// A step hands a frame of the user to the engine at once, and one for the user on after the one
/// that waits.
proof fn lemma_step_passes_frames(task: TaskState, kcp: KcpState, now: u32, event: Event)
    requires
        task.wf(),
        task.awaits(kcp, event),
    ensures
        task.turn(kcp, now, event).task.wf(),
        sent(task.turn(kcp, now, event).action) =~= taken(event),
        waiting(task) + fetched(event) =~= delivered(task.turn(kcp, now, event).action) + waiting(
            task.turn(kcp, now, event).task,
        ),
{
}

/// Frames pass a connection in order, none is lost on the way, none comes twice: over any number
/// of steps the engine gets the frames that the user has handed over, and the user gets those
/// that the engine has handed over, but for one that waits.
pub proof fn law_frames_pass_in_order(task: TaskState, steps: Seq<Step>)
    requires
        task.wf(),
        answers(task, steps),
    ensures
        after(task, steps).wf(),
        all_sent(task, steps) == all_taken(steps),
        waiting(task) + all_fetched(steps) == all_delivered(task, steps) + waiting(
            after(task, steps),
        ),
    decreases steps.len(),
{
    if steps.len() == 0 {
        assert(waiting(task) + all_fetched(steps) =~= waiting(task));
        assert(all_delivered(task, steps) + waiting(task) =~= waiting(task));
    } else {
        let step = steps[0];
        let turn = task.turn(step.kcp, step.now, step.event);
        let rest = steps.skip(1);
        lemma_step_passes_frames(task, step.kcp, step.now, step.event);
        law_frames_pass_in_order(turn.task, rest);
        assert(waiting(task) + all_fetched(steps) =~= (waiting(task) + fetched(step.event))
            + all_fetched(rest));
        assert(delivered(turn.action) + (waiting(turn.task) + all_fetched(rest)) =~= waiting(task)
            + all_fetched(steps));
        assert(all_delivered(task, steps) + waiting(after(task, steps)) =~= delivered(turn.action)
            + (all_delivered(turn.task, rest) + waiting(after(turn.task, rest))));
    }
}

/// A packet from another address is not fed to the engine.
pub proof fn law_packets_of_others_are_passed_over(
    task: TaskState,
    kcp: KcpState,
    now: u32,
    addr: PeerAddr,
)
    requires
        task.at == Point::Waiting || task.at == Point::Polling,
    ensures
        task.turn(kcp, now, Event::Packet(addr)).action is Input <==> addr == task.peer_addr,
{
}

/// Packets leave the engine in the order in which it puts them out; only where one cannot be
/// sent are those behind it discarded.
pub proof fn law_packets_leave_in_order(task: TaskState, kcp: KcpState, now: u32, event: Event)
    requires
        task.awaits(kcp, event),
    ensures
        ({
            let turn = task.turn(kcp, now, event);
            ||| turn.kcp == kcp && turn.action !is SendTo
            ||| kcp.output.len() > 0 && turn.action == ActionState::SendTo(kcp.output[0])
                && turn.kcp == KcpState { output: kcp.output.skip(1), ..kcp }
            ||| event == Event::SentTo(false) && turn.kcp == KcpState {
                output: Seq::empty(),
                ..kcp
            } && turn.action !is SendTo
        }),
{
}

/// Whether the engine has a transmission unit that the task has not been told of before: when it
/// is set up, and when it has taken another unit.
pub open spec fn sets_unit(task: TaskState, event: Event) -> bool {
    task.at == Point::Initializing || (task.at == Point::SettingMtu && event == Event::MtuSet(true))
}

/// Whether the transmission unit, `mtu` at first, changes only where it is set.
pub open spec fn keeps_unit(task: TaskState, mtu: u32, steps: Seq<Step>) -> bool
    decreases steps.len(),
{
    steps.len() > 0 ==> {
        let step = steps[0];
        &&& sets_unit(task, step.event) || step.kcp.cb.mtu == mtu
        &&& keeps_unit(
            task.turn(step.kcp, step.now, step.event).task,
            step.kcp.cb.mtu,
            steps.skip(1),
        )
    }
}

/// The transmission unit after the steps, if it is `mtu` at first.
pub open spec fn last_unit(mtu: u32, steps: Seq<Step>) -> u32 {
    if steps.len() == 0 {
        mtu
    } else {
        steps.last().kcp.cb.mtu
    }
}

/// Every step leaves a buffer that holds any packet of the transmission unit, where it found one
/// or the unit has just been set; and the buffer never shrinks.
pub proof fn law_buffer_holds_a_packet(task: TaskState, kcp: KcpState, now: u32, event: Event)
    requires
        task.awaits(kcp, event),
        sets_unit(task, event) || task.buffer >= kcp.cb.mtu,
    ensures
        task.turn(kcp, now, event).task.buffer >= task.turn(kcp, now, event).kcp.cb.mtu,
        task.turn(kcp, now, event).task.buffer >= task.buffer,
{
}

/// Over any number of steps the buffer holds any packet of the transmission unit, as long as the
/// unit changes only where it is set.
pub proof fn law_buffer_goes_on_holding_a_packet(task: TaskState, mtu: u32, steps: Seq<Step>)
    requires
        answers(task, steps),
        keeps_unit(task, mtu, steps),
        steps.len() > 0,
        task.at == Point::Initializing || task.buffer >= mtu,
    ensures
        after(task, steps).buffer >= last_unit(mtu, steps),
    decreases steps.len(),
{
    let step = steps[0];
    let rest = steps.skip(1);
    let turn = task.turn(step.kcp, step.now, step.event);
    law_buffer_holds_a_packet(task, step.kcp, step.now, step.event);
    if rest.len() > 0 {
        law_buffer_goes_on_holding_a_packet(turn.task, step.kcp.cb.mtu, rest);
        assert(rest.last() == steps.last());
    } else {
        assert(after(turn.task, rest) == turn.task);
    }
}

} // verus!

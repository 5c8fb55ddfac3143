//! What the steps of a connection without a handshake do, in terms of what they start from.

use crate::addr::PeerAddr;
use crate::protocol::KcpState;
use crate::session::state::{ActionState, Event, Message, Point, TaskState, Turn};
use bytes::Bytes;
use vstd::prelude::*;

verus! {

/// A round begins: the first packet goes out if there is one; else the engine is asked how long to
/// wait.
pub open spec fn comes_round(task: TaskState, kcp: KcpState, now: u32, turn: Turn) -> bool {
    &&& kcp.output.len() > 0 ==> {
        &&& turn.action == ActionState::SendTo(kcp.output[0])
        &&& turn.task == TaskState { at: Point::SendingPacket, ..task }
        &&& turn.kcp.output == kcp.output.skip(1)
        &&& turn.kcp == KcpState { output: turn.kcp.output, ..kcp }
    }
    &&& kcp.output.len() == 0 ==> {
        &&& turn.action == ActionState::Check { current: now }
        &&& turn.task == TaskState { at: Point::Checking { current: now }, ..task }
        &&& turn.kcp == kcp
    }
}

/// The step leads to this action and this point, and changes nothing else.
pub open spec fn only(
    task: TaskState,
    kcp: KcpState,
    action: ActionState,
    at: Point,
    turn: Turn,
) -> bool {
    &&& turn.action == action
    &&& turn.task == TaskState { at, ..task }
    &&& turn.kcp == kcp
}

/// A message has been acted on: another is looked for as long as the send queue is below its
/// window. After the last one the engine is flushed if something is to be sent at once.
pub open spec fn goes_on_to_messages(task: TaskState, kcp: KcpState, now: u32, turn: Turn) -> bool {
    if kcp.cb.nsnd_que < kcp.cb.snd_wnd {
        only(task, kcp, ActionState::TryMessage, Point::TryingMessage, turn)
    } else {
        ends_messages(task, kcp, now, turn)
    }
}

/// No message follows.
pub open spec fn ends_messages(task: TaskState, kcp: KcpState, now: u32, turn: Turn) -> bool {
    if task.sent {
        only(task, kcp, ActionState::Flush, Point::Flushing, turn)
    } else {
        comes_round(task, kcp, now, turn)
    }
}

/// What comes of a message: a frame is handed to the engine, a transmission unit is set, and a
/// flush is noted.
pub open spec fn acts_on(
    task: TaskState,
    kcp: KcpState,
    now: u32,
    msg: Message,
    turn: Turn,
) -> bool {
    match msg {
        Message::Frame(frame) => {
            &&& turn.action == ActionState::Send(frame)
            &&& turn.task.at matches Point::SendingFrame { len } && (
            crate::frame::content(frame).len() <= usize::MAX ==> len == crate::frame::content(
                frame,
            ).len())
            &&& turn.task == TaskState { at: turn.task.at, ..task }
            &&& turn.kcp == kcp
        },
        Message::Mtu(mtu) => only(task, kcp, ActionState::SetMtu(mtu), Point::SettingMtu, turn),
        Message::Flush => goes_on_to_messages((TaskState { sent: true, ..task }), kcp, now, turn),
    }
}

/// After the last packet of a row a frame is asked of the engine, unless one waits for delivery:
/// then the engine is flushed.
pub open spec fn ends_packets(task: TaskState, kcp: KcpState, turn: Turn) -> bool {
    if task.tx_frame is None {
        only(task, kcp, ActionState::Recv, Point::Receiving { drain: false }, turn)
    } else {
        only(task, kcp, ActionState::Flush, Point::Flushing, turn)
    }
}

/// Another packet is looked for, as long as fewer have been taken than the receive window says.
pub open spec fn goes_on_to_packets(task: TaskState, kcp: KcpState, turn: Turn) -> bool {
    if task.received < kcp.cb.rcv_wnd {
        only(task, kcp, ActionState::PollPacket, Point::Polling, turn)
    } else {
        ends_packets(task, kcp, turn)
    }
}

/// A new connection has no frame, no buffer, and nothing to send.
pub proof fn law_connection_starts_fresh(peer_addr: PeerAddr)
    ensures
        ({
            let task = TaskState::created(peer_addr);
            &&& task.peer_addr == peer_addr
            &&& task.buffer == 0
            &&& task.tx_frame is None
            &&& !task.sent
            &&& task.received == 0
            &&& task.at == Point::Created
        }),
{
}

/// The connection waits until the engine has to be updated, and updates it where there is no time
/// to wait. It waits for messages exactly if the send queue is below its window, and for room to
/// deliver a frame exactly if one waits for that.
pub proof fn law_what_is_waited_for(
    task: TaskState,
    kcp: KcpState,
    now: u32,
    current: u32,
    due: int,
)
    requires
        task.at == (Point::Checking { current }),
        0 <= due <= 0xFFFF_FFFF,
    ensures
        ({
            let at = ((current + due) % 0x1_0000_0000) as u32;
            let turn = task.turn(kcp, now, Event::Checked(at));
            if due == 0 {
                only(task, kcp, ActionState::Update { current }, Point::Updating, turn)
            } else {
                &&& turn.action matches ActionState::Wait { interval, input, output } && interval
                    == due && (input <==> kcp.cb.nsnd_que < kcp.cb.snd_wnd) && (output
                    <==> task.tx_frame is Some)
                &&& turn.task == TaskState { at: Point::Waiting, ..task }
                &&& turn.kcp == kcp
            }
        }),
{
    let at = ((current + due) % 0x1_0000_0000) as u32;
    assert((at - current) % 0x1_0000_0000 == due);
}

/// Whatever a step starts from: when the connection waits, it waits for room to deliver a frame
/// exactly if one waits for that, and for messages exactly if the send queue is below its window.
pub proof fn law_waiting_frame_is_waited_for(task: TaskState, kcp: KcpState, now: u32, event: Event)
    requires
        task.awaits(kcp, event),
    ensures
        task.turn(kcp, now, event).action matches ActionState::Wait { input, output, .. } ==> {
            &&& output <==> task.turn(kcp, now, event).task.tx_frame is Some
            &&& input <==> kcp.cb.nsnd_que < kcp.cb.snd_wnd
        },
{
}

/// What leads to the next round: an update, a flush, a time that is up, a packet that could not be
/// received, and a lack of room for a frame. So does a packet that was sent; where sending fails
/// the other packets are dropped.
pub proof fn law_next_round_begins(task: TaskState, kcp: KcpState, now: u32)
    ensures
        task.at == Point::Updating || task.at == Point::Flushing ==> comes_round(
            task,
            kcp,
            now,
            task.turn(kcp, now, Event::Done),
        ),
        task.at == Point::Waiting ==> comes_round(
            task,
            kcp,
            now,
            task.turn(kcp, now, Event::Timeout),
        ),
        task.at == Point::Waiting ==> comes_round(
            task,
            kcp,
            now,
            task.turn(kcp, now, Event::NoPacket),
        ),
        task.at == Point::Reserving ==> comes_round(
            task,
            kcp,
            now,
            task.turn(kcp, now, Event::Reserved(false)),
        ),
        task.at == Point::SendingPacket ==> comes_round(
            task,
            kcp,
            now,
            task.turn(kcp, now, Event::SentTo(true)),
        ),
        task.at == Point::SendingPacket ==> comes_round(
            task,
            (KcpState { output: Seq::empty(), ..kcp }),
            now,
            task.turn(kcp, now, Event::SentTo(false)),
        ),
{
}

/// The buffer for packets is made as large as the transmission unit, once the engine is set up and
/// once the unit has been set; it is never made smaller.
pub proof fn law_buffer_grows(task: TaskState, kcp: KcpState, now: u32, larger: TaskState)
    requires
        larger.buffer == if task.buffer < kcp.cb.mtu {
            kcp.cb.mtu as int
        } else {
            task.buffer
        },
        larger == (TaskState { buffer: larger.buffer, ..task }),
    ensures
        task.at == Point::Initializing ==> comes_round(
            larger,
            kcp,
            now,
            task.turn(kcp, now, Event::Done),
        ),
        task.at == Point::SettingMtu ==> goes_on_to_messages(
            larger,
            kcp,
            now,
            task.turn(kcp, now, Event::MtuSet(true)),
        ),
        task.at == Point::SettingMtu ==> goes_on_to_messages(
            task,
            kcp,
            now,
            task.turn(kcp, now, Event::MtuSet(false)),
        ),
{
}

/// Messages are acted on one after the other. The first one finds nothing to be sent at once; a
/// flush asks for that, and so does a frame that is not empty and that the engine takes.
pub proof fn law_messages_are_acted_on(
    task: TaskState,
    kcp: KcpState,
    now: u32,
    msg: Message,
    len: usize,
)
    ensures
        task.at == Point::Waiting ==> acts_on(
            (TaskState { sent: false, ..task }),
            kcp,
            now,
            msg,
            task.turn(kcp, now, Event::Message(msg)),
        ),
        task.at == Point::TryingMessage ==> acts_on(
            task,
            kcp,
            now,
            msg,
            task.turn(kcp, now, Event::Message(msg)),
        ),
        task.at == Point::TryingMessage ==> ends_messages(
            task,
            kcp,
            now,
            task.turn(kcp, now, Event::NoMessage),
        ),
        task.at == (Point::SendingFrame { len }) ==> goes_on_to_messages(
            (TaskState {
                sent: if len == 0 {
                    task.sent
                } else {
                    true
                },
                ..task
            }),
            kcp,
            now,
            task.turn(kcp, now, Event::FrameSent(true)),
        ),
        task.at == (Point::SendingFrame { len }) ==> goes_on_to_messages(
            task,
            kcp,
            now,
            task.turn(kcp, now, Event::FrameSent(false)),
        ),
{
}

/// The frame that waits is delivered as soon as there is room; then the engine is asked for the next
/// one, which is delivered too while there is room. Without a next one a round begins.
pub proof fn law_room_means_delivery(task: TaskState, kcp: KcpState, now: u32, frame: Bytes)
    ensures
        task.at == Point::Waiting && task.tx_frame == Some(frame) ==> only(
            (TaskState { tx_frame: None, ..task }),
            kcp,
            ActionState::Deliver(frame),
            Point::Delivering,
            task.turn(kcp, now, Event::Permit),
        ),
        task.at == Point::Reserving && task.tx_frame == Some(frame) ==> only(
            (TaskState { tx_frame: None, ..task }),
            kcp,
            ActionState::Deliver(frame),
            Point::Delivering,
            task.turn(kcp, now, Event::Reserved(true)),
        ),
        task.at == Point::Delivering ==> only(
            task,
            kcp,
            ActionState::Recv,
            Point::Receiving { drain: true },
            task.turn(kcp, now, Event::Done),
        ),
        task.at == (Point::Receiving { drain: true }) ==> only(
            (TaskState { tx_frame: Some(frame), ..task }),
            kcp,
            ActionState::TryReserve,
            Point::Reserving,
            task.turn(kcp, now, Event::Received(Some(frame))),
        ),
        task.at == (Point::Receiving { drain: true }) ==> comes_round(
            (TaskState { tx_frame: None, ..task }),
            kcp,
            now,
            task.turn(kcp, now, Event::Received(None)),
        ),
        task.at == (Point::Receiving { drain: false }) ==> only(
            (TaskState { tx_frame: Some(frame), ..task }),
            kcp,
            ActionState::Flush,
            Point::Flushing,
            task.turn(kcp, now, Event::Received(Some(frame))),
        ),
        task.at == (Point::Receiving { drain: false }) ==> only(
            (TaskState { tx_frame: None, ..task }),
            kcp,
            ActionState::Flush,
            Point::Flushing,
            task.turn(kcp, now, Event::Received(None)),
        ),
{
}

/// Packets of the other end are fed to the engine, as many in a row as the receive window says, and
/// those of others are passed over. The first one that is taken counts one, each further one counts
/// one more.
pub proof fn law_packets_are_fed_to_the_engine(
    task: TaskState,
    kcp: KcpState,
    now: u32,
    addr: PeerAddr,
)
    ensures
        task.at == Point::Waiting && addr == task.peer_addr ==> only(
            (TaskState { received: 1, ..task }),
            kcp,
            ActionState::Input,
            Point::Entering,
            task.turn(kcp, now, Event::Packet(addr)),
        ),
        task.at == Point::Waiting && addr != task.peer_addr ==> comes_round(
            task,
            kcp,
            now,
            task.turn(kcp, now, Event::Packet(addr)),
        ),
        task.at == Point::Entering ==> goes_on_to_packets(
            task,
            kcp,
            task.turn(kcp, now, Event::Done),
        ),
        task.at == Point::Polling && addr == task.peer_addr && task.received < kcp.cb.rcv_wnd ==> {
            let turn = task.turn(kcp, now, Event::Packet(addr));
            &&& turn.action is Input
            &&& turn.task.received == task.received + 1
            &&& turn.task == TaskState {
                received: turn.task.received,
                at: Point::Entering,
                ..task
            }
            &&& turn.kcp == kcp
        },
        task.at == Point::Polling && addr != task.peer_addr ==> goes_on_to_packets(
            task,
            kcp,
            task.turn(kcp, now, Event::Packet(addr)),
        ),
        task.at == Point::Polling ==> ends_packets(
            task,
            kcp,
            task.turn(kcp, now, Event::NoPacket),
        ),
{
}

/// A connection that is cancelled stops; nothing else stops one.
pub proof fn law_what_stops_a_connection(task: TaskState, kcp: KcpState, now: u32, event: Event)
    requires
        task.awaits(kcp, event),
    ensures
        task.turn(kcp, now, event).action is Stop <==> task.at == Point::Waiting
            && event is Cancelled,
        task.at == Point::Waiting && event is Cancelled ==> only(
            task,
            kcp,
            ActionState::Stop,
            Point::Stopped,
            task.turn(kcp, now, event),
        ),
{
}

/// The action whose answer is waited for at a point.
pub open spec fn goes_with(at: Point, action: ActionState) -> bool {
    match at {
        Point::Created | Point::Initializing => false,
        Point::SendingPacket => action is SendTo,
        Point::Checking { current } => action == ActionState::Check { current },
        Point::Updating => action is Update,
        Point::Waiting => action is Wait,
        Point::SendingFrame { .. } => action is Send,
        Point::SettingMtu => action is SetMtu,
        Point::TryingMessage => action is TryMessage,
        Point::Flushing => action is Flush,
        Point::Delivering => action is Deliver,
        Point::Receiving { .. } => action is Recv,
        Point::Reserving => action is TryReserve,
        Point::Entering => action is Input,
        Point::Polling => action is PollPacket,
        Point::Stopped => action is Stop,
    }
}

/// Whether an event is one that an action can lead to.
pub open spec fn can_answer(action: ActionState, event: Event) -> bool {
    match event {
        Event::Done => action is Update || action is Flush || action is Deliver || action is Input,
        Event::SentTo(_) => action is SendTo,
        Event::Checked(_) => action is Check,
        Event::Message(_) => action is TryMessage || (action matches ActionState::Wait { input, .. }
            && input),
        Event::Permit => action matches ActionState::Wait { output, .. } && output,
        Event::Packet(_) | Event::NoPacket => action is Wait || action is PollPacket,
        Event::Timeout | Event::Cancelled => action is Wait,
        Event::FrameSent(_) => action is Send,
        Event::MtuSet(_) => action is SetMtu,
        Event::NoMessage => action is TryMessage,
        Event::Received(_) => action is Recv,
        Event::Reserved(_) => action is TryReserve,
    }
}

/// Whatever a step starts from: it leads to the action whose answer is waited for after it, and
/// every event that the action can lead to is one that the connection goes on with, as long as the
/// receive window stays.
pub proof fn law_every_answer_is_awaited(
    task: TaskState,
    kcp: KcpState,
    now: u32,
    event: Event,
    after: KcpState,
    answer: Event,
)
    requires
        task.wf(),
        task.awaits(kcp, event),
        after.cb.rcv_wnd == kcp.cb.rcv_wnd,
    ensures
        ({
            let turn = task.turn(kcp, now, event);
            &&& goes_with(turn.task.at, turn.action)
            &&& can_answer(turn.action, answer) ==> turn.task.awaits(after, answer)
        }),
{
}

} // verus!

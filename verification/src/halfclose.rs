//! Telling the other end, over and over for a while, that a connection is gone.

use crate::config::Duration;
use vstd::prelude::*;

verus! {

/// The action that the task waits for.
#[derive(Clone, Copy, Debug, PartialEq, Eq, Structural)]
pub enum Point {
    /// Not started.
    Created,
    /// The packet is being sent for the first time.
    Starting,
    /// Looking whether tasks have been shut down.
    Checking,
    /// Waiting for something to happen.
    Waiting,
    /// The packet is being sent again.
    Repeating,
    /// Over.
    Stopped,
}

/// What the runtime has to do next.
#[derive(Clone, Copy, Debug, PartialEq, Eq, Structural)]
pub enum Action {
    /// Send the packet.
    Send,
    /// Look whether tasks have been shut down.
    Check,
    /// Wait: for cancellation, for a second to pass, if `packets` for a packet.
    Wait { packets: bool },
    /// Nothing any more.
    Stop,
}

/// What the last action led to.
#[derive(Clone, Copy, Debug, PartialEq, Eq, Structural)]
pub enum Event {
    /// Whether the packet was sent.
    Sent(bool),
    /// Whether tasks have been shut down.
    Checked(bool),
    /// The task is cancelled.
    Cancelled,
    /// A second has passed.
    Tick,
    /// A packet has come, or, if `ended`, there will be no more.
    Packet { ended: bool },
}

/// Sends a packet once a second.
#[derive(Clone, Copy, Debug, PartialEq, Eq, Structural)]
pub struct HalfClose {
    /// How many times the packet is still to be sent.
    pub repeat: usize,
    /// There will be no more packets from the other end.
    pub is_closed: bool,
    pub at: Point,
}

impl HalfClose {
    /// How many times a packet is sent: once a second, at least once.
    pub open spec fn times(timeout: Duration) -> usize {
        if timeout.secs as usize > 1 {
            timeout.secs as usize
        } else {
            1
        }
    }

    /// What the task keeps up between steps.
    pub open spec fn wf(self) -> bool {
        match self.at {
            Point::Created | Point::Checking | Point::Waiting | Point::Repeating => self.repeat > 0,
            _ => true,
        }
    }

    /// A task that has not begun.
    pub fn new(half_close_timeout: Duration) -> (task: HalfClose)
        ensures
            task == (HalfClose {
                repeat: Self::times(half_close_timeout),
                is_closed: false,
                at: Point::Created,
            }),
            task.wf(),
    {
        let secs: usize = #[verifier::truncate]
        (half_close_timeout.as_secs() as usize);
        HalfClose {
            repeat: if secs > 1 {
                secs
            } else {
                1
            },
            is_closed: false,
            at: Point::Created,
        }
    }

    /// The first action: the packet is sent directly.
    pub fn start(&mut self) -> (action: Action)
        requires
            old(self).wf(),
            old(self).at == Point::Created,
        ensures
            action == Action::Send,
            *final(self) == (HalfClose {
                repeat: (old(self).repeat - 1) as usize,
                at: Point::Starting,
                ..*old(self)
            }),
            final(self).wf(),
    {
        self.repeat -= 1;
        self.at = Point::Starting;
        Action::Send
    }

    /// Whether an event answers the action that the task waits for.
    pub open spec fn awaits(self, event: Event) -> bool {
        match self.at {
            Point::Starting | Point::Repeating => event is Sent,
            Point::Checking => event is Checked,
            Point::Waiting => event is Cancelled || event is Tick || (event is Packet
                && !self.is_closed),
            Point::Created | Point::Stopped => false,
        }
    }

    /// Whether an event puts an end to the task: a failure, or its cancellation.
    pub open spec fn aborts(event: Event) -> bool {
        event == Event::Sent(false) || event == Event::Checked(true) || event is Cancelled
    }

    /// What an event leads to.
    pub open spec fn turn(self, event: Event) -> (HalfClose, Action) {
        let stop = (HalfClose { at: Point::Stopped, ..self }, Action::Stop);
        match (self.at, event) {
            (Point::Starting, Event::Sent(true)) => if self.repeat == 0 {
                stop
            } else {
                (HalfClose { at: Point::Checking, ..self }, Action::Check)
            },
            (Point::Checking, Event::Checked(false)) => self.wait(),
            (Point::Waiting, Event::Tick) => (
                HalfClose { at: Point::Repeating, ..self },
                Action::Send,
            ),
            (Point::Waiting, Event::Packet { ended }) => (HalfClose {
                is_closed: self.is_closed || ended,
                ..self
            }).wait(),
            (Point::Repeating, Event::Sent(true)) => {
                let task = HalfClose { repeat: (self.repeat - 1) as usize, ..self };
                if task.repeat == 0 {
                    (HalfClose { at: Point::Stopped, ..task }, Action::Stop)
                } else {
                    task.wait()
                }
            },
            _ => stop,
        }
    }

    /// Something is waited for.
    pub open spec fn wait(self) -> (HalfClose, Action) {
        (HalfClose { at: Point::Waiting, ..self }, Action::Wait { packets: !self.is_closed })
    }

    /// What to do next.
    pub fn step(&mut self, event: Event) -> (action: Action)
        requires
            old(self).wf(),
            old(self).awaits(event),
        ensures
            (*final(self), action) == old(self).turn(event),
            final(self).wf(),
    {
        match self.at {
            Point::Starting => match event {
                Event::Sent(true) => {
                    if self.repeat == 0 {
                        return self.stop();
                    }
                    self.at = Point::Checking;
                    Action::Check
                },
                _ => self.stop(),
            },
            Point::Checking => match event {
                Event::Checked(false) => self.run_wait(),
                _ => self.stop(),
            },
            Point::Waiting => match event {
                Event::Tick => {
                    self.at = Point::Repeating;
                    Action::Send
                },
                Event::Packet { ended } => {
                    if ended {
                        self.is_closed = true;
                    }
                    self.run_wait()
                },
                _ => self.stop(),
            },
            Point::Repeating => match event {
                Event::Sent(true) => {
                    self.repeat -= 1;
                    if self.repeat == 0 {
                        self.stop()
                    } else {
                        self.run_wait()
                    }
                },
                _ => self.stop(),
            },
            _ => self.stop(),
        }
    }

    fn run_wait(&mut self) -> (action: Action)
        ensures
            (*final(self), action) == old(self).wait(),
    {
        self.at = Point::Waiting;
        Action::Wait { packets: !self.is_closed }
    }

    fn stop(&mut self) -> (action: Action)
        ensures
            *final(self) == (HalfClose { at: Point::Stopped, ..*old(self) }),
            action == Action::Stop,
    {
        self.at = Point::Stopped;
        Action::Stop
    }

    /// How many more times the packet will be sent if nothing goes wrong.
    pub open spec fn to_send(self) -> int {
        match self.at {
            Point::Created | Point::Starting | Point::Checking | Point::Waiting => {
                self.repeat as int
            },
            Point::Repeating => self.repeat - 1,
            Point::Stopped => 0,
        }
    }
}

/// The task after the events.
pub open spec fn after(task: HalfClose, events: Seq<Event>) -> HalfClose
    decreases events.len(),
{
    if events.len() == 0 {
        task
    } else {
        after(task.turn(events[0]).0, events.skip(1))
    }
}

/// How many times the packet is sent.
pub open spec fn sends(task: HalfClose, events: Seq<Event>) -> nat
    decreases events.len(),
{
    if events.len() == 0 {
        0
    } else {
        let (next, action) = task.turn(events[0]);
        (if action == Action::Send {
            1nat
        } else {
            0
        }) + sends(next, events.skip(1))
    }
}

/// Whether each event answers the action before it.
pub open spec fn answers(task: HalfClose, events: Seq<Event>) -> bool
    decreases events.len(),
{
    events.len() > 0 ==> task.awaits(events[0]) && answers(
        task.turn(events[0]).0,
        events.skip(1),
    )
}

/// The packet is never sent more often than the timeout says, and exactly so often if the task
/// goes on to its end without a failure or cancellation.
pub proof fn law_packet_is_sent_once_a_second(task: HalfClose, events: Seq<Event>)
    requires
        task.wf(),
        task.at != Point::Created,
        answers(task, events),
    ensures
        sends(task, events) <= task.to_send(),
        (forall|i: int| 0 <= i < events.len() ==> !HalfClose::aborts(#[trigger] events[i]))
            ==> sends(task, events) + after(task, events).to_send() == task.to_send(),
    decreases events.len(),
{
    if events.len() > 0 {
        let next = task.turn(events[0]).0;
        let rest = events.skip(1);
        law_packet_is_sent_once_a_second(next, rest);
        if forall|i: int| 0 <= i < events.len() ==> !HalfClose::aborts(#[trigger] events[i]) {
            assert forall|i: int| 0 <= i < rest.len() implies !HalfClose::aborts(
                #[trigger] rest[i],
            ) by {
                assert(rest[i] == events[i + 1]);
            }
            assert(!HalfClose::aborts(events[0]));
        }
    }
}

/// From its start to its end a task sends the packet as often as the timeout says: once a second,
/// at least once.
pub proof fn law_packet_is_sent_as_often_as_said(timeout: Duration, events: Seq<Event>)
    requires
        ({
            let task = HalfClose {
                repeat: (HalfClose::times(timeout) - 1) as usize,
                is_closed: false,
                at: Point::Starting,
            };
            &&& answers(task, events)
            &&& after(task, events).at == Point::Stopped
        }),
        forall|i: int| 0 <= i < events.len() ==> !HalfClose::aborts(#[trigger] events[i]),
    ensures
        ({
            let task = HalfClose {
                repeat: (HalfClose::times(timeout) - 1) as usize,
                is_closed: false,
                at: Point::Starting,
            };
            1 + sends(task, events) == HalfClose::times(timeout)
        }),
{
    let task = HalfClose {
        repeat: (HalfClose::times(timeout) - 1) as usize,
        is_closed: false,
        at: Point::Starting,
    };
    law_packet_is_sent_once_a_second(task, events);
}

/// The packet is sent as many times as the timeout has whole seconds, and once where it has none.
pub proof fn law_once_for_each_second(timeout: Duration)
    requires
        timeout.secs <= usize::MAX,
    ensures
        timeout.secs == 0 ==> HalfClose::times(timeout) == 1,
        timeout.secs >= 1 ==> HalfClose::times(timeout) == timeout.secs,
{
}

/// The task waits: for packets too, as long as some may come.
pub open spec fn waits(task: HalfClose, next: (HalfClose, Action)) -> bool {
    &&& next.1 == Action::Wait { packets: !task.is_closed }
    &&& next.0 == HalfClose { at: Point::Waiting, ..task }
}

/// The task is over.
pub open spec fn is_over(task: HalfClose, next: (HalfClose, Action)) -> bool {
    &&& next.1 == Action::Stop
    &&& next.0 == HalfClose { at: Point::Stopped, ..task }
}

/// Once the packet has been sent for the first time, and has to be sent again, the task looks
/// whether it is shut down, and waits if it is not. Then the packet is sent again for every second
/// that passes, until it has been sent as often as it has to be. Packets of the other end are only
/// watched for their end.
pub proof fn law_packet_is_sent_every_second(task: HalfClose, ended: bool)
    requires
        task.repeat > 0,
    ensures
        task.at == Point::Starting ==> {
            let next = task.turn(Event::Sent(true));
            &&& next.1 == Action::Check
            &&& next.0 == HalfClose { at: Point::Checking, ..task }
        },
        task.at == Point::Checking ==> waits(task, task.turn(Event::Checked(false))),
        task.at == Point::Waiting ==> {
            let next = task.turn(Event::Tick);
            &&& next.1 == Action::Send
            &&& next.0 == HalfClose { at: Point::Repeating, ..task }
        },
        task.at == Point::Waiting && !ended ==> waits(task, task.turn(Event::Packet { ended })),
        task.at == Point::Waiting && ended ==> waits(
            (HalfClose { is_closed: true, ..task }),
            task.turn(Event::Packet { ended }),
        ),
        task.at == Point::Repeating && task.repeat == 1 ==> is_over(
            (HalfClose { repeat: 0, ..task }),
            task.turn(Event::Sent(true)),
        ),
        task.at == Point::Repeating && task.repeat > 1 ==> waits(
            (HalfClose { repeat: (task.repeat - 1) as usize, ..task }),
            task.turn(Event::Sent(true)),
        ),
{
}

/// What puts an end to the task: a packet that cannot be sent, a shutdown, a cancellation, and a
/// packet that does not have to be sent again.
pub proof fn law_what_ends_the_sending(task: HalfClose)
    ensures
        task.at == Point::Starting || task.at == Point::Repeating ==> is_over(
            task,
            task.turn(Event::Sent(false)),
        ),
        task.at == Point::Starting && task.repeat == 0 ==> is_over(
            task,
            task.turn(Event::Sent(true)),
        ),
        task.at == Point::Checking ==> is_over(task, task.turn(Event::Checked(true))),
        task.at == Point::Waiting ==> is_over(task, task.turn(Event::Cancelled)),
{
}

} // verus!

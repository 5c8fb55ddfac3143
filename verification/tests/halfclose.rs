use kcp::config::Duration;
use kcp::halfclose::{Action, Event, HalfClose};

fn run(secs: u64) -> usize {
    let mut task = HalfClose::new(Duration::from_secs(secs));
    let mut sends = 0;
    let mut action = task.start();
    loop {
        let event = match action {
            Action::Send => {
                sends += 1;
                Event::Sent(true)
            }
            Action::Check => Event::Checked(false),
            Action::Wait { .. } => Event::Tick,
            Action::Stop => return sends,
        };
        action = task.step(event);
    }
}

#[test]
fn packet_is_sent_once_a_second() {
    assert_eq!(run(5), 5);
    assert_eq!(run(2), 2);
    assert_eq!(run(1), 1);
}

#[test]
fn packet_is_sent_at_least_once() {
    assert_eq!(run(0), 1);
}

#[test]
fn failure_stops() {
    let mut task = HalfClose::new(Duration::from_secs(5));
    assert_eq!(task.start(), Action::Send);
    assert_eq!(task.step(Event::Sent(false)), Action::Stop);

    let mut task = HalfClose::new(Duration::from_secs(5));
    task.start();
    assert_eq!(task.step(Event::Sent(true)), Action::Check);
    assert_eq!(task.step(Event::Checked(false)), Action::Wait { packets: true });
    assert_eq!(task.step(Event::Tick), Action::Send);
    assert_eq!(task.step(Event::Sent(false)), Action::Stop);
}

#[test]
fn shutdown_stops() {
    let mut task = HalfClose::new(Duration::from_secs(5));
    task.start();
    task.step(Event::Sent(true));
    assert_eq!(task.step(Event::Checked(true)), Action::Stop);

    let mut task = HalfClose::new(Duration::from_secs(5));
    task.start();
    task.step(Event::Sent(true));
    task.step(Event::Checked(false));
    assert_eq!(task.step(Event::Cancelled), Action::Stop);
}

#[test]
fn packets_are_passed_over_until_they_end() {
    let mut task = HalfClose::new(Duration::from_secs(3));
    task.start();
    task.step(Event::Sent(true));
    task.step(Event::Checked(false));
    assert_eq!(task.step(Event::Packet { ended: false }), Action::Wait { packets: true });
    assert_eq!(task.step(Event::Packet { ended: true }), Action::Wait { packets: false });
    assert_eq!(task.step(Event::Tick), Action::Send);
    assert_eq!(task.step(Event::Sent(true)), Action::Wait { packets: false });
}

use bytes::Bytes;
use kcp::addr::PeerAddr;
use kcp::ffi::IKCPCB;
use kcp::session::state::{Action, Event, Message};
use kcp::session::{Data, KcpStream, Next};
use kcp::{ErrorKind, Kcp};

const PEER: PeerAddr = PeerAddr::V4 { ip: 0x7F00_0001, port: 4322 };

#[test]
fn test_message() {
    println!(
        "{} {} {}",
        std::mem::size_of::<Data>(),
        std::mem::size_of::<Bytes>(),
        std::mem::size_of::<PeerAddr>(),
    );
}

fn engine() -> Kcp {
    Kcp::new(
        IKCPCB {
            conv: 0,
            mtu: 1400,
            state: 0,
            snd_wnd: 32,
            rcv_wnd: 3,
            current: 0,
            nrcv_buf: 0,
            nrcv_que: 0,
            nsnd_que: 0,
            stream: 0,
            logmask: 0,
        },
        0,
    )
}

#[test]
fn capacities_are_those_of_the_windows() {
    let opening = KcpStream::new(&engine(), PEER);
    assert_eq!(opening.msg_capacity, 32);
    assert_eq!(opening.data_capacity, 3);
    assert_eq!(
        opening.stream,
        KcpStream { peer_addr: PEER, conv: 0, mtu: 1400, is_closed: false }
    );
}

#[test]
fn messages_to_the_user() {
    let mut s = KcpStream::new(&engine(), PEER).stream;
    let addr = PeerAddr::V4 { ip: 1, port: 2 };
    assert!(matches!(
        s.poll_next(Some(Data::Connect { peer_addr: addr, conv: 9 })),
        Next::Again
    ));
    assert_eq!((s.peer_addr, s.conv), (addr, 9));
    assert!(matches!(s.poll_next(None), Next::Ready(None)));
    match s.poll_next(Some(Data::Frame(Bytes::from_static(b"12345")))) {
        Next::Ready(Some(frame)) => assert_eq!(&frame[..], b"12345"),
        other => panic!("{:?}", other),
    }
    assert_eq!(KcpStream::message_result(true), Ok(()));
    assert_eq!(KcpStream::message_result(false), Err(ErrorKind::NotConnected));
    assert!(s.close());
    assert!(!s.close());
}

#[test]
fn frame_of_the_user_is_sent_and_flushed() {
    let mut kcp = engine();
    let mut task = KcpStream::new(&kcp, PEER).task;
    assert!(matches!(task.start(), Action::Initialize));
    assert_eq!(task.rx_buf_len(), 0);
    assert!(matches!(task.step(&mut kcp, 5, Event::Done), Action::Check { current: 5 }));
    assert_eq!(task.rx_buf_len(), 1400);
    assert!(matches!(
        task.step(&mut kcp, 5, Event::Checked(105)),
        Action::Wait { interval: 100, input: true, output: false }
    ));
    let frame = Bytes::from_static(b"12345");
    match task.step(&mut kcp, 6, Event::Message(Message::Frame(frame))) {
        Action::Send(frame) => assert_eq!(&frame[..], b"12345"),
        other => panic!("{:?}", other),
    }
    assert!(matches!(task.step(&mut kcp, 6, Event::FrameSent(true)), Action::TryMessage));
    assert!(matches!(task.step(&mut kcp, 6, Event::NoMessage), Action::Flush));
    kcp.push_output(vec![1]);
    kcp.push_output(vec![2]);
    match task.step(&mut kcp, 7, Event::Done) {
        Action::SendTo(packet) => assert_eq!(packet, vec![1]),
        other => panic!("{:?}", other),
    }
    // the other packet is discarded
    assert!(matches!(
        task.step(&mut kcp, 7, Event::SentTo(false)),
        Action::Check { current: 7 }
    ));
    assert!(!kcp.has_ouput());
    assert!(matches!(
        task.step(&mut kcp, 7, Event::Checked(7)),
        Action::Update { current: 7 }
    ));
}

fn waiting(kcp: &mut Kcp) -> kcp::session::task::Task {
    let mut task = KcpStream::new(kcp, PEER).task;
    task.start();
    task.step(kcp, 0, Event::Done);
    task.step(kcp, 0, Event::Checked(50));
    task
}

#[test]
fn messages_without_data_are_not_flushed() {
    let mut kcp = engine();
    let mut task = waiting(&mut kcp);
    let empty = Event::Message(Message::Frame(Bytes::new()));
    assert!(matches!(task.step(&mut kcp, 0, empty), Action::Send(_)));
    assert!(matches!(task.step(&mut kcp, 0, Event::FrameSent(true)), Action::TryMessage));
    let mtu = Event::Message(Message::Mtu(1500));
    assert!(matches!(task.step(&mut kcp, 0, mtu), Action::SetMtu(1500)));
    let mut cb = kcp.control_block();
    cb.mtu = 1500;
    kcp.refresh(cb, 0);
    assert!(matches!(task.step(&mut kcp, 0, Event::MtuSet(true)), Action::TryMessage));
    assert_eq!(task.rx_buf_len(), 1500);
    assert!(matches!(task.step(&mut kcp, 0, Event::NoMessage), Action::Check { .. }));

    let mut task = waiting(&mut kcp);
    let flush = Event::Message(Message::Flush);
    assert!(matches!(task.step(&mut kcp, 0, flush), Action::TryMessage));
    assert!(matches!(task.step(&mut kcp, 0, Event::NoMessage), Action::Flush));
}

#[test]
fn packets_are_taken_up_to_the_window() {
    let mut kcp = engine();
    let mut task = waiting(&mut kcp);
    let other = PeerAddr::V4 { ip: 1, port: 1 };
    assert!(matches!(task.step(&mut kcp, 0, Event::Packet(other)), Action::Check { .. }));
    task.step(&mut kcp, 0, Event::Checked(50));
    assert!(matches!(task.step(&mut kcp, 0, Event::Packet(PEER)), Action::Input));
    assert!(matches!(task.step(&mut kcp, 0, Event::Done), Action::PollPacket));
    assert!(matches!(task.step(&mut kcp, 0, Event::Packet(other)), Action::PollPacket));
    assert!(matches!(task.step(&mut kcp, 0, Event::Packet(PEER)), Action::Input));
    assert!(matches!(task.step(&mut kcp, 0, Event::Done), Action::PollPacket));
    assert!(matches!(task.step(&mut kcp, 0, Event::Packet(PEER)), Action::Input));
    // three packets have been taken
    assert!(matches!(task.step(&mut kcp, 0, Event::Done), Action::Recv));
    let frame = Some(Bytes::from_static(b"a"));
    assert!(matches!(task.step(&mut kcp, 0, Event::Received(frame)), Action::Flush));
    assert!(matches!(task.step(&mut kcp, 0, Event::Done), Action::Check { .. }));
    assert!(matches!(
        task.step(&mut kcp, 0, Event::Checked(50)),
        Action::Wait { output: true, .. }
    ));
    match task.step(&mut kcp, 0, Event::Permit) {
        Action::Deliver(frame) => assert_eq!(&frame[..], b"a"),
        other => panic!("{:?}", other),
    }
    assert!(matches!(task.step(&mut kcp, 0, Event::Done), Action::Recv));
    let frame = Some(Bytes::from_static(b"b"));
    assert!(matches!(task.step(&mut kcp, 0, Event::Received(frame)), Action::TryReserve));
    match task.step(&mut kcp, 0, Event::Reserved(true)) {
        Action::Deliver(frame) => assert_eq!(&frame[..], b"b"),
        other => panic!("{:?}", other),
    }
}

#[test]
fn cancellation_stops() {
    let mut kcp = engine();
    let mut task = waiting(&mut kcp);
    assert!(matches!(task.step(&mut kcp, 0, Event::Cancelled), Action::Stop));
}

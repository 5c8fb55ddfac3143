use bytes::Bytes;
use kcp::addr::PeerAddr;
use kcp::conv::ConvHistory;
use kcp::udp::state::{Action, Event, Message};
use kcp::udp::task::Task;
use kcp::{ErrorKind, KcpConfig, KcpStream, KcpUdpStream};
use std::sync::Arc;

const A: PeerAddr = PeerAddr::V4 { ip: 1, port: 1 };
const B: PeerAddr = PeerAddr::V4 { ip: 2, port: 2 };
const SEC: u64 = 1_000_000_000;

fn packet(conv: u32, payload: &[u8]) -> Vec<u8> {
    let mut packet = Vec::new();
    packet.extend_from_slice(&conv.to_le_bytes());
    packet.extend_from_slice(&[81, 0, 0, 0]);
    packet.extend_from_slice(&[0; 12]);
    packet.extend_from_slice(&(payload.len() as u32).to_le_bytes());
    packet.extend_from_slice(payload);
    packet
}

fn syn(id: &[u8]) -> Vec<u8> {
    packet(KcpStream::SYN_CONV, &[b"key", id].concat())
}

struct Listener {
    task: Task,
    history: ConvHistory,
    now: u64,
}

impl Listener {
    fn new() -> Self {
        let config = KcpConfig {
            session_key: Bytes::from_static(b"key"),
            session_id_len: 4,
            ..Default::default()
        };
        let mut task = KcpUdpStream::socket_listen(Arc::new(config), 0).task;
        assert!(matches!(task.start(), Action::Wait { cancel: true }));
        Listener { task, history: Task::conv_cache(), now: 0 }
    }

    fn step(&mut self, event: Event) -> Action {
        self.task.step(&mut self.history, self.now, event)
    }

    /// From waiting to waiting again: what became of the packet.
    fn packet(&mut self, packet: &[u8], peer: PeerAddr, room: bool) -> Option<(u32, bool)> {
        let mut opened = false;
        let mut action = self.step(Event::Packet(packet.to_vec(), peer));
        loop {
            match action {
                Action::Reserve => action = self.step(Event::Reserved(room)),
                Action::Open { peer_addr, capacity, .. } => {
                    assert_eq!(peer_addr, peer);
                    assert_eq!(capacity, 32);
                    opened = true;
                    action = self.step(Event::Done);
                }
                Action::Deliver { conv, packet: p } => {
                    assert_eq!(p, packet);
                    assert!(matches!(self.step(Event::Done), Action::PollPacket));
                    self.step(Event::NoPacket);
                    return Some((conv, opened));
                }
                Action::PollPacket => {
                    self.step(Event::NoPacket);
                    return None;
                }
                other => panic!("{:?}", other),
            }
        }
    }
}

#[test]
fn backlog_has_a_least_size() {
    let config = Arc::new(KcpConfig::default());
    assert_eq!(KcpUdpStream::socket_listen(config.clone(), 0).backlog, 8);
    assert_eq!(KcpUdpStream::socket_listen(config, 20).backlog, 20);
    assert_eq!(KcpUdpStream::accept(Some(3)), Ok(3));
    assert_eq!(KcpUdpStream::accept::<u8>(None), Err(ErrorKind::NotConnected));
}

#[test]
fn connections_are_accepted_and_found_again() {
    let mut l = Listener::new();
    let (conv, opened) = l.packet(&syn(b"0123"), A, true).unwrap();
    assert!(opened);
    assert!(KcpStream::is_valid_conv(conv));
    // the same packet once more, and packets of the conversation
    assert_eq!(l.packet(&syn(b"0123"), A, true), Some((conv, false)));
    assert_eq!(l.packet(&packet(conv, b"data"), A, true), Some((conv, false)));
    // from another address
    assert_eq!(l.packet(&syn(b"0123"), B, true), None);
    assert_eq!(l.packet(&packet(conv, b"data"), B, true), None);
    let (other, opened) = l.packet(&syn(b"4567"), B, true).unwrap();
    assert!(opened);
    assert_ne!(other, conv);
}

#[test]
fn packets_that_open_nothing() {
    let mut l = Listener::new();
    assert_eq!(l.packet(b"short", A, true), None);
    assert_eq!(l.packet(&packet(5, b"key0123"), A, true), None);
    assert_eq!(l.packet(&syn(b"012"), A, true), None);
    assert_eq!(l.packet(&syn(b"01234"), A, true), None);
    assert_eq!(l.packet(&packet(KcpStream::SYN_CONV, b"kex0123"), A, true), None);
    // no room in the backlog
    assert_eq!(l.packet(&syn(b"0123"), A, false), None);
    assert!(l.packet(&syn(b"0123"), A, true).is_some());
}

#[test]
fn connection_is_handed_over_once() {
    let mut l = Listener::new();
    let (conv, _) = l.packet(&syn(b"0123"), A, true).unwrap();
    assert!(matches!(
        l.step(Event::Message(Message::Connect { conv })),
        Action::Hand { join: true, with: Some(A), .. }
    ));
    assert!(matches!(l.step(Event::Done), Action::Wait { .. }));
    assert!(matches!(
        l.step(Event::Message(Message::Connect { conv })),
        Action::Hand { join: false, with: None, .. }
    ));
    assert!(matches!(l.step(Event::Done), Action::Wait { .. }));
    assert!(matches!(
        l.step(Event::Message(Message::Disconnect { conv })),
        Action::Kill { join: false, .. }
    ));
}

#[test]
fn ended_connection_is_forgotten_and_its_number_put_aside() {
    let mut l = Listener::new();
    l.now = 7 * SEC;
    let (conv, _) = l.packet(&syn(b"0123"), A, true).unwrap();
    assert!(l.history.dump(l.now).is_empty());
    assert!(matches!(
        l.step(Event::Message(Message::Disconnect { conv })),
        Action::Kill { join: true, .. }
    ));
    assert!(matches!(l.step(Event::Done), Action::Wait { .. }));
    assert_eq!(l.history.dump(126 * SEC), vec![conv]);
    assert!(l.history.dump(127 * SEC).is_empty());
    assert_eq!(l.packet(&packet(conv, b"data"), A, true), None);
    // unknown connections
    assert!(matches!(
        l.step(Event::Message(Message::Disconnect { conv })),
        Action::Wait { .. }
    ));
    assert!(matches!(l.step(Event::Message(Message::Connect { conv })), Action::Wait { .. }));
    assert!(l.packet(&syn(b"0123"), A, true).unwrap().1);
}

#[test]
fn closing_listener_waits_for_its_connections() {
    let mut l = Listener::new();
    let (conv, _) = l.packet(&syn(b"0123"), A, true).unwrap();
    assert!(matches!(l.step(Event::Cancelled), Action::TryMessage));
    assert!(matches!(l.step(Event::NoMessage), Action::Wait { cancel: false }));
    // no new connections
    assert!(matches!(l.step(Event::Packet(syn(b"4567"), B)), Action::PollPacket));
    assert!(matches!(l.step(Event::NoPacket), Action::TryMessage));
    assert!(matches!(
        l.step(Event::Message(Message::Disconnect { conv })),
        Action::Kill { .. }
    ));
    assert!(matches!(l.step(Event::Done), Action::Wait { cancel: false }));
    assert!(matches!(l.step(Event::Broken), Action::TryMessage));
    assert!(matches!(l.step(Event::NoMessage), Action::CloseChannels));
    assert!(matches!(l.step(Event::Done), Action::TryOutgoing));
    assert!(matches!(l.step(Event::Outgoing), Action::Feed));
    assert!(matches!(l.step(Event::Done), Action::TryOutgoing));
    assert!(matches!(l.step(Event::NoOutgoing), Action::Flush));
    assert!(matches!(l.step(Event::Done), Action::Stop));
}

#[test]
fn end_of_packets_closes_the_listener() {
    let mut l = Listener::new();
    assert!(matches!(l.step(Event::Ended), Action::Cancel));
    assert!(matches!(l.step(Event::Done), Action::TryMessage));
    assert!(matches!(l.step(Event::NoMessage), Action::CloseChannels));
}

#[test]
fn packets_are_handled_in_rows() {
    let mut l = Listener::new();
    assert!(matches!(l.step(Event::Packet(b"x".to_vec(), A)), Action::PollPacket));
    for _ in 1..1024 {
        assert!(matches!(l.step(Event::Packet(b"x".to_vec(), A)), Action::PollPacket));
    }
    assert!(matches!(l.step(Event::Packet(b"x".to_vec(), A)), Action::Wait { .. }));
}

#[test]
fn packets_are_sent_in_rows() {
    let mut l = Listener::new();
    assert!(matches!(l.step(Event::Outgoing), Action::Feed));
    for _ in 0..1024 {
        assert!(matches!(l.step(Event::Done), Action::TryOutgoing));
        assert!(matches!(l.step(Event::Outgoing), Action::Feed));
    }
    assert!(matches!(l.step(Event::Done), Action::Flush));
    assert!(matches!(l.step(Event::Done), Action::Wait { .. }));
}

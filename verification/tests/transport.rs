use kcp::addr::PeerAddr;
use kcp::transport::udp::{Polled, Received};
use kcp::transport::{
    DuplexTransport, MergeTransport, MpscTransport, UdpMpscTransport, UdpTransport, UnboundedSink,
};
use kcp::ErrorKind;

#[test]
fn duplex_parts() {
    let mut t = DuplexTransport::<Vec<u8>, u8, &str>::new(vec![1], "a");
    assert_eq!(t.get_sink(), &vec![1]);
    assert_eq!(t.get_stream(), &"a");
    t.get_sink_mut().push(2);
    *t.get_stream_mut() = "b";
    assert_eq!(t.split_into(), (vec![1, 2], "b"));
}

#[test]
fn merge_parts() {
    let mut t = MergeTransport::<Vec<u8>, u8, &str>::new(vec![1], "a");
    assert_eq!(t.get_sink(), &vec![1]);
    assert_eq!(t.get_stream(), &"a");
    t.get_sink_mut().push(2);
    *t.get_stream_mut() = "b";
    assert_eq!(t.split_into(), (vec![1, 2], "b"));
}

#[test]
fn mpsc_parts() {
    let mut t = MpscTransport::new(1, 'x');
    *t.get_sink_mut() = 2;
    *t.get_stream_mut() = 'y';
    assert_eq!((t.get_sink(), t.get_stream()), (&2, &'y'));
}

#[test]
fn unbounded_sink_until_it_is_closed() {
    let mut s = UnboundedSink::new(5);
    assert_eq!(s.get_ref(), &Some(5));
    assert_eq!(s.poll_ready(), Ok(()));
    assert_eq!(s.poll_flush(), Ok(()));
    assert_eq!(s.start_send(true), Ok(()));
    assert_eq!(s.start_send(false), Err(ErrorKind::NotConnected));
    *s.get_mut() = Some(6);
    s.poll_close();
    assert_eq!(s.poll_ready(), Err(ErrorKind::NotConnected));
    assert_eq!(s.poll_flush(), Err(ErrorKind::NotConnected));
    assert_eq!(s.start_send(true), Err(ErrorKind::NotConnected));
    assert_eq!(s.into_inner(), None);
}

#[test]
fn udp_passes_packets_of_others_over() {
    let peer = PeerAddr::V4 { ip: 0x7F00_0001, port: 4321 };
    let other = PeerAddr::V4 { ip: 0x7F00_0001, port: 4322 };
    let mut t = UdpTransport::new(1, peer);
    *t.get_udp_mut() += 1;
    assert_eq!(*t.get_udp_mut(), 2);
    assert_eq!(t.peer_addr(), peer);
    assert_eq!(t.poll_next(Received::Packet(peer)), Polled::Ready);
    assert_eq!(t.poll_next(Received::Packet(other)), Polled::Again);
    assert_eq!(t.poll_next(Received::Failed), Polled::Again);
    assert_eq!(t.poll_next(Received::Ended), Polled::Ended);
    assert_eq!(t.poll_next(Received::Pending), Polled::Pending);
}

#[test]
fn udp_channel_until_it_is_closed() {
    let peer = PeerAddr::V6 { ip6: 1, port: 4321, flowinfo: 0, scope_id: 0 };
    let mut t = UdpMpscTransport::new(Some(1), 'x', peer);
    assert_eq!((t.get_sink(), t.get_stream(), t.peer_addr()), (&Some(1), &'x', peer));
    *t.get_stream_mut() = 'y';
    *t.get_sink_mut() = Some(2);
    assert_eq!(t.poll_ready(), Ok(()));
    assert_eq!(t.poll_flush(), Ok(()));
    assert_eq!(t.start_send(true), Ok(()));
    assert_eq!(t.start_send(false), Err(ErrorKind::NotConnected));
    t.poll_close();
    assert_eq!(t.poll_ready(), Err(ErrorKind::NotConnected));
    assert_eq!(t.poll_flush(), Err(ErrorKind::NotConnected));
    assert_eq!(t.start_send(true), Err(ErrorKind::NotConnected));
    assert_eq!((t.get_sink(), t.get_stream()), (&None, &'y'));
}

#[test]
fn local_address_is_of_the_same_family() {
    let v4 = PeerAddr::V4 { ip: 9, port: 9 };
    let v6 = PeerAddr::V6 { ip6: 9, port: 9, flowinfo: 9, scope_id: 9 };
    assert_eq!(v4.local(), PeerAddr::V4 { ip: 0, port: 0 });
    assert_eq!(v6.local(), PeerAddr::V6 { ip6: 0, port: 0, flowinfo: 0, scope_id: 0 });
    assert_eq!(PeerAddr::resolved(Some(v4)), Ok(v4));
    assert_eq!(PeerAddr::resolved(None), Err(ErrorKind::AddrNotAvailable));
}

#[test]
fn first_packet_of_the_peer_comes_out() {
    let peer = PeerAddr::V4 { ip: 1, port: 1 };
    let other = PeerAddr::V4 { ip: 1, port: 2 };
    let t = UdpTransport::new((), peer);
    let settled = |answers: &[Received]| {
        answers
            .iter()
            .map(|r| t.poll_next(*r))
            .enumerate()
            .find(|(_, p)| *p != Polled::Again)
    };
    let mut answers = vec![Received::Packet(other), Received::Failed];
    assert_eq!(settled(&answers), None);
    answers.push(Received::Packet(peer));
    answers.push(Received::Ended);
    assert_eq!(settled(&answers), Some((2, Polled::Ready)));
    answers[1] = Received::Pending;
    assert_eq!(settled(&answers), Some((1, Polled::Pending)));
}

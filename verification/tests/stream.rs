use bytes::Bytes;
use kcp::stream::writing::{Taken, Write, Writing};
use kcp::stream::{Next, Output, Reading, Waited};
use kcp::{ErrorKind, KcpConfig, KcpStream};
use std::sync::Arc;

fn stream() -> KcpStream {
    KcpStream::connect(Arc::new(KcpConfig::default())).stream
}

fn syn_packet(key: &[u8], id: &[u8]) -> Vec<u8> {
    let mut packet = Vec::new();
    packet.extend_from_slice(&KcpStream::SYN_CONV.to_le_bytes());
    packet.extend_from_slice(&[81, 0, 0, 0]);
    packet.extend_from_slice(&[0; 12]);
    packet.extend_from_slice(&((key.len() + id.len()) as u32).to_le_bytes());
    packet.extend_from_slice(key);
    packet.extend_from_slice(id);
    packet
}

#[test]
fn valid_numbers() {
    assert!(!KcpStream::is_valid_conv(0));
    assert!(KcpStream::is_valid_conv(1));
    assert!(KcpStream::is_valid_conv(0xFFFF_FFFD));
    assert!(!KcpStream::is_valid_conv(KcpStream::SYN_CONV));
    assert!(!KcpStream::is_valid_conv(u32::MAX));
    let drawn: Vec<u32> = (0..8).map(|_| KcpStream::rand_conv()).collect();
    assert!(drawn.iter().all(|conv| KcpStream::is_valid_conv(*conv)));
    assert!(drawn.iter().any(|conv| *conv != drawn[0]));
}

#[test]
fn session_id_follows_the_key() {
    let packet = syn_packet(b"key", b"0123");
    assert_eq!(KcpStream::read_conv(&packet), Some(KcpStream::SYN_CONV));
    assert_eq!(KcpStream::read_session_id(&packet, b"key"), Some(&b"0123"[..]));
    assert_eq!(KcpStream::read_session_id(&packet, b""), Some(&b"key0123"[..]));
    assert_eq!(KcpStream::read_session_id(&packet, b"kex"), None);
    assert_eq!(KcpStream::read_session_id(&packet, b"key01234"), None);
    assert_eq!(KcpStream::read_session_id(&packet[..20], b"key"), None);
}

#[test]
fn channels_have_a_least_capacity() {
    let small = KcpConfig { snd_wnd: 3, rcv_wnd: 4, ..Default::default() };
    let opening = KcpStream::connect(Arc::new(small));
    assert_eq!(opening.input_capacity, 8);
    assert_eq!(opening.output_capacity, 16);
    assert_eq!(opening.conv, KcpStream::SYN_CONV);
    let opening = KcpStream::connect(Arc::new(KcpConfig::default()));
    assert_eq!(opening.input_capacity, 32);
    assert_eq!(opening.output_capacity, 256);
}

#[test]
fn only_valid_numbers_are_accepted() {
    let config = Arc::new(KcpConfig::default());
    let opening = KcpStream::accept(config.clone(), 7).ok().unwrap();
    assert_eq!(opening.conv, 7);
    assert_eq!(opening.stream.conv(), 0);
    assert_eq!(opening.stream.config().mtu, 1400);
    assert_eq!(KcpStream::accept(config.clone(), 0).err(), Some(ErrorKind::InvalidInput));
    assert_eq!(KcpStream::accept(config, KcpStream::SYN_CONV).err(), Some(ErrorKind::InvalidInput));
}

#[test]
fn waiting_for_the_connection() {
    let mut s = stream();
    assert_eq!(s.wait_connection(Waited::Elapsed), Err(ErrorKind::TimedOut));
    assert_eq!(s.wait_connection(Waited::Told(None)), Err(ErrorKind::NotConnected));
    let frame = Output::Frame(Bytes::new());
    assert_eq!(s.wait_connection(Waited::Told(Some(frame))), Err(ErrorKind::NotConnected));
    assert_eq!(s.conv(), 0);
    assert_eq!(s.wait_connection(Waited::Told(Some(Output::Connected { conv: 5 }))), Ok(()));
    assert_eq!(s.conv(), 5);
}

#[test]
fn input_fails_once_the_task_is_gone() {
    assert_eq!(KcpStream::input_result(true), Ok(()));
    assert_eq!(KcpStream::input_result(false), Err(ErrorKind::NotConnected));
}

#[test]
fn messages_to_who_asks_for_a_frame() {
    assert!(matches!(KcpStream::poll_next(None), Next::Ready(None)));
    assert!(matches!(KcpStream::poll_next(Some(Output::Connected { conv: 1 })), Next::Again));
    match KcpStream::poll_next(Some(Output::Frame(Bytes::from_static(b"12345")))) {
        Next::Ready(Some(frame)) => assert_eq!(&frame[..], b"12345"),
        other => panic!("{:?}", other),
    }
}

fn read(s: &mut KcpStream, room: usize) -> Option<Vec<u8>> {
    match s.poll_read(room) {
        Reading::Data(data) => Some(data.to_vec()),
        Reading::Done => Some(Vec::new()),
        Reading::Fetch => None,
    }
}

#[test]
fn reads_give_back_the_frames() {
    let mut s = stream();
    assert!(matches!(s.poll_read(0), Reading::Done));
    assert!(matches!(s.poll_read(4), Reading::Fetch));
    s.fill(Bytes::new());
    assert!(matches!(s.poll_read(4), Reading::Fetch));
    s.fill(Bytes::from_static(b"0123456789"));
    assert_eq!(read(&mut s, 4), Some(b"0123".to_vec()));
    assert_eq!(read(&mut s, 0), Some(b"".to_vec()));
    assert_eq!(read(&mut s, 5), Some(b"45678".to_vec()));
    assert_eq!(read(&mut s, 5), Some(b"9".to_vec()));
    assert_eq!(read(&mut s, 5), None);
    s.fill(Bytes::from_static(b"ab"));
    assert_eq!(read(&mut s, 2), Some(b"ab".to_vec()));
    assert_eq!(read(&mut s, 2), None);
}

#[test]
fn what_is_kept_goes_to_who_asks_for_a_frame() {
    let mut s = stream();
    assert!(s.take_buffered().is_none());
    s.fill(Bytes::from_static(b"abc"));
    assert_eq!(read(&mut s, 1), Some(b"a".to_vec()));
    assert_eq!(s.take_buffered().unwrap().to_vec(), b"bc".to_vec());
    assert!(s.take_buffered().is_none());
}

fn config(mtu: u32) -> KcpConfig {
    KcpConfig { mtu, ..Default::default() }
}

#[test]
fn writes_are_cut_into_frames() {
    // a frame holds 255 bytes
    let data: Vec<u8> = (0..600u32).map(|x| x as u8).collect();
    let mut w = Write::new(&config(25), data.len());
    let mut frames: Vec<Bytes> = Vec::new();
    let mut result = Writing::Again;
    while let Some(frame) = w.next(&data) {
        frames.push(frame);
        result = w.step(Taken::Accepted);
    }
    assert_eq!(result, Writing::Ready(600));
    let sizes: Vec<usize> = frames.iter().map(|f| f.len()).collect();
    assert_eq!(sizes, vec![255, 255, 90]);
    assert_eq!(frames.concat(), data);
}

#[test]
fn writes_succeed_with_what_was_taken() {
    let data = vec![1u8; 600];
    for taken in [Taken::Refused, Taken::Pending] {
        let mut w = Write::new(&config(25), data.len());
        assert_eq!(w.step(Taken::Accepted), Writing::Again);
        let first = Write::new(&config(25), data.len()).next(&data).unwrap();
        assert_eq!(w.step(taken), Writing::Ready(255));
        assert_eq!(&first[..], &data[..255]);
    }
    let mut w = Write::new(&config(25), data.len());
    assert_eq!(w.step(Taken::Refused), Writing::Failed(ErrorKind::NotConnected));
    let mut w = Write::new(&config(25), data.len());
    assert_eq!(w.step(Taken::Pending), Writing::Pending);
}

#[test]
fn nothing_to_write() {
    let w = Write::new(&config(1400), 0);
    assert!(w.next(b"").is_none());
}

#[test]
fn transmission_units_that_frames_can_be_cut_for() {
    assert!(!Write::can_write(24));
    assert!(Write::can_write(25));
    assert!(Write::can_write(1400));
    assert!(Write::can_write(16_843_033));
    assert!(!Write::can_write(16_843_034));
}

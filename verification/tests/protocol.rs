use kcp::ffi::IKCPCB;
use kcp::{ErrorKind, Kcp};

fn block() -> IKCPCB {
    IKCPCB {
        conv: 7,
        mtu: 1400,
        state: 0,
        snd_wnd: 32,
        rcv_wnd: 128,
        current: 1000,
        nrcv_buf: 1,
        nrcv_que: 2,
        nsnd_que: 3,
        stream: 0,
        logmask: 0,
    }
}

fn segment(conv: u32, cmd: u8, payload: &[u8]) -> Vec<u8> {
    let mut packet = Vec::new();
    packet.extend_from_slice(&conv.to_le_bytes());
    packet.push(cmd);
    packet.extend_from_slice(&[0; 15]);
    packet.extend_from_slice(&(payload.len() as u32).to_le_bytes());
    packet.extend_from_slice(payload);
    packet
}

#[test]
fn fields_are_those_of_the_control_block() {
    let kcp = Kcp::new(block(), 9);
    assert_eq!(kcp.control_block(), block());
    assert_eq!(kcp.get_waitsnd(), 9);
    assert_eq!(kcp.conv(), 7);
    assert_eq!(kcp.current(), 1000);
    assert_eq!(kcp.nsnd_que(), 3);
    assert_eq!(kcp.nrcv_que(), 2);
    assert_eq!(kcp.nrcv_buf(), 1);
}

#[test]
fn refresh_replaces_the_control_block() {
    let mut kcp = Kcp::new(block(), 9);
    kcp.push_output(vec![1]);
    let mut cb = block();
    cb.conv = 8;
    kcp.refresh(cb, 4);
    assert_eq!(kcp.conv(), 8);
    assert_eq!(kcp.get_waitsnd(), 4);
    assert!(kcp.has_ouput());
}

#[test]
fn system_time_wraps() {
    assert_eq!(Kcp::get_system_time(0, 0), 0);
    assert_eq!(Kcp::get_system_time(12, 345), 12345);
    // 4294967 s and 296 ms are 2^32 ms
    assert_eq!(Kcp::get_system_time(4_294_967, 296), 0);
    assert_eq!(Kcp::get_system_time(4_294_967, 300), 4);
}

#[test]
fn recv_codes() {
    assert_eq!(Kcp::recv(0), Ok(0));
    assert_eq!(Kcp::recv(12), Ok(12));
    assert_eq!(Kcp::recv(-1), Ok(0));
    assert_eq!(Kcp::recv(-2), Ok(0));
    assert_eq!(Kcp::recv(-3), Err(ErrorKind::InvalidInput));
    assert_eq!(Kcp::peek(12), Ok(12));
    assert_eq!(Kcp::peek(-3), Err(ErrorKind::InvalidInput));
    assert_eq!(Kcp::recv_bytes(5), Some(5));
    assert_eq!(Kcp::recv_bytes(0), None);
    assert_eq!(Kcp::recv_bytes(-1), None);
    assert_eq!(Kcp::peek_size(5), 5);
    assert_eq!(Kcp::peek_size(-1), 0);
}

#[test]
fn send_input_and_mtu_codes() {
    assert_eq!(Kcp::send(3), Ok(3));
    assert_eq!(Kcp::send(-1), Err(ErrorKind::InvalidInput));
    assert_eq!(Kcp::send(-2), Err(ErrorKind::InvalidInput));
    assert_eq!(Kcp::input(0), Ok(()));
    assert_eq!(Kcp::input(-1), Err(ErrorKind::NotFound));
    assert_eq!(Kcp::input(-2), Err(ErrorKind::InvalidData));
    assert_eq!(Kcp::input(-3), Err(ErrorKind::InvalidData));
    assert_eq!(Kcp::set_mtu(0), Ok(()));
    assert_eq!(Kcp::set_mtu(-1), Err(ErrorKind::InvalidInput));
    assert_eq!(Kcp::set_mtu(-2), Err(ErrorKind::OutOfMemory));
    let kcp = Kcp::new(block(), 0);
    assert!(!kcp.mtu_changes(1400));
    assert!(kcp.mtu_changes(1399));
}

#[test]
fn duration_since_does_not_go_back() {
    let kcp = Kcp::new(block(), 0);
    assert_eq!(kcp.duration_since(400), 600);
    assert_eq!(kcp.duration_since(1001), 0);
    assert_eq!(kcp.duration_since(u32::MAX), 1001);
}

#[test]
fn setters_change_one_field() {
    let mut kcp = Kcp::new(block(), 0);
    kcp.set_conv(99);
    kcp.set_stream(true);
    kcp.set_logmask(0xFFFF_FFFF);
    let mut cb = block();
    cb.conv = 99;
    cb.stream = 1;
    cb.logmask = -1;
    assert_eq!(kcp.control_block(), cb);
    kcp.set_stream(false);
    assert_eq!(kcp.control_block().stream, 0);
}

#[test]
fn queues_and_links() {
    let mut cb = block();
    assert!(!Kcp::new(cb, 0).is_dead_link());
    cb.state = u32::MAX;
    assert!(Kcp::new(cb, 0).is_dead_link());
    assert!(!Kcp::new(cb, 0).is_send_queue_full());
    cb.nsnd_que = 32;
    assert!(Kcp::new(cb, 0).is_send_queue_full());
    assert!(!Kcp::new(cb, 0).is_recv_queue_full());
    cb.nrcv_que = 128;
    assert!(Kcp::new(cb, 0).is_recv_queue_full());
}

#[test]
fn output_is_first_in_first_out() {
    let mut kcp = Kcp::new(block(), 0);
    assert!(!kcp.has_ouput());
    assert_eq!(kcp.pop_output(), None);
    kcp.push_output(vec![1]);
    kcp.push_output(vec![2]);
    kcp.push_output(vec![3]);
    assert_eq!(kcp.pop_output(), Some(vec![1]));
    assert_eq!(kcp.pop_output(), Some(vec![2]));
    kcp.clear_output();
    assert!(!kcp.has_ouput());
}

#[test]
fn conv_is_read_from_a_whole_header() {
    let packet = segment(0x1234_5678, 81, b"");
    assert_eq!(Kcp::read_conv(&packet), Some(0x1234_5678));
    assert_eq!(Kcp::read_conv(&packet[..23]), None);
}

#[test]
fn cmd_is_read_and_written() {
    let mut packet = segment(5, 81, b"abc");
    let before = packet.clone();
    assert_eq!(Kcp::read_cmd(&packet), 81);
    Kcp::write_cmd(&mut packet, 113);
    assert_eq!(Kcp::read_cmd(&packet), 113);
    assert_eq!(Kcp::read_conv(&packet), Some(5));
    assert_eq!(Kcp::read_payload_data(&packet), Some(&b"abc"[..]));
    Kcp::write_cmd(&mut packet, 81);
    assert_eq!(packet, before);
}

#[test]
fn payload_of_the_first_segment_that_has_one() {
    assert_eq!(Kcp::read_payload_data(&segment(1, 81, b"xyz")), Some(&b"xyz"[..]));
    assert_eq!(Kcp::read_payload_data(&segment(1, 82, b"")), None);
    let mut packet = segment(1, 82, b"");
    packet.extend_from_slice(&segment(1, 81, b"data"));
    packet.extend_from_slice(&segment(1, 81, b"more"));
    assert_eq!(Kcp::read_payload_data(&packet), Some(&b"data"[..]));
    // a length that does not fit
    let mut short = segment(1, 81, b"data");
    short.pop();
    assert_eq!(Kcp::read_payload_data(&short), None);
    assert_eq!(Kcp::read_payload_data(b""), None);
}

#[test]
fn max_frame_size_of_the_default_mtu() {
    assert_eq!(Kcp::max_frame_size(1400), 350_880);
    assert_eq!(Kcp::max_frame_size(24), 0);
}

#[test]
fn ack_head_reads_back() {
    let kcp = Kcp::new(block(), 0);
    let head = kcp.write_ack_head(0x08, 0x0102_0304);
    assert_eq!(head.len(), 24);
    assert_eq!(Kcp::read_conv(&head), Some(7));
    assert_eq!(Kcp::read_cmd(&head), 0x08);
    assert_eq!(&head[12..16], &[4, 3, 2, 1]);
    assert_eq!(Kcp::read_payload_data(&head), None);
}

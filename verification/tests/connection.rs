use bytes::Bytes;
use kcp::config::Duration;
use kcp::ffi::IKCPCB;
use kcp::stream::state::{Action, Event, Handshake};
use kcp::stream::task::Task;
use kcp::stream::writing::{Taken, Write};
use kcp::stream::{Opening, Reading};
use kcp::{ErrorKind, Kcp, KcpConfig, KcpNoDelayConfig, KcpStream};
use std::collections::VecDeque;
use std::sync::Arc;

fn head(conv: u32, cmd: u8, sn: u32, len: usize) -> Vec<u8> {
    let mut packet = Vec::new();
    packet.extend_from_slice(&conv.to_le_bytes());
    packet.extend_from_slice(&[cmd, 0, 0, 0]);
    packet.extend_from_slice(&[0; 4]);
    packet.extend_from_slice(&sn.to_le_bytes());
    packet.extend_from_slice(&[0; 4]);
    packet.extend_from_slice(&(len as u32).to_le_bytes());
    packet
}

/// An engine that sends each frame as one packet, over a wire that loses nothing.
#[derive(Default)]
struct Engine {
    queued: VecDeque<(u32, Vec<u8>)>,
    unconfirmed: Vec<u32>,
    next: u32,
    received: VecDeque<Vec<u8>>,
    to_confirm: Vec<u32>,
    current: u32,
}

impl Engine {
    fn refresh(&self, kcp: &mut Kcp) {
        let mut cb = kcp.control_block();
        cb.current = self.current;
        cb.nsnd_que = self.queued.len() as u32;
        cb.nrcv_que = self.received.len() as u32;
        kcp.refresh(cb, (self.queued.len() + self.unconfirmed.len()) as u32);
    }

    fn send(&mut self, frame: &[u8]) {
        self.queued.push_back((self.next, frame.to_vec()));
        self.next += 1;
    }

    fn flush(&mut self, kcp: &mut Kcp, now: u32) {
        self.current = now;
        for sn in self.to_confirm.drain(..) {
            kcp.push_output(head(kcp.conv(), 82, sn, 0));
        }
        while let Some((sn, frame)) = self.queued.pop_front() {
            let mut packet = head(kcp.conv(), 81, sn, frame.len());
            packet.extend_from_slice(&frame);
            kcp.push_output(packet);
            self.unconfirmed.push(sn);
        }
    }

    fn input(&mut self, conv: u32, packet: &[u8]) -> Result<(), ErrorKind> {
        if Kcp::read_conv(packet) != Some(conv) {
            return Err(ErrorKind::NotFound);
        }
        let sn = u32::from_le_bytes([packet[12], packet[13], packet[14], packet[15]]);
        match Kcp::read_cmd(packet) {
            81 => {
                self.received.push_back(packet[24..].to_vec());
                self.to_confirm.push(sn);
            }
            82 => self.unconfirmed.retain(|x| *x != sn),
            _ => return Err(ErrorKind::InvalidData),
        }
        Ok(())
    }
}

struct Side {
    config: Arc<KcpConfig>,
    task: Task,
    kcp: Kcp,
    engine: Engine,
    inbox: VecDeque<Vec<u8>>,
    wire: Vec<Vec<u8>>,
    user_in: VecDeque<Bytes>,
    user_closed: bool,
    frames: Vec<Vec<u8>>,
    connected: Option<u32>,
    reported: Option<u32>,
    stopped: bool,
    action: Option<Action>,
}

impl Side {
    fn new(config: Arc<KcpConfig>, opening: Opening) -> Self {
        let kcp = Kcp::new(
            IKCPCB {
                conv: opening.conv,
                mtu: 1400,
                state: 0,
                snd_wnd: 32,
                rcv_wnd: 128,
                current: 0,
                nrcv_buf: 0,
                nrcv_que: 0,
                nsnd_que: 0,
                stream: 0,
                logmask: 0,
            },
            0,
        );
        let mut task = opening.task;
        let action = task.start();
        Side {
            config,
            task,
            kcp,
            engine: Engine::default(),
            inbox: VecDeque::new(),
            wire: Vec::new(),
            user_in: VecDeque::new(),
            user_closed: false,
            frames: Vec::new(),
            connected: None,
            reported: None,
            stopped: false,
            action: Some(action),
        }
    }

    fn perform(&mut self, action: &Action, now: u32, timeout: bool) -> Option<Event> {
        Some(match action {
            Action::Configure { tuning, handshake } => {
                assert_eq!(tuning.mtu, self.config.mtu);
                assert_eq!(
                    *handshake,
                    KcpNoDelayConfig { nodelay: true, interval: 100, resend: 0, nc: false }
                );
                Event::Configured(self.config.random_session_id())
            }
            Action::SendHandshake(frame) => {
                self.engine.send(frame);
                self.engine.flush(&mut self.kcp, now);
                Event::Done
            }
            Action::Feed(packet) => {
                self.wire.push(packet.clone());
                Event::Fed(true)
            }
            Action::Check { current } => Event::Checked(current.wrapping_add(100)),
            Action::Wait { input, output, .. } => {
                if let Some(packet) = self.inbox.pop_front() {
                    Event::Packet(Some(packet))
                } else if *input && !self.user_in.is_empty() {
                    Event::Input(self.user_in.pop_front())
                } else if *input && self.user_closed {
                    Event::Input(None)
                } else if *output {
                    Event::Permit(true)
                } else if timeout {
                    Event::Timeout
                } else {
                    return None;
                }
            }
            Action::Send(frame) => {
                self.engine.send(frame);
                Event::FrameSent(true)
            }
            Action::TryInput => match self.user_in.pop_front() {
                Some(frame) => Event::MoreInput(frame),
                None if self.user_closed => Event::InputClosed,
                None => Event::NoInput,
            },
            Action::Flush => {
                self.engine.flush(&mut self.kcp, now);
                Event::Done
            }
            Action::Deliver(frame) => {
                self.frames.push(frame.to_vec());
                Event::Done
            }
            Action::TryReserve => Event::Reserved(true),
            Action::Recv => Event::Received(self.engine.received.pop_front().map(Bytes::from)),
            Action::Input => {
                let conv = self.kcp.conv();
                Event::InputDone(self.engine.input(conv, self.task.packet()))
            }
            Action::PollPacket => Event::Polled(self.inbox.pop_front()),
            Action::CloseInput => {
                self.user_closed = true;
                Event::Done
            }
            Action::NotifyConnected { conv } => {
                self.connected = Some(*conv);
                Event::Notified(true)
            }
            Action::SendReset(packet) => {
                self.wire.push(packet.clone());
                Event::Done
            }
            Action::ReportDisconnect { conv } => {
                assert_eq!(self.reported, None);
                self.reported = Some(*conv);
                Event::Done
            }
            Action::Stop => {
                self.stopped = true;
                return None;
            }
            Action::FlushSink
            | Action::Update { .. }
            | Action::SetNodelay(_)
            | Action::CloseChannels => Event::Done,
        })
    }

    /// Runs until there is nothing to do.
    fn run(&mut self, now: u32, mut timeout: bool) {
        while let Some(action) = self.action.take() {
            match self.perform(&action, now, timeout) {
                Some(event) => {
                    timeout = false;
                    self.engine.refresh(&mut self.kcp);
                    self.action = Some(self.task.step(&mut self.kcp, now, event));
                }
                None => {
                    self.action = Some(action);
                    return;
                }
            }
        }
    }
}

struct Net {
    client: Side,
    server: Side,
    now: u32,
}

impl Net {
    fn new(client: KcpConfig, server: KcpConfig) -> Self {
        let client = Arc::new(client);
        let server = Arc::new(server);
        Net {
            client: Side::new(client.clone(), KcpStream::connect(client)),
            server: Side::new(server.clone(), KcpStream::accept(server, 77).ok().unwrap()),
            now: 0,
        }
    }

    fn run(&mut self) {
        for _ in 0..200 {
            self.client.run(self.now, false);
            self.server.run(self.now, false);
            let idle = self.client.wire.is_empty() && self.server.wire.is_empty();
            self.server.inbox.extend(self.client.wire.drain(..));
            self.client.inbox.extend(self.server.wire.drain(..));
            if idle {
                return;
            }
        }
        panic!("the connection does not come to rest");
    }

    fn elapse(&mut self, millis: u32) {
        self.now += millis;
        self.client.engine.current = self.now;
        self.server.engine.current = self.now;
        self.client.run(self.now, true);
        self.server.run(self.now, true);
        self.run();
    }
}

fn config(key: &'static [u8]) -> KcpConfig {
    KcpConfig {
        nodelay: KcpNoDelayConfig::fastest(),
        session_key: Bytes::from_static(key),
        ..Default::default()
    }
}

#[test]
fn both_ends_agree_on_the_number_of_the_server() {
    let mut net = Net::new(config(b"key"), config(b"key"));
    net.run();
    assert_eq!(net.client.connected, Some(77));
    assert_eq!(net.server.connected, Some(77));
    assert!(net.client.task.is_client());
    assert!(!net.server.task.is_client());
    assert_eq!(net.client.task.handshake(), Handshake::Connected);
    assert_eq!(net.server.task.handshake(), Handshake::Connected);
    assert!(net.client.frames.is_empty());
    assert!(net.server.frames.is_empty());
}

#[test]
fn frames_arrive_in_order() {
    let mut net = Net::new(config(b"key"), config(b"key"));
    net.run();
    net.server.user_in.push_back(Bytes::from_static(b"12345"));
    net.run();
    assert_eq!(net.client.frames, vec![b"12345".to_vec()]);
    for x in 0..100u8 {
        net.client.user_in.push_back(Bytes::from(vec![x; 10]));
    }
    net.run();
    let expected: Vec<Vec<u8>> = (0..100u8).map(|x| vec![x; 10]).collect();
    assert_eq!(net.server.frames, expected);
}

#[test]
fn bytes_written_are_read() {
    let mut net = Net::new(config(b"key"), config(b"key"));
    net.run();
    let data: Vec<u8> = (0..3000u32).map(|x| (x % 251) as u8).collect();
    let small = KcpConfig { mtu: 28, ..Default::default() };
    let mut write = Write::new(&small, data.len());
    while let Some(frame) = write.next(&data) {
        net.client.user_in.push_back(frame);
        write.step(Taken::Accepted);
    }
    net.run();
    assert_eq!(net.server.frames.len(), 3);
    let mut reader = KcpStream::connect(Arc::new(KcpConfig::default())).stream;
    let mut frames = net.server.frames.into_iter();
    let mut read = Vec::new();
    let mut room = 1;
    loop {
        match reader.poll_read(room) {
            Reading::Data(bytes) => read.extend_from_slice(&bytes),
            Reading::Done => panic!("there is room"),
            Reading::Fetch => match frames.next() {
                Some(frame) => reader.fill(Bytes::from(frame)),
                None => break,
            },
        }
        room = room * 3 % 101;
    }
    assert_eq!(read, data);
}

#[test]
fn wrong_key_ends_the_connection() {
    let mut net = Net::new(config(b"key"), config(b"lock"));
    net.run();
    net.elapse(100);
    assert_eq!(net.server.connected, None);
    assert!(net.server.stopped);
    assert_eq!(net.server.reported, Some(77));
    assert_eq!(net.client.connected, None);
}

#[test]
fn session_id_of_another_length_ends_the_connection() {
    let client = KcpConfig { session_id_len: 15, ..config(b"key") };
    let mut net = Net::new(client, config(b"key"));
    net.run();
    net.elapse(100);
    assert_eq!(net.server.connected, None);
    assert!(net.server.stopped);
}

#[test]
fn closing_delivers_everything_and_ends_both() {
    let mut net = Net::new(config(b"key"), config(b"key"));
    net.run();
    net.client.user_in.push_back(Bytes::from_static(b"last"));
    net.client.user_closed = true;
    net.run();
    for _ in 0..5 {
        net.elapse(100);
    }
    assert_eq!(net.server.frames, vec![b"last".to_vec()]);
    assert!(net.client.frames.is_empty());
    assert!(net.client.stopped);
    assert!(net.server.stopped);
    assert_eq!(net.client.reported, Some(77));
    assert_eq!(net.server.reported, Some(77));
}

#[test]
fn reset_ends_the_other_side() {
    let mut net = Net::new(config(b"key"), config(b"key"));
    net.run();
    net.client.inbox.push_back(net.server.kcp.write_ack_head(Task::KCP_RESET, 0));
    net.run();
    net.elapse(100);
    assert!(net.client.stopped);
    // and is answered
    assert!(net.server.stopped);
}

#[test]
fn packets_of_others_are_ignored() {
    let mut net = Net::new(config(b"key"), config(b"key"));
    net.run();
    let mut packet = head(78, 81, 50, 3);
    packet.extend_from_slice(b"abc");
    net.client.inbox.push_back(packet);
    net.client.inbox.push_back(b"short".to_vec());
    net.run();
    assert!(net.client.frames.is_empty());
    assert_eq!(net.client.task.handshake(), Handshake::Connected);
}

#[test]
fn silent_connection_expires() {
    let mut net = Net::new(config(b"key"), config(b"key"));
    net.run();
    net.elapse(60_000);
    assert!(!net.client.stopped);
    net.elapse(30_000);
    assert!(net.client.stopped);
    assert!(net.server.stopped);
}

#[test]
fn expiry_is_that_of_the_whole_span() {
    let half = KcpConfig {
        session_expire: Duration { secs: 0, nanos: 500_000_000 },
        ..config(b"key")
    };
    let mut net = Net::new(half.clone(), half);
    net.run();
    assert_eq!(net.client.connected, Some(77));
    net.elapse(499);
    assert!(!net.client.stopped);
    net.elapse(1);
    assert!(net.client.stopped);

    // 50 days and a bit: more milliseconds than fit 32 bits
    let long = KcpConfig { session_expire: Duration::from_secs(4_294_968), ..config(b"key") };
    let mut net = Net::new(long.clone(), long);
    net.run();
    net.elapse(60_000);
    assert!(!net.client.stopped);
}

#[test]
fn unconfirmed_closing_is_given_up() {
    let mut net = Net::new(config(b"key"), config(b"key"));
    net.run();
    // a frame that is never confirmed
    net.client.engine.unconfirmed.push(999);
    net.client.user_closed = true;
    net.client.run(net.now, false);
    net.client.wire.clear();
    assert_eq!(net.client.task.handshake(), Handshake::FinPending);
    net.now += 9_999;
    net.client.run(net.now, true);
    assert_eq!(net.client.task.handshake(), Handshake::FinPending);
    net.now += 1;
    net.client.run(net.now, true);
    net.now += 100;
    net.client.run(net.now, true);
    assert!(net.client.stopped);
}

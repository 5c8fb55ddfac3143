//! What is known of a KCP engine between two calls into it, and the layout of its packets.

use crate::error::ErrorKind;
use crate::ffi::{IKCPCB, IKCP_OVERHEAD, IKCP_WND_RCV};
use std::collections::VecDeque;
use vstd::prelude::*;

verus! {

/// The 32-bit little-endian number at offset `at`.
pub open spec fn le32(data: Seq<u8>, at: int) -> int {
    data[at] + data[at + 1] * 0x100 + data[at + 2] * 0x1_0000 + data[at + 3] * 0x100_0000
}

/// The four little-endian bytes of a number.
pub open spec fn le32_bytes(value: u32) -> Seq<u8> {
    seq![
        (value % 0x100) as u8,
        (value / 0x100 % 0x100) as u8,
        (value / 0x1_0000 % 0x100) as u8,
        (value / 0x100_0000) as u8,
    ]
}

/// The conversation number of a packet: a packet has one if it holds a whole header.
pub open spec fn packet_conv(packet: Seq<u8>) -> Option<u32> {
    if packet.len() >= 24 {
        Some(le32(packet, 0) as u32)
    } else {
        None
    }
}

/// The first payload of a packet: that of the first header whose length field is not zero and
/// fits into what follows the header.
pub open spec fn packet_payload(packet: Seq<u8>) -> Option<Seq<u8>>
    decreases packet.len(),
{
    if packet.len() < 24 {
        None
    } else {
        let rest = packet.skip(24);
        let len = le32(packet, 20);
        if 1 <= len <= rest.len() {
            Some(rest.take(len))
        } else {
            packet_payload(rest)
        }
    }
}

/// A header without payload: conversation, command, serial number; all other fields are zero.
pub open spec fn ack_head(conv: u32, cmd: u8, sn: u32) -> Seq<u8> {
    le32_bytes(conv) + seq![cmd, 0u8, 0u8, 0u8, 0u8, 0u8, 0u8, 0u8] + le32_bytes(sn) + seq![
        0u8,
        0u8,
        0u8,
        0u8,
        0u8,
        0u8,
        0u8,
        0u8,
    ]
}

/// The time from `since` to `now` on a 32-bit millisecond clock; zero where `since` lies ahead.
pub open spec fn elapsed(now: u32, since: u32) -> int {
    let d = (now - since) % 0x1_0000_0000;
    if d < 0x8000_0000 {
        d
    } else {
        0
    }
}

/// A [`Kcp`] as contracts see it.
#[verifier::ext_equal]
pub struct KcpState {
    /// The control block.
    pub cb: IKCPCB,
    /// Segments that the other end has not confirmed.
    pub waitsnd: u32,
    /// Packets to be sent, first in, first out.
    pub output: Seq<Seq<u8>>,
}

/// What the engine's control block held after the last call into the engine, and the packets
/// that the engine has put out since.
pub struct Kcp {
    cb: IKCPCB,
    waitsnd: u32,
    output_queue: VecDeque<Vec<u8>>,
}

impl View for Kcp {
    type V = KcpState;

    closed spec fn view(&self) -> KcpState {
        KcpState {
            cb: self.cb,
            waitsnd: self.waitsnd,
            output: self.output_queue@.map_values(|packet: Vec<u8>| packet@),
        }
    }
}

impl Kcp {
    /// The state of a new engine.
    pub fn new(cb: IKCPCB, waitsnd: u32) -> (kcp: Self)
        ensures
            kcp@ == (KcpState { cb, waitsnd, output: Seq::empty() }),
    {
        let kcp = Kcp { cb, waitsnd, output_queue: VecDeque::with_capacity(32) };
        assert(kcp@.output =~= Seq::empty());
        kcp
    }

    /// Records what the control block holds after a call into the engine.
    pub fn refresh(&mut self, cb: IKCPCB, waitsnd: u32)
        ensures
            final(self)@ == (KcpState { cb, waitsnd, output: old(self)@.output }),
    {
        self.cb = cb;
        self.waitsnd = waitsnd;
    }

    /// Records a packet that the engine puts out.
    pub fn push_output(&mut self, packet: Vec<u8>)
        ensures
            final(self)@ == (KcpState { output: old(self)@.output.push(packet@), ..old(self)@ }),
    {
        self.output_queue.push_back(packet);
        assert(self@.output =~= old(self)@.output.push(packet@));
    }

    /// The control block.
    pub fn control_block(&self) -> (cb: IKCPCB)
        ensures
            cb == self@.cb,
    {
        self.cb
    }

    /// The engine's clock: milliseconds since its start, given as whole seconds and milliseconds
    /// below a second, on 32 bits.
    pub fn get_system_time(secs: u64, subsec_millis: u32) -> (time: u32)
        ensures
            time == (secs * 1000 + subsec_millis) % 0x1_0000_0000,
    {
        assert(secs as u32 == secs % 0x1_0000_0000) by (bit_vector);
        let low: u32 = #[verifier::truncate]
        (secs as u32);
        let millis: u32 = low.wrapping_mul(1000);
        proof {
            let m: int = 0x1_0000_0000;
            vstd::arithmetic::div_mod::lemma_mul_mod_noop_left(secs as int, 1000, m);
            vstd::arithmetic::div_mod::lemma_add_mod_noop(
                secs * 1000,
                subsec_millis as int,
                m,
            );
        }
        assert(millis == (secs * 1000) % 0x1_0000_0000);
        millis.wrapping_add(subsec_millis)
    }

    /// The outcome of looking at the next frame, given what `ikcp_recv` returned.
    pub fn peek(code: i32) -> (r: Result<usize, ErrorKind>)
        requires
            code >= -3,
        ensures
            code >= 0 ==> r == Ok::<usize, ErrorKind>(code as usize),
            code == -1 || code == -2 ==> r == Ok::<usize, ErrorKind>(0),
            code == -3 ==> r == Err::<usize, ErrorKind>(ErrorKind::InvalidInput),
    {
        Kcp::recv(code)
    }

    /// The outcome of fetching the next frame, given what `ikcp_recv` returned: its size, zero
    /// where there is none, or `InvalidInput` where the buffer is too small for it.
    pub fn recv(code: i32) -> (r: Result<usize, ErrorKind>)
        requires
            code >= -3,
        ensures
            code >= 0 ==> r == Ok::<usize, ErrorKind>(code as usize),
            code == -1 || code == -2 ==> r == Ok::<usize, ErrorKind>(0),
            code == -3 ==> r == Err::<usize, ErrorKind>(ErrorKind::InvalidInput),
    {
        if code >= 0 {
            Ok(code as usize)
        } else if code == -3 {
            Err(ErrorKind::InvalidInput)
        } else {
            Ok(0)
        }
    }

    /// The size of the buffer into which the next frame is fetched, given what `ikcp_peeksize`
    /// returned; `None` where there is nothing to fetch.
    pub fn recv_bytes(code: i32) -> (size: Option<usize>)
        ensures
            code > 0 ==> size == Some(code as usize),
            code <= 0 ==> size is None,
    {
        let size: usize = Kcp::peek_size(code);
        if size > 0 {
            Some(size)
        } else {
            None
        }
    }

    /// The size of the next frame, given what `ikcp_peeksize` returned; zero where there is none.
    pub fn peek_size(code: i32) -> (size: usize)
        ensures
            size == if code > 0 {
                code as int
            } else {
                0
            },
    {
        if code > 0 {
            code as usize
        } else {
            0
        }
    }

    /// The outcome of sending a frame, given what `ikcp_send` returned: the number of bytes
    /// accepted, or `InvalidInput` where the frame is too large.
    pub fn send(code: i32) -> (r: Result<usize, ErrorKind>)
        requires
            code >= -2,
        ensures
            code >= 0 ==> r == Ok::<usize, ErrorKind>(code as usize),
            code < 0 ==> r == Err::<usize, ErrorKind>(ErrorKind::InvalidInput),
    {
        if code >= 0 {
            Ok(code as usize)
        } else {
            Err(ErrorKind::InvalidInput)
        }
    }

    /// The outcome of feeding a packet, given what `ikcp_input` returned.
    ///
    /// `NotFound`: the packet belongs to another conversation. `InvalidData`: the packet is
    /// malformed or its command is not recognised.
    pub fn input(code: i32) -> (r: Result<(), ErrorKind>)
        requires
            -3 <= code <= 0,
        ensures
            code == 0 ==> r == Ok::<(), ErrorKind>(()),
            code == -1 ==> r == Err::<(), ErrorKind>(ErrorKind::NotFound),
            code == -2 || code == -3 ==> r == Err::<(), ErrorKind>(ErrorKind::InvalidData),
    {
        if code == 0 {
            Ok(())
        } else if code == -1 {
            Err(ErrorKind::NotFound)
        } else {
            Err(ErrorKind::InvalidData)
        }
    }

    /// Whether the engine has to be told of this MTU: it has not where it is the one in use.
    pub fn mtu_changes(&self, mtu: u32) -> (changes: bool)
        ensures
            changes == (self@.cb.mtu != mtu),
    {
        self.cb.mtu != mtu
    }

    /// The outcome of changing the MTU, given what `ikcp_setmtu` returned.
    pub fn set_mtu(code: i32) -> (r: Result<(), ErrorKind>)
        requires
            -2 <= code <= 0,
        ensures
            code == 0 ==> r == Ok::<(), ErrorKind>(()),
            code == -1 ==> r == Err::<(), ErrorKind>(ErrorKind::InvalidInput),
            code == -2 ==> r == Err::<(), ErrorKind>(ErrorKind::OutOfMemory),
    {
        if code == 0 {
            Ok(())
        } else if code == -1 {
            Err(ErrorKind::InvalidInput)
        } else {
            Err(ErrorKind::OutOfMemory)
        }
    }

    /// Segments that the other end has not confirmed.
    pub fn get_waitsnd(&self) -> (n: u32)
        ensures
            n == self@.waitsnd,
    {
        self.waitsnd
    }

    /// The conversation number.
    pub fn conv(&self) -> (conv: u32)
        ensures
            conv == self@.cb.conv,
    {
        self.cb.conv
    }

    /// The time of the last update.
    pub fn current(&self) -> (time: u32)
        ensures
            time == self@.cb.current,
    {
        self.cb.current
    }

    /// Segments queued and not yet sent.
    pub fn nsnd_que(&self) -> (n: u32)
        ensures
            n == self@.cb.nsnd_que,
    {
        self.cb.nsnd_que
    }

    /// Segments received in order and not yet fetched.
    pub fn nrcv_que(&self) -> (n: u32)
        ensures
            n == self@.cb.nrcv_que,
    {
        self.cb.nrcv_que
    }

    /// Segments received out of order.
    pub fn nrcv_buf(&self) -> (n: u32)
        ensures
            n == self@.cb.nrcv_buf,
    {
        self.cb.nrcv_buf
    }

    /// The time from `since` to the last update; zero where `since` lies ahead of it.
    pub fn duration_since(&self, since: u32) -> (time: u32)
        ensures
            time == elapsed(self@.cb.current, since),
    {
        let d: u32 = self.cb.current.wrapping_sub(since);
        if d < 0x8000_0000 {
            d
        } else {
            0
        }
    }

    /// Selects the log messages.
    pub fn set_logmask(&mut self, logmask: u32)
        ensures
            final(self)@ == (KcpState {
                cb: IKCPCB { logmask: logmask as i32, ..old(self)@.cb },
                ..old(self)@
            }),
    {
        self.cb.logmask = #[verifier::truncate]
        (logmask as i32);
    }

    /// Changes the conversation number.
    pub fn set_conv(&mut self, conv: u32)
        ensures
            final(self)@ == (KcpState { cb: IKCPCB { conv, ..old(self)@.cb }, ..old(self)@ }),
    {
        self.cb.conv = conv;
    }

    /// Turns stream mode on or off.
    pub fn set_stream(&mut self, stream: bool)
        ensures
            final(self)@ == (KcpState {
                cb: IKCPCB {
                    stream: if stream {
                        1
                    } else {
                        0
                    },
                    ..old(self)@.cb
                },
                ..old(self)@
            }),
    {
        self.cb.stream = if stream {
            1
        } else {
            0
        };
    }

    /// Whether the engine has given the link up.
    pub fn is_dead_link(&self) -> (dead: bool)
        ensures
            dead == (self@.cb.state == u32::MAX),
    {
        self.cb.state == u32::MAX
    }

    /// Whether the segments waiting to be fetched fill the receive window.
    pub fn is_recv_queue_full(&self) -> (full: bool)
        ensures
            full == (self@.cb.nrcv_que >= self@.cb.rcv_wnd),
    {
        self.cb.nrcv_que >= self.cb.rcv_wnd
    }

    /// Whether the segments waiting to be sent fill the send window.
    pub fn is_send_queue_full(&self) -> (full: bool)
        ensures
            full == (self@.cb.nsnd_que >= self@.cb.snd_wnd),
    {
        self.cb.nsnd_que >= self.cb.snd_wnd
    }

    /// Whether there is a packet to be sent.
    pub fn has_ouput(&self) -> (has: bool)
        ensures
            has == (self@.output.len() > 0),
    {
        self.output_queue.len() > 0
    }

    /// Takes the oldest packet to be sent.
    pub fn pop_output(&mut self) -> (packet: Option<Vec<u8>>)
        ensures
            old(self)@.output.len() == 0 ==> packet is None && final(self)@ == old(self)@,
            old(self)@.output.len() > 0 ==> {
                &&& packet matches Some(p)
                &&& p@ == old(self)@.output[0]
                &&& final(self)@ == (KcpState {
                    output: old(self)@.output.skip(1),
                    ..old(self)@
                })
            },
    {
        let packet = self.output_queue.pop_front();
        assert(self@.output =~= if old(self)@.output.len() > 0 {
            old(self)@.output.skip(1)
        } else {
            old(self)@.output
        });
        packet
    }

    /// Discards all packets to be sent.
    pub fn clear_output(&mut self)
        ensures
            final(self)@ == (KcpState { output: Seq::empty(), ..old(self)@ }),
    {
        self.output_queue.clear();
        assert(self@.output =~= Seq::empty());
    }

    /// Reads the 32-bit little-endian number at an offset.
    fn read_le32(buf: &[u8], at: usize) -> (value: u32)
        requires
            at + 4 <= buf@.len(),
        ensures
            value == le32(buf@, at as int),
    {
        let (b0, b1, b2, b3): (u8, u8, u8, u8) = (buf[at], buf[at + 1], buf[at + 2], buf[at + 3]);
        assert((b0 as u32) | ((b1 as u32) << 8) | ((b2 as u32) << 16) | ((b3 as u32) << 24) == b0
            + b1 * 0x100 + b2 * 0x1_0000 + b3 * 0x100_0000) by (bit_vector);
        (b0 as u32) | ((b1 as u32) << 8) | ((b2 as u32) << 16) | ((b3 as u32) << 24)
    }

    /// Read conv from a packet buffer.
    pub fn read_conv(buf: &[u8]) -> (conv: Option<u32>)
        ensures
            conv == packet_conv(buf@),
    {
        if buf.len() >= IKCP_OVERHEAD as usize {
            Some(Kcp::read_le32(buf, 0))
        } else {
            None
        }
    }

    /// Read cmd from a packet buffer.
    pub fn read_cmd(buf: &[u8]) -> (cmd: u8)
        requires
            buf@.len() > 4,
        ensures
            cmd == buf@[4],
    {
        buf[4]
    }

    /// Write cmd to a packet buffer.
    pub fn write_cmd(buf: &mut [u8], cmd: u8)
        requires
            old(buf)@.len() > 4,
        ensures
            final(buf)@ == old(buf)@.update(4, cmd),
    {
        buf[4] = cmd;
    }

    /// Get the first segment payload from a packet buffer.
    pub fn read_payload_data(buf: &[u8]) -> (data: Option<&[u8]>)
        ensures
            data is Some <==> packet_payload(buf@) is Some,
            data matches Some(d) ==> packet_payload(buf@) == Some(d@),
    {
        let overhead: usize = IKCP_OVERHEAD as usize;
        let mut p: usize = 0;
        assert(buf@.skip(0) =~= buf@);
        while buf.len() - p >= overhead
            invariant
                overhead == 24,
                p <= buf@.len(),
                packet_payload(buf@) == packet_payload(buf@.skip(p as int)),
            decreases buf@.len() - p,
        {
            let ghost rest = buf@.skip(p as int);
            let len: usize = Kcp::read_le32(buf, p + overhead - 4) as usize;
            assert(len == le32(rest, 20));
            assert(rest.skip(24) =~= buf@.skip(p + 24));
            p += overhead;
            if 1 <= len && len <= buf.len() - p {
                assert(rest.skip(24).take(len as int) =~= buf@.subrange(p as int, p + len));
                return Some(vstd::slice::slice_subrange(buf, p, p + len));
            }
        }
        None
    }

    /// Maximum size of a data frame.
    pub fn max_frame_size(mtu: u32) -> (size: u32)
        requires
            IKCP_OVERHEAD <= mtu,
            (mtu - IKCP_OVERHEAD) * (IKCP_WND_RCV - 1) <= u32::MAX,
        ensures
            size == (mtu - 24) * 255,
    {
        (mtu - IKCP_OVERHEAD) * (IKCP_WND_RCV - 1)
    }

    /// A header without payload, of this conversation.
    pub fn write_ack_head(&self, cmd: u8, sn: u32) -> (packet: Vec<u8>)
        ensures
            packet@ == ack_head(self@.cb.conv, cmd, sn),
    {
        let conv: u32 = self.cb.conv;
        let packet: Vec<u8> = vec![
            (conv % 0x100) as u8,
            (conv / 0x100 % 0x100) as u8,
            (conv / 0x1_0000 % 0x100) as u8,
            (conv / 0x100_0000) as u8,
            cmd,
            0,
            0,
            0,
            0,
            0,
            0,
            0,
            (sn % 0x100) as u8,
            (sn / 0x100 % 0x100) as u8,
            (sn / 0x1_0000 % 0x100) as u8,
            (sn / 0x100_0000) as u8,
            0,
            0,
            0,
            0,
            0,
            0,
            0,
            0,
        ];
        assert(packet@ =~= ack_head(conv, cmd, sn));
        packet
    }
}

/// The number read at an offset is the one whose little-endian bytes stand there.
pub proof fn law_le32_reads_what_was_written(data: Seq<u8>, at: int, value: u32)
    requires
        0 <= at,
        at + 4 <= data.len(),
        data.subrange(at, at + 4) == le32_bytes(value),
    ensures
        le32(data, at) == value,
{
    let bytes = data.subrange(at, at + 4);
    assert(data[at] == bytes[0] && data[at + 1] == bytes[1] && data[at + 2] == bytes[2]
        && data[at + 3] == bytes[3]);
}

/// A header without payload is a packet of its conversation, carries its command, and has no
/// payload.
pub proof fn law_ack_head_reads_back(conv: u32, cmd: u8, sn: u32)
    ensures
        ack_head(conv, cmd, sn).len() == 24,
        packet_conv(ack_head(conv, cmd, sn)) == Some(conv),
        ack_head(conv, cmd, sn)[4] == cmd,
        packet_payload(ack_head(conv, cmd, sn)) is None,
{
    let head = ack_head(conv, cmd, sn);
    assert(head.subrange(0, 4) =~= le32_bytes(conv));
    law_le32_reads_what_was_written(head, 0, conv);
    assert(le32(head, 20) == 0);
    assert(head.skip(24).len() == 0);
    reveal_with_fuel(packet_payload, 2);
}

/// Changing the command of a packet leaves its conversation and its payload alone, and the new
/// command can be read back.
pub proof fn law_write_cmd_keeps_the_rest(packet: Seq<u8>, cmd: u8)
    requires
        packet.len() > 4,
    ensures
        packet.update(4, cmd)[4] == cmd,
        packet_conv(packet.update(4, cmd)) == packet_conv(packet),
        packet_payload(packet.update(4, cmd)) == packet_payload(packet),
{
    let changed = packet.update(4, cmd);
    if packet.len() >= 24 {
        assert(changed.skip(24) =~= packet.skip(24));
        assert(le32(changed, 20) == le32(packet, 20));
    }
}

/// The payload that a header announces is read back, whatever follows it.
pub proof fn law_payload_reads_back(head: Seq<u8>, payload: Seq<u8>, tail: Seq<u8>)
    requires
        head.len() == 24,
        le32(head, 20) == payload.len(),
        payload.len() > 0,
    ensures
        packet_payload(head + payload + tail) == Some(payload),
{
    let packet = head + payload + tail;
    assert(le32(packet, 20) == le32(head, 20));
    assert(packet.skip(24).take(payload.len() as int) =~= payload);
}

/// The number whose bytes stand at an offset, the lowest first.
pub open spec fn le32_at(data: Seq<u8>, at: int) -> int {
    data[at] + 256 * (data[at + 1] + 256 * (data[at + 2] + 256 * data[at + 3]))
}

/// Numbers are little-endian: the byte at the lowest offset counts once, each further one 256 times
/// what the one before it counts. So they are read, and so they are written.
pub proof fn law_numbers_are_little_endian(data: Seq<u8>, at: int)
    ensures
        le32(data, at) == le32_at(data, at),
        0 <= le32_at(data, at) <= 0xFFFF_FFFF,
{
}

/// A packet of at least 24 bytes has the conversation number that it begins with; a shorter one has
/// none.
pub proof fn law_packet_begins_with_its_number(packet: Seq<u8>, conv: u32)
    ensures
        packet_conv(packet) == Some(conv) <==> packet.len() >= 24 && le32_at(packet, 0) == conv,
        packet_conv(packet) is None <==> packet.len() < 24,
{
}

/// A header without payload holds the conversation number, the command, seven zero bytes, the serial
/// number, and eight zero bytes.
pub proof fn law_ack_head_in_full(conv: u32, cmd: u8, sn: u32)
    ensures
        ({
            let head = ack_head(conv, cmd, sn);
            &&& head.len() == 24
            &&& le32_at(head, 0) == conv
            &&& head[4] == cmd
            &&& le32_at(head, 12) == sn
            &&& forall|i: int| 5 <= i < 12 || 16 <= i < 24 ==> #[trigger] head[i] == 0
        }),
{
    let head = ack_head(conv, cmd, sn);
    assert(head.subrange(0, 4) =~= le32_bytes(conv));
    assert(head.subrange(12, 16) =~= le32_bytes(sn));
    law_le32_reads_what_was_written(head, 0, conv);
    law_le32_reads_what_was_written(head, 12, sn);
}

/// Whether the header number `n`, where headers stand one after the other, announces a payload and
/// what follows the header holds as much.
pub open spec fn announces(packet: Seq<u8>, n: int) -> bool {
    1 <= le32_at(packet, 24 * n + 20) <= packet.len() - 24 * (n + 1)
}

/// Whether the payload of the header number `n` is the first one in the packet: the headers before
/// it have none.
pub open spec fn carries(packet: Seq<u8>, n: int, payload: Seq<u8>) -> bool {
    &&& 0 <= n
    &&& forall|i: int| 0 <= i < n ==> !#[trigger] announces(packet, i)
    &&& announces(packet, n)
    &&& payload == packet.subrange(
        24 * (n + 1),
        24 * (n + 1) + le32_at(packet, 24 * n + 20),
    )
}

/// The payload of a packet is that of the first of its headers that announces one and is followed
/// by as many bytes.
pub proof fn law_payload_is_the_first(packet: Seq<u8>, n: int, payload: Seq<u8>)
    requires
        carries(packet, n, payload),
    ensures
        packet_payload(packet) == Some(payload),
    decreases n,
{
    let rest = packet.skip(24);
    assert(le32(packet, 20) == le32_at(packet, 20));
    if n == 0 {
        assert(rest.take(payload.len() as int) =~= payload);
    } else {
        assert(!announces(packet, 0));
        assert forall|i: int| 0 <= i < n - 1 implies !#[trigger] announces(rest, i) by {
            assert(!announces(packet, i + 1));
        }
        assert(announces(rest, n - 1));
        let len = le32_at(packet, 24 * n + 20);
        assert(rest.subrange(24 * n, 24 * n + len) =~= payload);
        law_payload_is_the_first(rest, n - 1, payload);
    }
}

/// A packet in which none of the headers, one after the other, announces a payload that follows it
/// has none.
pub proof fn law_packet_without_payload(packet: Seq<u8>)
    requires
        forall|i: int| 0 <= i && 24 * (i + 1) <= packet.len() ==> !#[trigger] announces(packet, i),
    ensures
        packet_payload(packet) is None,
    decreases packet.len(),
{
    if packet.len() >= 24 {
        let rest = packet.skip(24);
        assert(!announces(packet, 0));
        assert forall|i: int| 0 <= i && 24 * (i + 1) <= rest.len() implies !#[trigger] announces(
            rest,
            i,
        ) by {
            assert(!announces(packet, i + 1));
        }
        law_packet_without_payload(rest);
    }
}

/// A 32-bit clock of milliseconds that is `passed` further on than it was, by less than half of what
/// it can count, tells so, though it may have begun anew; a time that lies ahead is no time ago.
pub proof fn law_clock_may_begin_anew(since: u32, passed: int)
    requires
        0 <= passed < 0x8000_0000,
    ensures
        elapsed(((since + passed) % 0x1_0000_0000) as u32, since) == passed,
        passed > 0 ==> elapsed(since, ((since + passed) % 0x1_0000_0000) as u32) == 0,
{
}

} // verus!

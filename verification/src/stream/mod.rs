//! A KCP connection as a stream of bytes.

pub mod delivery;
pub mod laws;
pub mod points;
pub mod reading;
pub mod state;
pub mod steps;
pub mod task;
pub mod writing;

use crate::config::{share, KcpConfig};
use crate::error::ErrorKind;
use crate::protocol::Kcp;
use crate::random::random_in;
use crate::stream::state::TaskState;
use crate::stream::task::Task;
use bytes::Bytes;
use std::sync::Arc;
use vstd::prelude::*;

verus! {

/// What follows `prefix` in `data`, if `data` begins with it.
pub open spec fn without_prefix(data: Seq<u8>, prefix: Seq<u8>) -> Option<Seq<u8>> {
    if prefix.is_prefix_of(data) {
        Some(data.skip(prefix.len() as int))
    } else {
        None
    }
}

/// The numbers that a conversation can have.
pub open spec fn valid_conv(conv: u32) -> bool {
    0 < conv < 0xFFFF_FFFE
}

/// What follows `prefix` in `data`, if `data` begins with it.
pub(crate) fn strip_prefix<'a>(data: &'a [u8], prefix: &[u8]) -> (rest: Option<&'a [u8]>)
    ensures
        rest is Some <==> without_prefix(data@, prefix@) is Some,
        rest matches Some(r) ==> without_prefix(data@, prefix@) == Some(r@),
{
    if data.len() < prefix.len() {
        return None;
    }
    let mut i: usize = 0;
    while i < prefix.len()
        invariant
            i <= prefix@.len() <= data@.len(),
            forall|j: int| 0 <= j < i ==> data@[j] == prefix@[j],
        decreases prefix@.len() - i,
    {
        if data[i] != prefix[i] {
            assert(data@.subrange(0, prefix@.len() as int)[i as int] != prefix@[i as int]);
            return None;
        }
        i += 1;
    }
    assert(prefix@ =~= data@.subrange(0, prefix@.len() as int));
    Some(vstd::slice::slice_subrange(data, prefix.len(), data.len()))
}

/// Whether two byte strings are equal.
pub(crate) fn same_bytes(a: &[u8], b: &[u8]) -> (same: bool)
    ensures
        same == (a@ == b@),
{
    match strip_prefix(a, b) {
        Some(rest) => {
            proof {
                if rest@.len() == 0 {
                    assert(a@ =~= b@);
                }
            }
            rest.len() == 0
        },
        None => {
            assert(b@ =~= b@.subrange(0, b@.len() as int));
            false
        },
    }
}

/// The session ID in a packet that opens a connection: what follows the session key in its first
/// payload.
pub open spec fn packet_session_id(packet: Seq<u8>, session_key: Seq<u8>) -> Option<Seq<u8>> {
    match crate::protocol::packet_payload(packet) {
        Some(payload) => without_prefix(payload, session_key),
        None => None,
    }
}

/// What a task tells the user.
#[derive(Debug)]
pub enum Output {
    /// The connection stands.
    Connected { conv: u32 },
    /// A frame has come.
    Frame(Bytes),
}

/// What came of waiting for the connection to stand.
#[derive(Debug)]
pub enum Waited {
    /// The task has said something; `None` if it is gone.
    Told(Option<Output>),
    /// The time is up.
    Elapsed,
}

/// What a message of the task means to a user who asks for a frame.
#[derive(Debug)]
pub enum Next {
    /// Here is the frame; `None` if there will be no more.
    Ready(Option<Bytes>),
    /// Ask for another message.
    Again,
}

/// What to do for a user who reads bytes.
#[derive(Debug)]
pub enum Reading {
    /// There is nothing to do.
    Done,
    /// A frame is needed.
    Fetch,
    /// Here are the bytes.
    Data(Bytes),
}

/// A connection that is being opened.
pub struct Opening {
    /// The user's end.
    pub stream: KcpStream,
    /// What drives the connection.
    pub task: Task,
    /// The conversation number of the engine.
    pub conv: u32,
    /// How many frames of the user may wait for the task.
    pub input_capacity: usize,
    /// How many frames may wait for the user.
    pub output_capacity: usize,
}

/// A [`KcpStream`] as contracts see it.
#[verifier::ext_equal]
pub struct StreamState {
    pub config: KcpConfig,
    pub conv: u32,
    /// The bytes of a frame that have not been read yet.
    pub pending: Option<Seq<u8>>,
}

impl StreamState {
    /// What is kept for a reader is not empty.
    pub open spec fn wf(self) -> bool {
        self.pending matches Some(bytes) ==> bytes.len() > 0
    }

    /// The stream once the first `n` bytes that were kept have been read.
    pub open spec fn read(self, n: int) -> StreamState {
        StreamState {
            pending: match self.pending {
                Some(bytes) => if n < bytes.len() {
                    Some(bytes.skip(n))
                } else {
                    None
                },
                None => None,
            },
            ..self
        }
    }

    /// The stream once a frame has been taken in; an empty one is ignored.
    pub open spec fn filled(self, frame: Seq<u8>) -> StreamState {
        StreamState {
            pending: if frame.len() > 0 {
                Some(frame)
            } else {
                None
            },
            ..self
        }
    }
}

/// The user's end of a connection.
pub struct KcpStream {
    config: Arc<KcpConfig>,
    conv: u32,
    read_buf: Option<Bytes>,
}

impl View for KcpStream {
    type V = StreamState;

    closed spec fn view(&self) -> StreamState {
        StreamState {
            config: *self.config,
            conv: self.conv,
            pending: match self.read_buf {
                Some(bytes) => Some(crate::frame::content(bytes)),
                None => None,
            },
        }
    }
}

impl KcpStream {
    /// The conversation number under which a connection is opened.
    pub const SYN_CONV: u32 = 0xFFFF_FFFE;

    /// Check if a conv is valid.
    pub fn is_valid_conv(conv: u32) -> (valid: bool)
        ensures
            valid == valid_conv(conv),
    {
        conv != 0 && conv < Self::SYN_CONV
    }

    /// Generate a random conv: any number that [`KcpStream::is_valid_conv`] accepts.
    pub fn rand_conv() -> (conv: u32)
        ensures
            valid_conv(conv),
    {
        random_in(1, Self::SYN_CONV)
    }

    /// Read the conversation number of a packet.
    pub fn read_conv(packet: &[u8]) -> (conv: Option<u32>)
        ensures
            conv == crate::protocol::packet_conv(packet@),
    {
        Kcp::read_conv(packet)
    }

    /// Read the session id from the SYN handshake packet.
    pub fn read_session_id<'a>(packet: &'a [u8], session_key: &[u8]) -> (id: Option<&'a [u8]>)
        ensures
            id is Some <==> packet_session_id(packet@, session_key@) is Some,
            id matches Some(i) ==> packet_session_id(packet@, session_key@) == Some(i@),
    {
        match Kcp::read_payload_data(packet) {
            Some(payload) => strip_prefix(payload, session_key),
            None => None,
        }
    }

    /// Opens a connection as a client: under the number of the handshake.
    pub fn connect(config: Arc<KcpConfig>) -> (opening: Opening)
        ensures
            Self::opens(opening, *config, Self::SYN_CONV),
    {
        Self::new(config, Self::SYN_CONV)
    }

    /// Opens a connection as a server, under a number of its choice.
    pub fn accept(config: Arc<KcpConfig>, conv: u32) -> (r: Result<Opening, ErrorKind>)
        ensures
            match r {
                Ok(opening) => valid_conv(conv) && Self::opens(opening, *config, conv),
                Err(e) => !valid_conv(conv) && e == ErrorKind::InvalidInput,
            },
    {
        if !Self::is_valid_conv(conv) {
            return Err(ErrorKind::InvalidInput);
        }
        Ok(Self::new(config, conv))
    }

    /// What a connection begins with.
    pub open spec fn opens(opening: Opening, config: KcpConfig, conv: u32) -> bool {
        &&& opening.stream@ == StreamState { config, conv: 0, pending: None }
        &&& opening.task@ == TaskState::created(config)
        &&& opening.task@.wf()
        &&& opening.conv == conv
        &&& opening.input_capacity == if config.snd_wnd > 8 {
            config.snd_wnd
        } else {
            8
        }
        &&& opening.output_capacity == if config.rcv_wnd > 16 {
            config.rcv_wnd
        } else {
            16
        }
    }

    fn new(config: Arc<KcpConfig>, conv: u32) -> (opening: Opening)
        ensures
            Self::opens(opening, *config, conv),
    {
        let input_capacity: usize = if config.snd_wnd > 8 {
            config.snd_wnd as usize
        } else {
            8
        };
        let output_capacity: usize = if config.rcv_wnd > 16 {
            config.rcv_wnd as usize
        } else {
            16
        };
        Opening {
            stream: KcpStream { config: share(&config), conv: 0, read_buf: None },
            task: Task::new(config),
            conv,
            input_capacity,
            output_capacity,
        }
    }

    /// The settings.
    pub fn config(&self) -> (config: Arc<KcpConfig>)
        ensures
            *config == self@.config,
    {
        share(&self.config)
    }

    /// The conversation number; zero until the connection stands.
    pub fn conv(&self) -> (conv: u32)
        ensures
            conv == self@.conv,
    {
        self.conv
    }

    /// Takes note of whether the connection stands.
    pub fn wait_connection(&mut self, waited: Waited) -> (r: Result<(), ErrorKind>)
        ensures
            match waited {
                Waited::Told(Some(Output::Connected { conv })) => {
                    &&& r == Ok::<(), ErrorKind>(())
                    &&& final(self)@ == (StreamState { conv, ..old(self)@ })
                },
                Waited::Told(_) => {
                    &&& r == Err::<(), ErrorKind>(ErrorKind::NotConnected)
                    &&& final(self)@ == old(self)@
                },
                Waited::Elapsed => {
                    &&& r == Err::<(), ErrorKind>(ErrorKind::TimedOut)
                    &&& final(self)@ == old(self)@
                },
            },
    {
        match waited {
            Waited::Told(Some(Output::Connected { conv })) => {
                self.conv = conv;
                Ok(())
            },
            Waited::Told(_) => Err(ErrorKind::NotConnected),
            Waited::Elapsed => Err(ErrorKind::TimedOut),
        }
    }

    /// The error of a user who hands over a frame: the task may be gone.
    pub fn input_result(taken: bool) -> (r: Result<(), ErrorKind>)
        ensures
            r == if taken {
                Ok::<(), ErrorKind>(())
            } else {
                Err(ErrorKind::NotConnected)
            },
    {
        if taken {
            Ok(())
        } else {
            Err(ErrorKind::NotConnected)
        }
    }

    /// The bytes that are kept for a reader, for a user who asks for a frame.
    pub fn take_buffered(&mut self) -> (frame: Option<Bytes>)
        ensures
            frame is Some <==> old(self)@.pending is Some,
            frame matches Some(f) ==> old(self)@.pending == Some(crate::frame::content(f)),
            final(self)@ == (StreamState { pending: None, ..old(self)@ }),
    {
        self.read_buf.take()
    }

    /// What a message of the task means to a user who asks for a frame; `None` if there are no
    /// more messages.
    pub fn poll_next(output: Option<Output>) -> (next: Next)
        ensures
            next == match output {
                Some(Output::Frame(frame)) => Next::Ready(Some(frame)),
                Some(Output::Connected { .. }) => Next::Again,
                None => Next::Ready(None),
            },
    {
        match output {
            Some(Output::Frame(frame)) => Next::Ready(Some(frame)),
            Some(Output::Connected { .. }) => Next::Again,
            None => Next::Ready(None),
        }
    }

    /// What to do for a user who has room for `room` bytes.
    pub fn poll_read(&mut self, room: usize) -> (reading: Reading)
        requires
            old(self)@.wf(),
        ensures
            final(self)@.wf(),
            match reading {
                Reading::Done => room == 0 && final(self)@ == old(self)@,
                Reading::Fetch => room > 0 && old(self)@.pending is None && final(self)@
                    == old(self)@,
                Reading::Data(bytes) => {
                    let data = crate::frame::content(bytes);
                    &&& room > 0
                    &&& old(self)@.pending matches Some(pending)
                    &&& data == if room < pending.len() {
                        pending.take(room as int)
                    } else {
                        pending
                    }
                    &&& final(self)@ == old(self)@.read(data.len() as int)
                },
            },
    {
        if room == 0 {
            return Reading::Done;
        }
        match self.read_buf.take() {
            None => Reading::Fetch,
            Some(mut chunk) => {
                if room < chunk.len() {
                    let head = chunk.split_to(room);
                    self.read_buf = Some(chunk);
                    Reading::Data(head)
                } else {
                    Reading::Data(chunk)
                }
            },
        }
    }

    /// Keeps a frame for a reader; an empty one is ignored.
    pub fn fill(&mut self, frame: Bytes)
        requires
            old(self)@.pending is None,
        ensures
            final(self)@ == old(self)@.filled(crate::frame::content(frame)),
            final(self)@.wf(),
    {
        if frame.len() > 0 {
            self.read_buf = Some(frame);
        }
    }
}

/// A conversation can have any number but zero and the two largest.
pub proof fn law_numbers_of_conversations(conv: u32)
    ensures
        valid_conv(conv) <==> conv != 0 && conv != 0xFFFF_FFFE && conv != 0xFFFF_FFFF,
{
}

/// What follows a prefix, if it stands there, makes up the data together with it.
pub proof fn law_prefix_comes_off(data: Seq<u8>, prefix: Seq<u8>, rest: Seq<u8>)
    ensures
        without_prefix(data, prefix) == Some(rest) <==> data == prefix + rest,
{
    if data == prefix + rest {
        assert(prefix =~= data.subrange(0, prefix.len() as int));
        assert(data.skip(prefix.len() as int) =~= rest);
    }
    if prefix.is_prefix_of(data) {
        assert(data =~= prefix + data.skip(prefix.len() as int));
    }
}

/// The session ID of a packet is what follows the session key in its first payload.
pub proof fn law_session_id_follows_the_key(
    packet: Seq<u8>,
    n: int,
    payload: Seq<u8>,
    session_key: Seq<u8>,
    id: Seq<u8>,
)
    requires
        crate::protocol::carries(packet, n, payload),
    ensures
        packet_session_id(packet, session_key) == Some(id) <==> payload == session_key + id,
{
    crate::protocol::law_payload_is_the_first(packet, n, payload);
    law_prefix_comes_off(payload, session_key, id);
}

/// What has been read is gone, and what has not is kept; nothing is kept of a frame that has been
/// read to its end, nor of an empty one. Nothing else changes.
pub proof fn law_rest_of_a_frame_is_kept(s: StreamState, frame: Seq<u8>, n: int)
    requires
        0 <= n <= frame.len(),
        s.pending is None,
    ensures
        ({
            let filled = s.filled(frame);
            let rest = filled.read(n);
            &&& filled == StreamState { pending: filled.pending, ..s }
            &&& rest == StreamState { pending: rest.pending, ..s }
            &&& filled.pending == Some(frame) <==> frame.len() > 0
            &&& filled.pending is None <==> frame.len() == 0
            &&& rest.pending is None <==> n == frame.len()
            &&& rest.pending matches Some(left) ==> frame == frame.take(n) + left
        }),
{
    let left = frame.skip(n);
    assert(frame =~= frame.take(n) + left);
}

/// A connection begins without a number and without bytes for a reader, with the settings on both
/// sides. Frames of the user may wait as many as the send window says, but at least 8; frames for
/// the user as many as the receive window says, but at least 16.
pub proof fn law_what_a_connection_begins_with(opening: Opening, config: KcpConfig, conv: u32)
    requires
        KcpStream::opens(opening, config, conv),
    ensures
        opening.conv == conv,
        opening.stream@.conv == 0,
        opening.stream@.pending is None,
        opening.stream@.config == config,
        opening.task@.config == config,
        opening.task@.hs == crate::stream::state::Handshake::Syn,
        opening.input_capacity >= config.snd_wnd && opening.input_capacity >= 8,
        opening.input_capacity == config.snd_wnd || opening.input_capacity == 8,
        opening.output_capacity >= config.rcv_wnd && opening.output_capacity >= 16,
        opening.output_capacity == config.rcv_wnd || opening.output_capacity == 16,
{
}

} // verus!

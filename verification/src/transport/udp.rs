//! UDP sockets as transports.

use crate::addr::PeerAddr;
use crate::error::ErrorKind;
use crate::transport::mpsc::connected;
use vstd::prelude::*;

verus! {

/// What a UDP socket yields.
#[derive(Clone, Copy, Debug, PartialEq, Eq, Structural)]
pub enum Received {
    /// A packet from this address.
    Packet(PeerAddr),
    /// An error.
    Failed,
    /// There will be no more packets.
    Ended,
    /// There is no packet at present.
    Pending,
}

/// What it means to who waits for a packet.
#[derive(Clone, Copy, Debug, PartialEq, Eq, Structural)]
pub enum Polled {
    /// Here it is.
    Ready,
    /// There will be no more packets.
    Ended,
    /// There is no packet at present.
    Pending,
    /// Ask the socket again.
    Again,
}

/// What the socket yields, to who waits for a packet from `peer`: packets from other addresses and
/// errors are passed over.
pub open spec fn polled(peer: PeerAddr, received: Received) -> Polled {
    match received {
        Received::Packet(addr) => if addr == peer {
            Polled::Ready
        } else {
            Polled::Again
        },
        Received::Failed => Polled::Again,
        Received::Ended => Polled::Ended,
        Received::Pending => Polled::Pending,
    }
}

/// What comes of asking the socket again and again: which of its answers settles it, and how.
pub open spec fn settled(peer: PeerAddr, answers: Seq<Received>) -> Option<(int, Polled)>
    decreases answers.len(),
{
    if answers.len() == 0 {
        None
    } else if polled(peer, answers[0]) != Polled::Again {
        Some((0, polled(peer, answers[0])))
    } else {
        match settled(peer, answers.skip(1)) {
            Some((i, p)) => Some((i + 1, p)),
            None => None,
        }
    }
}

/// Whether the socket has to be asked again after each of the first `n` answers: each is a packet
/// from another address or an error.
pub open spec fn passed_over(peer: PeerAddr, answers: Seq<Received>, n: int) -> bool {
    forall|j: int|
        0 <= j < n ==> {
            ||| #[trigger] answers[j] is Failed
            ||| answers[j] is Packet && answers[j] != Received::Packet(peer)
        }
}

/// The first packet of the other end comes out, unless an end or a lack of packets comes before
/// it; what comes from others or fails is passed over, and nothing else is.
pub proof fn law_first_packet_of_the_peer_comes_out(
    peer: PeerAddr,
    answers: Seq<Received>,
    i: int,
)
    requires
        0 <= i < answers.len(),
        passed_over(peer, answers, i),
    ensures
        answers[i] == Received::Packet(peer) ==> settled(peer, answers) == Some((i, Polled::Ready)),
        answers[i] == Received::Ended ==> settled(peer, answers) == Some((i, Polled::Ended)),
        answers[i] == Received::Pending ==> settled(peer, answers) == Some((i, Polled::Pending)),
        passed_over(peer, answers, answers.len() as int) ==> settled(peer, answers) is None,
    decreases answers.len(),
{
    let rest = answers.skip(1);
    if i > 0 {
        assert(polled(peer, answers[0]) == Polled::Again);
        assert forall|j: int| 0 <= j < i - 1 implies {
            ||| #[trigger] rest[j] is Failed
            ||| rest[j] is Packet && rest[j] != Received::Packet(peer)
        } by {
            assert(rest[j] == answers[j + 1]);
        }
        lemma_rest_is_passed_over(peer, answers);
        law_first_packet_of_the_peer_comes_out(peer, rest, i - 1);
    } else if passed_over(peer, answers, answers.len() as int) {
        assert(polled(peer, answers[0]) == Polled::Again);
        lemma_rest_is_passed_over(peer, answers);
        if rest.len() > 0 {
            law_first_packet_of_the_peer_comes_out(peer, rest, 0);
        }
    }
}

/// What is passed over is passed over without its first answer too.
proof fn lemma_rest_is_passed_over(peer: PeerAddr, answers: Seq<Received>)
    requires
        answers.len() > 0,
    ensures
        passed_over(peer, answers, answers.len() as int) ==> passed_over(
            peer,
            answers.skip(1),
            answers.len() - 1,
        ),
{
    let rest = answers.skip(1);
    assert(forall|j: int| 0 <= j < rest.len() ==> #[trigger] rest[j] == answers[j + 1]);
}

/// A UDP socket that talks to one address.
pub struct UdpTransport<U> {
    udp: U,
    peer_addr: PeerAddr,
}

impl<U> UdpTransport<U> {
    /// The socket.
    pub closed spec fn udp(self) -> U {
        self.udp
    }

    /// The address that it talks to.
    pub closed spec fn peer(self) -> PeerAddr {
        self.peer_addr
    }

    /// A socket that talks to one address.
    pub fn new(udp: U, peer_addr: PeerAddr) -> (transport: Self)
        ensures
            transport.udp() == udp,
            transport.peer() == peer_addr,
    {
        Self { udp, peer_addr }
    }

    /// The socket, to be used.
    pub fn get_udp_mut(&mut self) -> (udp: &mut U)
        ensures
            *udp == old(self).udp(),
            final(self).udp() == *final(udp),
            final(self).peer() == old(self).peer(),
    {
        &mut self.udp
    }

    /// The address that packets are sent to.
    pub fn peer_addr(&self) -> (addr: PeerAddr)
        ensures
            addr == self.peer(),
    {
        self.peer_addr
    }

    /// What the socket yields, to who waits for a packet: packets from other addresses and
    /// errors are passed over.
    pub fn poll_next(&self, received: Received) -> (polled: Polled)
        ensures
            polled == self::polled(self.peer(), received),
    {
        match received {
            Received::Packet(addr) => {
                if addr == self.peer_addr {
                    Polled::Ready
                } else {
                    Polled::Again
                }
            },
            Received::Failed => Polled::Again,
            Received::Ended => Polled::Ended,
            Received::Pending => Polled::Pending,
        }
    }
}

/// Sends packets for one address into a channel and receives its packets from another.
pub struct UdpMpscTransport<S, R> {
    sink: Option<S>,
    stream: R,
    peer_addr: PeerAddr,
}

impl<S, R> UdpMpscTransport<S, R> {
    /// The sending end, while it is open.
    pub closed spec fn sink(self) -> Option<S> {
        self.sink
    }

    /// The receiving end.
    pub closed spec fn stream(self) -> R {
        self.stream
    }

    /// The address.
    pub closed spec fn peer(self) -> PeerAddr {
        self.peer_addr
    }

    /// Puts two ends together.
    pub fn new(sink: Option<S>, stream: R, peer_addr: PeerAddr) -> (transport: Self)
        ensures
            transport.sink() == sink,
            transport.stream() == stream,
            transport.peer() == peer_addr,
    {
        Self { sink, stream, peer_addr }
    }

    /// The sending end, while it is open.
    pub fn get_sink(&self) -> (sink: &Option<S>)
        ensures
            *sink == self.sink(),
    {
        &self.sink
    }

    /// The sending end, to be changed; all else stays.
    pub fn get_sink_mut(&mut self) -> (sink: &mut Option<S>)
        ensures
            *sink == old(self).sink(),
            final(self).sink() == *final(sink),
            final(self).stream() == old(self).stream(),
            final(self).peer() == old(self).peer(),
    {
        &mut self.sink
    }

    /// The receiving end.
    pub fn get_stream(&self) -> (stream: &R)
        ensures
            *stream == self.stream(),
    {
        &self.stream
    }

    /// The receiving end, to be changed; all else stays.
    pub fn get_stream_mut(&mut self) -> (stream: &mut R)
        ensures
            *stream == old(self).stream(),
            final(self).stream() == *final(stream),
            final(self).sink() == old(self).sink(),
            final(self).peer() == old(self).peer(),
    {
        &mut self.stream
    }

    /// The address that packets are sent to.
    pub fn peer_addr(&self) -> (addr: PeerAddr)
        ensures
            addr == self.peer(),
    {
        self.peer_addr
    }

    /// Whether packets can be sent.
    pub fn poll_ready(&self) -> (r: Result<(), ErrorKind>)
        ensures
            r == if self.sink() is Some {
                Ok::<(), ErrorKind>(())
            } else {
                Err(ErrorKind::NotConnected)
            },
    {
        connected(self.sink.is_some())
    }

    /// Nothing is kept back, so flushing succeeds while packets can be sent.
    pub fn poll_flush(&self) -> (r: Result<(), ErrorKind>)
        ensures
            r == if self.sink() is Some {
                Ok::<(), ErrorKind>(())
            } else {
                Err(ErrorKind::NotConnected)
            },
    {
        connected(self.sink.is_some())
    }

    /// What became of a packet, of which `sent` tells whether the channel took it.
    pub fn start_send(&self, sent: bool) -> (r: Result<(), ErrorKind>)
        ensures
            r == if self.sink() is Some && sent {
                Ok::<(), ErrorKind>(())
            } else {
                Err(ErrorKind::NotConnected)
            },
    {
        connected(self.sink.is_some() && sent)
    }

    /// Takes no more packets; all else stays.
    pub fn poll_close(&mut self)
        ensures
            final(self).sink() is None,
            final(self).stream() == old(self).stream(),
            final(self).peer() == old(self).peer(),
    {
        self.sink = None;
    }
}

} // verus!

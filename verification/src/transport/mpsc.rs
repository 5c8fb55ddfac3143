//! Channels as transports.

use crate::error::ErrorKind;
use vstd::prelude::*;

verus! {

/// The sending end of one channel and the receiving end of another.
pub struct MpscTransport<S, R> {
    sink: S,
    stream: R,
}

impl<S, R> MpscTransport<S, R> {
    /// The sending end.
    pub closed spec fn sink(self) -> S {
        self.sink
    }

    /// The receiving end.
    pub closed spec fn stream(self) -> R {
        self.stream
    }

    /// Puts two ends together.
    pub fn new(sink: S, stream: R) -> (transport: Self)
        ensures
            transport.sink() == sink,
            transport.stream() == stream,
    {
        Self { sink, stream }
    }

    /// The sending end.
    pub fn get_sink(&self) -> (sink: &S)
        ensures
            *sink == self.sink(),
    {
        &self.sink
    }

    /// The sending end, to be changed; the receiving end stays.
    pub fn get_sink_mut(&mut self) -> (sink: &mut S)
        ensures
            *sink == old(self).sink(),
            final(self).sink() == *final(sink),
            final(self).stream() == old(self).stream(),
    {
        &mut self.sink
    }

    /// The receiving end.
    pub fn get_stream(&self) -> (stream: &R)
        ensures
            *stream == self.stream(),
    {
        &self.stream
    }

    /// The receiving end, to be changed; the sending end stays.
    pub fn get_stream_mut(&mut self) -> (stream: &mut R)
        ensures
            *stream == old(self).stream(),
            final(self).stream() == *final(stream),
            final(self).sink() == old(self).sink(),
    {
        &mut self.stream
    }
}

/// Whether something can be sent: only while there is a sender.
pub(crate) fn connected(has_sender: bool) -> (r: Result<(), ErrorKind>)
    ensures
        r == if has_sender {
            Ok::<(), ErrorKind>(())
        } else {
            Err(ErrorKind::NotConnected)
        },
{
    if has_sender {
        Ok(())
    } else {
        Err(ErrorKind::NotConnected)
    }
}

/// The sending end of a channel without limit, until it is closed.
pub struct UnboundedSink<T>(Option<T>);

impl<T> View for UnboundedSink<T> {
    type V = Option<T>;

    closed spec fn view(&self) -> Option<T> {
        self.0
    }
}

impl<T> UnboundedSink<T> {
    /// A sink that is open.
    pub fn new(sender: T) -> (sink: Self)
        ensures
            sink@ == Some(sender),
    {
        Self(Some(sender))
    }

    /// The sender, while the sink is open.
    pub fn get_ref(&self) -> (sender: &Option<T>)
        ensures
            *sender == self@,
    {
        &self.0
    }

    /// The sender, to be changed.
    pub fn get_mut(&mut self) -> (sender: &mut Option<T>)
        ensures
            *sender == old(self)@,
            final(self)@ == *final(sender),
    {
        &mut self.0
    }

    /// The sender, while the sink is open.
    pub fn into_inner(self) -> (sender: Option<T>)
        ensures
            sender == self@,
    {
        self.0
    }

    /// Whether the sink takes items.
    pub fn poll_ready(&self) -> (r: Result<(), ErrorKind>)
        ensures
            r == if self@ is Some {
                Ok::<(), ErrorKind>(())
            } else {
                Err(ErrorKind::NotConnected)
            },
    {
        connected(self.0.is_some())
    }

    /// Nothing is kept back, so flushing succeeds while the sink is open.
    pub fn poll_flush(&self) -> (r: Result<(), ErrorKind>)
        ensures
            r == if self@ is Some {
                Ok::<(), ErrorKind>(())
            } else {
                Err(ErrorKind::NotConnected)
            },
    {
        connected(self.0.is_some())
    }

    /// What became of an item, of which `sent` tells whether the sender took it.
    pub fn start_send(&self, sent: bool) -> (r: Result<(), ErrorKind>)
        ensures
            r == if self@ is Some && sent {
                Ok::<(), ErrorKind>(())
            } else {
                Err(ErrorKind::NotConnected)
            },
    {
        connected(self.0.is_some() && sent)
    }

    /// Closes the sink.
    pub fn poll_close(&mut self)
        ensures
            final(self)@ is None,
    {
        self.0 = None;
    }
}

} // verus!

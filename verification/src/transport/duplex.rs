//! A sink and a stream as one transport.

use std::marker::PhantomData;
use vstd::prelude::*;

verus! {

/// Sends into a sink and receives from a stream that have nothing else to do with each other.
#[verifier::reject_recursive_types(Item)]
pub struct DuplexTransport<Si, Item, St> {
    sink: Si,
    stream: St,
    _phantom: PhantomData<Item>,
}

impl<Si, Item, St> DuplexTransport<Si, Item, St> {
    /// The sink.
    pub closed spec fn sink(self) -> Si {
        self.sink
    }

    /// The stream.
    pub closed spec fn stream(self) -> St {
        self.stream
    }

    /// Puts a sink and a stream together.
    pub fn new(sink: Si, stream: St) -> (transport: Self)
        ensures
            transport.sink() == sink,
            transport.stream() == stream,
    {
        Self { sink, stream, _phantom: PhantomData }
    }

    /// The sink.
    pub fn get_sink(&self) -> (sink: &Si)
        ensures
            *sink == self.sink(),
    {
        &self.sink
    }

    /// The sink, to be changed; the stream stays.
    pub fn get_sink_mut(&mut self) -> (sink: &mut Si)
        ensures
            *sink == old(self).sink(),
            final(self).sink() == *final(sink),
            final(self).stream() == old(self).stream(),
    {
        &mut self.sink
    }

    /// The stream.
    pub fn get_stream(&self) -> (stream: &St)
        ensures
            *stream == self.stream(),
    {
        &self.stream
    }

    /// The stream, to be changed; the sink stays.
    pub fn get_stream_mut(&mut self) -> (stream: &mut St)
        ensures
            *stream == old(self).stream(),
            final(self).stream() == *final(stream),
            final(self).sink() == old(self).sink(),
    {
        &mut self.stream
    }

    /// Takes the sink and the stream apart.
    pub fn split_into(self) -> (parts: (Si, St))
        ensures
            parts.0 == self.sink(),
            parts.1 == self.stream(),
    {
        (self.sink, self.stream)
    }
}

} // verus!

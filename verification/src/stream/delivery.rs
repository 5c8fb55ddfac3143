//! The way of bytes from one user to the other.

use crate::stream::laws::Step;
use crate::stream::reading::ReadStep;
use crate::stream::state::TaskState;
use crate::stream::{laws, reading, writing, StreamState};
use bytes::Bytes;
use vstd::prelude::*;

verus! {

/// The bytes of frames.
pub open spec fn contents(frames: Seq<Bytes>) -> Seq<Seq<u8>> {
    frames.map_values(|frame: Bytes| crate::frame::content(frame))
}

/// The frames that a reader takes in.
pub open spec fn filled_frames(steps: Seq<ReadStep>) -> Seq<Seq<u8>>
    decreases steps.len(),
{
    if steps.len() == 0 {
        seq![]
    } else {
        match steps[0] {
            ReadStep::Fill(frame) => seq![frame] + filled_frames(steps.skip(1)),
            ReadStep::Read(_) => filled_frames(steps.skip(1)),
        }
    }
}

/// The bytes that a reader takes in are those of its frames.
proof fn lemma_filled(steps: Seq<ReadStep>)
    ensures
        reading::all_filled(steps) == writing::joined(filled_frames(steps)),
    decreases steps.len(),
{
    if steps.len() > 0 {
        let rest = steps.skip(1);
        lemma_filled(rest);
        if let ReadStep::Fill(frame) = steps[0] {
            assert(filled_frames(steps).skip(1) =~= filled_frames(rest));
        }
    }
}

/// The bytes of some of the first frames are the first bytes of all.
proof fn lemma_joined_prefix(a: Seq<Seq<u8>>, b: Seq<Seq<u8>>)
    requires
        a.is_prefix_of(b),
    ensures
        writing::joined(a).is_prefix_of(writing::joined(b)),
    decreases a.len(),
{
    let joined_a = writing::joined(a);
    let joined_b = writing::joined(b);
    if a.len() > 0 {
        assert(a[0] == b.subrange(0, a.len() as int)[0]);
        assert(a.skip(1) =~= b.skip(1).subrange(0, a.len() - 1));
        lemma_joined_prefix(a.skip(1), b.skip(1));
        let rest_a = writing::joined(a.skip(1));
        let rest_b = writing::joined(b.skip(1));
        assert(rest_a =~= rest_b.subrange(0, rest_a.len() as int));
    }
    assert(joined_a =~= joined_b.subrange(0, joined_a.len() as int));
}

/// What one end writes the other end reads: bytes are handed over in frames, pass the task of the
/// writer, are carried by the engines, pass the task of the reader, and are read in pieces of any
/// size. If the engines carry bytes in order, then what is read begins as what was written does;
/// and if they have carried everything and the reader has taken in every frame, then what has
/// been read, and what is still kept for the reader, is what was written.
pub proof fn law_what_is_written_is_read(
    data: Seq<u8>,
    writer: TaskState,
    writes: Seq<Step>,
    reader: TaskState,
    fetches: Seq<Step>,
    stream: StreamState,
    reads: Seq<ReadStep>,
)
    requires
        // the user hands over the data, in any number of writes and frames
        writer.wf(),
        laws::answers(writer, writes),
        writing::joined(contents(laws::all_taken(writes))) == data,
        // the engines carry bytes in order
        reader.wf(),
        laws::answers(reader, fetches),
        reader.tx_frame is None,
        writing::joined(contents(laws::all_fetched(reader, fetches))).is_prefix_of(
            writing::joined(contents(laws::all_sent(writer, writes))),
        ),
        // the other user reads
        stream.wf(),
        stream.pending is None,
        reading::fills_when_empty(stream, reads),
        filled_frames(reads).is_prefix_of(contents(laws::all_delivered(reader, fetches))),
    ensures
        reading::all_given(stream, reads).is_prefix_of(data),
        ({
            &&& writing::joined(contents(laws::all_fetched(reader, fetches))) == writing::joined(
                contents(laws::all_sent(writer, writes)),
            )
            &&& !laws::is_ending(laws::after(reader, fetches))
            &&& laws::after(reader, fetches).tx_frame is None
            &&& filled_frames(reads) == contents(laws::all_delivered(reader, fetches))
        }) ==> reading::all_given(stream, reads) + reading::kept(
            reading::read_steps(stream, reads),
        ) == data,
{
    let sent_bytes = writing::joined(contents(laws::all_sent(writer, writes)));
    let fetched = laws::all_fetched(reader, fetches);
    let delivered = laws::all_delivered(reader, fetches);
    let fetched_bytes = writing::joined(contents(fetched));
    let delivered_bytes = writing::joined(contents(delivered));
    let filled = reading::all_filled(reads);
    let given = reading::all_given(stream, reads);
    let end = laws::after(reader, fetches);
    laws::law_frames_pass_in_order(writer, writes);
    assert(sent_bytes == data);
    laws::law_frames_pass_in_order(reader, fetches);
    assert(laws::line(reader.tx_frame) + fetched =~= fetched);
    assert(contents(delivered) =~= contents(fetched).subrange(0, delivered.len() as int)) by {
        assert(delivered =~= fetched.subrange(0, delivered.len() as int));
    }
    lemma_joined_prefix(contents(delivered), contents(fetched));
    lemma_joined_prefix(filled_frames(reads), contents(delivered));
    lemma_filled(reads);
    reading::law_reads_give_back_the_frames(stream, reads);
    assert(reading::kept(stream) + filled =~= filled);
    assert(given =~= filled.subrange(0, given.len() as int)) by {
        assert(filled == given + reading::kept(reading::read_steps(stream, reads)));
    }
    assert(filled =~= delivered_bytes.subrange(0, filled.len() as int));
    assert(delivered_bytes =~= fetched_bytes.subrange(0, delivered_bytes.len() as int));
    assert(fetched_bytes =~= data.subrange(0, fetched_bytes.len() as int));
    assert(given =~= data.subrange(0, given.len() as int));
    if !laws::is_ending(end) && end.tx_frame is None {
        assert(delivered =~= fetched) by {
            assert(fetched == delivered + laws::line(end.tx_frame));
        }
    }
}

} // verus!

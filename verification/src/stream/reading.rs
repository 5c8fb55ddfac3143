//! Bytes that a user reads, taken from frames.

use crate::stream::StreamState;
use vstd::prelude::*;

verus! {

/// A step of a user who reads bytes.
pub enum ReadStep {
    /// A frame is taken in; nothing was kept before.
    Fill(Seq<u8>),
    /// There is room for so many bytes.
    Read(nat),
}

/// Whether a frame is taken in only where nothing is kept.
pub open spec fn fills_when_empty(s: StreamState, steps: Seq<ReadStep>) -> bool
    decreases steps.len(),
{
    steps.len() > 0 ==> {
        &&& steps[0] is Fill ==> s.pending is None
        &&& fills_when_empty(read_step(s, steps[0]), steps.skip(1))
    }
}

/// The bytes that are kept.
pub open spec fn kept(s: StreamState) -> Seq<u8> {
    match s.pending {
        Some(bytes) => bytes,
        None => seq![],
    }
}

/// The bytes that a step gives to the user.
pub open spec fn given(s: StreamState, step: ReadStep) -> Seq<u8> {
    match step {
        ReadStep::Fill(_) => seq![],
        ReadStep::Read(room) => if room < kept(s).len() {
            kept(s).take(room as int)
        } else {
            kept(s)
        },
    }
}

/// The stream after a step.
pub open spec fn read_step(s: StreamState, step: ReadStep) -> StreamState {
    match step {
        ReadStep::Fill(frame) => s.filled(frame),
        ReadStep::Read(room) => if room == 0 {
            s
        } else {
            s.read(given(s, step).len() as int)
        },
    }
}

/// The stream after all steps.
pub open spec fn read_steps(s: StreamState, steps: Seq<ReadStep>) -> StreamState
    decreases steps.len(),
{
    if steps.len() == 0 {
        s
    } else {
        read_steps(read_step(s, steps[0]), steps.skip(1))
    }
}

/// The bytes of all frames that are taken in.
pub open spec fn all_filled(steps: Seq<ReadStep>) -> Seq<u8>
    decreases steps.len(),
{
    if steps.len() == 0 {
        seq![]
    } else {
        match steps[0] {
            ReadStep::Fill(frame) => frame + all_filled(steps.skip(1)),
            ReadStep::Read(_) => all_filled(steps.skip(1)),
        }
    }
}

/// All bytes that the user gets.
pub open spec fn all_given(s: StreamState, steps: Seq<ReadStep>) -> Seq<u8>
    decreases steps.len(),
{
    if steps.len() == 0 {
        seq![]
    } else {
        given(s, steps[0]) + all_given(read_step(s, steps[0]), steps.skip(1))
    }
}

/// A reader gets the bytes of the frames in order, each once, however the reads cut them: what
/// was kept and what came in is what was given and what is kept now.
pub proof fn law_reads_give_back_the_frames(s: StreamState, steps: Seq<ReadStep>)
    requires
        s.wf(),
        fills_when_empty(s, steps),
    ensures
        read_steps(s, steps).wf(),
        kept(s) + all_filled(steps) == all_given(s, steps) + kept(read_steps(s, steps)),
    decreases steps.len(),
{
    if steps.len() == 0 {
        assert(kept(s) + all_filled(steps) =~= all_given(s, steps) + kept(s));
    } else {
        let next = read_step(s, steps[0]);
        let rest = steps.skip(1);
        let end = kept(read_steps(s, steps));
        law_reads_give_back_the_frames(next, rest);
        assert(all_given(s, steps) + end =~= given(s, steps[0]) + (all_given(next, rest) + end));
        match steps[0] {
            ReadStep::Fill(frame) => {
                assert(kept(next) =~= frame);
                assert(kept(s) + all_filled(steps) =~= kept(next) + all_filled(rest));
            },
            ReadStep::Read(room) => {
                assert(given(s, steps[0]) + kept(next) =~= kept(s));
                assert(kept(s) + all_filled(steps) =~= given(s, steps[0]) + (kept(next)
                    + all_filled(rest)));
            },
        }
    }
}

} // verus!

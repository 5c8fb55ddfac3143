//! Bytes that a user writes, cut into frames.

use crate::config::KcpConfig;
use crate::error::ErrorKind;
use crate::ffi::{IKCP_OVERHEAD, IKCP_WND_RCV};
use crate::protocol::Kcp;
use bytes::Bytes;
use vstd::prelude::*;

verus! {

/// What became of a frame.
#[derive(Clone, Copy, Debug, PartialEq, Eq, Structural)]
pub enum Taken {
    /// The task will send it.
    Accepted,
    /// The task is gone.
    Refused,
    /// The task has no room for it at present.
    Pending,
}

/// What to do for a user who writes bytes.
#[derive(Clone, Copy, Debug, PartialEq, Eq, Structural)]
pub enum Writing {
    /// Hand over another frame.
    Again,
    /// So many bytes have been taken.
    Ready(usize),
    /// The task is gone.
    Failed(ErrorKind),
    /// Try again later.
    Pending,
}

/// Whether bytes can be cut into frames for this transmission unit: a frame holds at least one
/// byte, and its size can be represented.
pub open spec fn can_cut(mtu: u32) -> bool {
    24 < mtu && (mtu - 24) * 255 <= u32::MAX
}

/// The size of a frame that bytes are cut into.
pub open spec fn frame_size(mtu: u32) -> int {
    (mtu - 24) * 255
}

/// The end of the frame that begins at `at`.
pub open spec fn frame_end(len: int, size: int, at: int) -> int {
    if len - at < size {
        len
    } else {
        at + size
    }
}

/// The frames that `data` is cut into.
pub open spec fn frames(data: Seq<u8>, size: int) -> Seq<Seq<u8>>
    decreases data.len(),
{
    if data.len() == 0 || size <= 0 {
        seq![]
    } else {
        let end = frame_end(data.len() as int, size, 0);
        seq![data.take(end)] + frames(data.skip(end), size)
    }
}

/// The bytes of the frames, one after the other.
pub open spec fn joined(frames: Seq<Seq<u8>>) -> Seq<u8>
    decreases frames.len(),
{
    if frames.len() == 0 {
        seq![]
    } else {
        frames[0] + joined(frames.skip(1))
    }
}

/// A write in progress.
pub struct Write {
    len: usize,
    size: usize,
    done: usize,
}

/// A [`Write`] as contracts see it.
#[verifier::ext_equal]
pub struct WriteState {
    /// The number of bytes to be written.
    pub len: int,
    /// The size of a frame.
    pub size: int,
    /// The number of bytes taken so far.
    pub done: int,
}

impl WriteState {
    /// Whole frames have been taken, if not everything.
    pub open spec fn wf(self) -> bool {
        &&& 0 <= self.done <= self.len
        &&& 0 < self.size
        &&& self.done == self.len || self.done % self.size == 0
    }

    /// The end of the frame to be handed over next.
    pub open spec fn end(self) -> int {
        frame_end(self.len, self.size, self.done)
    }

    /// The write once it is known what became of that frame.
    pub open spec fn stepped(self, taken: Taken) -> WriteState {
        WriteState {
            done: if taken == Taken::Accepted {
                self.end()
            } else {
                self.done
            },
            ..self
        }
    }

    /// What follows from what became of that frame. Once bytes have been taken the write succeeds
    /// with their number, whatever became of the others.
    pub open spec fn follows(self, taken: Taken) -> Writing {
        let done = self.stepped(taken).done;
        if taken == Taken::Accepted && done < self.len {
            Writing::Again
        } else if done > 0 {
            Writing::Ready(done as usize)
        } else if taken == Taken::Refused {
            Writing::Failed(ErrorKind::NotConnected)
        } else {
            Writing::Pending
        }
    }
}

impl View for Write {
    type V = WriteState;

    closed spec fn view(&self) -> WriteState {
        WriteState { len: self.len as int, size: self.size as int, done: self.done as int }
    }
}

impl Write {
    /// The beginning of a write of `len` bytes.
    pub fn new(config: &KcpConfig, len: usize) -> (write: Write)
        requires
            can_cut(config.mtu),
        ensures
            write@ == (WriteState { len: len as int, size: frame_size(config.mtu), done: 0 }),
            write@.wf(),
    {
        proof {
            vstd::arithmetic::div_mod::lemma_small_mod(0, frame_size(config.mtu) as nat);
        }
        Write { len, size: Kcp::max_frame_size(config.mtu) as usize, done: 0 }
    }

    /// Whether bytes can be cut into frames for this transmission unit.
    pub fn can_write(mtu: u32) -> (can: bool)
        ensures
            can == can_cut(mtu),
    {
        let segments: u32 = IKCP_WND_RCV - 1;
        assert(segments == 255 && u32::MAX / 255 == 16843009);
        IKCP_OVERHEAD < mtu && mtu - IKCP_OVERHEAD <= u32::MAX / segments
    }

    /// The frame to hand over next; `None` if everything has been taken.
    pub fn next(&self, buf: &[u8]) -> (frame: Option<Bytes>)
        requires
            self@.wf(),
            buf@.len() == self@.len,
        ensures
            frame is Some <==> self@.done < self@.len,
            frame matches Some(f) ==> crate::frame::content(f) == buf@.subrange(
                self@.done,
                self@.end(),
            ),
    {
        if self.done == self.len {
            return None;
        }
        let end: usize = if self.len - self.done < self.size {
            self.len
        } else {
            self.done + self.size
        };
        Some(Bytes::copy_from_slice(vstd::slice::slice_subrange(buf, self.done, end)))
    }

    /// What follows from what became of the frame.
    pub fn step(&mut self, taken: Taken) -> (writing: Writing)
        requires
            old(self)@.wf(),
            old(self)@.done < old(self)@.len,
        ensures
            final(self)@.wf(),
            final(self)@ == old(self)@.stepped(taken),
            writing == old(self)@.follows(taken),
    {
        proof {
            vstd::arithmetic::div_mod::lemma_mod_add_multiples_vanish(self@.done, self@.size);
        }
        match taken {
            Taken::Accepted => {
                self.done = if self.len - self.done < self.size {
                    self.len
                } else {
                    self.done + self.size
                };
                if self.done < self.len {
                    Writing::Again
                } else {
                    Writing::Ready(self.done)
                }
            },
            Taken::Refused => {
                if self.done > 0 {
                    Writing::Ready(self.done)
                } else {
                    Writing::Failed(ErrorKind::NotConnected)
                }
            },
            Taken::Pending => {
                if self.done > 0 {
                    Writing::Ready(self.done)
                } else {
                    Writing::Pending
                }
            },
        }
    }
}

/// A write loses no byte and adds none: the frames that data is cut into, one after the other,
/// are the data; none of them is empty, none is larger than a frame may be, and all but the last
/// are as large as a frame may be.
pub proof fn law_frames_are_the_data(data: Seq<u8>, size: int)
    requires
        size > 0,
    ensures
        joined(frames(data, size)) == data,
        forall|i: int|
            0 <= i < frames(data, size).len() ==> 0 < #[trigger] frames(data, size)[i].len()
                <= size,
        forall|i: int|
            0 <= i < frames(data, size).len() - 1 ==> #[trigger] frames(data, size)[i].len()
                == size,
    decreases data.len(),
{
    if data.len() > 0 {
        let end = frame_end(data.len() as int, size, 0);
        let rest = data.skip(end);
        law_frames_are_the_data(rest, size);
        assert(frames(data, size).skip(1) =~= frames(rest, size));
        assert(data.take(end) + rest =~= data);
        assert forall|i: int| 1 <= i < frames(data, size).len() implies frames(data, size)[i]
            == frames(rest, size)[i - 1] by {}
        if frames(data, size).len() > 1 {
            assert(rest.len() > 0);
        }
    }
}

/// The frames that a write hands over are those that the data is cut into: the frame at `at` is
/// the first of what is left there, and the next one begins where it ends.
pub proof fn law_write_cuts_frames(data: Seq<u8>, size: int, at: int)
    requires
        size > 0,
        0 <= at < data.len(),
    ensures
        ({
            let end = frame_end(data.len() as int, size, at);
            &&& at < end <= data.len()
            &&& frames(data.skip(at), size) == seq![data.subrange(at, end)] + frames(
                data.skip(end),
                size,
            )
        }),
{
    let end = frame_end(data.len() as int, size, at);
    let rest = data.skip(at);
    let first = frame_end(rest.len() as int, size, 0);
    assert(rest.take(first) =~= data.subrange(at, end));
    assert(rest.skip(first) =~= data.skip(end));
}

/// The write after it is known what became of the frames.
pub open spec fn after(write: WriteState, takes: Seq<Taken>) -> WriteState
    decreases takes.len(),
{
    if takes.len() == 0 {
        write
    } else {
        after(write.stepped(takes[0]), takes.skip(1))
    }
}

/// The frames of a write that are taken.
pub open spec fn handed_over(
    write: WriteState,
    buf: Seq<u8>,
    takes: Seq<Taken>,
) -> Seq<Seq<u8>>
    decreases takes.len(),
{
    if takes.len() == 0 {
        seq![]
    } else {
        let rest = handed_over(write.stepped(takes[0]), buf, takes.skip(1));
        if takes[0] == Taken::Accepted {
            seq![buf.subrange(write.done, write.end())] + rest
        } else {
            rest
        }
    }
}

/// Whether a write comes to an end with `writing`: a frame is handed over again for as long as that
/// is what follows.
pub open spec fn ends_with(write: WriteState, takes: Seq<Taken>, writing: Writing) -> bool
    decreases takes.len(),
{
    &&& takes.len() > 0
    &&& if takes.len() == 1 {
        write.follows(takes[0]) == writing && writing != Writing::Again
    } else {
        write.follows(takes[0]) == Writing::Again && ends_with(
            write.stepped(takes[0]),
            takes.skip(1),
            writing,
        )
    }
}

/// A write takes as many bytes as it says, and those that come first: the frames that it hands over,
/// one after the other, are the first `n` bytes where it ends with `Ready(n)`. Where it fails, or
/// has to be tried again, it has handed nothing over. It takes at least one byte where it succeeds,
/// and all of them where every frame is taken.
pub proof fn law_write_hands_over_what_it_says(
    buf: Seq<u8>,
    size: int,
    takes: Seq<Taken>,
    writing: Writing,
)
    requires
        0 < buf.len() <= usize::MAX,
        size > 0,
        ends_with(
            (WriteState { len: buf.len() as int, size, done: 0 }),
            takes,
            writing,
        ),
    ensures
        ({
            let frames = handed_over(
                (WriteState { len: buf.len() as int, size, done: 0 }),
                buf,
                takes,
            );
            match writing {
                Writing::Ready(n) => 0 < n <= buf.len() && joined(frames) == buf.take(n as int),
                Writing::Failed(e) => e == ErrorKind::NotConnected && frames.len() == 0,
                Writing::Pending => frames.len() == 0,
                Writing::Again => false,
            }
        }),
        takes.last() == Taken::Accepted ==> writing == Writing::Ready(buf.len() as usize),
{
    let write = WriteState { len: buf.len() as int, size, done: 0 };
    lemma_write_goes_on(write, buf, takes, writing);
    let end = after(write, takes).done;
    assert(buf.subrange(0, end) =~= buf.take(end));
}

/// What a write hands over from some point on.
proof fn lemma_write_goes_on(
    write: WriteState,
    buf: Seq<u8>,
    takes: Seq<Taken>,
    writing: Writing,
)
    requires
        0 <= write.done < write.len,
        write.len == buf.len() <= usize::MAX,
        write.size > 0,
        ends_with(write, takes, writing),
    ensures
        ({
            let end = after(write, takes).done;
            &&& write.done <= end <= write.len
            &&& joined(handed_over(write, buf, takes)) == buf.subrange(write.done, end)
            &&& writing == if end > 0 {
                Writing::Ready(end as usize)
            } else if takes.last() == Taken::Refused {
                Writing::Failed(ErrorKind::NotConnected)
            } else {
                Writing::Pending
            }
            &&& end == write.done ==> handed_over(write, buf, takes).len() == 0
            &&& takes.last() == Taken::Accepted ==> end == write.len
        }),
    decreases takes.len(),
{
    let next = write.stepped(takes[0]);
    let rest = takes.skip(1);
    let later = handed_over(next, buf, rest);
    let all = handed_over(write, buf, takes);
    if takes.len() == 1 {
        assert(after(next, rest) == next);
        assert(later =~= seq![]);
    } else {
        lemma_write_goes_on(next, buf, rest, writing);
        assert(rest.last() == takes.last());
    }
    let end = after(next, rest).done;
    assert(joined(later) =~= buf.subrange(next.done, end));
    if takes[0] == Taken::Accepted {
        assert(all.skip(1) =~= later);
        assert(buf.subrange(write.done, next.done) + buf.subrange(next.done, end) =~= buf.subrange(
            write.done,
            end,
        ));
    }
}

/// Bytes can be cut into frames if a transmission unit has room behind a header of 24 bytes, and a
/// frame, which takes up to 255 of them, has a size that 32 bits can hold.
pub proof fn law_size_of_a_frame(mtu: u32)
    ensures
        can_cut(mtu) <==> 25 <= mtu <= 24 + 0xFFFF_FFFFint / 255,
        frame_size(mtu) == 255 * mtu - 255 * 24,
{
}

/// A frame ends where its size or the data does, whichever comes first.
pub proof fn law_end_of_a_frame(len: int, size: int, at: int)
    requires
        0 <= at <= len,
        size > 0,
    ensures
        frame_end(len, size, at) <= len,
        frame_end(len, size, at) - at <= size,
        frame_end(len, size, at) == len || frame_end(len, size, at) - at == size,
{
}

/// A frame that is taken takes the write further by its size, or to the end of the data; the write
/// goes on until it is there, and then has succeeded with all of the data. A frame that is not taken
/// ends the write: with what has been taken before, or else with an error if the connection is gone,
/// or else it is to be tried again.
pub proof fn law_what_becomes_of_a_write(write: WriteState)
    requires
        0 <= write.done < write.len <= usize::MAX,
        write.size > 0,
    ensures
        ({
            let next = write.stepped(Taken::Accepted);
            &&& next.len == write.len
            &&& next.size == write.size
            &&& write.done + write.size < write.len ==> {
                &&& next.done == write.done + write.size
                &&& write.follows(Taken::Accepted) == Writing::Again
            }
            &&& write.done + write.size >= write.len ==> {
                &&& next.done == write.len
                &&& write.follows(Taken::Accepted) == Writing::Ready(write.len as usize)
            }
        }),
        write.stepped(Taken::Refused) == write,
        write.stepped(Taken::Pending) == write,
        write.done > 0 ==> {
            &&& write.follows(Taken::Refused) == Writing::Ready(write.done as usize)
            &&& write.follows(Taken::Pending) == Writing::Ready(write.done as usize)
        },
        write.done == 0 ==> {
            &&& write.follows(Taken::Refused) == Writing::Failed(ErrorKind::NotConnected)
            &&& write.follows(Taken::Pending) == Writing::Pending
        },
        write.end() == write.stepped(Taken::Accepted).done,
{
}

} // verus!

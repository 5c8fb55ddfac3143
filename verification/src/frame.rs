//! Frames: immutable byte strings, held as `bytes::Bytes`.

use bytes::Bytes;
use vstd::prelude::*;

verus! {

/// `bytes::Bytes` is opaque here; [`content`] names the bytes that a value holds.
#[verifier::external_type_specification]
#[verifier::external_body]
pub struct ExBytes(Bytes);

/// The bytes that a frame holds.
pub uninterp spec fn content(frame: Bytes) -> Seq<u8>;

/// `Bytes::new` makes an empty frame.
pub assume_specification[ Bytes::new ]() -> (frame: Bytes)
    ensures
        content(frame) == Seq::<u8>::empty(),
;

/// `Bytes::copy_from_slice` makes a frame that holds the bytes of the slice.
pub assume_specification[ Bytes::copy_from_slice ](data: &[u8]) -> (frame: Bytes)
    ensures
        content(frame) == data@,
;

/// `Bytes::len` is the number of bytes in the frame.
pub assume_specification[ Bytes::len ](frame: &Bytes) -> (len: usize)
    ensures
        len == content(*frame).len(),
;

/// `Bytes::deref` borrows the bytes of the frame.
pub assume_specification[ <Bytes as core::ops::Deref>::deref ](frame: &Bytes) -> (data: &[u8])
    ensures
        data@ == content(*frame),
;

/// `Bytes::clone` makes a frame that holds the same bytes.
pub assume_specification[ <Bytes as Clone>::clone ](frame: &Bytes) -> (copy: Bytes)
    ensures
        content(copy) == content(*frame),
;

/// `Bytes::split_to` cuts off the first `at` bytes of the frame and returns them. It panics
/// where the frame is shorter than that.
pub assume_specification[ Bytes::split_to ](frame: &mut Bytes, at: usize) -> (head: Bytes)
    requires
        at <= content(*old(frame)).len(),
    ensures
        content(head) == content(*old(frame)).take(at as int),
        content(*final(frame)) == content(*old(frame)).skip(at as int),
;

} // verus!

//! The boundary to the `bytes` crate: its two buffer types, what they hold,
//! and the few of their operations that the codec calls. Nothing in this file
//! is proved; each contract restates what the `bytes` crate documents and does.

use bytes::BufMut;
use bytes::Bytes;
use bytes::BytesMut;
use vstd::prelude::*;

verus! {

/// `bytes::Bytes`, a handle to a run of bytes that no longer changes.
#[verifier::external_type_specification]
#[verifier::external_body]
pub struct ExBytes(bytes::Bytes);

/// `bytes::BytesMut`, a buffer that is written at its end and that takes no
/// more bytes than it has capacity for.
#[verifier::external_type_specification]
#[verifier::external_body]
pub struct ExBytesMut(bytes::BytesMut);

/// The bytes that a `Bytes` handle holds, first to last.
pub uninterp spec fn contents(b: Bytes) -> Seq<u8>;

/// The bytes written to a `BytesMut` so far, first to last.
pub uninterp spec fn written(buf: BytesMut) -> Seq<u8>;

/// The number of bytes that a `BytesMut` still takes before it is full: the
/// result of `BufMut::remaining_mut` on it. Nothing is said of how much room a
/// new buffer has; a write uses up as much as it appends.
pub uninterp spec fn room(buf: BytesMut) -> nat;

/// `Bytes::len` returns the number of bytes that the handle holds.
pub assume_specification[ Bytes::len ](b: &Bytes) -> (n: usize)
    ensures
        n == contents(*b).len(),
;

/// `BufMut::remaining_mut` on a `BytesMut`: the number of bytes that can still
/// be written, its capacity less its length.
#[verifier::external_body]
pub(crate) fn remaining(buf: &BytesMut) -> (n: usize)
    ensures
        n == room(*buf),
{
    buf.remaining_mut()
}

/// `BufMut::put_u8` on a `BytesMut`: appends one byte and uses up one byte of
/// room. It panics on a full buffer, which `requires` leaves out.
#[verifier::external_body]
pub(crate) fn put_byte(buf: &mut BytesMut, byte: u8)
    requires
        room(*old(buf)) >= 1,
    ensures
        written(*final(buf)) == written(*old(buf)).push(byte),
        room(*final(buf)) == room(*old(buf)) - 1,
{
    buf.put_u8(byte)
}

/// `BufMut::put` on a `BytesMut`, handed a `Bytes`: appends all bytes of the
/// source in order and uses up as much room. It panics where the room is less
/// than the source's length, which `requires` leaves out.
#[verifier::external_body]
pub(crate) fn put_contents(buf: &mut BytesMut, src: Bytes)
    requires
        room(*old(buf)) >= contents(src).len(),
    ensures
        written(*final(buf)) == written(*old(buf)) + contents(src),
        room(*final(buf)) == room(*old(buf)) - contents(src).len(),
{
    buf.put(src)
}

} // verus!

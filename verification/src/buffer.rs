//! The byte buffer that the codec reads from and writes to.
//!
//! The buffer is `bytes::BytesMut`. Verus does not look inside it: the items
//! below name what it holds and state, without proof, what each of its
//! methods that the codec calls does to that.

use bytes::{Buf, BufMut, BytesMut};
use vstd::prelude::*;

verus! {

/// `bytes::BytesMut`: a growable buffer of bytes that are taken out at its
/// front and put in at its end.
#[verifier::external_type_specification]
#[verifier::external_body]
pub struct ExBytesMut(bytes::BytesMut);

/// The bytes that a buffer holds, from the first unread one to the last
/// written one.
pub uninterp spec fn contents(buffer: BytesMut) -> Seq<u8>;

/// `BytesMut::new`: a buffer that holds nothing.
#[verifier::external_body]
pub(crate) fn new_buffer() -> (buffer: BytesMut)
    ensures
        contents(buffer) == Seq::<u8>::empty(),
{
    BytesMut::new()
}

/// `BytesMut::len`: the number of bytes held.
#[verifier::external_body]
pub(crate) fn buffer_len(buffer: &BytesMut) -> (n: usize)
    ensures
        n == contents(*buffer).len(),
{
    buffer.len()
}

/// `<BytesMut as AsRef<[u8]>>::as_ref`: the bytes held, as a slice.
#[verifier::external_body]
pub(crate) fn buffer_bytes(buffer: &BytesMut) -> (bytes: &[u8])
    ensures
        bytes@ == contents(*buffer),
{
    buffer.as_ref()
}

/// `BytesMut::extend_from_slice`: appends `extend` to what is held. The
/// buffer reserves room first, and `BytesMut::reserve` is documented to panic
/// where the new capacity overflows a `usize`: the length of the result has
/// to fit one. That the memory is there to be had is taken for granted.
#[verifier::external_body]
pub(crate) fn extend_from_slice(buffer: &mut BytesMut, extend: &[u8])
    requires
        contents(*old(buffer)).len() + extend@.len() <= usize::MAX,
    ensures
        contents(*final(buffer)) == contents(*old(buffer)) + extend@,
{
    buffer.extend_from_slice(extend)
}

/// `<BytesMut as Buf>::advance`: drops the first `cnt` bytes. It panics when
/// fewer are held.
#[verifier::external_body]
pub(crate) fn advance(buffer: &mut BytesMut, cnt: usize)
    requires
        cnt <= contents(*old(buffer)).len(),
    ensures
        contents(*final(buffer)) == contents(*old(buffer)).skip(cnt as int),
{
    buffer.advance(cnt)
}

/// `<BytesMut as BufMut>::put_u8`: appends one byte. It goes through
/// `extend_from_slice`, with the same limit.
#[verifier::external_body]
pub(crate) fn put_u8(buffer: &mut BytesMut, n: u8)
    requires
        contents(*old(buffer)).len() + 1 <= usize::MAX,
    ensures
        contents(*final(buffer)) == contents(*old(buffer)).push(n),
{
    buffer.put_u8(n)
}

/// `<BytesMut as BufMut>::put_slice`: appends `src`. It is
/// `extend_from_slice` under another name.
#[verifier::external_body]
pub(crate) fn put_slice(buffer: &mut BytesMut, src: &[u8])
    requires
        contents(*old(buffer)).len() + src@.len() <= usize::MAX,
    ensures
        contents(*final(buffer)) == contents(*old(buffer)) + src@,
{
    buffer.put_slice(src)
}

} // verus!

//! The byte buffers of an exchange, held in `bytes::BytesMut` while a frame
//! is written and in `bytes::Bytes` once it is frozen.
use vstd::prelude::*;
use bytes::{Buf, BufMut, Bytes, BytesMut};

verus! {

#[verifier::external_type_specification]
#[verifier::external_body]
pub struct ExBytesMut(bytes::BytesMut);

#[verifier::external_type_specification]
#[verifier::external_body]
pub struct ExBytes(bytes::Bytes);

/// The bytes that a `BytesMut` holds.
pub uninterp spec fn mut_contents(b: BytesMut) -> Seq<u8>;

/// The bytes that a `Bytes` holds.
pub uninterp spec fn frozen_contents(b: Bytes) -> Seq<u8>;

/// The two bytes of a word, most significant first.
pub open spec fn be_bytes(w: u16) -> Seq<u8> {
    seq![(w / 256) as u8, (w % 256) as u8]
}

/// The word that two bytes give read most significant first.
pub open spec fn be_word(hi: u8, lo: u8) -> u16 {
    (hi * 256 + lo) as u16
}

/// Relies on `BytesMut::with_capacity`: the buffer starts empty.
#[verifier::external_body]
pub(crate) fn empty_buffer(capacity: usize) -> (r: BytesMut)
    ensures
        mut_contents(r) == Seq::<u8>::empty(),
{
    BytesMut::with_capacity(capacity)
}

/// Relies on `BytesMut::from(&[u8])`: the buffer holds a copy of the slice.
#[verifier::external_body]
pub(crate) fn buffer_from(s: &[u8]) -> (r: BytesMut)
    ensures
        mut_contents(r) == s@,
{
    BytesMut::from(s)
}

/// Relies on `BufMut::put_u8` of `BytesMut`: the byte is appended.
#[verifier::external_body]
pub(crate) fn put_u8(b: &mut BytesMut, n: u8)
    requires
        mut_contents(*old(b)).len() + 1 <= isize::MAX,
    ensures
        mut_contents(*final(b)) == mut_contents(*old(b)).push(n),
{
    b.put_u8(n)
}

/// Relies on `BufMut::put_u16` of `BytesMut`: the word is appended
/// big-endian.
#[verifier::external_body]
pub(crate) fn put_u16(b: &mut BytesMut, n: u16)
    requires
        mut_contents(*old(b)).len() + 2 <= isize::MAX,
    ensures
        mut_contents(*final(b)) == mut_contents(*old(b)) + be_bytes(n),
{
    b.put_u16(n)
}

/// Relies on `Deref` of `BytesMut`: the slice is the buffer's contents.
#[verifier::external_body]
pub(crate) fn mut_slice(b: &BytesMut) -> (r: &[u8])
    ensures
        r@ == mut_contents(*b),
{
    &b[..]
}

/// Relies on `BytesMut::freeze`: the contents are kept.
#[verifier::external_body]
pub(crate) fn freeze(b: BytesMut) -> (r: Bytes)
    ensures
        frozen_contents(r) == mut_contents(b),
{
    b.freeze()
}

/// Relies on `Deref` of `Bytes`: the slice is the buffer's contents.
#[verifier::external_body]
pub(crate) fn frozen_slice(b: &Bytes) -> (r: &[u8])
    ensures
        r@ == frozen_contents(*b),
{
    &b[..]
}

/// Relies on `Bytes::split_to`: the first `at` bytes are handed out and the
/// rest stay.
#[verifier::external_body]
pub(crate) fn split_to(b: &mut Bytes, at: usize) -> (r: Bytes)
    requires
        at <= frozen_contents(*old(b)).len(),
    ensures
        frozen_contents(r) == frozen_contents(*old(b)).take(at as int),
        frozen_contents(*final(b)) == frozen_contents(*old(b)).skip(at as int),
{
    b.split_to(at)
}

/// Relies on `Buf::get_u16` of `Bytes`: the first two bytes are read
/// big-endian and consumed.
#[verifier::external_body]
pub(crate) fn get_u16(b: &mut Bytes) -> (r: u16)
    requires
        frozen_contents(*old(b)).len() >= 2,
    ensures
        r == be_word(frozen_contents(*old(b))[0], frozen_contents(*old(b))[1]),
        frozen_contents(*final(b)) == frozen_contents(*old(b)).skip(2),
{
    b.get_u16()
}

} // verus!

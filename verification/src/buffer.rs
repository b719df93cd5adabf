//! Trusted boundary around the byte buffers of the `bytes` crate.
//!
//! The packet body buffer is a `bytes::BytesMut`, consumed left-to-right by
//! the payload reader; a completed string field is handed out as a frozen
//! `bytes::Bytes`. Verus sees both types as opaque, so their contents are
//! named by the two uninterpreted view functions below, and every method the
//! adapter calls goes through a wrapper whose contract states, over those
//! views, what the crate's code does.

use vstd::prelude::*;
use vstd::bytes::spec_u32_from_le_bytes;
use bytes::Buf;

verus! {

#[verifier::external_type_specification]
#[verifier::external_body]
pub struct ExBytesMut(bytes::BytesMut);

#[verifier::external_type_specification]
#[verifier::external_body]
pub struct ExBytes(bytes::Bytes);

/// The bytes held by a `bytes::BytesMut`, in order.
pub uninterp spec fn bytes_mut_view(b: bytes::BytesMut) -> Seq<u8>;

/// The bytes held by a `bytes::Bytes`, in order.
pub uninterp spec fn bytes_view(b: bytes::Bytes) -> Seq<u8>;

/// Relies on `BytesMut::new`: creates an empty buffer.
#[verifier::external_body]
pub(crate) fn bm_new() -> (r: bytes::BytesMut)
    ensures
        bytes_mut_view(r) == Seq::<u8>::empty(),
{
    bytes::BytesMut::new()
}

/// Relies on `BytesMut::len`: the number of bytes held.
#[verifier::external_body]
pub(crate) fn bm_len(b: &bytes::BytesMut) -> (r: usize)
    ensures
        r == bytes_mut_view(*b).len(),
{
    b.len()
}

/// Relies on `BytesMut::resize`: truncates to `new_len` bytes, or extends
/// with copies of `value` up to `new_len` bytes.
#[verifier::external_body]
pub(crate) fn bm_resize(b: &mut bytes::BytesMut, new_len: usize, value: u8)
    ensures
        new_len <= bytes_mut_view(*old(b)).len() ==> bytes_mut_view(*final(b))
            == bytes_mut_view(*old(b)).take(new_len as int),
        new_len > bytes_mut_view(*old(b)).len() ==> bytes_mut_view(*final(b))
            == bytes_mut_view(*old(b)) + Seq::new(
            (new_len - bytes_mut_view(*old(b)).len()) as nat,
            |i: int| value,
        ),
{
    b.resize(new_len, value)
}

/// Relies on `BytesMut::clear`: removes all bytes.
#[verifier::external_body]
pub(crate) fn bm_clear(b: &mut bytes::BytesMut)
    ensures
        bytes_mut_view(*final(b)) == Seq::<u8>::empty(),
{
    b.clear()
}

/// Relies on `BytesMut::split_to`: splits off and returns the first `at`
/// bytes, leaving the rest. Panics if `at` is past the end, so that case is
/// excluded here.
#[verifier::external_body]
pub(crate) fn bm_split_to(b: &mut bytes::BytesMut, at: usize) -> (r: bytes::BytesMut)
    requires
        at <= bytes_mut_view(*old(b)).len(),
    ensures
        bytes_mut_view(r) == bytes_mut_view(*old(b)).take(at as int),
        bytes_mut_view(*final(b)) == bytes_mut_view(*old(b)).skip(at as int),
{
    b.split_to(at)
}

/// Relies on `Buf::advance` for `BytesMut`: discards the first `cnt` bytes.
/// Panics past the end, so that case is excluded here.
#[verifier::external_body]
pub(crate) fn bm_advance(b: &mut bytes::BytesMut, cnt: usize)
    requires
        cnt <= bytes_mut_view(*old(b)).len(),
    ensures
        bytes_mut_view(*final(b)) == bytes_mut_view(*old(b)).skip(cnt as int),
{
    b.advance(cnt)
}

/// Relies on `Buf::get_u32_le` for `BytesMut`: consumes the first four bytes
/// and returns them as a little-endian unsigned integer. Panics on fewer
/// than four bytes, so that case is excluded here.
#[verifier::external_body]
pub(crate) fn bm_get_u32_le(b: &mut bytes::BytesMut) -> (r: u32)
    requires
        bytes_mut_view(*old(b)).len() >= 4,
    ensures
        r == spec_u32_from_le_bytes(bytes_mut_view(*old(b)).take(4)),
        bytes_mut_view(*final(b)) == bytes_mut_view(*old(b)).skip(4),
{
    b.get_u32_le()
}

/// Relies on `BytesMut::freeze`: converts to an immutable `Bytes` holding
/// the same contents.
#[verifier::external_body]
pub(crate) fn bm_freeze(b: bytes::BytesMut) -> (r: bytes::Bytes)
    ensures
        bytes_view(r) == bytes_mut_view(b),
{
    b.freeze()
}

/// Relies on `<BytesMut as AsRef<[u8]>>::as_ref`: a slice of the contents.
#[verifier::external_body]
pub(crate) fn bm_as_slice(b: &bytes::BytesMut) -> (r: &[u8])
    ensures
        r@ == bytes_mut_view(*b),
{
    b.as_ref()
}

/// Relies on `BytesMut::extend_from_slice`: appends a copy of the slice.
#[verifier::external_body]
pub(crate) fn bm_extend_from_slice(b: &mut bytes::BytesMut, src: &[u8])
    ensures
        bytes_mut_view(*final(b)) == bytes_mut_view(*old(b)) + src@,
{
    b.extend_from_slice(src)
}

/// Relies on `<Bytes as AsRef<[u8]>>::as_ref`: a slice of the contents.
#[verifier::external_body]
pub(crate) fn bytes_as_slice(b: &bytes::Bytes) -> (r: &[u8])
    ensures
        r@ == bytes_view(*b),
{
    b.as_ref()
}

} // verus!

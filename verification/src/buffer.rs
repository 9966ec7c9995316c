use vstd::prelude::*;
use bytes::BytesMut;

verus! {

/// The bytes a `bytes::BytesMut` currently holds, oldest first.
pub uninterp spec fn bytes_view(b: BytesMut) -> Seq<u8>;

#[verifier::external_type_specification]
#[verifier::external_body]
pub struct ExBytesMut(BytesMut);

/// Relies on `BytesMut::new`: a fresh buffer holds nothing.
#[verifier::external_body]
pub(crate) fn bytes_new() -> (b: BytesMut)
    ensures
        bytes_view(b) == Seq::<u8>::empty(),
{
    BytesMut::new()
}

/// Relies on `BytesMut::len`: the number of bytes the buffer holds.
#[verifier::external_body]
pub(crate) fn bytes_len(b: &BytesMut) -> (n: usize)
    ensures
        n == bytes_view(*b).len(),
{
    b.len()
}

/// Relies on `BytesMut::is_empty`: whether the buffer holds no byte.
#[verifier::external_body]
pub(crate) fn bytes_is_empty(b: &BytesMut) -> (r: bool)
    ensures
        r == (bytes_view(*b).len() == 0),
{
    b.is_empty()
}

/// Relies on `BytesMut::extend_from_slice`: appends `data` after the
/// bytes already held, keeping their order.
#[verifier::external_body]
pub(crate) fn bytes_extend(b: &mut BytesMut, data: &[u8])
    ensures
        bytes_view(*final(b)) == bytes_view(*old(b)) + data@,
{
    b.extend_from_slice(data)
}

/// Relies on `BytesMut::split`: takes all held bytes out, in order,
/// leaving the buffer empty.
#[verifier::external_body]
pub(crate) fn bytes_split(b: &mut BytesMut) -> (taken: BytesMut)
    ensures
        bytes_view(taken) == bytes_view(*old(b)),
        bytes_view(*final(b)) == Seq::<u8>::empty(),
{
    b.split()
}

/// Relies on `<BytesMut as AsRef<[u8]>>::as_ref`: a view of the held
/// bytes as a slice, in order.
#[verifier::external_body]
pub(crate) fn bytes_as_slice(b: &BytesMut) -> (s: &[u8])
    ensures
        s@ == bytes_view(*b),
{
    b.as_ref()
}

} // verus!

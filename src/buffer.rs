//! The byte buffers that flow through the importer are `bytes::Bytes`: a cheaply
//! cloned, advance-only view over shared memory.
use bytes::Bytes;
use vstd::prelude::*;

verus! {

/// Declares `bytes::Bytes` to Verus as an opaque type; what it holds is `bytes_contents`.
#[verifier::external_type_specification]
#[verifier::external_body]
pub struct ExBytes(bytes::Bytes);

/// The bytes that a buffer holds, front first.
pub uninterp spec fn bytes_contents(b: Bytes) -> Seq<u8>;

/// Relies on `<Bytes as AsRef<[u8]>>::as_ref`: the slice of the bytes the buffer holds.
#[verifier::external_body]
pub(crate) fn bytes_as_slice(b: &Bytes) -> (r: &[u8])
    ensures
        r@ == bytes_contents(*b),
{
    b.as_ref()
}

/// Relies on `<Bytes as Buf>::advance`: drops the first `n` bytes (it panics past the end).
#[verifier::external_body]
pub(crate) fn bytes_advance(b: &mut Bytes, n: usize)
    requires
        n <= bytes_contents(*old(b)).len(),
    ensures
        bytes_contents(*final(b)) == bytes_contents(*old(b)).skip(n as int),
{
    bytes::Buf::advance(b, n)
}

/// Relies on `<Bytes as Buf>::copy_to_bytes`, which splits off the first `n` bytes without
/// copying them (it panics past the end).
#[verifier::external_body]
pub(crate) fn bytes_take_front(b: &mut Bytes, n: usize) -> (r: Bytes)
    requires
        n <= bytes_contents(*old(b)).len(),
    ensures
        bytes_contents(r) == bytes_contents(*old(b)).take(n as int),
        bytes_contents(*final(b)) == bytes_contents(*old(b)).skip(n as int),
{
    bytes::Buf::copy_to_bytes(b, n)
}

} // verus!

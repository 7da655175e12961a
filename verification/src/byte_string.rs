//! Shared strings of bytes, kept with the `bytes` crate.
use bytes::Bytes;
use vstd::prelude::*;

verus! {

/// The type `bytes::Bytes`.
#[verifier::external_type_specification]
#[verifier::external_body]
pub struct ExBytes(bytes::Bytes);

/// The bytes that a `Bytes` holds.
pub uninterp spec fn held(bytes: bytes::Bytes) -> Seq<u8>;

/// `Bytes::new` holds nothing.
pub assume_specification[ bytes::Bytes::new ]() -> (bytes: bytes::Bytes)
    ensures
        held(bytes) == Seq::<u8>::empty(),
;

/// `Bytes::len` counts the bytes held.
pub assume_specification[ bytes::Bytes::len ](bytes: &bytes::Bytes) -> (len: usize)
    ensures
        len == held(*bytes).len(),
;

/// `Bytes::is_empty` tells whether no byte is held.
pub assume_specification[ bytes::Bytes::is_empty ](bytes: &bytes::Bytes) -> (empty: bool)
    ensures
        empty == (held(*bytes).len() == 0),
;

/// `Bytes::copy_from_slice` holds a copy of the slice.
pub assume_specification[ bytes::Bytes::copy_from_slice ](data: &[u8]) -> (bytes: bytes::Bytes)
    ensures
        held(bytes) == data@,
;

/// `Bytes::from` holds what the vector holds.
#[verifier::external_body]
pub(crate) fn bytes_from(data: Vec<u8>) -> (bytes: Bytes)
    ensures
        held(bytes) == data@,
{
    Bytes::from(data)
}

/// `Bytes::slice` holds the part from `begin` up to, not including, `end`. It
/// panics where there is no such part.
#[verifier::external_body]
pub(crate) fn bytes_part(bytes: &Bytes, begin: usize, end: usize) -> (part: Bytes)
    requires
        begin <= end <= held(*bytes).len(),
    ensures
        held(part) == held(*bytes).subrange(begin as int, end as int),
{
    bytes.slice(begin..end)
}

} // verus!

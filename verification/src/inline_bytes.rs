//! The fixed-capacity byte vector in which extension chains and plain-text
//! names are kept, and what this library believes of it.
//!
//! `arrayvec::ArrayVec` stores its elements inline and is not verified here.
//! The items below are the whole of what the proofs assume about it.
use arrayvec::ArrayVec;
use vstd::prelude::*;

verus! {

/// Most bytes that an extension chain or a plain-text name can hold.
pub const INLINE_CAPACITY: usize = 10;

/// Makes `arrayvec::ArrayVec` known to the verifier as an opaque type.
#[verifier::external_type_specification]
#[verifier::external_body]
#[verifier::reject_recursive_types(T)]
pub struct ExArrayVec<T, const CAP: usize>(ArrayVec<T, CAP>);

/// The bytes that an `ArrayVec<u8, 10>` holds, first pushed first.
pub uninterp spec fn bytes_of(v: ArrayVec<u8, 10>) -> Seq<u8>;

/// `ArrayVec::new`: the new vector holds nothing.
#[verifier::external_body]
pub(crate) fn new_bytes() -> (v: ArrayVec<u8, 10>)
    ensures
        bytes_of(v) == Seq::<u8>::empty(),
{
    ArrayVec::new()
}

/// `ArrayVec::push`: the byte is appended behind those already held. The call
/// panics on a full vector, so a caller has to know that there is room.
#[verifier::external_body]
pub(crate) fn push_byte(v: &mut ArrayVec<u8, 10>, byte: u8)
    requires
        bytes_of(*old(v)).len() < INLINE_CAPACITY,
    ensures
        bytes_of(*final(v)) == bytes_of(*old(v)).push(byte),
{
    v.push(byte)
}

/// `ArrayVec::len`: the number of bytes held, which never exceeds the capacity.
#[verifier::external_body]
pub(crate) fn byte_count(v: &ArrayVec<u8, 10>) -> (n: usize)
    ensures
        n == bytes_of(*v).len(),
        n <= INLINE_CAPACITY,
{
    v.len()
}

/// `ArrayVec::as_slice`: the bytes held, as a slice.
#[verifier::external_body]
pub(crate) fn bytes_as_slice(v: &ArrayVec<u8, 10>) -> (s: &[u8])
    ensures
        s@ == bytes_of(*v),
{
    v.as_slice()
}

} // verus!

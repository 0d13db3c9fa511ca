//! The command line buffer: a `heapless::Vec` of bytes with room for eight, seen by the proofs
//! through the sequence of bytes it holds.
use vstd::prelude::*;

verus! {

/// Number of bytes the command line buffer can hold.
pub const CAPACITY: usize = 8;

#[verifier::external_type_specification]
#[verifier::external_body]
#[verifier::reject_recursive_types(T)]
pub struct ExHeaplessVec<T, const N: usize>(heapless::Vec<T, N>);

/// The bytes held by a line buffer, in order.
pub uninterp spec fn held(v: heapless::Vec<u8, 8>) -> Seq<u8>;

/// Relies on `heapless::Vec::new`: a new vector holds nothing.
#[verifier::external_body]
pub(crate) fn buffer_new() -> (r: heapless::Vec<u8, 8>)
    ensures
        held(r) == Seq::<u8>::empty(),
{
    heapless::Vec::new()
}

/// Relies on `heapless::Vec::push`, which does not panic: below the capacity the byte is appended and `Ok` returned;
/// at the capacity nothing changes and the byte is handed back in `Err`.
#[verifier::external_body]
pub(crate) fn buffer_push(v: &mut heapless::Vec<u8, 8>, byte: u8) -> (r: Result<(), u8>)
    ensures
        r == (if held(*old(v)).len() < CAPACITY { Ok::<(), u8>(()) } else { Err(byte) }),
        held(*final(v)) == (if held(*old(v)).len() < CAPACITY { held(*old(v)).push(byte) } else { held(*old(v)) }),
    no_unwind
{
    v.push(byte)
}

/// Relies on `heapless::Vec::pop`, which does not panic: removes and returns the last byte, or returns `None` and
/// changes nothing when the vector is empty.
#[verifier::external_body]
pub(crate) fn buffer_pop(v: &mut heapless::Vec<u8, 8>) -> (r: Option<u8>)
    ensures
        r == (if held(*old(v)).len() > 0 { Some(held(*old(v)).last()) } else { None }),
        held(*final(v)) == (if held(*old(v)).len() > 0 { held(*old(v)).drop_last() } else { held(*old(v)) }),
    no_unwind
{
    v.pop()
}

/// Relies on `heapless::Vec::clear`, which does not panic on bytes: afterwards the vector holds nothing.
#[verifier::external_body]
pub(crate) fn buffer_clear(v: &mut heapless::Vec<u8, 8>)
    ensures
        held(*final(v)) == Seq::<u8>::empty(),
    no_unwind
{
    v.clear()
}

/// Relies on `heapless::Vec::as_slice`: the bytes held, in order.
#[verifier::external_body]
pub(crate) fn buffer_bytes(v: &heapless::Vec<u8, 8>) -> (r: &[u8])
    ensures
        r@ == held(*v),
{
    v.as_slice()
}

} // verus!

//! The fixed-capacity ring storage that holds a channel's bytes, provided by the `ringbuf` crate.
//!
//! Its contents are spoken of through two names: the bytes it holds, oldest first, and the number
//! of bytes it was made to hold.

use vstd::prelude::*;
use ringbuf::HeapRb;

verus! {

/// A ring storage of bytes, held whole: Verus does not take `ringbuf`'s own type in a field.
#[verifier::external_body]
pub struct ByteRing {
    rb: HeapRb<u8>,
}

/// The bytes that a ring storage holds, oldest first.
pub uninterp spec fn stored(rb: ByteRing) -> Seq<u8>;

/// The number of bytes that a ring storage was made to hold.
pub uninterp spec fn room(rb: ByteRing) -> nat;

/// Relies on `HeapRb::new`: an empty storage of the given capacity (it panics on zero).
#[verifier::external_body]
pub(crate) fn storage_new(capacity: usize) -> (rb: ByteRing)
    requires
        capacity > 0,
    ensures
        stored(rb) == Seq::<u8>::empty(),
        room(rb) == capacity,
{
    ByteRing { rb: HeapRb::new(capacity) }
}

/// Relies on `Rb::capacity`: the capacity that the storage was made with.
#[verifier::external_body]
pub(crate) fn storage_capacity(rb: &ByteRing) -> (r: usize)
    ensures
        r == room(*rb),
{
    ringbuf::Rb::capacity(&rb.rb)
}

/// Relies on `Rb::len`: the number of bytes held.
#[verifier::external_body]
pub(crate) fn storage_len(rb: &ByteRing) -> (r: usize)
    ensures
        r == stored(*rb).len(),
{
    ringbuf::Rb::len(&rb.rb)
}

/// Relies on `Rb::free_len`: the number of places left.
#[verifier::external_body]
pub(crate) fn storage_free_len(rb: &ByteRing) -> (r: usize)
    requires
        stored(*rb).len() <= room(*rb),
    ensures
        r == room(*rb) - stored(*rb).len(),
{
    ringbuf::Rb::free_len(&rb.rb)
}

/// Relies on `RbBase::is_empty`: whether no byte is held.
#[verifier::external_body]
pub(crate) fn storage_is_empty(rb: &ByteRing) -> (r: bool)
    ensures
        r == (stored(*rb).len() == 0),
{
    ringbuf::ring_buffer::RbBase::is_empty(&rb.rb)
}

/// Relies on `RbBase::is_full`: whether no place is left.
#[verifier::external_body]
pub(crate) fn storage_is_full(rb: &ByteRing) -> (r: bool)
    requires
        stored(*rb).len() <= room(*rb),
    ensures
        r == (stored(*rb).len() == room(*rb)),
{
    ringbuf::ring_buffer::RbBase::is_full(&rb.rb)
}

/// Relies on `Rb::push_slice`: appends all of `src` (it panics when `src` does not fit).
#[verifier::external_body]
pub(crate) fn storage_push_slice(rb: &mut ByteRing, src: &[u8])
    requires
        stored(*old(rb)).len() + src@.len() <= room(*old(rb)),
    ensures
        stored(*final(rb)) == stored(*old(rb)) + src@,
        room(*final(rb)) == room(*old(rb)),
{
    ringbuf::Rb::push_slice(&mut rb.rb, src)
}

/// Relies on `Rb::pop_slice`: moves the oldest `dst.len()` bytes into `dst` (it panics when fewer
/// are held).
#[verifier::external_body]
pub(crate) fn storage_pop_slice(rb: &mut ByteRing, dst: &mut [u8])
    requires
        old(dst)@.len() <= stored(*old(rb)).len(),
    ensures
        final(dst)@ == stored(*old(rb)).take(old(dst)@.len() as int),
        stored(*final(rb)) == stored(*old(rb)).skip(old(dst)@.len() as int),
        room(*final(rb)) == room(*old(rb)),
{
    ringbuf::Rb::pop_slice(&mut rb.rb, dst)
}

} // verus!

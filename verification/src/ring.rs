//! The circular buffer that backs every delay line.
//!
//! The buffer is `circular_buffer::HeapCircularBuffer`, with 64-bit words for
//! items. Nothing in this file is proved: each contract restates what the
//! buffer's source shows, over the two names `ring_items` and `ring_limit`.
//! Everything else in the crate is proved from these contracts.

use circular_buffer::HeapCircularBuffer;
use vstd::prelude::*;

verus! {

#[verifier::external_type_specification]
#[verifier::external_body]
#[verifier::reject_recursive_types(T)]
pub struct ExHeapCircularBuffer<T>(HeapCircularBuffer<T>);

/// The words that a ring holds, front first.
pub uninterp spec fn ring_items(ring: HeapCircularBuffer<u64>) -> Seq<u64>;

/// The capacity that a ring was made with.
pub uninterp spec fn ring_limit(ring: HeapCircularBuffer<u64>) -> nat;

/// The largest capacity that this crate asks a ring for. A ring of that many
/// words has a layout on a 32-bit target too.
pub const MAX_CAPACITY: usize = 16_777_216;

/// What a ring of capacity `limit` holds after `word` was pushed at its back:
/// the word is appended, and a full ring first gives up its front item. A
/// ring without capacity stays empty.
pub open spec fn pushed_back(items: Seq<u64>, limit: nat, word: u64) -> Seq<u64> {
    if limit == 0 {
        items
    } else if items.len() >= limit {
        items.drop_first().push(word)
    } else {
        items.push(word)
    }
}

/// What a ring of capacity `limit` holds after `word` was pushed at its
/// front: the word comes first, and a full ring first gives up its back item.
/// A ring without capacity stays empty.
pub open spec fn pushed_front(items: Seq<u64>, limit: nat, word: u64) -> Seq<u64> {
    if limit == 0 {
        items
    } else if items.len() >= limit {
        seq![word] + items.drop_last()
    } else {
        seq![word] + items
    }
}

/// `HeapCircularBuffer::with_capacity`: an empty ring of the given capacity.
/// The call panics where a ring of that capacity would take more than
/// `isize::MAX` bytes, which the bound rules out.
#[verifier::external_body]
pub(crate) fn ring_with_capacity(capacity: usize) -> (ring: HeapCircularBuffer<u64>)
    requires
        capacity <= MAX_CAPACITY,
    ensures
        ring_items(ring) == Seq::<u64>::empty(),
        ring_limit(ring) == capacity,
{
    HeapCircularBuffer::with_capacity(capacity)
}

/// `CircularBuffer::push_back`: appends `word` at the back. A full ring
/// drops its front item to make room, and returns it; a ring without capacity
/// takes nothing and returns the word itself. The capacity stays. The call
/// does not panic: what it checks is the buffer's own bookkeeping.
#[verifier::external_body]
pub(crate) fn ring_push_back(ring: &mut HeapCircularBuffer<u64>, word: u64) -> (evicted: Option<u64>)
    ensures
        ring_limit(*final(ring)) == ring_limit(*old(ring)),
        ring_items(*final(ring)) == pushed_back(
            ring_items(*old(ring)),
            ring_limit(*old(ring)),
            word,
        ),
        evicted == if ring_limit(*old(ring)) == 0 {
            Some(word)
        } else if ring_items(*old(ring)).len() >= ring_limit(*old(ring)) {
            Some(ring_items(*old(ring)).first())
        } else {
            None
        },
    no_unwind
{
    ring.push_back(word)
}

/// `CircularBuffer::push_front`: inserts `word` at the front. A full ring
/// drops its back item to make room, and returns it; a ring without capacity
/// takes nothing and returns the word itself. The capacity stays. The call
/// does not panic: what it checks is the buffer's own bookkeeping.
#[verifier::external_body]
pub(crate) fn ring_push_front(ring: &mut HeapCircularBuffer<u64>, word: u64) -> (evicted: Option<u64>)
    ensures
        ring_limit(*final(ring)) == ring_limit(*old(ring)),
        ring_items(*final(ring)) == pushed_front(
            ring_items(*old(ring)),
            ring_limit(*old(ring)),
            word,
        ),
        evicted == if ring_limit(*old(ring)) == 0 {
            Some(word)
        } else if ring_items(*old(ring)).len() >= ring_limit(*old(ring)) {
            Some(ring_items(*old(ring)).last())
        } else {
            None
        },
    no_unwind
{
    ring.push_front(word)
}

/// `CircularBuffer::get`: a copy of the item at `index`, counted from the
/// front, or `None` where the ring holds no more than `index` items.
#[verifier::external_body]
pub(crate) fn ring_get(ring: &HeapCircularBuffer<u64>, index: usize) -> (word: Option<u64>)
    ensures
        word == if index < ring_items(*ring).len() {
            Some(ring_items(*ring)[index as int])
        } else {
            None
        },
{
    ring.get(index).copied()
}

} // verus!

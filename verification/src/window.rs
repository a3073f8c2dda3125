//! The window of recent samples that the writer keeps for analysis, held in
//! a fixed-size ring of the crate `circular_buffer`.

use circular_buffer::CircularBuffer;
use vstd::prelude::*;

verus! {

/// Number of samples that the analysis window holds.
pub const WINDOW_SIZE: usize = 8192;

/// The ring of the crate `circular_buffer`.
#[verifier::external_type_specification]
#[verifier::external_body]
#[verifier::reject_recursive_types(T)]
pub struct ExCircularBuffer<const N: usize, T>(CircularBuffer<N, T>);

/// The samples that a window holds, oldest first.
pub uninterp spec fn window_items(ring: CircularBuffer<WINDOW_SIZE, i32>) -> Seq<i32>;

/// A ring of the given size after one more item: the item goes to the
/// back, and once the ring is full the oldest item leaves at the front.
pub open spec fn slid<T>(items: Seq<T>, item: T, size: nat) -> Seq<T> {
    if items.len() < size {
        items.push(item)
    } else {
        items.skip(1).push(item)
    }
}

/// Calls `CircularBuffer::new`, which returns a ring without items.
#[verifier::external_body]
pub(crate) fn window_new() -> (ring: CircularBuffer<WINDOW_SIZE, i32>)
    ensures
        window_items(ring) == Seq::<i32>::empty(),
{
    CircularBuffer::new()
}

/// Calls `CircularBuffer::push_back`, which appends the item at the back
/// and, where the ring already holds as many items as it has room for,
/// overwrites the item at the front. A ring never holds more than its size,
/// and the call does not panic.
#[verifier::external_body]
pub(crate) fn window_push(ring: &mut CircularBuffer<WINDOW_SIZE, i32>, sample: i32)
    ensures
        window_items(*final(ring)) == slid(window_items(*old(ring)), sample, WINDOW_SIZE as nat),
        window_items(*final(ring)).len() <= WINDOW_SIZE,
    no_unwind
{
    ring.push_back(sample);
}

/// Calls `CircularBuffer::is_full`, which tells whether the number of items
/// equals the size of the ring.
#[verifier::external_body]
pub(crate) fn window_is_full(ring: &CircularBuffer<WINDOW_SIZE, i32>) -> (full: bool)
    ensures
        full == (window_items(*ring).len() == WINDOW_SIZE),
{
    ring.is_full()
}

/// Calls `CircularBuffer::to_vec`, which copies the items, front to back,
/// into a vector.
#[verifier::external_body]
pub(crate) fn window_to_vec(ring: &CircularBuffer<WINDOW_SIZE, i32>) -> (items: Vec<i32>)
    ensures
        items@ == window_items(*ring),
{
    ring.to_vec()
}

} // verus!

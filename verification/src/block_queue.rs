//! Trusted interface to `circular_queue::CircularQueue`, the fixed-capacity
//! queue of per-block sums used by the RMS detector's block cache. Once the
//! capacity is reached, each push evicts the oldest entry.

use vstd::prelude::*;

verus! {

#[verifier::external_type_specification]
#[verifier::external_body]
#[verifier::reject_recursive_types(T)]
pub struct ExCircularQueue<T>(circular_queue::CircularQueue<T>);

/// The entries currently held by the queue, oldest first.
pub uninterp spec fn queue_items(q: circular_queue::CircularQueue<u64>) -> Seq<u64>;

/// The capacity the queue was created with.
pub uninterp spec fn queue_capacity(q: circular_queue::CircularQueue<u64>) -> int;

/// Relies on `CircularQueue::with_capacity`: a fresh queue holds no entries
/// and remembers the requested capacity.
#[verifier::external_body]
pub fn cq_with_capacity(capacity: usize) -> (q: circular_queue::CircularQueue<u64>)
    ensures
        queue_items(q) == Seq::<u64>::empty(),
        queue_capacity(q) == capacity,
{
    circular_queue::CircularQueue::with_capacity(capacity)
}

/// Relies on `CircularQueue::push`: below capacity the entry is appended;
/// at capacity the oldest entry is replaced and handed back.
#[verifier::external_body]
pub fn cq_push(q: &mut circular_queue::CircularQueue<u64>, x: u64) -> (evicted: Option<u64>)
    requires
        queue_capacity(*old(q)) >= 1,
        queue_items(*old(q)).len() <= queue_capacity(*old(q)),
    ensures
        queue_capacity(*final(q)) == queue_capacity(*old(q)),
        if queue_items(*old(q)).len() < queue_capacity(*old(q)) {
            evicted is None && queue_items(*final(q)) == queue_items(*old(q)).push(x)
        } else {
            evicted == Some(queue_items(*old(q))[0]) && queue_items(*final(q)) == queue_items(
                *old(q),
            ).skip(1).push(x)
        },
{
    q.push(x)
}

/// Relies on `CircularQueue::len`: the number of entries held.
#[verifier::external_body]
pub fn cq_len(q: &circular_queue::CircularQueue<u64>) -> (n: usize)
    ensures
        n == queue_items(*q).len(),
{
    q.len()
}

/// Relies on `CircularQueue::is_full`: whether the entry count has reached
/// the capacity.
#[verifier::external_body]
pub fn cq_is_full(q: &circular_queue::CircularQueue<u64>) -> (full: bool)
    ensures
        full == (queue_items(*q).len() == queue_capacity(*q)),
{
    q.is_full()
}

/// Relies on `CircularQueue::clear`: all entries are removed and the capacity
/// is kept; nothing is deallocated.
#[verifier::external_body]
pub fn cq_clear(q: &mut circular_queue::CircularQueue<u64>)
    ensures
        queue_items(*final(q)) == Seq::<u64>::empty(),
        queue_capacity(*final(q)) == queue_capacity(*old(q)),
{
    q.clear()
}

} // verus!

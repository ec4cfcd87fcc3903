//! The unbounded-queue pool: idle values sit in a lock-free
//! multi-producer multi-consumer FIFO queue with no intrinsic capacity
//! limit; the ceiling is enforced by a separate, best-effort length check
//! before each push.

use vstd::prelude::*;
use std::sync::Arc;

use crate::{checkout_value, should_recycle, Clear, PoolObjectContainer};

verus! {

#[verifier::external_type_specification]
#[verifier::external_body]
#[verifier::reject_recursive_types(T)]
pub struct ExSegQueue<T>(crossbeam::queue::SegQueue<T>);

/// Relies on crossbeam's SegQueue::new: an empty queue.
#[verifier::external_body]
fn queue_new<T>() -> crossbeam::queue::SegQueue<T> {
    crossbeam::queue::SegQueue::new()
}

/// Relies on crossbeam's SegQueue::pop: takes the least recently pushed
/// value, or nothing when the queue is observed empty; the call has no
/// panic path.
#[verifier::external_body]
fn queue_pop<T>(q: &crossbeam::queue::SegQueue<T>) -> Option<T>
    opens_invariants none
    no_unwind
{
    q.pop()
}

/// Relies on crossbeam's SegQueue::push: appends the value; the queue is
/// unbounded, so a push always succeeds.  A push may allocate a new
/// block; running out of memory there aborts rather than unwinds.
#[verifier::external_body]
fn queue_push<T>(q: &crossbeam::queue::SegQueue<T>, v: T)
    opens_invariants none
    no_unwind
{
    q.push(v)
}

/// Relies on crossbeam's SegQueue::len: the number of values in the
/// queue at some moment during the call; the call has no panic path.
#[verifier::external_body]
fn queue_len<T>(q: &crossbeam::queue::SegQueue<T>) -> usize
    opens_invariants none
    no_unwind
{
    q.len()
}

/// An object pool whose idle values sit in a lock-free unbounded queue.
///
/// Reuse is FIFO.  Because the store itself never refuses a push, the
/// `max_size` ceiling rests on a length check made just before pushing,
/// and that check can race with concurrent releases: the occupancy can
/// transiently overshoot the ceiling by at most the number of releases in
/// flight at that moment.
#[verifier::reject_recursive_types(T)]
pub struct PoolSegQueue<T> {
    values: crossbeam::queue::SegQueue<T>,
    max_size: usize,
}

impl<T> PoolSegQueue<T> {
    /// The most idle values the pool aims to hold.
    pub closed spec fn spec_max_size(self) -> usize {
        self.max_size
    }
}

impl<T> PoolSegQueue<T> where T: Default + Clear {
    /// A pool that keeps at most `max_size` idle values.
    pub fn new(max_size: usize) -> (r: Self)
        ensures
            r.spec_max_size() == max_size,
    {
        PoolSegQueue { values: queue_new(), max_size }
    }

    /// Check a value out, recycling an idle one when there is one and
    /// default-constructing otherwise.  Never fails; the checked-out
    /// value is cleared or freshly default-constructed.
    pub fn create(self: &Arc<Self>) -> (r: PoolObjectContainer<T>)
        ensures
            r.is_live(),
            r.returns_to_unbounded(**self),
            r.value()@ == T::cleared() || T::default.ensures((), r.value()),
    {
        self.create_with(|| -> (t: T)
            ensures
                T::default.ensures((), t),
            { Default::default() })
    }

    /// Check a value out, recycling an idle one when there is one and
    /// calling the factory otherwise.  On a recycle the factory is not
    /// invoked and the recycled value keeps its prior allocation shape:
    /// the factory's requested shape must not be assumed to take effect.
    pub fn create_with<F: FnOnce() -> T>(self: &Arc<Self>, f: F) -> (r: PoolObjectContainer<T>)
        requires
            f.requires(()),
        ensures
            r.is_live(),
            r.returns_to_unbounded(**self),
            r.value()@ == T::cleared() || f.ensures((), r.value()),
    {
        let popped = queue_pop(&self.values);
        let val = checkout_value(popped, f);
        PoolObjectContainer::new_from_unbounded(val, self)
    }

    /// The number of idle values currently stored, not counting values
    /// held by live checkouts.  Under concurrency the answer may be stale
    /// by the time it is returned; it is advisory only.
    pub fn len(&self) -> usize {
        queue_len(&self.values)
    }
}

impl<T> PoolSegQueue<T> where T: Clear {
    /// Push a released value back, or discard it when the pool is full.
    /// The occupancy check and the push are separate steps, so under
    /// concurrent releases the ceiling is best-effort only.
    pub(crate) fn return_value(&self, val: T)
        opens_invariants none
        no_unwind
    {
        let occupancy = queue_len(&self.values);
        if should_recycle(occupancy, self.max_size) {
            queue_push(&self.values, val);
        }
    }
}

impl<T: Default + Clear> Default for PoolSegQueue<T> {
    fn default() -> (r: Self)
        ensures
            r.spec_max_size() == 1024,
    {
        Self::new(1024)
    }
}

} // verus!

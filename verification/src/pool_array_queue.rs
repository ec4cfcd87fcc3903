//! The bounded-ring pool: idle values sit in a lock-free ring of fixed
//! capacity, sized to `max_size` at construction, so the capacity ceiling
//! is enforced by the ring itself, exactly and without a separate check.

use vstd::prelude::*;
use std::sync::Arc;

use crate::{checkout_value, should_recycle, Clear, PoolObjectContainer};

verus! {

#[verifier::external_type_specification]
#[verifier::external_body]
#[verifier::reject_recursive_types(T)]
pub struct ExArrayQueue<T>(crossbeam::queue::ArrayQueue<T>);

/// Relies on crossbeam's ArrayQueue::new: an empty ring with exactly
/// `cap` slots.  The call panics on a zero capacity, and on a capacity so
/// large that no power of two above it fits in a machine word; both are
/// kept out by the precondition.
#[verifier::external_body]
fn ring_new<T>(cap: usize) -> crossbeam::queue::ArrayQueue<T>
    requires
        0 < cap < usize::MAX / 2,
{
    crossbeam::queue::ArrayQueue::new(cap)
}

/// Relies on crossbeam's ArrayQueue::pop: takes the least recently
/// pushed value, or nothing when the ring is observed empty; the call has
/// no panic path.
#[verifier::external_body]
fn ring_pop<T>(q: &crossbeam::queue::ArrayQueue<T>) -> Option<T>
    opens_invariants none
    no_unwind
{
    q.pop()
}

/// Relies on crossbeam's ArrayQueue::push: appends the value, or hands
/// the very same value back when the ring is full.  The ring never
/// allocates after construction and the call has no panic path.
#[verifier::external_body]
fn ring_push<T>(q: &crossbeam::queue::ArrayQueue<T>, v: T) -> (r: Result<(), T>)
    ensures
        r matches Err(w) ==> w == v,
    opens_invariants none
    no_unwind
{
    q.push(v)
}

/// Relies on crossbeam's ArrayQueue::len: the number of values in the
/// ring at some moment during the call; the call has no panic path.
#[verifier::external_body]
fn ring_len<T>(q: &crossbeam::queue::ArrayQueue<T>) -> usize
    opens_invariants none
    no_unwind
{
    q.len()
}

/// An object pool whose idle values sit in a lock-free ring of fixed
/// capacity.
///
/// The ring is sized to `max_size` when the pool is built, so the
/// capacity ceiling is intrinsic: once the ring is full a push fails and
/// the released value is discarded, with no racy length check involved.
#[verifier::reject_recursive_types(T)]
pub struct PoolArrayQueue<T> {
    values: crossbeam::queue::ArrayQueue<T>,
    max_size: usize,
}

impl<T> PoolArrayQueue<T> {
    /// The most idle values the pool will hold.
    pub closed spec fn spec_max_size(self) -> usize {
        self.max_size
    }
}

impl<T> PoolArrayQueue<T> where T: Default + Clear {
    /// A pool that keeps at most `capacity` idle values, with exactly
    /// that many slots pre-allocated.
    pub fn new(capacity: usize) -> (r: Self)
        requires
            0 < capacity < usize::MAX / 2,
        ensures
            r.spec_max_size() == capacity,
    {
        PoolArrayQueue { values: ring_new(capacity), max_size: capacity }
    }

    /// Check a value out, recycling an idle one when there is one and
    /// default-constructing otherwise.  Never fails; the checked-out
    /// value is cleared or freshly default-constructed.
    pub fn create(self: &Arc<Self>) -> (r: PoolObjectContainer<T>)
        ensures
            r.is_live(),
            r.returns_to_bounded(**self),
            r.value()@ == T::cleared() || T::default.ensures((), r.value()),
    {
        self.create_with(|| -> (t: T)
            ensures
                T::default.ensures((), t),
            { Default::default() })
    }

    /// Check a value out, recycling an idle one when there is one and
    /// calling the factory otherwise.  On a recycle the factory is not
    /// invoked and the recycled value keeps its prior allocation shape:
    /// the factory's requested shape must not be assumed to take effect.
    pub fn create_with<F: FnOnce() -> T>(self: &Arc<Self>, f: F) -> (r: PoolObjectContainer<T>)
        requires
            f.requires(()),
        ensures
            r.is_live(),
            r.returns_to_bounded(**self),
            r.value()@ == T::cleared() || f.ensures((), r.value()),
    {
        let popped = ring_pop(&self.values);
        let val = checkout_value(popped, f);
        PoolObjectContainer::new_from_bounded(val, self)
    }

    /// The number of idle values currently stored, not counting values
    /// held by live checkouts.  Under concurrency the answer may be stale
    /// by the time it is returned; it is advisory only.
    pub fn len(&self) -> usize {
        ring_len(&self.values)
    }
}

impl<T> PoolArrayQueue<T> where T: Clear {
    /// Push a released value back, or discard it when the pool is full.
    /// Even past the advisory occupancy check a push may still find the
    /// ring full in a race; the value is then discarded silently, since
    /// release has no failure channel.
    pub(crate) fn return_value(&self, val: T)
        opens_invariants none
        no_unwind
    {
        let occupancy = ring_len(&self.values);
        if should_recycle(occupancy, self.max_size) {
            let _ = ring_push(&self.values, val);
        }
    }
}

impl<T: Default + Clear> Default for PoolArrayQueue<T> {
    fn default() -> (r: Self)
        ensures
            r.spec_max_size() == 1024,
    {
        Self::new(1024)
    }
}

} // verus!

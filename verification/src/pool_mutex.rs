//! The locked-stack pool: idle values sit in a growable vector behind a
//! mutual-exclusion lock and are reused most-recently-released first.

use vstd::prelude::*;
use std::sync::Arc;

use crate::{checkout_value, should_recycle, Clear, PoolObjectContainer};

verus! {

#[verifier::external_type_specification]
#[verifier::external_body]
#[verifier::reject_recursive_types(R)]
#[verifier::reject_recursive_types(T)]
pub struct ExMutex<R, T: ?Sized>(parking_lot::lock_api::Mutex<R, T>);

#[verifier::external_type_specification]
#[verifier::external_body]
pub struct ExRawMutex(parking_lot::RawMutex);

/// The vector of idle values while the lock on it is held.  The guard
/// type of the lock cannot be declared to the verifier directly, so it is
/// kept in a field the verifier does not look into.
#[verifier::external_body]
#[verifier::reject_recursive_types(T)]
struct StoreGuard<'a, T> {
    guard: parking_lot::MutexGuard<'a, Vec<T>>,
}

/// Relies on parking_lot's Mutex::new: wraps the vector in a new, unlocked
/// lock.
#[verifier::external_body]
fn store_new<T>(values: Vec<T>) -> parking_lot::Mutex<Vec<T>> {
    parking_lot::Mutex::new(values)
}

/// Relies on parking_lot's Mutex::lock: blocks until the lock is acquired
/// and returns the guard; parking_lot locks do not poison and the call has
/// no panic path.
#[verifier::external_body]
fn store_lock<'a, T>(m: &'a parking_lot::Mutex<Vec<T>>) -> StoreGuard<'a, T>
    opens_invariants none
    no_unwind
{
    StoreGuard { guard: m.lock() }
}

/// Relies on the guard's Deref and Vec::len: the number of idle values
/// held while the lock is held; neither call can panic.
#[verifier::external_body]
fn guard_len<T>(g: &StoreGuard<'_, T>) -> usize
    opens_invariants none
    no_unwind
{
    g.guard.len()
}

/// Relies on the guard's DerefMut and Vec::pop: takes the most recently
/// pushed value, or nothing when the vector is empty; neither call can
/// panic.
#[verifier::external_body]
fn guard_pop<T>(g: &mut StoreGuard<'_, T>) -> Option<T>
    opens_invariants none
    no_unwind
{
    g.guard.pop()
}

/// Relies on the guard's DerefMut and Vec::push: appends the value while
/// the lock is held.  A push may grow the vector's buffer; running out of
/// memory there aborts rather than unwinds.
#[verifier::external_body]
fn guard_push<T>(g: &mut StoreGuard<'_, T>, v: T)
    opens_invariants none
    no_unwind
{
    g.guard.push(v)
}

/// An object pool whose idle values are guarded by a lock.
///
/// The store is strictly LIFO, so the most recently released value (the
/// one most likely still warm in cache) is reused first.  The occupancy
/// check and the push on release happen under one lock acquisition, so
/// the `max_size` ceiling is exact.
#[verifier::reject_recursive_types(T)]
pub struct PoolMutex<T> {
    values: parking_lot::Mutex<Vec<T>>,
    max_size: usize,
}

impl<T> PoolMutex<T> {
    /// The most idle values the pool will hold.
    pub closed spec fn spec_max_size(self) -> usize {
        self.max_size
    }
}

impl<T> PoolMutex<T> where T: Default + Clear {
    /// A pool with no pre-sized storage and a conservative default
    /// ceiling of 4096 idle values.
    pub fn new() -> (r: Self)
        ensures
            r.spec_max_size() == 4096,
    {
        Self::with_config(0, 4096)
    }

    /// A pool whose storage starts pre-sized for `capacity` values (a
    /// hint only: it never limits growth) and which keeps at most
    /// `max_size` idle values.
    pub fn with_config(capacity: usize, max_size: usize) -> (r: Self)
        ensures
            r.spec_max_size() == max_size,
    {
        PoolMutex { values: store_new(Vec::with_capacity(capacity)), max_size }
    }

    /// Check a value out, recycling an idle one when there is one and
    /// default-constructing otherwise.  Never fails; the checked-out
    /// value is cleared or freshly default-constructed.
    pub fn create(self: &Arc<Self>) -> (r: PoolObjectContainer<T>)
        ensures
            r.is_live(),
            r.returns_to_locked(**self),
            r.value()@ == T::cleared() || T::default.ensures((), r.value()),
    {
        self.create_with(|| -> (t: T)
            ensures
                T::default.ensures((), t),
            { Default::default() })
    }

    /// Check a value out, recycling an idle one when there is one and
    /// calling the factory otherwise.  On a recycle the factory is not
    /// invoked and the recycled value keeps its prior allocation shape:
    /// the factory's requested shape must not be assumed to take effect.
    pub fn create_with<F: FnOnce() -> T>(self: &Arc<Self>, f: F) -> (r: PoolObjectContainer<T>)
        requires
            f.requires(()),
        ensures
            r.is_live(),
            r.returns_to_locked(**self),
            r.value()@ == T::cleared() || f.ensures((), r.value()),
    {
        let popped = {
            let mut guard = store_lock(&self.values);
            guard_pop(&mut guard)
        };
        let val = checkout_value(popped, f);
        PoolObjectContainer::new_from_locked(val, self)
    }

    /// The number of idle values currently stored, not counting values
    /// held by live checkouts.  Under concurrency the answer may be stale
    /// by the time it is returned; it is advisory only.
    pub fn len(&self) -> usize {
        let guard = store_lock(&self.values);
        guard_len(&guard)
    }
}

impl<T> PoolMutex<T> where T: Clear {
    /// Put a released value back under the lock, or discard it when the
    /// pool is full.  The occupancy check and the push are one critical
    /// section, so the ceiling cannot be overshot.
    pub(crate) fn return_value(&self, val: T)
        opens_invariants none
        no_unwind
    {
        let mut guard = store_lock(&self.values);
        let occupancy = guard_len(&guard);
        if should_recycle(occupancy, self.max_size) {
            guard_push(&mut guard, val);
        }
    }
}

impl<T: Default + Clear> Default for PoolMutex<T> {
    fn default() -> (r: Self)
        ensures
            r.spec_max_size() == 4096,
    {
        Self::new()
    }
}

} // verus!

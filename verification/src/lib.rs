//! An object pool for heap-backed values: instead of allocating a fresh
//! value on every request, a pool keeps a bounded stash of previously
//! released values and hands them out again, so their allocations are
//! reused.
//!
//! Three interchangeable pools are provided, each built on a different
//! concurrent store: [`PoolMutex`] (a lock around a stack, strictly LIFO),
//! [`PoolSegQueue`] (a lock-free unbounded FIFO queue, ceiling enforced by
//! a separate, best-effort length check), and [`PoolArrayQueue`] (a
//! lock-free ring of fixed capacity, ceiling enforced by the ring itself).
//! A checkout is represented by a [`PoolObjectContainer`], which gives the
//! value back to its pool when it is dropped, or discards it once the pool
//! already holds `max_size` idle values.

use vstd::prelude::*;
use std::sync::Arc;

pub use pool_array_queue::PoolArrayQueue;
pub use pool_mutex::PoolMutex;
pub use pool_seg_queue::PoolSegQueue;

mod pool_array_queue;
mod pool_mutex;
mod pool_seg_queue;

verus! {

/// A value that can reset itself to a logically empty, reusable state.
///
/// Clearing may keep whatever backing allocation the value has already
/// made: retained capacity is the entire point of pooling.  The contract
/// pins the observable contents after a clear to a single constant,
/// `Self::cleared()`, whatever the contents were before.  In particular,
/// clearing is idempotent: a second clear finds contents that are already
/// `Self::cleared()` and leaves them exactly so.
pub trait Clear: View {
    /// The contents of a value that has just been cleared.
    spec fn cleared() -> Self::V;

    /// Reset the value to the cleared state, keeping its allocation.
    fn clear(&mut self)
        ensures
            final(self)@ == Self::cleared(),
    ;
}

impl<T> Clear for Vec<T> {
    open spec fn cleared() -> Seq<T> {
        Seq::empty()
    }

    fn clear(&mut self) {
        Vec::clear(self);
    }
}

impl Clear for String {
    open spec fn cleared() -> Seq<char> {
        Seq::empty()
    }

    fn clear(&mut self) {
        string_clear(self);
    }
}

/// Relies on String::clear: it truncates the string to length zero while
/// keeping its allocation, and has no panic path.
#[verifier::external_body]
fn string_clear(s: &mut String)
    ensures
        final(s)@ == Seq::<char>::empty(),
    opens_invariants none
    no_unwind
{
    s.clear()
}

/// Relies on Arc::clone: the returned handle points to the very same
/// shared value; the reference count is raised without touching it.
#[verifier::external_body]
pub(crate) fn arc_clone<T>(a: &Arc<T>) -> (r: Arc<T>)
    ensures
        r == *a,
    opens_invariants none
    no_unwind
{
    Arc::clone(a)
}

/// The checkout policy shared by every pool: a value recycled from the
/// store is cleared before it is handed out, so its previous contents are
/// never seen again; only when the store had nothing does the factory run.
///
/// The first clause is the factory-bypass rule: on a recycle the result's
/// contents are `T::cleared()`, whatever the factory would have produced.
pub fn checkout_value<T: Clear, F: FnOnce() -> T>(popped: Option<T>, factory: F) -> (r: T)
    requires
        popped is None ==> factory.requires(()),
    ensures
        popped is Some ==> r@ == T::cleared(),
        popped is None ==> factory.ensures((), r),
{
    match popped {
        Some(mut v) => {
            v.clear();
            v
        }
        None => factory(),
    }
}

/// Clearing is idempotent: the clear contract pins the observable
/// contents to the one constant `T::cleared()`, independent of the prior
/// state, so the state after clearing twice is observably the state after
/// clearing once.
pub proof fn lemma_clear_idempotent<T: Clear>(once: T, twice: T)
    requires
        once@ == T::cleared(),
        twice@ == T::cleared(),
    ensures
        once@ == twice@,
{
}

/// The release policy shared by every pool: a returned value is kept for
/// reuse exactly when the store's observed occupancy is still below the
/// pool's ceiling, and discarded otherwise.
pub fn should_recycle(occupancy: usize, max_size: usize) -> (b: bool)
    ensures
        b == (occupancy < max_size),
    opens_invariants none
    no_unwind
{
    occupancy < max_size
}

/// One event in the life of a pool's store: a value checked out of it,
/// or a value released back to it.
pub enum PoolEvent {
    Checkout,
    Release,
}

/// How one event changes the store's occupancy: a checkout takes one
/// idle value when there is one, and a release keeps the returned value
/// only while the occupancy is below the ceiling — the rule that
/// `should_recycle` decides — and discards it otherwise.
pub open spec fn occupancy_after(occupancy: nat, event: PoolEvent, max_size: nat) -> nat {
    match event {
        PoolEvent::Checkout => if occupancy > 0 {
            (occupancy - 1) as nat
        } else {
            0
        },
        PoolEvent::Release => if occupancy < max_size {
            occupancy + 1
        } else {
            occupancy
        },
    }
}

/// The store's occupancy after a whole sequence of events.
pub open spec fn occupancy_after_all(
    occupancy: nat,
    events: Seq<PoolEvent>,
    max_size: nat,
) -> nat
    decreases events.len(),
{
    if events.len() == 0 {
        occupancy
    } else {
        occupancy_after_all(
            occupancy_after(occupancy, events[0], max_size),
            events.drop_first(),
            max_size,
        )
    }
}

/// The ceiling is never exceeded: through any sequence of checkouts and
/// releases in which each release acts on the true occupancy (as it does
/// under the locked store's lock, and intrinsically in the bounded ring),
/// a store holding at most `max_size` idle values still does; in
/// particular a store that starts empty never holds more than `max_size`.
pub proof fn lemma_ceiling_never_exceeded(
    occupancy: nat,
    events: Seq<PoolEvent>,
    max_size: nat,
)
    requires
        occupancy <= max_size,
    ensures
        occupancy_after_all(occupancy, events, max_size) <= max_size,
    decreases events.len(),
{
    if events.len() > 0 {
        lemma_ceiling_never_exceeded(
            occupancy_after(occupancy, events[0], max_size),
            events.drop_first(),
            max_size,
        );
    }
}

/// Which pool a checked-out value goes back to.
#[verifier::reject_recursive_types(T)]
enum PoolType<T: Clear> {
    Mutex(Arc<PoolMutex<T>>),
    SegQueue(Arc<PoolSegQueue<T>>),
    ArrayQueue(Arc<PoolArrayQueue<T>>),
}

/// A checked-out value together with the pool that issued it.
///
/// The container is the sole owner of the value while it is live.  On
/// drop, the value is first taken out of the container (so the container's
/// own teardown never touches it again) and then offered back to its pool,
/// which keeps it only while it holds fewer than `max_size` idle values.
/// Release never fails and never panics; at worst the value is quietly
/// discarded.
#[verifier::reject_recursive_types(T)]
pub struct PoolObjectContainer<T: Clear> {
    inner: Option<T>,
    ref_pool: PoolType<T>,
}

impl<T: Clear> PoolObjectContainer<T> {
    /// A container is live until its drop has taken the value out.
    pub closed spec fn is_live(self) -> bool {
        self.inner is Some
    }

    /// The contained value.
    pub closed spec fn value(self) -> T {
        self.inner.unwrap()
    }

    /// The container returns its value to the given locked-stack pool.
    pub closed spec fn returns_to_locked(self, pool: PoolMutex<T>) -> bool {
        self.ref_pool matches PoolType::Mutex(p) && *p == pool
    }

    /// The container returns its value to the given unbounded-queue pool.
    pub closed spec fn returns_to_unbounded(self, pool: PoolSegQueue<T>) -> bool {
        self.ref_pool matches PoolType::SegQueue(p) && *p == pool
    }

    /// The container returns its value to the given bounded-ring pool.
    pub closed spec fn returns_to_bounded(self, pool: PoolArrayQueue<T>) -> bool {
        self.ref_pool matches PoolType::ArrayQueue(p) && *p == pool
    }

    pub(crate) fn new_from_locked(val: T, pool: &Arc<PoolMutex<T>>) -> (r: Self)
        ensures
            r.is_live(),
            r.value() == val,
            r.returns_to_locked(**pool),
    {
        PoolObjectContainer { inner: Some(val), ref_pool: PoolType::Mutex(arc_clone(pool)) }
    }

    pub(crate) fn new_from_unbounded(val: T, pool: &Arc<PoolSegQueue<T>>) -> (r: Self)
        ensures
            r.is_live(),
            r.value() == val,
            r.returns_to_unbounded(**pool),
    {
        PoolObjectContainer { inner: Some(val), ref_pool: PoolType::SegQueue(arc_clone(pool)) }
    }

    pub(crate) fn new_from_bounded(val: T, pool: &Arc<PoolArrayQueue<T>>) -> (r: Self)
        ensures
            r.is_live(),
            r.value() == val,
            r.returns_to_bounded(**pool),
    {
        PoolObjectContainer { inner: Some(val), ref_pool: PoolType::ArrayQueue(arc_clone(pool)) }
    }

    /// Read the checked-out value.
    pub fn get(&self) -> (r: &T)
        requires
            self.is_live(),
        ensures
            *r == self.value(),
    {
        self.inner.as_ref().unwrap()
    }

    /// Write the checked-out value.
    pub fn get_mut(&mut self) -> (r: &mut T)
        requires
            old(self).is_live(),
        ensures
            *r == old(self).value(),
            final(self).is_live(),
            final(self).value() == *final(r),
    {
        some_mut(&mut self.inner)
    }
}

/// Borrow the payload of an option known to be present.
fn some_mut<T>(o: &mut Option<T>) -> (r: &mut T)
    requires
        *old(o) is Some,
    ensures
        *r == (*old(o)).unwrap(),
        *final(o) == Some(*final(r)),
    opens_invariants none
    no_unwind
{
    match o {
        Some(v) => v,
        None => vstd::pervasive::unreached(),
    }
}

impl<T: Clear> Drop for PoolObjectContainer<T> {
    /// Give the value back to the pool it came from, exactly once.
    ///
    /// The value is first swapped out of the container, so the container
    /// ends empty and its teardown cannot reach the value again; the pool
    /// then either stores the value or lets it drop, depending on its
    /// occupancy.  This path runs on every exit and cannot fail.
    fn drop(&mut self)
        opens_invariants none
        no_unwind
    {
        let mut taken: Option<T> = None;
        core::mem::swap(&mut self.inner, &mut taken);
        if let Some(val) = taken {
            match &self.ref_pool {
                PoolType::Mutex(pool) => pool.return_value(val),
                PoolType::SegQueue(pool) => pool.return_value(val),
                PoolType::ArrayQueue(pool) => pool.return_value(val),
            }
        }
    }
}

} // verus!

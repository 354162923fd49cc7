//! The counter core: an atomic count of held slots and a fixed capacity.
//!
//! Every change to the count goes through one compare-and-exchange update
//! whose new value is decided by [`next_count`], so the count moves by one
//! step at a time. The steps are modelled by [`transition`]; the lemmas below
//! prove of that model that the count never leaves `0..=max`. The atomic value
//! itself is not modelled: [`next_count`], whose result is exactly the model's
//! step on the count it is given, is the link between the model and the code.
use core::marker::PhantomData;
use core::sync::atomic::{AtomicUsize, Ordering};
use std::sync::MutexGuard;
use vstd::prelude::*;

use crate::SemaphoreError;

verus! {

/// One change that may be asked of a counter.
#[derive(Clone, Copy, Debug)]
pub enum CounterOp {
    /// Take a slot: one more holder.
    Acquire,
    /// Give a slot back: one holder fewer.
    Release,
}

/// The count after `op` on a counter that stands at `count` with capacity
/// `max`, or `None` when the step is not allowed and the count stays.
pub open spec fn transition(count: nat, max: nat, op: CounterOp) -> Option<nat> {
    match op {
        CounterOp::Acquire => if count < max {
            Some(count + 1)
        } else {
            None
        },
        CounterOp::Release => if count > 0 {
            Some((count - 1) as nat)
        } else {
            None
        },
    }
}

/// The count after `op`, where a refused step leaves it as it was.
pub open spec fn apply_op(count: nat, max: nat, op: CounterOp) -> nat {
    match transition(count, max, op) {
        Some(n) => n,
        None => count,
    }
}

/// The count of a fresh counter of capacity `max` after the steps `ops`.
pub open spec fn count_after(max: nat, ops: Seq<CounterOp>) -> nat
    decreases ops.len(),
{
    if ops.len() == 0 {
        0
    } else {
        apply_op(count_after(max, ops.drop_last()), max, ops.last())
    }
}

/// No step takes a count that is within capacity out of it.
pub proof fn lemma_step_within_capacity(count: nat, max: nat, op: CounterOp)
    requires
        count <= max,
    ensures
        apply_op(count, max, op) <= max,
{
}

/// In the model of the counter's steps: for every sequence of acquires and
/// releases on a fresh counter, the count given by [`count_after`] stays
/// within `0..=max` after each step (it is a `nat`, and never above the
/// capacity). The code applies these steps through [`next_count`].
pub proof fn lemma_count_within_capacity(max: nat, ops: Seq<CounterOp>)
    ensures
        forall|i: int| 0 <= i <= ops.len() ==> #[trigger] count_after(max, ops.take(i)) <= max,
{
    assert forall|i: int| 0 <= i <= ops.len() implies #[trigger] count_after(max, ops.take(i))
        <= max by {
        lemma_final_count_within_capacity(max, ops.take(i));
    }
}

/// The count after any sequence of steps on a fresh counter is at most `max`.
proof fn lemma_final_count_within_capacity(max: nat, ops: Seq<CounterOp>)
    ensures
        count_after(max, ops) <= max,
    decreases ops.len(),
{
    if ops.len() > 0 {
        lemma_final_count_within_capacity(max, ops.drop_last());
        lemma_step_within_capacity(count_after(max, ops.drop_last()), max, ops.last());
    }
}

/// A slot taken is given back exactly once: after any history, an acquire
/// that succeeds followed by the one release of its guard leaves the count
/// where it was, while the acquire alone raised it by one.
pub proof fn lemma_release_undoes_acquire(max: nat, ops: Seq<CounterOp>)
    requires
        count_after(max, ops) < max,
    ensures
        count_after(max, ops.push(CounterOp::Acquire)) == count_after(max, ops) + 1,
        count_after(max, ops.push(CounterOp::Acquire).push(CounterOp::Release)) == count_after(
            max,
            ops,
        ),
{
    let acquired = ops.push(CounterOp::Acquire);
    assert(acquired.drop_last() =~= ops);
    assert(acquired.push(CounterOp::Release).drop_last() =~= acquired);
}

/// Decides whether an observed count leaves no slot free.
pub fn count_at_max(count: usize, max: usize) -> (r: bool)
    ensures
        r == (count >= max),
        r == (transition(count as nat, max as nat, CounterOp::Acquire) is None),
{
    count >= max
}

/// Decides one step on an observed count: the value to store, or `None` when
/// the step is refused.
pub fn next_count(count: usize, max: usize, op: CounterOp) -> (r: Option<usize>)
    ensures
        match r {
            Some(n) => transition(count as nat, max as nat, op) == Some(n as nat),
            None => transition(count as nat, max as nat, op) is None,
        },
{
    match op {
        CounterOp::Acquire => if count < max {
            Some(count + 1)
        } else {
            None
        },
        CounterOp::Release => if count > 0 {
            Some(count - 1)
        } else {
            None
        },
    }
}

/// Relies on `AtomicUsize::fetch_update`: it reads the count, stores the value
/// that the closure gives for it with a compare-and-exchange (reading again and
/// retrying when another thread changed it meanwhile), and returns
/// `Ok(previous)` when the closure gave a value and `Err(previous)` when it gave
/// `None` and nothing was stored.
#[verifier::external_body]
fn update_count(count: &AtomicUsize, max: usize, op: CounterOp) -> (r: Result<usize, usize>)
    ensures
        match r {
            Ok(prev) => transition(prev as nat, max as nat, op) is Some,
            Err(prev) => transition(prev as nat, max as nat, op) is None,
        },
    opens_invariants none
    no_unwind
{
    count.fetch_update(Ordering::SeqCst, Ordering::SeqCst, |c| next_count(c, max, op))
}

/// `std::sync::MutexGuard`, held only as a marker: it is `Sync` but not
/// `Send`. Nothing of a value of it is read or assumed.
#[verifier::external_type_specification]
#[verifier::external_body]
#[verifier::reject_recursive_types(T)]
pub struct ExMutexGuard<'a, T: ?Sized + 'a>(MutexGuard<'a, T>);

/// A counter that has a maximum value
///
/// The maximum is set once by [`Semaphore::new`] and read with
/// [`Semaphore::max`]; it never changes afterwards.
pub struct Semaphore {
    count: AtomicUsize,
    max: usize,
}

/// A guard for a Semaphore
/// Increments the count on creation
/// Decrements it on Drop
#[must_use]
pub struct SemaphoreGuard<'guard> {
    semaphore: &'guard Semaphore,
    slot: Ghost<nat>,
    // A lock guard is shareable but never sent to another thread, and so
    // is this guard.
    _unsend: PhantomData<MutexGuard<'static, ()>>,
}

impl<'guard> SemaphoreGuard<'guard> {
    /// The semaphore whose slot this guard holds.
    pub closed spec fn owner(&self) -> Semaphore {
        *self.semaphore
    }

    /// The count that the semaphore stood at when this guard took its slot.
    pub closed spec fn slot(&self) -> nat {
        self.slot@
    }

    /// Takes a slot of `semaphore`, if one is free, and returns the guard
    /// that holds it.
    fn new(semaphore: &'guard Semaphore) -> (r: Option<Self>)
        ensures
            r matches Some(g) ==> g.owner() == *semaphore && g.slot() < semaphore.capacity(),
            semaphore.capacity() == 0 ==> r is None,
    {
        match update_count(&semaphore.count, semaphore.max, CounterOp::Acquire) {
            Ok(prev) => Some(SemaphoreGuard { semaphore, slot: Ghost(prev as nat), _unsend: PhantomData }),
            Err(_) => None,
        }
    }
}

impl<'guard> Drop for SemaphoreGuard<'guard> {
    fn drop(&mut self)
        opens_invariants none
        no_unwind
    {
        let _ = release_slot(self.semaphore);
    }
}

/// Gives one slot of `semaphore` back: the count it stood at is lowered by
/// one, or left at 0 where no slot was held.
fn release_slot(semaphore: &Semaphore) -> (r: Result<usize, usize>)
    ensures
        match r {
            Ok(prev) => prev >= 1 && transition(
                prev as nat,
                semaphore.capacity() as nat,
                CounterOp::Release,
            ) == Some((prev - 1) as nat),
            Err(prev) => prev == 0,
        },
    opens_invariants none
    no_unwind
{
    update_count(&semaphore.count, semaphore.max, CounterOp::Release)
}

impl Semaphore {
    /// The capacity: how many slots can be held at once.
    pub closed spec fn capacity(&self) -> usize {
        self.max
    }

    /// The capacity: how many slots can be held at once.
    pub fn max(&self) -> (r: usize)
        ensures
            r == self.capacity(),
    {
        self.max
    }

    /// The number of slots held, as read with `ordering`.
    #[must_use]
    pub fn count(&self, ordering: Ordering) -> usize
        requires
            !(ordering matches Ordering::Release),
            !(ordering matches Ordering::AcqRel),
    {
        self.count.load(ordering)
    }

    /// A semaphore with no slot held and capacity `max`.
    #[must_use]
    pub fn new(max: usize) -> (r: Self)
        ensures
            r.capacity() == max,
    {
        Semaphore { max, count: AtomicUsize::new(0) }
    }

    /// Returns true if the count, as read with `ordering`, is at the maximum.
    #[must_use]
    pub fn at_max(&self, ordering: Ordering) -> (r: bool)
        requires
            !(ordering matches Ordering::Release),
            !(ordering matches Ordering::AcqRel),
        ensures
            self.capacity() == 0 ==> r,
    {
        count_at_max(self.count.load(ordering), self.max)
    }

    /// Try to increment the count and return a Guard
    ///
    /// Never blocks
    /// # Errors
    /// Will error if the count is at max already
    pub fn try_get(&self) -> (r: Result<SemaphoreGuard<'_>, SemaphoreError>)
        ensures
            match r {
                Ok(g) => g.owner() == *self && g.slot() < self.capacity(),
                Err(e) => e == SemaphoreError::AtMaxCount,
            },
            self.capacity() == 0 ==> r is Err,
    {
        match SemaphoreGuard::new(self) {
            Some(g) => Ok(g),
            None => Err(SemaphoreError::AtMaxCount),
        }
    }
}

} // verus!

//! A value shared read-only by up to a fixed number of holders at once.
use core::ops::Deref;
use core::sync::atomic::Ordering;
use vstd::prelude::*;

use crate::{raw, SemaphoreError};

verus! {

/// How long a blocking acquire waits between two attempts, in milliseconds.
pub const POLL_INTERVAL_MS: u64 = 50;

/// Why a blocking acquire did not get a guard on this attempt.
#[derive(Clone, Copy, Debug, PartialEq, Eq)]
pub enum GetWait {
    /// The capacity is 0: no attempt can ever succeed, and waiting would
    /// never end.
    ZeroCapacity,
    /// Every slot is held: wait this many milliseconds, then try again.
    RetryAfterMillis(u64),
}

/// Allows up to `max` references to the data in the Semaphore
///
/// This behaves like `std::sync::RwLock<T>` with some key differences
/// 1. You can't get a `&mut T` through a guard, only a `&T`
/// 2. You can have up to a maximum number of references at once
pub struct Semaphore<T: ?Sized> {
    raw: raw::Semaphore,
    data: T,
}

impl<T: ?Sized> Semaphore<T> {
    /// The counter that bounds the holders.
    pub closed spec fn counter(&self) -> raw::Semaphore {
        self.raw
    }

    /// The value held.
    pub closed spec fn value(&self) -> &T {
        &self.data
    }

    /// Returns true if the current count is >= the maximum count
    #[must_use]
    pub fn at_max(&self, ordering: Ordering) -> (r: bool)
        requires
            !(ordering matches Ordering::Release),
            !(ordering matches Ordering::AcqRel),
        ensures
            self.counter().capacity() == 0 ==> r,
    {
        self.raw.at_max(ordering)
    }

    /// Get the current number of references to the data
    #[must_use]
    pub fn count(&self, ordering: Ordering) -> usize
        requires
            !(ordering matches Ordering::Release),
            !(ordering matches Ordering::AcqRel),
    {
        self.raw.count(ordering)
    }

    /// The maximum number of references held at once.
    #[must_use]
    pub fn max(&self) -> (r: usize)
        ensures
            r == self.counter().capacity(),
    {
        self.raw.max()
    }

    /// Attempt to get the value in the semaphore.
    ///
    /// This function will never block
    /// # Errors
    /// This function will return [`SemaphoreError::AtMaxCount`] if the current count is >= the maximum count
    #[inline]
    pub fn try_get(&self) -> (r: Result<SemaphoreGuard<'_, T>, SemaphoreError>)
        ensures
            match r {
                Ok(g) => {
                    &&& g.value() == self.value()
                    &&& g.slot_owner() == self.counter()
                    &&& g.slot() < self.counter().capacity()
                },
                Err(e) => e == SemaphoreError::AtMaxCount,
            },
            self.counter().capacity() == 0 ==> r is Err,
    {
        match self.raw.try_get() {
            Ok(raw_guard) => Ok(SemaphoreGuard::new(raw_guard, &self.data)),
            Err(e) => Err(e),
        }
    }

    /// One attempt of a blocking acquire: the guard when a slot is free, or
    /// what the caller must do before the next attempt. A blocking acquire
    /// repeats this, sleeping as told, until it has a guard, and stops at
    /// once on [`GetWait::ZeroCapacity`].
    pub fn poll_get(&self) -> (r: Result<SemaphoreGuard<'_, T>, GetWait>)
        ensures
            match r {
                Ok(g) => {
                    &&& g.value() == self.value()
                    &&& g.slot_owner() == self.counter()
                    &&& g.slot() < self.counter().capacity()
                },
                Err(GetWait::ZeroCapacity) => self.counter().capacity() == 0,
                Err(GetWait::RetryAfterMillis(ms)) => self.counter().capacity() > 0 && ms
                    == POLL_INTERVAL_MS,
            },
            self.counter().capacity() == 0 ==> r matches Err(GetWait::ZeroCapacity),
    {
        if self.raw.max() == 0 {
            return Err(GetWait::ZeroCapacity);
        }
        match self.try_get() {
            Ok(guard) => Ok(guard),
            Err(_) => Err(GetWait::RetryAfterMillis(POLL_INTERVAL_MS)),
        }
    }

    /// Get a mutable reference to the data in the semaphore
    #[inline]
    pub fn get_mut(&mut self) -> (r: &mut T)
        ensures
            &*r == old(self).value(),
            final(self).value() == &*final(r),
            final(self).counter() == old(self).counter(),
    {
        &mut self.data
    }
}

impl<T> Semaphore<T> {
    /// Create a new semaphore with 0 counted references
    pub fn new(value: T, max: usize) -> (r: Self)
        ensures
            *r.value() == value,
            r.counter().capacity() == max,
    {
        Semaphore { raw: raw::Semaphore::new(max), data: value }
    }

    /// Move the value out of the semaphore
    pub fn into_inner(self) -> (r: T)
        ensures
            r == *self.value(),
    {
        self.data
    }
}

/// A wrapper around a reference to the data in the semaphore
/// Automatically decrements the reference count when it is dropped
/// For mutable access, consider using a cell type or use [`Semaphore::get_mut`]
#[must_use]
pub struct SemaphoreGuard<'guard, T: ?Sized> {
    _inner: raw::SemaphoreGuard<'guard>,
    data: &'guard T,
}

impl<'guard, T: ?Sized> SemaphoreGuard<'guard, T> {
    /// The value that this guard gives read access to.
    pub closed spec fn value(&self) -> &T {
        self.data
    }

    /// The counter whose slot this guard holds.
    pub closed spec fn slot_owner(&self) -> raw::Semaphore {
        self._inner.owner()
    }

    /// The count that the counter stood at when this guard took its slot.
    pub closed spec fn slot(&self) -> nat {
        self._inner.slot()
    }

    /// Pairs a held slot with read access to the data.
    fn new(raw_guard: raw::SemaphoreGuard<'guard>, data: &'guard T) -> (r: Self)
        ensures
            r.value() == data,
            r.slot_owner() == raw_guard.owner(),
            r.slot() == raw_guard.slot(),
    {
        SemaphoreGuard { _inner: raw_guard, data }
    }
}

impl<'guard, T: ?Sized> Deref for SemaphoreGuard<'guard, T> {
    type Target = T;

    fn deref(&self) -> (r: &T)
        ensures
            r == self.value(),
    {
        self.data
    }
}

} // verus!

//! A counting semaphore that lets up to a fixed number of holders share a value
//! at the same time, bounded by an atomic counter.
use vstd::prelude::*;

pub mod raw;
pub mod wrapper;

pub use wrapper::{GetWait, Semaphore, SemaphoreGuard, POLL_INTERVAL_MS};

verus! {

/// The one way in which acquiring a slot can fail.
#[derive(Clone, Copy, Debug, PartialEq, Eq)]
#[non_exhaustive]
pub enum SemaphoreError {
    /// The semaphore was already at the maximum amount of references
    AtMaxCount,
}

impl SemaphoreError {
    /// A human-readable description of the error.
    pub fn message(&self) -> (r: &'static str)
        ensures
            match self {
                SemaphoreError::AtMaxCount => r@ == "Already at maximum count!"@,
            },
    {
        match self {
            SemaphoreError::AtMaxCount => "Already at maximum count!",
        }
    }
}

} // verus!

//! Two exclusive-lock primitives, each verified as a sequential state
//! machine over its lock word and protected payload.
//!
//! [`mutex::Mutex`] models a blocking lock whose word is a 32-bit flag and
//! whose release wakes exactly one parked waiter; [`spinlock::SpinLock`]
//! models a busy-waiting lock whose word is a boolean flag. Both hand out a
//! scope-bound guard that is the sole path to the payload: acquiring moves
//! the lock into the guard, and only releasing the guard gives the lock
//! back, so at most one guard per lock can ever be live.

pub mod mutex;
pub mod spinlock;

pub use mutex::{Mutex, MutexGuard};
pub use spinlock::{SpinLock, SpinLockGuard};

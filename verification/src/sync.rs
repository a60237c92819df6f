//! What the store assumes of the standard library's lock.
//!
//! A `Mutex` is shared between threads, so what it holds at one moment says
//! nothing of what it holds at the next: none of these items claims anything
//! of the value behind the lock.

use vstd::prelude::*;
use std::sync::Arc;
use std::sync::LockResult;
use std::sync::Mutex;
use std::sync::MutexGuard;
use std::sync::PoisonError;

verus! {

/// `std::sync::Mutex`, opaque.
#[verifier::external_type_specification]
#[verifier::external_body]
#[verifier::reject_recursive_types(T)]
pub struct ExMutex<T: ?Sized>(Mutex<T>);

/// `std::sync::MutexGuard`, opaque: the lock is held while it lives.
#[verifier::external_type_specification]
#[verifier::external_body]
#[verifier::reject_recursive_types(T)]
pub struct ExMutexGuard<'a, T: ?Sized + 'a>(MutexGuard<'a, T>);

/// `std::sync::PoisonError`, opaque: what a poisoned lock returns.
#[verifier::external_type_specification]
#[verifier::external_body]
#[verifier::reject_recursive_types(T)]
pub struct ExPoisonError<T>(PoisonError<T>);

/// `Mutex::new`: a lock around `t`, unlocked.
pub assume_specification<T>[ Mutex::<T>::new ](t: T) -> (lock: Mutex<T>);

/// `Mutex::lock`: waits for the lock and returns its guard, or the poison
/// left by a holder that panicked. A thread that holds the lock already and
/// asks for it again may wait for ever or panic; no contract can rule that
/// out, so the functions that take the lock say it in words.
pub assume_specification<'a, T: ?Sized>[ Mutex::<T>::lock ](lock: &'a Mutex<T>) -> (held: LockResult<
    MutexGuard<'a, T>,
>);

/// `MutexGuard::deref`: the value behind a held lock.
pub assume_specification<'a, 'b, T: ?Sized>[ <MutexGuard<'a, T> as core::ops::Deref>::deref ](
    guard: &'b MutexGuard<'a, T>,
) -> (value: &'b T);

/// `MutexGuard::deref_mut`: the value behind a held lock, to change it.
pub assume_specification<'a, 'b, T: ?Sized>[ <MutexGuard<
    'a,
    T,
> as core::ops::DerefMut>::deref_mut ](guard: &'b mut MutexGuard<'a, T>) -> (value: &'b mut T);

/// `Arc::clone`: one more owner of the same lock. The new pointer refers to
/// the allocation that `shared` refers to; nothing is copied.
#[verifier::external_body]
pub(crate) fn share<T>(shared: &Arc<Mutex<T>>) -> (other: Arc<Mutex<T>>)
    ensures
        other == *shared,
{
    Arc::clone(shared)
}

} // verus!

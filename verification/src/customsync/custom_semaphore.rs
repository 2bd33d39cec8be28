use std::sync::{Condvar, Mutex, MutexGuard};
use vstd::prelude::*;

verus! {

#[verifier::external_type_specification]
#[verifier::external_body]
#[verifier::reject_recursive_types(T)]
pub struct ExMutex<T: ?Sized>(Mutex<T>);

#[verifier::external_type_specification]
#[verifier::external_body]
#[verifier::reject_recursive_types(T)]
pub struct ExMutexGuard<'a, T: ?Sized + 'a>(MutexGuard<'a, T>);

#[verifier::external_type_specification]
#[verifier::external_body]
pub struct ExCondvar(Condvar);

/// The count that a held lock guards.
pub uninterp spec fn guarded_count(guard: MutexGuard<'_, usize>) -> usize;

/// The count that a lock was made guarding. A lock is made once and keeps
/// this value for its whole life, whatever is later written through it.
pub uninterp spec fn made_with_count(lock: Mutex<usize>) -> usize;

/// A counting semaphore: `acquire` waits until the count is positive and
/// takes one; `release` gives one back and wakes a waiting thread.
#[derive(Debug)]
pub struct Semaphore {
    count_lock: Mutex<usize>,
    condv: Condvar,
}

/// Whether no unit of the count is available.
fn is_unavailable(count: usize) -> (unavailable: bool)
    ensures
        unavailable == (count == 0),
{
    count == 0
}

/// The count left after one unit is taken.
fn taken_unit(count: usize) -> (left: usize)
    requires
        count > 0,
    ensures
        left == count - 1,
{
    count - 1
}

/// The count after one unit is given back; at the largest count it stays
/// there.
fn given_back_unit(count: usize) -> (next: usize)
    ensures
        next == (if count < usize::MAX { count + 1 } else { count as int }),
{
    if count < usize::MAX {
        count + 1
    } else {
        count
    }
}

/// A lock guarding `value`, made with `Mutex::new`, whose documentation
/// says that the new mutex holds the given value. What later calls of
/// `lock` read is left to `guarded_count`: other threads may write it.
#[verifier::external_body]
fn new_count_lock(value: usize) -> (lock: Mutex<usize>)
    ensures
        made_with_count(lock) == value,
{
    Mutex::new(value)
}

/// A condition variable, made with `Condvar::new`.
#[verifier::external_body]
fn new_condvar() -> (condv: Condvar) {
    Condvar::new()
}

/// Takes the lock with `Mutex::lock`. The std documentation says that the
/// call blocks until the lock is free and fails only when another thread
/// panicked while holding it; the failure ends in a panic here, which
/// nothing in this library can cause.
#[verifier::external_body]
fn lock_count(lock: &Mutex<usize>) -> (guard: MutexGuard<'_, usize>) {
    lock.lock().unwrap()
}

/// Waits with `Condvar::wait_while` while no unit is available. The std
/// documentation says that the call returns the lock once the condition is
/// false, here once the guarded count is not zero.
#[verifier::external_body]
fn wait_while_unavailable<'a>(condv: &Condvar, guard: MutexGuard<'a, usize>) -> (held: MutexGuard<'a, usize>)
    ensures
        guarded_count(held) != 0,
{
    condv.wait_while(guard, |count| is_unavailable(*count)).unwrap()
}

/// The guarded count, read through `Deref`.
#[verifier::external_body]
fn read_count(guard: &MutexGuard<'_, usize>) -> (count: usize)
    ensures
        count == guarded_count(*guard),
{
    **guard
}

/// Sets the guarded count, written through `DerefMut`.
#[verifier::external_body]
fn write_count(guard: &mut MutexGuard<'_, usize>, count: usize)
    ensures
        guarded_count(*final(guard)) == count,
{
    **guard = count;
}

/// Wakes one thread waiting on the condition variable, with
/// `Condvar::notify_one`.
#[verifier::external_body]
fn notify_one(condv: &Condvar) {
    condv.notify_one()
}

impl Semaphore {
    /// The count the semaphore started with.
    pub closed spec fn initial_count(&self) -> usize {
        made_with_count(self.count_lock)
    }

    /// A semaphore whose count starts at `initial_value`.
    pub fn new(initial_value: usize) -> (semaphore: Semaphore)
        ensures
            semaphore.initial_count() == initial_value,
    {
        Semaphore { count_lock: new_count_lock(initial_value), condv: new_condvar() }
    }

    /// Waits until a unit is available and takes it: the count goes down
    /// by one, never below zero.
    pub fn acquire(&self) {
        let guard = lock_count(&self.count_lock);
        let mut held = wait_while_unavailable(&self.condv, guard);
        let count = read_count(&held);
        write_count(&mut held, taken_unit(count));
    }

    /// Gives a unit back and wakes one waiting thread: the count goes up by
    /// one; at the largest count it stays there.
    pub fn release(&self) {
        {
            let mut held = lock_count(&self.count_lock);
            let count = read_count(&held);
            write_count(&mut held, given_back_unit(count));
        }
        notify_one(&self.condv);
    }
}

} // verus!

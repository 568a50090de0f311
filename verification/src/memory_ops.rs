//! The same small memory operations twice: on a plain integer that the
//! caller owns, and on an atomic integer that other threads may change
//! between any two steps. Of the first kind everything is known; of the
//! second only what one operation hands back.

use vstd::prelude::*;
use std::sync::atomic::AtomicI32;
use std::sync::atomic::Ordering;

verus! {

/// Adds 10. The caller leaves room for it.
pub fn simple_add_ten(num: &mut i32)
    requires
        *old(num) <= i32::MAX - 10,
    ensures
        *final(num) == *old(num) + 10,
{
    *num += 10;
}

/// Stores 0.
pub fn simple_store(x: &mut i32)
    ensures
        *final(x) == 0,
{
    *x = 0;
}

/// Stores 0. Another thread may store again at once, so nothing is said of
/// what the atomic holds afterwards.
pub fn relaxed_atomic_store(x: &AtomicI32) {
    x.store(0, Ordering::Relaxed);
}

/// Loads what `x` holds.
pub fn simple_load(x: &i32) -> (value: i32)
    ensures
        value == *x,
{
    *x
}

/// Loads what the atomic holds at the moment of the load. Other threads may
/// have stored anything there, so nothing is said of the value.
pub fn relaxed_atomic_load(x: &AtomicI32) -> i32 {
    x.load(Ordering::Relaxed)
}

/// Adds 10 in one indivisible step and returns what the atomic held before.
/// Other threads may have stored anything there, so nothing is said of the
/// value.
pub fn relaxed_atomic_add_ten(x: &AtomicI32) -> i32 {
    x.fetch_add(10, Ordering::Relaxed)
}

/// Sets the bits of 10 in one indivisible step and returns what the atomic
/// held before. Other threads may have stored anything there, so nothing is
/// said of the value.
pub fn relaxed_atomic_fetch_or(x: &AtomicI32) -> i32 {
    x.fetch_or(10, Ordering::Relaxed)
}

/// The value that setting the bits of 10 makes of `current`.
pub fn with_bits_set(current: i32) -> (merged: i32)
    ensures
        merged == current | 10,
{
    current | 10
}

/// One round of setting the bits of 10 by compare and exchange: tries to
/// replace `current` by `current` with the bits set. `Ok` carries the value
/// that was replaced; `Err` carries the value found instead, with which the
/// caller goes into the next round. Which of the two comes back, and with
/// what value, lies with the atomic and the threads that share it: nothing
/// is said of the outcome.
pub fn relaxed_atomic_compare_exchange(x: &AtomicI32, current: i32) -> Result<i32, i32> {
    let new = with_bits_set(current);
    x.compare_exchange(current, new, Ordering::Relaxed, Ordering::Relaxed)
}

/// Replaces 5 by 6 if the atomic holds 5; may also leave a 5 in place.
pub fn atomic_relaxed_compare_exchange_weak(x: &AtomicI32) {
    let _ = x.compare_exchange_weak(5, 6, Ordering::Relaxed, Ordering::Relaxed);
}

/// Replaces 5 by 6 if the atomic holds 5.
pub fn atomic_relaxed_compare_exchange_strong(x: &AtomicI32) {
    let _ = x.compare_exchange(5, 6, Ordering::Relaxed, Ordering::Relaxed);
}

} // verus!

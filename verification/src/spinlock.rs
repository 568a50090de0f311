//! A lock made of one flag beside the value it guards.
//!
//! An attempt at the lock raises the flag and wins if the flag was down. The
//! winner gets a guard; the guard is the only way to the value, and
//! releasing it is the only way to lower the flag. So the flag is up exactly
//! while a guard is out, and no two guards are out together. A guard holds
//! no reference to the lock: each step is given the lock that the guard came
//! from.

use vstd::prelude::*;
use std::marker::PhantomData;

verus! {

/// What a lock is: its flag, the value it guards, the guard that is out and
/// the number of guards it has issued.
pub struct LockView<T> {
    pub locked: bool,
    pub value: T,
    pub holder: Option<nat>,
    pub issued: nat,
}

impl<T> LockView<T> {
    /// The flag is up exactly while a guard is out, and the guard that is
    /// out is one that the lock has issued.
    pub open spec fn wf(self) -> bool {
        &&& self.locked <==> self.holder is Some
        &&& self.holder matches Some(guard) ==> guard < self.issued
    }

    /// A lock that nobody has taken.
    pub open spec fn fresh(value: T) -> Self {
        LockView { locked: false, value, holder: None, issued: 0 }
    }

    /// Whether `guard` is the guard that is out.
    pub open spec fn held_by(self, guard: nat) -> bool {
        self.holder == Some(guard)
    }

    /// The lock after a winning attempt: the flag is up and a new guard is
    /// out.
    pub open spec fn acquire(self) -> Self {
        LockView {
            locked: true,
            value: self.value,
            holder: Some(self.issued),
            issued: self.issued + 1,
        }
    }

    /// The lock with `value` written through its guard.
    pub open spec fn store(self, value: T) -> Self {
        LockView { locked: self.locked, value, holder: self.holder, issued: self.issued }
    }

    /// The lock after its guard was released.
    pub open spec fn release(self) -> Self {
        LockView { locked: false, value: self.value, holder: None, issued: self.issued }
    }
}

/// A value and the flag that guards it.
pub struct SpinLock<T> {
    value: T,
    locked: bool,
    holder: Ghost<Option<nat>>,
    issued: Ghost<nat>,
}

/// The right to the value of the lock that issued it, from the winning
/// attempt until `drop`.
#[must_use]
pub struct LockGuard<T> {
    name: Ghost<nat>,
    lock: PhantomData<T>,
}

impl<T> View for SpinLock<T> {
    type V = LockView<T>;

    closed spec fn view(&self) -> LockView<T> {
        LockView {
            locked: self.locked,
            value: self.value,
            holder: self.holder@,
            issued: self.issued@,
        }
    }
}

impl<T> SpinLock<T> {
    /// A lock around `value` that nobody has taken.
    pub fn new(value: T) -> (lock: Self)
        ensures
            lock@ == LockView::fresh(value),
    {
        SpinLock { value, locked: false, holder: Ghost(None), issued: Ghost(0) }
    }

    /// One attempt at the lock: raises the flag whatever it was, and wins if
    /// and only if the flag was down. Who loses finds the lock as it was and
    /// tries again; between two attempts the holder may release.
    pub fn try_lock(&mut self) -> (attempt: Option<LockGuard<T>>)
        ensures
            match attempt {
                Some(guard) => {
                    &&& !old(self)@.locked
                    &&& final(self)@ == old(self)@.acquire()
                    &&& final(self)@.held_by(guard.name())
                },
                None => {
                    &&& old(self)@.locked
                    &&& final(self)@ == old(self)@
                },
            },
    {
        let was_locked = self.locked;
        self.locked = true;
        if was_locked {
            None
        } else {
            Some(self.issue())
        }
    }

    /// Takes the lock. The caller takes a lock that is free: for a lock that
    /// is held there is nothing to do but `try_lock` again and again until
    /// its guard is released.
    pub fn lock(&mut self) -> (guard: LockGuard<T>)
        requires
            !old(self)@.locked,
        ensures
            final(self)@ == old(self)@.acquire(),
            final(self)@.held_by(guard.name()),
    {
        self.locked = true;
        self.issue()
    }

    fn issue(&mut self) -> (guard: LockGuard<T>)
        requires
            old(self).locked,
        ensures
            final(self)@ == old(self)@.acquire(),
            final(self)@.held_by(guard.name()),
    {
        let ghost name = self.issued@;
        self.holder = Ghost(Some(name));
        self.issued = Ghost(name + 1);
        LockGuard { name: Ghost(name), lock: PhantomData }
    }
}

impl<T> LockGuard<T> {
    /// The name under which the lock knows this guard.
    pub closed spec fn name(&self) -> nat {
        self.name@
    }

    /// Reads the value under the lock.
    pub fn deref<'a>(&self, lock: &'a SpinLock<T>) -> (value: &'a T)
        requires
            lock@.held_by(self.name()),
        ensures
            *value == lock@.value,
    {
        &lock.value
    }

    /// Reads and writes the value under the lock.
    pub fn deref_mut<'a>(&mut self, lock: &'a mut SpinLock<T>) -> (value: &'a mut T)
        requires
            old(lock)@.held_by(old(self).name()),
        ensures
            *value == old(lock)@.value,
            final(lock)@ == old(lock)@.store(*final(value)),
            final(self).name() == old(self).name(),
    {
        &mut lock.value
    }

    /// Releases the lock: lowers the flag and leaves the value as the guard
    /// last wrote it. This is the only step that lowers the flag.
    pub fn drop(self, lock: &mut SpinLock<T>)
        requires
            old(lock)@.held_by(self.name()),
        ensures
            final(lock)@ == old(lock)@.release(),
    {
        lock.locked = false;
        lock.holder = Ghost(None);
    }
}

/// The flag is up exactly while a guard is out: a new lock is well formed,
/// and a winning attempt, a write through the guard and a release each keep
/// it so.
pub proof fn flag_is_up_while_a_guard_is_out<T>(lock: LockView<T>, value: T)
    requires
        lock.wf(),
    ensures
        LockView::fresh(value).wf(),
        !lock.locked ==> lock.acquire().wf(),
        lock.store(value).wf(),
        lock.release().wf(),
{
}

/// No two guards are out together: while one is out every attempt loses,
/// and the guard that a winning attempt issues is one that was never issued
/// before, so a guard that was released does not hold the lock again.
pub proof fn guards_exclude_each_other<T>(lock: LockView<T>, guard: nat, earlier: nat)
    requires
        lock.wf(),
        lock.held_by(guard),
        earlier < lock.issued,
    ensures
        lock.locked,
        !lock.release().locked,
        !lock.release().acquire().held_by(earlier),
{
}

/// What one holder writes under the lock is what the next holder finds.
pub proof fn next_holder_finds_what_was_written<T>(lock: LockView<T>, value: T)
    ensures
        lock.acquire().store(value).release().acquire().value == value,
{
}

/// Where a worker stands that counts under the lock: the guard it holds, if
/// it holds one, and the count it has read and not yet written back.
pub struct Worker {
    pub guard: Option<nat>,
    pub seen: Option<nat>,
}

/// One step of one worker. A worker attempts the lock until it wins, reads
/// the count, writes back one more, and releases.
pub enum Step {
    Attempt(int),
    Read(int),
    Write(int),
    Release(int),
}

impl Step {
    /// The worker that takes the step.
    pub open spec fn worker(self) -> int {
        match self {
            Step::Attempt(worker) => worker,
            Step::Read(worker) => worker,
            Step::Write(worker) => worker,
            Step::Release(worker) => worker,
        }
    }
}

/// A lock that guards a count, and the workers that count under it.
pub struct Counting {
    pub lock: LockView<nat>,
    pub workers: Seq<Worker>,
}

impl Counting {
    /// A new lock around `count`, and `workers` workers that have not begun.
    pub open spec fn begin(count: nat, workers: nat) -> Self {
        Counting {
            lock: LockView::fresh(count),
            workers: Seq::new(workers, |worker: int| Worker { guard: None, seen: None }),
        }
    }

    /// Whether `step` can be taken. A worker attempts the lock while it
    /// holds no guard; it reads, writes and releases through a guard that
    /// holds the lock, as the steps of the guard ask; and it writes what it
    /// has read, and releases when it has written.
    pub open spec fn allows(self, step: Step) -> bool {
        &&& 0 <= step.worker() < self.workers.len()
        &&& match step {
            Step::Attempt(worker) => self.workers[worker].guard is None,
            Step::Read(worker) => {
                &&& self.workers[worker].guard matches Some(guard) && self.lock.held_by(guard)
                &&& self.workers[worker].seen is None
            },
            Step::Write(worker) => {
                &&& self.workers[worker].guard matches Some(guard) && self.lock.held_by(guard)
                &&& self.workers[worker].seen is Some
            },
            Step::Release(worker) => {
                &&& self.workers[worker].guard matches Some(guard) && self.lock.held_by(guard)
                &&& self.workers[worker].seen is None
            },
        }
    }

    /// What `step` makes of the lock and the workers.
    pub open spec fn after(self, step: Step) -> Self {
        match step {
            Step::Attempt(worker) => if self.lock.locked {
                self
            } else {
                Counting {
                    lock: self.lock.acquire(),
                    workers: self.workers.update(
                        worker,
                        Worker { guard: Some(self.lock.issued), seen: None },
                    ),
                }
            },
            Step::Read(worker) => Counting {
                lock: self.lock,
                workers: self.workers.update(
                    worker,
                    Worker { guard: self.workers[worker].guard, seen: Some(self.lock.value) },
                ),
            },
            Step::Write(worker) => Counting {
                lock: self.lock.store(self.workers[worker].seen->0 + 1),
                workers: self.workers.update(
                    worker,
                    Worker { guard: self.workers[worker].guard, seen: None },
                ),
            },
            Step::Release(worker) => Counting {
                lock: self.lock.release(),
                workers: self.workers.update(worker, Worker { guard: None, seen: None }),
            },
        }
    }

    /// Whether `steps` can be taken one after another.
    pub open spec fn allows_all(self, steps: Seq<Step>) -> bool
        decreases steps.len(),
    {
        steps.len() == 0 || (self.allows(steps[0]) && self.after(steps[0]).allows_all(
            steps.drop_first(),
        ))
    }

    /// What `steps` make of the lock and the workers.
    pub open spec fn after_all(self, steps: Seq<Step>) -> Self
        decreases steps.len(),
    {
        if steps.len() == 0 {
            self
        } else {
            self.after(steps[0]).after_all(steps.drop_first())
        }
    }

    /// The lock is well formed, a worker that holds a guard holds the one
    /// that is out, no two workers hold a guard, and what a worker has read
    /// is still the count.
    pub open spec fn consistent(self) -> bool {
        &&& self.lock.wf()
        &&& forall|worker: int|
            0 <= worker < self.workers.len() ==> (#[trigger] self.workers[worker].guard
                matches Some(guard) ==> self.lock.held_by(guard))
        &&& forall|one: int, other: int|
            0 <= one < self.workers.len() && 0 <= other < self.workers.len() && one != other ==> !(
            #[trigger] self.workers[one].guard is Some && #[trigger] self.workers[other].guard
                is Some)
        &&& forall|worker: int|
            0 <= worker < self.workers.len() ==> (#[trigger] self.workers[worker].seen matches Some(
                count,
            ) ==> self.workers[worker].guard is Some && count == self.lock.value)
    }
}

/// The number of writes among `steps`.
pub open spec fn writes(steps: Seq<Step>) -> nat
    decreases steps.len(),
{
    if steps.len() == 0 {
        0
    } else if steps[0] is Write {
        1 + writes(steps.drop_first())
    } else {
        writes(steps.drop_first())
    }
}

/// One step keeps the lock and the workers consistent, and only a write
/// changes the count: it adds one.
pub proof fn step_keeps_the_count(counting: Counting, step: Step)
    requires
        counting.consistent(),
        counting.allows(step),
    ensures
        counting.after(step).consistent(),
        counting.after(step).workers.len() == counting.workers.len(),
        counting.after(step).lock.value == counting.lock.value + (if step is Write {
            1nat
        } else {
            0nat
        }),
{
}

/// No count is lost under the lock. However the steps of the workers fall
/// between one another, no two workers ever hold a guard together, every
/// read is of the count as the last write left it, and the count grows by
/// one with each write: after the workers have counted it stands at where it
/// began plus the number of their writes.
pub proof fn no_count_is_lost(counting: Counting, steps: Seq<Step>)
    requires
        counting.consistent(),
        counting.allows_all(steps),
    ensures
        counting.after_all(steps).consistent(),
        counting.after_all(steps).lock.value == counting.lock.value + writes(steps),
    decreases steps.len(),
{
    if steps.len() > 0 {
        step_keeps_the_count(counting, steps[0]);
        no_count_is_lost(counting.after(steps[0]), steps.drop_first());
    }
}

/// Workers that have not begun are consistent with their new lock.
pub proof fn counting_begins_consistent(count: nat, workers: nat)
    ensures
        Counting::begin(count, workers).consistent(),
        Counting::begin(count, workers).lock.value == count,
{
}

} // verus!

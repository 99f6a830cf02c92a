//! A mutex that spins before it sleeps, and a latch that runs a body once.
//!
//! The mutex is one atomic lock word, 0 when free and 1 when held, and a
//! count of the threads that sleep on it. A thread takes the lock by
//! exchanging 0 for 1 in the word. After [`SPIN_COUNT`] failed exchanges in a
//! row that saw the word held it goes to sleep on the word, and the thread
//! that frees the lock wakes one sleeper if the count says that there is one.
//!
//! Sleeping and waking are calls to the operating system, which the caller
//! makes: [`Mutex::lock`] makes one exchange and says what to do next. What
//! the atomic operations return is not known before they run, so each
//! decision is also written as a function of the value that came back.

use core::sync::atomic::{AtomicBool, AtomicI32, AtomicUsize, Ordering};
use vstd::prelude::*;

verus! {

/// Number of failed exchanges in a row after which a thread goes to sleep.
pub const SPIN_COUNT: usize = 40;

/// The lock word of a free mutex.
pub const UNLOCKED: i32 = 0;

/// The lock word of a held mutex.
pub const LOCKED: i32 = 1;

/// One thread's attempt to take the lock: the number of exchanges that
/// failed since the attempt began or the thread last slept, the first
/// exchange of the attempt not counted.
#[derive(Clone, Copy, Debug, PartialEq, Eq, Structural)]
pub struct LockAttempt {
    pub spins_since_sleep: usize,
    pub retried: bool,
}

/// What a thread does after an exchange.
#[derive(Clone, Copy, Debug, PartialEq, Eq, Structural)]
pub enum Observed {
    /// The exchange put 1 in the place of 0: the lock is taken.
    Acquired,
    /// Exchange again.
    Retry,
    /// Add one to the count of sleepers, sleep on the lock word while it
    /// holds 1, take one from the count, and exchange again.
    Park,
}

/// The number of spins after one more failed exchange.
pub open spec fn one_more_spin(attempt: LockAttempt) -> int {
    if !attempt.retried {
        attempt.spins_since_sleep as int
    } else if attempt.spins_since_sleep < usize::MAX {
        attempt.spins_since_sleep + 1
    } else {
        attempt.spins_since_sleep as int
    }
}

/// What follows an exchange whose outcome is `exchange`: `Ok` when it put 1
/// in the place of 0, and `Err` with the value that it saw when it did not.
///
/// A failed exchange counts as a spin, but for the first one of the attempt.
/// With the spins at [`SPIN_COUNT`] and the word seen held, the thread goes
/// to sleep and counts its spins from zero again.
pub open spec fn observed(attempt: LockAttempt, exchange: Result<i32, i32>) -> (
    LockAttempt,
    Observed,
) {
    match exchange {
        Ok(_) => (attempt, Observed::Acquired),
        Err(seen) => {
            let spins = one_more_spin(attempt);
            if spins >= SPIN_COUNT && seen == LOCKED {
                (LockAttempt { spins_since_sleep: 0, retried: true }, Observed::Park)
            } else {
                (
                    LockAttempt { spins_since_sleep: spins as usize, retried: true },
                    Observed::Retry,
                )
            }
        },
    }
}

impl LockAttempt {
    /// An attempt that has made no exchange yet.
    pub fn new() -> (r: LockAttempt)
        ensures
            r == (LockAttempt { spins_since_sleep: 0, retried: false }),
    {
        LockAttempt { spins_since_sleep: 0, retried: false }
    }

    /// Takes note of the outcome of an exchange and decides what follows.
    pub fn observe(&mut self, exchange: Result<i32, i32>) -> (r: Observed)
        ensures
            (*final(self), r) == observed(*old(self), exchange),
    {
        match exchange {
            Ok(_) => Observed::Acquired,
            Err(seen) => {
                if self.retried && self.spins_since_sleep < usize::MAX {
                    self.spins_since_sleep = self.spins_since_sleep + 1;
                }
                self.retried = true;
                if self.spins_since_sleep >= SPIN_COUNT && seen == LOCKED {
                    self.spins_since_sleep = 0;
                    Observed::Park
                } else {
                    Observed::Retry
                }
            },
        }
    }
}

/// Whether the thread that frees the lock wakes a sleeper: it does when the
/// count of sleepers is not zero, and spares the call when it is.
pub fn wakes_sleeper(sleeping_count: usize) -> (r: bool)
    ensures
        r == (sleeping_count > 0),
{
    sleeping_count > 0
}

/// Whether a call of the latch runs the body, as the flag says that was read
/// under the lock: it does while the flag is not set.
pub fn runs_body(has_run: bool) -> (r: bool)
    ensures
        r == !has_run,
{
    !has_run
}

/// A mutual-exclusion lock around a payload.
pub struct Mutex<T> {
    is_locked: AtomicI32,
    sleeping_count: AtomicUsize,
    data: T,
}

/// Proof that the lock is held. It is neither copied nor cloned, and the lock
/// is freed by [`MutexGuard::unlock`], which takes the guard; a guard that is
/// dropped without it leaves the lock held.
pub struct MutexGuard<'p, T> {
    parent: &'p Mutex<T>,
}

/// What [`Mutex::lock`] found.
pub enum LockStep<'p, T> {
    /// The lock is taken.
    Acquired(MutexGuard<'p, T>),
    /// Call [`Mutex::lock`] again.
    Retry,
    /// Sleep on the lock word while it holds [`LOCKED`], between
    /// [`Mutex::before_sleep`] and [`Mutex::after_sleep`]; then call
    /// [`Mutex::lock`] again.
    Park,
}

impl<T> Mutex<T> {
    /// The payload.
    pub closed spec fn payload(self) -> T {
        self.data
    }

    /// A free mutex around `t`, with no sleeper.
    pub fn new(t: T) -> (r: Mutex<T>)
        ensures
            r.payload() == t,
    {
        Mutex { is_locked: AtomicI32::new(0), sleeping_count: AtomicUsize::new(0), data: t }
    }

    /// The payload of a mutex that is given up. No guard is left then: a
    /// guard borrows the mutex.
    pub fn into_inner(self) -> (r: T)
        ensures
            r == self.payload(),
    {
        self.data
    }

    /// The payload, for shared access.
    pub fn get(&self) -> (r: &T)
        ensures
            *r == self.payload(),
    {
        &self.data
    }

    /// The lock word of the mutex.
    pub closed spec fn word(self) -> AtomicI32 {
        self.is_locked
    }

    /// The lock word, for the calls that sleep on it and wake a sleeper: the
    /// word of this mutex, on which [`Mutex::lock`] exchanges.
    pub fn lock_word(&self) -> (r: &AtomicI32)
        ensures
            *r == self.word(),
    {
        &self.is_locked
    }

    /// Makes one exchange of 0 for 1 in the lock word, and decides by
    /// [`observed`] what follows. The lock is taken exactly when the
    /// exchange went through.
    pub fn lock<'p>(&'p self, attempt: &mut LockAttempt) -> (r: LockStep<'p, T>)
        ensures
            exists|exchange: Result<i32, i32>|
                {
                    &&& #[trigger] observed(*old(attempt), exchange).0 == *final(attempt)
                    &&& match observed(*old(attempt), exchange).1 {
                        Observed::Acquired => r matches LockStep::Acquired(g) && g.mutex()
                            == *self,
                        Observed::Retry => r is Retry,
                        Observed::Park => r is Park,
                    }
                },
    {
        let exchange = self.is_locked.compare_exchange_weak(
            UNLOCKED,
            LOCKED,
            Ordering::Acquire,
            Ordering::Relaxed,
        );
        let ghost before = *attempt;
        let step = attempt.observe(exchange);
        assert(observed(before, exchange).0 == *attempt);
        match step {
            Observed::Acquired => LockStep::Acquired(MutexGuard { parent: self }),
            Observed::Retry => LockStep::Retry,
            Observed::Park => LockStep::Park,
        }
    }

    /// Counts the calling thread among the sleepers.
    pub fn before_sleep(&self) {
        self.sleeping_count.fetch_add(1, Ordering::Relaxed);
    }

    /// Takes the calling thread from the count of sleepers.
    pub fn after_sleep(&self) {
        self.sleeping_count.fetch_sub(1, Ordering::Relaxed);
    }
}

impl<'p, T> MutexGuard<'p, T> {
    /// The mutex that is held.
    pub closed spec fn mutex(self) -> Mutex<T> {
        *self.parent
    }

    /// The payload of the mutex that is held.
    pub fn get(&self) -> (r: &'p T)
        ensures
            *r == self.mutex().payload(),
    {
        &self.parent.data
    }

    /// Frees the lock: puts 0 in the lock word, and then says whether to
    /// wake one sleeper, which is so when the count of sleepers is not zero.
    pub fn unlock(self) -> (wake: bool) {
        self.parent.is_locked.store(UNLOCKED, Ordering::Release);
        wakes_sleeper(self.parent.sleeping_count.load(Ordering::Relaxed))
    }
}

/// A latch that runs a body at most once.
pub struct Once {
    has_run: AtomicBool,
    mtx: Mutex<()>,
}

impl Once {
    /// A latch that has run nothing.
    pub fn new() -> (r: Once) {
        Once { has_run: AtomicBool::new(false), mtx: Mutex::new(()) }
    }

    /// Whether the body has run, as far as the calling thread can see
    /// without the lock. A caller that sees `true` is done, and calls
    /// nothing.
    pub fn is_completed(&self) -> (r: bool) {
        self.has_run.load(Ordering::Acquire)
    }

    /// The latch's mutex, which the caller takes before [`Once::call_once`].
    pub fn mutex(&self) -> (r: &Mutex<()>)
        ensures
            *r == self.lock(),
    {
        &self.mtx
    }

    /// The latch's mutex.
    pub closed spec fn lock(self) -> Mutex<()> {
        self.mtx
    }

    /// Runs `f` unless the body has run, and says whether it ran. The caller
    /// holds the latch's mutex, and `guard` shows it: of the callers that
    /// race for the first run, one at a time reads the flag, so one of them
    /// finds it unset, runs `f` and sets it, and the others find it set.
    pub fn call_once<F: FnOnce()>(&self, guard: &MutexGuard<'_, ()>, f: F) -> (ran: bool)
        requires
            guard.mutex() == self.lock(),
            f.requires(()),
        ensures
            ran ==> f.ensures((), ()),
    {
        let has_run: bool = self.has_run.load(Ordering::Relaxed);
        self.run_unless(guard, has_run, f)
    }

    /// Runs `f` exactly if `has_run`, the flag as it was read under the
    /// latch's mutex, is not set, sets the flag behind it, and says whether
    /// `f` ran. This is what [`Once::call_once`] does with the flag that it
    /// has read.
    pub fn run_unless<F: FnOnce()>(
        &self,
        guard: &MutexGuard<'_, ()>,
        has_run: bool,
        f: F,
    ) -> (ran: bool)
        requires
            guard.mutex() == self.lock(),
            !has_run ==> f.requires(()),
        ensures
            ran == !has_run,
            ran ==> f.ensures((), ()),
    {
        if runs_body(has_run) {
            f();
            self.has_run.store(true, Ordering::Release);
            true
        } else {
            false
        }
    }
}

} // verus!

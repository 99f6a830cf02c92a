//! The mutex and the latch under every interleaving of their threads.
//!
//! The threads of a program take turns in any order, and a turn is one
//! access to the shared words: an exchange on the lock word, a change of the
//! count of sleepers, a load or a store. A thread's own decisions are those
//! of [`crate::sync`]. A thread that sleeps may wake at any time, woken or
//! not, and an exchange may fail although it saw the word free: what is
//! proved here needs neither to be otherwise.

pub mod counter;
pub mod latch;

use crate::sync::{LockAttempt, LOCKED, UNLOCKED};
use vstd::prelude::*;

verus! {

/// One turn: the thread that takes it and, if the turn is an exchange on the
/// lock word, its outcome.
pub struct Turn {
    pub thread: int,
    pub exchange: Result<i32, i32>,
}

/// Whether an exchange of 0 for 1 on a lock word that holds `word` can have
/// the outcome `exchange` and leave `after` in the word. It goes through
/// only on a free word, which is held after it; a failed one has seen what
/// the word holds and leaves it.
pub open spec fn exchanges(word: int, exchange: Result<i32, i32>, after: int) -> bool {
    match exchange {
        Ok(seen) => word == UNLOCKED && seen == UNLOCKED && after == LOCKED,
        Err(seen) => seen == word && after == word,
    }
}

/// A fresh attempt to take the lock.
pub open spec fn fresh() -> LockAttempt {
    LockAttempt { spins_since_sleep: 0, retried: false }
}

} // verus!

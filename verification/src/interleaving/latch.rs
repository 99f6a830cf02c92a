//! Threads that call the latch: whatever their number and the order of their
//! turns, the body runs once.

use crate::interleaving::{exchanges, fresh, Turn};
use crate::sync::{observed, LockAttempt, Observed, LOCKED, UNLOCKED};
use vstd::prelude::*;

verus! {

/// Where a thread stands that calls the latch.
pub enum OncePc {
    /// About to load the flag without the lock.
    Start,
    /// About to exchange on the lock word.
    Trying(LockAttempt),
    /// About to count itself among the sleepers.
    Parking(LockAttempt),
    /// Asleep on the lock word.
    Asleep(LockAttempt),
    /// Awake again, about to take itself from the count of sleepers.
    Waking(LockAttempt),
    /// Holding the lock, about to load the flag again.
    Holding,
    /// Holding the lock, about to run the body.
    Running,
    /// Holding the lock after the body, about to set the flag.
    Setting,
    /// About to free the lock word, with the value that the call returns.
    Releasing(bool),
    /// Returned, with the value that the call returned.
    Done(bool),
}

/// The latch and its callers at one moment: the lock word, the count of
/// sleepers, the flag, the number of times that the body has run, and where
/// each caller stands.
pub struct OnceWorld {
    pub word: int,
    pub sleepers: int,
    pub has_run: bool,
    pub runs: int,
    pub threads: Seq<OncePc>,
}

/// The latch before any turn, with `n` callers about to call it.
pub open spec fn once_start(n: nat) -> OnceWorld {
    OnceWorld {
        word: UNLOCKED as int,
        sleepers: 0,
        has_run: false,
        runs: 0,
        threads: Seq::new(n, |i: int| OncePc::Start),
    }
}

/// The world in which thread `thread` stands at `pc` and all else is as in
/// `w`.
pub open spec fn once_moved(w: OnceWorld, thread: int, pc: OncePc) -> OnceWorld {
    OnceWorld { threads: w.threads.update(thread, pc), ..w }
}

/// The latch after `turn`; `None` where the thread cannot take that
/// turn.
pub open spec fn once_next(w: OnceWorld, turn: Turn) -> Option<OnceWorld> {
    if !(0 <= turn.thread < w.threads.len()) {
        None
    } else {
        match w.threads[turn.thread] {
            OncePc::Start => if w.has_run {
                Some(once_moved(w, turn.thread, OncePc::Done(false)))
            } else {
                Some(once_moved(w, turn.thread, OncePc::Trying(fresh())))
            },
            OncePc::Trying(attempt) => {
                let after: int = if turn.exchange is Ok {
                    LOCKED as int
                } else {
                    w.word
                };
                if exchanges(w.word, turn.exchange, after) {
                    let (next, what) = observed(attempt, turn.exchange);
                    let pc = match what {
                        Observed::Acquired => OncePc::Holding,
                        Observed::Retry => OncePc::Trying(next),
                        Observed::Park => OncePc::Parking(next),
                    };
                    Some(OnceWorld { word: after, ..once_moved(w, turn.thread, pc) })
                } else {
                    None
                }
            },
            OncePc::Parking(attempt) => Some(
                OnceWorld {
                    sleepers: w.sleepers + 1,
                    ..once_moved(w, turn.thread, OncePc::Asleep(attempt))
                },
            ),
            OncePc::Asleep(attempt) => Some(once_moved(w, turn.thread, OncePc::Waking(attempt))),
            OncePc::Waking(attempt) => Some(
                OnceWorld {
                    sleepers: w.sleepers - 1,
                    ..once_moved(w, turn.thread, OncePc::Trying(attempt))
                },
            ),
            OncePc::Holding => if w.has_run {
                Some(once_moved(w, turn.thread, OncePc::Releasing(false)))
            } else {
                Some(once_moved(w, turn.thread, OncePc::Running))
            },
            OncePc::Running => Some(
                OnceWorld { runs: w.runs + 1, ..once_moved(w, turn.thread, OncePc::Setting) },
            ),
            OncePc::Setting => Some(
                OnceWorld { has_run: true, ..once_moved(w, turn.thread, OncePc::Releasing(true)) },
            ),
            OncePc::Releasing(ran) => Some(
                OnceWorld { word: UNLOCKED as int, ..once_moved(w, turn.thread, OncePc::Done(ran)) },
            ),
            OncePc::Done(_) => None,
        }
    }
}

/// Whether a caller that stands at `pc` holds the lock.
pub open spec fn once_holds(pc: OncePc) -> bool {
    pc is Holding || pc is Running || pc is Setting || pc is Releasing
}

/// Whether a caller that stands at `pc` has run the body.
pub open spec fn has_run_body(pc: OncePc) -> bool {
    pc is Setting || pc == OncePc::Releasing(true) || pc == OncePc::Done(true)
}

/// Number of the callers that have run the body.
pub open spec fn ran_count(threads: Seq<OncePc>) -> int
    decreases threads.len(),
{
    if threads.len() == 0 {
        0
    } else {
        ran_count(threads.drop_last()) + if has_run_body(threads.last()) {
            1int
        } else {
            0int
        }
    }
}

/// Whether `turns` is a run of `n` callers of the latch from its start,
/// and `worlds` the moments that it passes through.
pub open spec fn once_run(n: nat, worlds: Seq<OnceWorld>, turns: Seq<Turn>) -> bool {
    &&& worlds.len() == turns.len() + 1
    &&& worlds[0] == once_start(n)
    &&& forall|i: int|
        0 <= i < turns.len() ==> once_next(#[trigger] worlds[i], turns[i]) == Some(worlds[i + 1])
}

/// Whether every caller has returned.
pub open spec fn once_finished(w: OnceWorld) -> bool {
    forall|i: int| 0 <= i < w.threads.len() ==> #[trigger] w.threads[i] is Done
}

/// What holds at every moment of a run: the lock word is held exactly while
/// a caller holds the lock, no two callers hold it, the body has run once if
/// the flag is set or about to be set and else not at all, a caller past the
/// second look at the flag has seen it set, and the callers that have run
/// the body are as many as its runs.
pub open spec fn once_inv(w: OnceWorld) -> bool {
    &&& w.word == UNLOCKED || w.word == LOCKED
    &&& w.word == LOCKED <==> exists|i: int|
        0 <= i < w.threads.len() && once_holds(#[trigger] w.threads[i])
    &&& forall|i: int, j: int|
        0 <= i < w.threads.len() && 0 <= j < w.threads.len() && once_holds(
            #[trigger] w.threads[i],
        ) && once_holds(#[trigger] w.threads[j]) ==> i == j
    &&& forall|i: int|
        0 <= i < w.threads.len() ==> {
            &&& #[trigger] w.threads[i] is Running ==> !w.has_run && w.runs == 0
            &&& w.threads[i] is Setting ==> !w.has_run && w.runs == 1
            &&& w.threads[i] is Releasing || w.threads[i] is Done ==> w.has_run
        }
    &&& w.has_run ==> w.runs == 1
    &&& !w.has_run && (forall|i: int|
        0 <= i < w.threads.len() ==> !(#[trigger] w.threads[i] is Setting)) ==> w.runs == 0
    &&& w.runs == ran_count(w.threads)
}

/// Changing one caller changes the number of those that have run the body
/// by what that caller adds to it.
pub proof fn lemma_ran_update(threads: Seq<OncePc>, i: int, pc: OncePc)
    requires
        0 <= i < threads.len(),
    ensures
        ran_count(threads.update(i, pc)) == ran_count(threads) - (if has_run_body(threads[i]) {
            1int
        } else {
            0int
        }) + (if has_run_body(pc) {
            1int
        } else {
            0int
        }),
    decreases threads.len(),
{
    let changed = threads.update(i, pc);
    if i == threads.len() - 1 {
        assert(changed.drop_last() =~= threads.drop_last());
    } else {
        assert(changed.drop_last() =~= threads.drop_last().update(i, pc));
        lemma_ran_update(threads.drop_last(), i, pc);
    }
}

/// Callers of whom none has run the body count as none.
pub proof fn lemma_ran_none(threads: Seq<OncePc>)
    requires
        forall|i: int| 0 <= i < threads.len() ==> !has_run_body(#[trigger] threads[i]),
    ensures
        ran_count(threads) == 0,
    decreases threads.len(),
{
    if threads.len() > 0 {
        let rest = threads.drop_last();
        assert forall|i: int| 0 <= i < rest.len() implies !has_run_body(#[trigger] rest[i]) by {
            assert(rest[i] == threads[i]);
        }
        lemma_ran_none(rest);
        assert(threads.last() == threads[threads.len() - 1]);
    }
}

/// A turn leads from a moment as every moment of a run is to another.
pub proof fn lemma_once_turn(w: OnceWorld, turn: Turn)
    requires
        once_inv(w),
        once_next(w, turn) is Some,
    ensures
        once_inv(once_next(w, turn)->Some_0),
{
    let w2 = once_next(w, turn)->Some_0;
    let t = turn.thread;
    let me = w.threads[t];
    let me2 = w2.threads[t];
    assert(w2.threads == w.threads.update(t, me2));
    lemma_ran_update(w.threads, t, me2);
    assert forall|i: int| 0 <= i < w.threads.len() && i != t implies w2.threads[i]
        == w.threads[i] by {}
    if once_holds(me) {
        assert forall|i: int| 0 <= i < w.threads.len() && i != t implies !once_holds(
            #[trigger] w2.threads[i],
        ) by {
            assert(w2.threads[i] == w.threads[i]);
        }
    }
    if w2.word == LOCKED {
        if once_holds(me2) {
            assert(once_holds(w2.threads[t]));
        } else {
            let h = choose|i: int| 0 <= i < w.threads.len() && once_holds(#[trigger] w.threads[i]);
            assert(h != t);
            assert(once_holds(w2.threads[h]));
        }
    }
    if exists|i: int| 0 <= i < w2.threads.len() && once_holds(#[trigger] w2.threads[i]) {
        let h = choose|i: int| 0 <= i < w2.threads.len() && once_holds(#[trigger] w2.threads[i]);
        if h != t {
            assert(once_holds(w.threads[h]));
        }
    }
    assert forall|i: int, j: int|
        0 <= i < w2.threads.len() && 0 <= j < w2.threads.len() && once_holds(
            #[trigger] w2.threads[i],
        ) && once_holds(#[trigger] w2.threads[j]) implies i == j by {
        if i != t {
            assert(once_holds(w.threads[i]));
        }
        if j != t {
            assert(once_holds(w.threads[j]));
        }
    }
    assert forall|i: int| 0 <= i < w2.threads.len() implies {
        &&& #[trigger] w2.threads[i] is Running ==> !w2.has_run && w2.runs == 0
        &&& w2.threads[i] is Setting ==> !w2.has_run && w2.runs == 1
        &&& w2.threads[i] is Releasing || w2.threads[i] is Done ==> w2.has_run
    } by {
        if i != t {
            assert(w2.threads[i] == w.threads[i]);
            if once_holds(w.threads[i]) && once_holds(me) {
                assert(false);
            }
        } else if me is Holding && !w.has_run {
            assert forall|j: int| 0 <= j < w.threads.len() implies !(
            #[trigger] w.threads[j] is Setting) by {
                if w.threads[j] is Setting {
                    assert(once_holds(w.threads[j]));
                    assert(once_holds(w.threads[t]));
                }
            }
        }
    }
    if !w2.has_run && (forall|i: int|
        0 <= i < w2.threads.len() ==> !(#[trigger] w2.threads[i] is Setting)) {
        assert(!(w2.threads[t] is Setting));
        assert forall|i: int| 0 <= i < w.threads.len() implies !(
        #[trigger] w.threads[i] is Setting) by {
            if i != t {
                assert(w2.threads[i] == w.threads[i]);
            }
        }
    }
}

/// Every moment of a run of the latch is as [`once_inv`] says.
pub proof fn lemma_once_run(n: nat, worlds: Seq<OnceWorld>, turns: Seq<Turn>, at: int)
    requires
        once_run(n, worlds, turns),
        0 <= at < worlds.len(),
    ensures
        once_inv(worlds[at]),
        worlds[at].threads.len() == n,
    decreases at,
{
    if at == 0 {
        lemma_ran_none(once_start(n).threads);
    } else {
        lemma_once_run(n, worlds, turns, at - 1);
        assert(once_next(worlds[at - 1], turns[at - 1]) == Some(worlds[at]));
        lemma_once_turn(worlds[at - 1], turns[at - 1]);
    }
}

/// At no moment of a run has the body run more than once, whatever the
/// number of callers and the order of their turns; and as many callers have
/// run it as it has run.
pub proof fn lemma_once_at_most_once(n: nat, worlds: Seq<OnceWorld>, turns: Seq<Turn>, at: int)
    requires
        once_run(n, worlds, turns),
        0 <= at < worlds.len(),
    ensures
        0 <= worlds[at].runs <= 1,
        worlds[at].runs == ran_count(worlds[at].threads),
{
    lemma_once_run(n, worlds, turns, at);
    let w = worlds[at];
    if !w.has_run && !(forall|i: int|
        0 <= i < w.threads.len() ==> !(#[trigger] w.threads[i] is Setting)) {
        let i = choose|i: int| 0 <= i < w.threads.len() && #[trigger] w.threads[i] is Setting;
        assert(w.threads[i] is Setting);
    }
}

/// When the callers of the latch have all returned, and there was at
/// least one, the body has run exactly once, and exactly one call has
/// returned that it ran it.
pub proof fn lemma_once_is_exact(n: nat, worlds: Seq<OnceWorld>, turns: Seq<Turn>)
    requires
        n >= 1,
        once_run(n, worlds, turns),
        once_finished(worlds.last()),
    ensures
        worlds.last().runs == 1,
        ran_count(worlds.last().threads) == 1,
{
    lemma_once_run(n, worlds, turns, worlds.len() - 1);
    let w = worlds.last();
    assert(w.threads[0] is Done);
}

} // verus!

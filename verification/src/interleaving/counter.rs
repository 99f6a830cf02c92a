//! Threads that add to a shared counter under the mutex: whatever the order
//! of their turns, no addition is lost.

use crate::interleaving::{exchanges, fresh, Turn};
use crate::sync::{observed, LockAttempt, Observed, LOCKED, UNLOCKED};
use vstd::prelude::*;

verus! {

/// Where a thread stands that adds one to a shared counter under the lock,
/// again and again.
pub enum CounterPc {
    /// Between two rounds.
    Idle,
    /// About to exchange on the lock word.
    Trying(LockAttempt),
    /// About to count itself among the sleepers.
    Parking(LockAttempt),
    /// Asleep on the lock word.
    Asleep(LockAttempt),
    /// Awake again, about to take itself from the count of sleepers.
    Waking(LockAttempt),
    /// Holding the lock, about to load the counter.
    Holding,
    /// Holding the lock with the counter's value loaded, about to store it
    /// plus one.
    Loaded(int),
    /// Holding the lock after the store, about to free the lock word.
    Stored,
    /// Past freeing the lock word, about to wake a sleeper if the count says
    /// so, which ends the round.
    Released,
}

/// A thread of the counter program: where it stands, and the rounds that it
/// has ended.
pub struct CounterThread {
    pub pc: CounterPc,
    pub done: int,
}

/// The counter program at one moment.
pub struct CounterWorld {
    pub word: int,
    pub sleepers: int,
    pub counter: int,
    pub threads: Seq<CounterThread>,
}

/// The counter program before any turn: `n` threads between rounds, a free
/// lock and a counter at zero.
pub open spec fn counter_start(n: nat) -> CounterWorld {
    CounterWorld {
        word: UNLOCKED as int,
        sleepers: 0,
        counter: 0,
        threads: Seq::new(n, |i: int| CounterThread { pc: CounterPc::Idle, done: 0 }),
    }
}

/// The counter program after `turn`, where each thread makes `k` rounds;
/// `None` where the thread cannot take that turn.
pub open spec fn counter_next(k: int, w: CounterWorld, turn: Turn) -> Option<CounterWorld> {
    if !(0 <= turn.thread < w.threads.len()) {
        None
    } else {
        let me = w.threads[turn.thread];
        match me.pc {
            CounterPc::Idle => if me.done < k {
                Some(counter_moved(w, turn.thread, CounterPc::Trying(fresh())))
            } else {
                None
            },
            CounterPc::Trying(attempt) => {
                let after: int = if turn.exchange is Ok {
                    LOCKED as int
                } else {
                    w.word
                };
                if exchanges(w.word, turn.exchange, after) {
                    let (next, what) = observed(attempt, turn.exchange);
                    let pc = match what {
                        Observed::Acquired => CounterPc::Holding,
                        Observed::Retry => CounterPc::Trying(next),
                        Observed::Park => CounterPc::Parking(next),
                    };
                    Some(CounterWorld { word: after, ..counter_moved(w, turn.thread, pc) })
                } else {
                    None
                }
            },
            CounterPc::Parking(attempt) => Some(
                CounterWorld {
                    sleepers: w.sleepers + 1,
                    ..counter_moved(w, turn.thread, CounterPc::Asleep(attempt))
                },
            ),
            CounterPc::Asleep(attempt) => Some(
                counter_moved(w, turn.thread, CounterPc::Waking(attempt)),
            ),
            CounterPc::Waking(attempt) => Some(
                CounterWorld {
                    sleepers: w.sleepers - 1,
                    ..counter_moved(w, turn.thread, CounterPc::Trying(attempt))
                },
            ),
            CounterPc::Holding => Some(
                counter_moved(w, turn.thread, CounterPc::Loaded(w.counter)),
            ),
            CounterPc::Loaded(value) => Some(
                CounterWorld {
                    counter: value + 1,
                    ..counter_moved(w, turn.thread, CounterPc::Stored)
                },
            ),
            CounterPc::Stored => Some(
                CounterWorld {
                    word: UNLOCKED as int,
                    ..counter_moved(w, turn.thread, CounterPc::Released)
                },
            ),
            CounterPc::Released => Some(
                CounterWorld {
                    threads: w.threads.update(
                        turn.thread,
                        CounterThread { pc: CounterPc::Idle, done: me.done + 1 },
                    ),
                    ..w
                },
            ),
        }
    }
}

/// The world in which thread `thread` stands at `pc` and all else is as in
/// `w`.
pub open spec fn counter_moved(w: CounterWorld, thread: int, pc: CounterPc) -> CounterWorld {
    CounterWorld {
        threads: w.threads.update(thread, CounterThread { pc, done: w.threads[thread].done }),
        ..w
    }
}

/// Whether a thread that stands at `pc` holds the lock.
pub open spec fn counter_holds(pc: CounterPc) -> bool {
    pc is Holding || pc is Loaded || pc is Stored
}

/// What a thread has added to the counter: one for each round that it has
/// ended, and one for a store that it has made in the round in course.
pub open spec fn added(t: CounterThread) -> int {
    t.done + if t.pc is Stored || t.pc is Released {
        1int
    } else {
        0int
    }
}

/// What the threads have added to the counter between them.
pub open spec fn added_by_all(threads: Seq<CounterThread>) -> int
    decreases threads.len(),
{
    if threads.len() == 0 {
        0
    } else {
        added_by_all(threads.drop_last()) + added(threads.last())
    }
}

/// Whether `turns` is a run of the counter program from its start, and
/// `worlds` the moments that it passes through.
pub open spec fn counter_run(n: nat, k: int, worlds: Seq<CounterWorld>, turns: Seq<Turn>) -> bool {
    &&& worlds.len() == turns.len() + 1
    &&& worlds[0] == counter_start(n)
    &&& forall|i: int|
        0 <= i < turns.len() ==> counter_next(k, #[trigger] worlds[i], turns[i]) == Some(
            worlds[i + 1],
        )
}

/// Whether every thread has made its `k` rounds.
pub open spec fn counter_finished(k: int, w: CounterWorld) -> bool {
    forall|i: int|
        0 <= i < w.threads.len() ==> (#[trigger] w.threads[i]).pc is Idle && w.threads[i].done
            == k
}

/// What holds at every moment of a run: the lock word is held exactly while
/// a thread holds the lock, no two threads hold it, a loaded value is the
/// counter's, no thread makes more than its rounds, and the counter is what
/// the threads have added.
pub open spec fn counter_inv(k: int, w: CounterWorld) -> bool {
    &&& w.word == UNLOCKED || w.word == LOCKED
    &&& w.word == LOCKED <==> exists|i: int|
        0 <= i < w.threads.len() && counter_holds(#[trigger] w.threads[i].pc)
    &&& forall|i: int, j: int|
        0 <= i < w.threads.len() && 0 <= j < w.threads.len() && counter_holds(
            #[trigger] w.threads[i].pc,
        ) && counter_holds(#[trigger] w.threads[j].pc) ==> i == j
    &&& forall|i: int|
        0 <= i < w.threads.len() ==> ((#[trigger] w.threads[i]).pc matches CounterPc::Loaded(v)
            ==> v == w.counter)
    &&& forall|i: int|
        0 <= i < w.threads.len() ==> 0 <= (#[trigger] w.threads[i]).done <= k && (
        !(w.threads[i].pc is Idle) ==> w.threads[i].done < k)
    &&& w.counter == added_by_all(w.threads)
}

/// Changing one thread changes what all have added by what that thread has
/// added more.
pub proof fn lemma_added_update(threads: Seq<CounterThread>, i: int, t: CounterThread)
    requires
        0 <= i < threads.len(),
    ensures
        added_by_all(threads.update(i, t)) == added_by_all(threads) - added(threads[i]) + added(
            t,
        ),
    decreases threads.len(),
{
    let changed = threads.update(i, t);
    if i == threads.len() - 1 {
        assert(changed.drop_last() =~= threads.drop_last());
    } else {
        assert(changed.drop_last() =~= threads.drop_last().update(i, t));
        lemma_added_update(threads.drop_last(), i, t);
    }
}

/// Threads that have each ended `k` rounds and stand between rounds have
/// added `k` each.
pub proof fn lemma_added_when_finished(k: int, threads: Seq<CounterThread>)
    requires
        forall|i: int|
            0 <= i < threads.len() ==> (#[trigger] threads[i]).pc is Idle && threads[i].done == k,
    ensures
        added_by_all(threads) == threads.len() * k,
    decreases threads.len(),
{
    if threads.len() > 0 {
        let rest = threads.drop_last();
        assert forall|i: int| 0 <= i < rest.len() implies (#[trigger] rest[i]).pc is Idle
            && rest[i].done == k by {
            assert(rest[i] == threads[i]);
        }
        lemma_added_when_finished(k, rest);
        assert(threads.last() == threads[threads.len() - 1]);
        assert(threads.len() * k == rest.len() * k + k) by (nonlinear_arith)
            requires
                threads.len() == rest.len() + 1,
        ;
    } else {
        assert(threads.len() * k == 0) by (nonlinear_arith)
            requires
                threads.len() == 0,
        ;
    }
}

/// The start of the counter program is as every moment of a run is.
pub proof fn lemma_counter_start(n: nat, k: int)
    requires
        k >= 0,
    ensures
        counter_inv(k, counter_start(n)),
{
    let w = counter_start(n);
    assert(added_by_all(w.threads) == 0) by {
        lemma_added_at_start(w.threads);
    }
}

/// Threads that have ended no round and made no store have added nothing.
proof fn lemma_added_at_start(threads: Seq<CounterThread>)
    requires
        forall|i: int|
            0 <= i < threads.len() ==> (#[trigger] threads[i]).pc is Idle && threads[i].done == 0,
    ensures
        added_by_all(threads) == 0,
{
    lemma_added_when_finished(0, threads);
    assert(threads.len() * 0 == 0) by (nonlinear_arith);
}

/// A turn leads from a moment as every moment of a run is to another.
pub proof fn lemma_counter_turn(k: int, w: CounterWorld, turn: Turn)
    requires
        counter_inv(k, w),
        counter_next(k, w, turn) is Some,
    ensures
        counter_inv(k, counter_next(k, w, turn)->Some_0),
{
    let w2 = counter_next(k, w, turn)->Some_0;
    let t = turn.thread;
    let me = w.threads[t];
    let me2 = w2.threads[t];
    assert(w2.threads == w.threads.update(t, me2));
    lemma_added_update(w.threads, t, me2);
    assert forall|i: int| 0 <= i < w.threads.len() && i != t implies w2.threads[i]
        == w.threads[i] by {}
    if counter_holds(me.pc) {
        assert forall|i: int| 0 <= i < w.threads.len() && i != t implies !counter_holds(
            #[trigger] w2.threads[i].pc,
        ) by {
            assert(w2.threads[i] == w.threads[i]);
        }
    }
    if w2.word == LOCKED {
        if counter_holds(me2.pc) {
            assert(counter_holds(w2.threads[t].pc));
        } else {
            let h = choose|i: int|
                0 <= i < w.threads.len() && counter_holds(#[trigger] w.threads[i].pc);
            assert(h != t);
            assert(counter_holds(w2.threads[h].pc));
        }
    }
    if exists|i: int| 0 <= i < w2.threads.len() && counter_holds(#[trigger] w2.threads[i].pc) {
        let h = choose|i: int|
            0 <= i < w2.threads.len() && counter_holds(#[trigger] w2.threads[i].pc);
        if h != t {
            assert(counter_holds(w.threads[h].pc));
        }
    }
    assert forall|i: int, j: int|
        0 <= i < w2.threads.len() && 0 <= j < w2.threads.len() && counter_holds(
            #[trigger] w2.threads[i].pc,
        ) && counter_holds(#[trigger] w2.threads[j].pc) implies i == j by {
        if i != t {
            assert(counter_holds(w.threads[i].pc));
        }
        if j != t {
            assert(counter_holds(w.threads[j].pc));
        }
    }
    assert forall|i: int| 0 <= i < w2.threads.len() implies ((#[trigger] w2.threads[i]).pc matches CounterPc::Loaded(
        v,
    ) ==> v == w2.counter) by {
        if i != t {
            assert(w2.threads[i] == w.threads[i]);
            if w.threads[i].pc is Loaded {
                assert(counter_holds(w.threads[i].pc));
            }
        }
    }
    assert forall|i: int| 0 <= i < w2.threads.len() implies 0 <= (#[trigger] w2.threads[i]).done
        <= k && (!(w2.threads[i].pc is Idle) ==> w2.threads[i].done < k) by {
        if i != t {
            assert(w2.threads[i] == w.threads[i]);
        }
    }
}

/// Every moment of a run of the counter program is as [`counter_inv`] says.
pub proof fn lemma_counter_run(
    n: nat,
    k: int,
    worlds: Seq<CounterWorld>,
    turns: Seq<Turn>,
    at: int,
)
    requires
        k >= 0,
        counter_run(n, k, worlds, turns),
        0 <= at < worlds.len(),
    ensures
        counter_inv(k, worlds[at]),
        worlds[at].threads.len() == n,
    decreases at,
{
    if at == 0 {
        lemma_counter_start(n, k);
    } else {
        lemma_counter_run(n, k, worlds, turns, at - 1);
        assert(counter_next(k, worlds[at - 1], turns[at - 1]) == Some(worlds[at]));
        lemma_counter_turn(k, worlds[at - 1], turns[at - 1]);
    }
}

/// When `n` threads have each added one to the shared counter `k` times
/// under the lock, the counter holds `n * k`, whatever the order of their
/// turns was.
pub proof fn lemma_counter_is_exact(n: nat, k: int, worlds: Seq<CounterWorld>, turns: Seq<Turn>)
    requires
        k >= 0,
        counter_run(n, k, worlds, turns),
        counter_finished(k, worlds.last()),
    ensures
        worlds.last().counter == n * k,
{
    lemma_counter_run(n, k, worlds, turns, worlds.len() - 1);
    lemma_added_when_finished(k, worlds.last().threads);
}

/// At no moment of a run do two threads hold the lock.
pub proof fn lemma_counter_excludes(
    n: nat,
    k: int,
    worlds: Seq<CounterWorld>,
    turns: Seq<Turn>,
    at: int,
    i: int,
    j: int,
)
    requires
        k >= 0,
        counter_run(n, k, worlds, turns),
        0 <= at < worlds.len(),
        0 <= i < n,
        0 <= j < n,
        counter_holds(worlds[at].threads[i].pc),
        counter_holds(worlds[at].threads[j].pc),
    ensures
        i == j,
{
    lemma_counter_run(n, k, worlds, turns, at);
}

} // verus!

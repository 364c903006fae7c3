//! The decisions of the outpost's query pool: how many workers it starts,
//! and the watchdog that abandons submitted jobs past their deadline. A job
//! still running past its deadline parks its worker (a hung cross-process
//! call can be neither cancelled nor waited out) and a replacement worker
//! restores capacity. Times are milliseconds on one monotonic clock.

use vstd::prelude::*;

verus! {

/// The number of workers a pool of the requested size starts: at least one.
pub fn worker_count(size: usize) -> (r: usize)
    ensures
        r == if size == 0 {
            1
        } else {
            size
        },
{
    if size == 0 {
        1
    } else {
        size
    }
}

/// How long until `deadline`, zero once it has passed.
pub open spec fn wait_until(deadline: u64, now: u64) -> u64 {
    if deadline > now {
        (deadline - now) as u64
    } else {
        0
    }
}

/// The shortest wait until any of the deadlines, none when there are none.
pub open spec fn shortest_wait(deadlines: Seq<u64>, now: u64) -> Option<u64>
    decreases deadlines.len(),
{
    if deadlines.len() == 0 {
        None
    } else {
        let first = wait_until(deadlines[0], now);
        match shortest_wait(deadlines.drop_first(), now) {
            None => Some(first),
            Some(rest) => Some(if first <= rest {
                first
            } else {
                rest
            }),
        }
    }
}

/// The watchdog wakes for the soonest deadline: with no deadline it waits
/// without a timeout; otherwise its wait is no longer than the wait until
/// any of the deadlines, and equals the wait until one of them.
pub proof fn law_watchdog_wakes_for_the_soonest_deadline(deadlines: Seq<u64>, now: u64)
    ensures
        shortest_wait(deadlines, now) is None <==> deadlines.len() == 0,
        shortest_wait(deadlines, now) matches Some(w) ==> {
            &&& forall|i: int| 0 <= i < deadlines.len() ==> w <= #[trigger] wait_until(deadlines[i], now)
            &&& exists|i: int| 0 <= i < deadlines.len() && w == #[trigger] wait_until(deadlines[i], now)
        },
    decreases deadlines.len(),
{
    if deadlines.len() > 0 {
        let rest = deadlines.drop_first();
        law_watchdog_wakes_for_the_soonest_deadline(rest, now);
        let w = shortest_wait(deadlines, now).unwrap();
        assert forall|i: int| 0 <= i < deadlines.len() implies w <= #[trigger] wait_until(deadlines[i], now) by {
            if i > 0 {
                assert(deadlines[i] == rest[i - 1]);
            }
        }
        match shortest_wait(rest, now) {
            None => {
                assert(w == wait_until(deadlines[0], now));
            },
            Some(r) => {
                if w == wait_until(deadlines[0], now) {
                } else {
                    let j = choose|j: int| 0 <= j < rest.len() && r == #[trigger] wait_until(rest[j], now);
                    assert(deadlines[j + 1] == rest[j]);
                    assert(w == wait_until(deadlines[j + 1], now));
                }
            },
        }
    }
}

/// A deadline that has passed, or is due now, means no wait at all; a
/// future one means exactly the time left until it.
pub proof fn law_wait_is_the_time_left(deadline: u64, now: u64)
    ensures
        deadline <= now ==> wait_until(deadline, now) == 0,
        deadline > now ==> wait_until(deadline, now) + now == deadline,
{
}

/// How long the watchdog may sleep before the next deadline; `None` means
/// it waits for the next watch with no timeout.
pub fn next_wake(deadlines: &Vec<u64>, now: u64) -> (r: Option<u64>)
    ensures
        r == shortest_wait(deadlines@, now),
{
    let mut best: Option<u64> = None;
    let mut i: usize = deadlines.len();
    while i > 0
        invariant
            i <= deadlines@.len(),
            best == shortest_wait(deadlines@.subrange(i as int, deadlines@.len() as int), now),
        decreases i,
    {
        i = i - 1;
        let ghost rest = deadlines@.subrange(i as int, deadlines@.len() as int);
        assert(rest.drop_first() =~= deadlines@.subrange(i + 1, deadlines@.len() as int));
        assert(rest[0] == deadlines@[i as int]);
        let deadline = deadlines[i];
        let wait = if deadline > now {
            deadline - now
        } else {
            0
        };
        best = match best {
            None => Some(wait),
            Some(b) => Some(if wait <= b {
                wait
            } else {
                b
            }),
        };
    }
    assert(deadlines@.subrange(0, deadlines@.len() as int) =~= deadlines@);
    best
}

/// What the watchdog does with one watched job.
#[derive(Clone, Copy, Debug, PartialEq, Eq, Structural)]
pub enum WatchFate {
    /// The job finished: stop watching it.
    Finished,
    /// The job ran past its deadline: park its worker, start a replacement,
    /// stop watching it.
    Expired,
    /// Keep watching.
    Waiting,
}

/// The fate of a watched job with this deadline and completion flag at
/// `now`: a finished job is never parked, whatever the time.
pub open spec fn fate_spec(deadline: u64, done: bool, now: u64) -> WatchFate {
    if done {
        WatchFate::Finished
    } else if now >= deadline {
        WatchFate::Expired
    } else {
        WatchFate::Waiting
    }
}

/// The fates of all watched jobs, each given as (deadline, done), at `now`,
/// and how many workers they park.
pub fn sweep_watches(watches: &Vec<(u64, bool)>, now: u64) -> (r: (Vec<WatchFate>, usize))
    ensures
        r.0@.len() == watches@.len(),
        forall|i: int| 0 <= i < watches@.len() ==> r.0@[i] == fate_spec(watches@[i].0, watches@[i].1, now),
        r.1 == r.0@.filter(|f: WatchFate| f == WatchFate::Expired).len(),
{
    let mut fates: Vec<WatchFate> = Vec::new();
    let mut parked: usize = 0;
    let mut i: usize = 0;
    while i < watches.len()
        invariant
            i <= watches@.len(),
            fates@.len() == i,
            parked <= i,
            forall|j: int| 0 <= j < i ==> fates@[j] == fate_spec(watches@[j].0, watches@[j].1, now),
            parked == fates@.filter(|f: WatchFate| f == WatchFate::Expired).len(),
        decreases watches.len() - i,
    {
        let (deadline, done) = watches[i];
        let fate = if done {
            WatchFate::Finished
        } else if now >= deadline {
            WatchFate::Expired
        } else {
            WatchFate::Waiting
        };
        let ghost before = fates@;
        fates.push(fate);
        proof {
            reveal(Seq::filter);
            assert(fates@.drop_last() =~= before);
        }
        if fate == WatchFate::Expired {
            parked = parked + 1;
        }
        i = i + 1;
    }
    (fates, parked)
}

/// A finished job is never parked, whatever the time; an unfinished one is
/// parked exactly once its deadline has come, and is watched until then.
pub proof fn law_only_overdue_unfinished_jobs_are_parked(deadline: u64, done: bool, now: u64)
    ensures
        done ==> fate_spec(deadline, done, now) == WatchFate::Finished,
        fate_spec(deadline, done, now) == WatchFate::Expired <==> (!done && now >= deadline),
        fate_spec(deadline, done, now) == WatchFate::Waiting <==> (!done && now < deadline),
{
}

} // verus!

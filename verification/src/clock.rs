//! The fixed-step clock. Times are nanoseconds on a clock that never runs
//! backwards, counted from a moment of the caller's choice.

use vstd::prelude::*;

verus! {

/// The time between two ticks, in nanoseconds: 80 milliseconds.
pub const STEP_TIME: u64 = 80_000_000;

/// The time that has passed from `last` to `now`; none when `now` is the
/// earlier of the two.
pub open spec fn elapsed(last: u64, now: u64) -> int {
    if now >= last {
        now - last
    } else {
        0
    }
}

/// A tick is due at `now` when the last one was at `last`.
pub open spec fn due(last: u64, now: u64) -> bool {
    elapsed(last, now) >= STEP_TIME
}

/// The earliest time at which a tick is due after one at `last`, or the end
/// of the clock when that lies beyond it.
pub open spec fn wake_at(last: u64) -> u64 {
    if last + STEP_TIME > u64::MAX {
        u64::MAX
    } else {
        (last + STEP_TIME) as u64
    }
}

/// The times at which ticks happen when the last tick was at `last` and the
/// clock is asked at each of `polls` in turn: at each poll at which a tick is
/// due, once, and the poll's time is then the time of the last tick.
pub open spec fn tick_times(last: u64, polls: Seq<u64>) -> Seq<u64>
    decreases polls.len(),
{
    if polls.len() == 0 {
        Seq::empty()
    } else if due(last, polls[0]) {
        seq![polls[0]] + tick_times(polls[0], polls.skip(1))
    } else {
        tick_times(last, polls.skip(1))
    }
}

/// Asks the clock at `now`, the last tick having been at `last`. Answers with
/// the time of the last tick from now on and with whether a tick is due: when
/// the step time has passed, `now` and `true`; otherwise `last` and `false`.
/// One tick is due however long the wait was.
pub fn timer(last: u64, now: u64) -> (stamp: (u64, bool))
    ensures
        stamp.1 == due(last, now),
        stamp.0 == if due(last, now) {
            now
        } else {
            last
        },
{
    if now >= last && now - last >= STEP_TIME {
        (now, true)
    } else {
        (last, false)
    }
}

/// The time until which the caller may sleep after a poll that found no tick
/// due: one step after the last tick.
pub fn wake_time(last: u64) -> (wake: u64)
    ensures
        wake == wake_at(last),
        wake < u64::MAX ==> due(last, wake),
        forall|now: u64| due(last, now) ==> wake <= now,
{
    if last > u64::MAX - STEP_TIME {
        u64::MAX
    } else {
        last + STEP_TIME
    }
}

/// No poll gives more than one tick: there are at most as many ticks as
/// polls.
pub proof fn at_most_one_tick_per_poll(last: u64, polls: Seq<u64>)
    ensures
        tick_times(last, polls).len() <= polls.len(),
    decreases polls.len(),
{
    if polls.len() > 0 {
        if due(last, polls[0]) {
            at_most_one_tick_per_poll(polls[0], polls.skip(1));
        } else {
            at_most_one_tick_per_poll(last, polls.skip(1));
        }
    }
}

/// Ticks are never closer than the step time: the first comes at least one
/// step after `last`, and each later one at least one step after the one
/// before it, whenever and however often the clock is asked.
pub proof fn ticks_are_a_step_apart(last: u64, polls: Seq<u64>)
    ensures
        tick_times(last, polls).len() > 0 ==> tick_times(last, polls)[0] - last >= STEP_TIME,
        forall|i: int|
            0 < i < tick_times(last, polls).len() ==> #[trigger] tick_times(last, polls)[i]
                - tick_times(last, polls)[i - 1] >= STEP_TIME,
    decreases polls.len(),
{
    if polls.len() > 0 {
        if due(last, polls[0]) {
            let rest = tick_times(polls[0], polls.skip(1));
            ticks_are_a_step_apart(polls[0], polls.skip(1));
            let all = tick_times(last, polls);
            assert(all =~= seq![polls[0]] + rest);
            assert forall|i: int| 0 < i < all.len() implies #[trigger] all[i] - all[i - 1]
                >= STEP_TIME by {
                assert(all[i] == rest[i - 1]);
                if i > 1 {
                    assert(all[i - 1] == rest[i - 2]);
                }
            }
        } else {
            ticks_are_a_step_apart(last, polls.skip(1));
        }
    }
}

} // verus!

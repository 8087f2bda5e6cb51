//! Elapsed-time estimate of a run from a tick source that may be late,
//! batched or early, and a wall clock that may jump backward.
use vstd::prelude::*;

verus! {

/// A value capped at the largest `u64`.
pub open spec fn capped(x: int) -> int {
    if x > u64::MAX { u64::MAX as int } else { x }
}

/// Time shown by the wall clock since the run began; a clock that reads
/// earlier than the start counts as no time at all.
pub open spec fn wall_clock_elapsed(run_start: int, now: int) -> int {
    if now >= run_start { now - run_start } else { 0 }
}

/// Elapsed time after one tick: the larger of the estimate that trusts
/// the tick length and the one that trusts the wall clock.
pub open spec fn advanced(elapsed: int, tick: int, run_start: int, now: int) -> int {
    let by_accumulation = capped(elapsed + tick);
    let by_wall_clock = wall_clock_elapsed(run_start, now);
    if by_accumulation >= by_wall_clock { by_accumulation } else { by_wall_clock }
}

/// Elapsed time after the ticks `steps`, each a pair of the nominal tick
/// length and the wall-clock reading when it was delivered.
pub open spec fn elapsed_after(elapsed: int, run_start: int, steps: Seq<(int, int)>) -> int
    decreases steps.len(),
{
    if steps.len() == 0 {
        elapsed
    } else {
        let last = steps.last();
        advanced(elapsed_after(elapsed, run_start, steps.drop_last()), last.0, run_start, last.1)
    }
}

/// Credits one delivered tick to `progress` and counts it.
///
/// `expected_millisecond_update` is the interval the scheduler meant to
/// leave between ticks, `tick_start` the wall-clock reading (ms) when the
/// current run began and `time_now` the reading now.
pub fn update_progress(
    progress: &mut u64,
    expected_millisecond_update: u32,
    tick_count: &mut u64,
    tick_start: u64,
    time_now: u64,
)
    ensures
        *final(progress) == advanced(
            *old(progress) as int,
            expected_millisecond_update as int,
            tick_start as int,
            time_now as int,
        ),
        *final(progress) >= *old(progress),
        *final(tick_count) == capped(*old(tick_count) + 1),
{
    let by_accumulation = progress.saturating_add(expected_millisecond_update as u64);
    let by_wall_clock = time_now.saturating_sub(tick_start);
    *progress = if by_accumulation >= by_wall_clock { by_accumulation } else { by_wall_clock };
    *tick_count = tick_count.saturating_add(1);
}

/// Over any run of ticks, with any wall-clock readings, elapsed time after
/// a later tick is never less than after an earlier one.
pub proof fn lemma_elapsed_monotone(elapsed: int, run_start: int, steps: Seq<(int, int)>, i: int, j: int)
    requires
        0 <= elapsed <= u64::MAX,
        0 <= run_start <= u64::MAX,
        forall|k: int| 0 <= k < steps.len() ==> 0 <= #[trigger] steps[k].0 && 0 <= steps[k].1 <= u64::MAX,
        0 <= i <= j <= steps.len(),
    ensures
        elapsed_after(elapsed, run_start, steps.take(i)) <= elapsed_after(elapsed, run_start, steps.take(j)),
    decreases j - i,
{
    if i < j {
        lemma_elapsed_monotone(elapsed, run_start, steps, i, j - 1);
        let prefix = steps.take(j);
        assert(prefix.drop_last() =~= steps.take(j - 1));
        assert forall|k: int| 0 <= k < steps.take(j - 1).len() implies 0 <= #[trigger] steps.take(j - 1)[k].1 <= u64::MAX by {
            assert(steps.take(j - 1)[k] == steps[k]);
        }
        lemma_elapsed_within_u64(elapsed, run_start, steps.take(j - 1));
        assert(prefix.last() == steps[j - 1]);
    }
}

/// Elapsed time stays a `u64` value along any run of ticks.
pub proof fn lemma_elapsed_within_u64(elapsed: int, run_start: int, steps: Seq<(int, int)>)
    requires
        0 <= elapsed <= u64::MAX,
        0 <= run_start <= u64::MAX,
        forall|k: int| 0 <= k < steps.len() ==> 0 <= #[trigger] steps[k].1 <= u64::MAX,
    ensures
        0 <= elapsed_after(elapsed, run_start, steps) <= u64::MAX,
    decreases steps.len(),
{
    if steps.len() > 0 {
        let rest = steps.drop_last();
        assert forall|k: int| 0 <= k < rest.len() implies 0 <= #[trigger] rest[k].1 <= u64::MAX by {
            assert(rest[k] == steps[k]);
        }
        lemma_elapsed_within_u64(elapsed, run_start, rest);
        assert(0 <= steps.last().1 <= u64::MAX);
    }
}

/// A tick never leaves elapsed time behind the wall clock: once the clock
/// has moved `now - run_start` past the start of the run, elapsed time is at
/// least that much, however few ticks were delivered.
pub proof fn lemma_no_stall(elapsed: int, tick: int, run_start: int, now: int)
    requires
        0 <= elapsed <= u64::MAX,
        0 <= tick,
        run_start <= now,
    ensures
        advanced(elapsed, tick, run_start, now) >= now - run_start,
{
}

/// When the wall clock reads earlier at a tick than at the one before, the
/// second tick still adds the nominal tick length to elapsed time.
pub proof fn lemma_floor_under_clock_regression(
    elapsed: int,
    tick: int,
    run_start: int,
    first_now: int,
    second_now: int,
)
    requires
        0 <= elapsed,
        0 <= tick,
        second_now < first_now,
        advanced(elapsed, tick, run_start, first_now) + tick <= u64::MAX,
    ensures
        advanced(advanced(elapsed, tick, run_start, first_now), tick, run_start, second_now)
            >= advanced(elapsed, tick, run_start, first_now) + tick,
{
}

} // verus!

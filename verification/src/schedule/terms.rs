//! What a schedule comes to, in ticks.

use vstd::prelude::*;

use crate::schedule::{
    all_divide_cycle, all_positive, collide, cycle_ms, is_allocation, lemma_cycle_bounds,
    phase_free, picks_before, placed, try_allocate, ScheduleError, Slot, MAX_CYCLE_MS,
};

verus! {

/// Each message keeps its interval, and goes out on one tick in each of them.
pub proof fn law_each_message_keeps_its_interval(
    intervals: Seq<u32>,
    slots: Seq<Slot>,
    k: int,
    tick: int,
)
    requires
        is_allocation(intervals, slots),
        0 <= k < intervals.len(),
        0 <= tick,
    ensures
        slots.len() == intervals.len(),
        slots[k].interval_ms == intervals[k],
        slots[k].phase_ms < intervals[k],
        slots[k].due_at(tick) <==> tick % (intervals[k] as int) == slots[k].phase_ms,
{
    assert(placed(intervals, slots, k));
}

/// Of all messages the fastest, and of these the first, goes out on the first tick.
pub proof fn law_the_fastest_message_goes_first(intervals: Seq<u32>, slots: Seq<Slot>, k: int)
    requires
        is_allocation(intervals, slots),
        0 <= k < intervals.len(),
        forall|j: int|
            0 <= j < intervals.len() && j != k ==> intervals[k] < #[trigger] intervals[j] || (
            intervals[k] == intervals[j] && k < j),
    ensures
        slots[k].phase_ms == 0,
{
    assert(placed(intervals, slots, k));
    if slots[k].phase_ms > 0 {
        assert(phase_free(intervals, slots, k, 0)) by {
            assert forall|j: int|
                0 <= j < intervals.len() && #[trigger] picks_before(
                    intervals,
                    j,
                    k,
                ) implies !collide(
                Slot { interval_ms: intervals[k], phase_ms: 0 },
                slots[j],
            ) by {
                if j != k {
                    assert(intervals[k] < intervals[j] || (intervals[k] == intervals[j] && k < j));
                }
            }
        }
    }
}

/// A message has the lowest phase that it can have: on any lower one it would meet a message that
/// is faster, or as fast and declared before it.
pub proof fn law_lower_phases_are_taken(
    intervals: Seq<u32>,
    slots: Seq<Slot>,
    k: int,
    phase: u32,
) -> (meets: (int, int))
    requires
        is_allocation(intervals, slots),
        0 <= k < intervals.len(),
        phase < slots[k].phase_ms,
    ensures
        ({
            let (other, tick) = meets;
            &&& 0 <= other < intervals.len()
            &&& intervals[other] < intervals[k] || (intervals[other] == intervals[k] && other < k)
            &&& 0 <= tick
            &&& tick % (intervals[k] as int) == phase
            &&& tick % (intervals[other] as int) == slots[other].phase_ms
        }),
{
    assert(placed(intervals, slots, k));
    assert(!phase_free(intervals, slots, k, phase));
    let wanted = Slot { interval_ms: intervals[k], phase_ms: phase };
    let other = choose|j: int|
        0 <= j < intervals.len() && #[trigger] picks_before(intervals, j, k) && collide(
            wanted,
            slots[j],
        );
    assert(placed(intervals, slots, other));
    let tick = choose|tick: int|
        0 <= tick && #[trigger] wanted.due_at(tick) && slots[other].due_at(tick);
    (other, tick)
}

/// The cycle is the slowest interval. An interval of zero is refused first, then a cycle of more
/// than 8192 ticks, then an interval that does not divide it.
pub proof fn law_what_is_refused(
    intervals: &[u32],
    result: Result<Vec<Slot>, ScheduleError>,
    k: int,
)
    requires
        call_ensures(try_allocate, (intervals,), result),
        0 <= k < intervals@.len(),
    ensures
        intervals@[k] == 0 ==> result == Err::<Vec<Slot>, ScheduleError>(
            ScheduleError::ZeroInterval,
        ),
        (forall|i: int| 0 <= i < intervals@.len() ==> #[trigger] intervals@[i] > 0)
            && intervals@[k] > 8192 ==> result == Err::<Vec<Slot>, ScheduleError>(
            ScheduleError::SlowerThanMaxCycle,
        ),
        result is Ok ==> {
            &&& 0 < intervals@[k] <= 8192
            &&& exists|slowest: int|
                0 <= slowest < intervals@.len() && cycle_ms(intervals@)
                    == #[trigger] intervals@[slowest]
            &&& intervals@[k] <= cycle_ms(intervals@)
            &&& cycle_ms(intervals@) % (intervals@[k] as int) == 0
        },
{
    lemma_cycle_bounds(intervals@);
    assert(MAX_CYCLE_MS == 8192);
    assert(intervals@[k] <= cycle_ms(intervals@));
    if result is Ok {
        assert(all_positive(intervals@) && all_divide_cycle(intervals@));
        assert(intervals@[k] > 0);
    }
    if intervals@[k] == 0 {
        assert(!all_positive(intervals@));
    }
    match result {
        Ok(_) => {},
        Err(_) => {},
    }
}

} // verus!

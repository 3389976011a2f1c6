//! The schedule for telemetry downlink messages, and how it is built.
//!
//! Different messages go out at different rates, and no tick should carry more than one of them.
//! Since one interval may be a multiple of another, some messages are phase shifted, preferably
//! the slower ones, so that the fast sensor series stay free of jitter. [`allocate`] works the
//! phases out.

use vstd::prelude::*;
use vstd::arithmetic::div_mod::{
    lemma_fundamental_div_mod, lemma_fundamental_div_mod_converse, lemma_mod_bound, lemma_mod_mod,
    lemma_small_mod,
};

pub mod terms;

verus! {

broadcast use vstd::seq_lib::group_to_multiset_ensures;

/// The slowest interval a schedule may declare.
pub const MAX_CYCLE_MS: u32 = 8192;

/// When one message goes out: on every tick `t` with `t % interval_ms == phase_ms`.
#[derive(Copy, Clone, Debug, PartialEq, Eq, Structural)]
pub struct Slot {
    pub interval_ms: u32,
    pub phase_ms: u32,
}

impl Slot {
    /// Whether the message of this slot goes out on tick `tick`.
    pub open spec fn due_at(self, tick: int) -> bool {
        tick % (self.interval_ms as int) == self.phase_ms
    }

    /// Whether the message of this slot goes out at `time`.
    pub fn is_due(&self, time: u32) -> (due: bool)
        requires
            self.interval_ms > 0,
        ensures
            due == self.due_at(time as int),
    {
        time % self.interval_ms == self.phase_ms
    }
}

/// Why a set of intervals has no schedule.
#[derive(Copy, Clone, Debug, PartialEq, Eq, Structural)]
pub enum ScheduleError {
    /// An interval is zero.
    ZeroInterval,
    /// The slowest interval is above [`MAX_CYCLE_MS`].
    SlowerThanMaxCycle,
    /// An interval does not divide the slowest one.
    DoesNotDivideSlowest,
    /// One message has no tick left to itself: every phase of its interval already carries a
    /// faster one.
    NoTickLeft,
}

/// The slowest of the intervals; zero where there are none.
pub open spec fn cycle_ms(intervals: Seq<u32>) -> int
    decreases intervals.len(),
{
    if intervals.len() == 0 {
        0
    } else {
        let rest = cycle_ms(intervals.drop_last());
        if intervals.last() > rest {
            intervals.last() as int
        } else {
            rest
        }
    }
}

/// No interval is zero.
pub open spec fn all_positive(intervals: Seq<u32>) -> bool {
    forall|i: int| 0 <= i < intervals.len() ==> #[trigger] intervals[i] > 0
}

/// Every interval divides the slowest one.
pub open spec fn all_divide_cycle(intervals: Seq<u32>) -> bool {
    forall|i: int|
        0 <= i < intervals.len() ==> cycle_ms(intervals) % (#[trigger] intervals[i] as int) == 0
}

/// The intervals are such that a schedule can be asked for at all.
pub open spec fn well_formed(intervals: Seq<u32>) -> bool {
    &&& all_positive(intervals)
    &&& cycle_ms(intervals) <= MAX_CYCLE_MS
    &&& all_divide_cycle(intervals)
}

/// Message `i` picks its phase before message `j`: the faster one first, and of two equally fast
/// ones the one declared first.
pub open spec fn picks_before(intervals: Seq<u32>, i: int, j: int) -> bool {
    intervals[i] < intervals[j] || (intervals[i] == intervals[j] && i < j)
}

/// Some tick carries both messages.
pub open spec fn collide(a: Slot, b: Slot) -> bool {
    exists|tick: int| 0 <= tick && #[trigger] a.due_at(tick) && b.due_at(tick)
}

/// Phase `phase` keeps message `k` clear of every message that picks before it.
pub open spec fn phase_free(intervals: Seq<u32>, slots: Seq<Slot>, k: int, phase: u32) -> bool {
    forall|j: int|
        0 <= j < intervals.len() && #[trigger] picks_before(intervals, j, k) ==> !collide(
            Slot { interval_ms: intervals[k], phase_ms: phase },
            slots[j],
        )
}

/// Message `k` has its own interval and the lowest phase that is free to it.
pub open spec fn placed(intervals: Seq<u32>, slots: Seq<Slot>, k: int) -> bool {
    &&& slots[k].interval_ms == intervals[k]
    &&& slots[k].phase_ms < intervals[k]
    &&& phase_free(intervals, slots, k, slots[k].phase_ms)
    &&& forall|p: u32| p < slots[k].phase_ms ==> !#[trigger] phase_free(intervals, slots, k, p)
}

/// `slots` is the schedule of `intervals`: one slot per interval, in the order of the intervals,
/// each with the lowest phase that is clear of all messages that pick before it.
pub open spec fn is_allocation(intervals: Seq<u32>, slots: Seq<Slot>) -> bool {
    &&& slots.len() == intervals.len()
    &&& forall|k: int| 0 <= k < intervals.len() ==> #[trigger] placed(intervals, slots, k)
}

/// The intervals can be spread out so that no tick carries two messages.
pub open spec fn schedulable(intervals: Seq<u32>) -> bool {
    &&& well_formed(intervals)
    &&& exists|slots: Seq<Slot>| is_allocation(intervals, slots)
}

pub proof fn lemma_cycle_bounds(intervals: Seq<u32>)
    ensures
        0 <= cycle_ms(intervals) <= u32::MAX,
        forall|i: int| 0 <= i < intervals.len() ==> #[trigger] intervals[i] <= cycle_ms(intervals),
        intervals.len() > 0 ==> exists|i: int|
            0 <= i < intervals.len() && #[trigger] intervals[i] == cycle_ms(intervals),
    decreases intervals.len(),
{
    if intervals.len() > 0 {
        let rest = intervals.drop_last();
        lemma_cycle_bounds(rest);
        assert forall|i: int| 0 <= i < intervals.len() implies #[trigger] intervals[i] <= cycle_ms(
            intervals,
        ) by {
            if i < rest.len() {
                assert(rest[i] == intervals[i]);
            }
        }
        if intervals.last() > cycle_ms(rest) {
            assert(intervals[intervals.len() - 1] == cycle_ms(intervals));
        } else if rest.len() > 0 {
            let i = choose|i: int| 0 <= i < rest.len() && #[trigger] rest[i] == cycle_ms(rest);
            assert(intervals[i] == cycle_ms(intervals));
        } else {
            assert(intervals[intervals.len() - 1] == cycle_ms(intervals));
        }
    }
}

/// Two messages of equal remainder less than one interval apart are on the same tick.
proof fn lemma_same_tick(a: int, b: int, d: int)
    requires
        d > 0,
        a <= b < a + d,
        a % d == b % d,
    ensures
        a == b,
{
    lemma_fundamental_div_mod(a, d);
    lemma_fundamental_div_mod(b, d);
    let qa = a / d;
    let qb = b / d;
    assert(b - a == d * (qb - qa)) by (nonlinear_arith)
        requires
            a == d * qa + a % d,
            b == d * qb + b % d,
            a % d == b % d,
    ;
    assert(qb == qa) by (nonlinear_arith)
        requires
            d > 0,
            0 <= d * (qb - qa) < d,
    ;
}

/// A tick and its place within the cycle leave the same remainder.
proof fn lemma_tick_in_cycle(tick: int, cycle: int, interval: int)
    requires
        0 <= tick,
        0 < interval,
        0 < cycle,
        cycle % interval == 0,
    ensures
        0 <= tick % cycle < cycle,
        (tick % cycle) % interval == tick % interval,
{
    lemma_fundamental_div_mod(cycle, interval);
    lemma_mod_bound(tick, cycle);
    let q = cycle / interval;
    assert(q > 0) by (nonlinear_arith)
        requires
            cycle == interval * q,
            cycle > 0,
            interval > 0,
    ;
    lemma_mod_mod(tick, interval, q);
}

/// One step of the interval further, the remainder is the same.
proof fn lemma_step_keeps_phase(tick: int, d: int, phase: int)
    requires
        d > 0,
        tick % d == phase,
    ensures
        (tick + d) % d == phase,
{
    vstd::arithmetic::div_mod::lemma_mod_add_multiples_vanish(tick, d);
}

/// Every tick of the cycle on which a message of this interval and phase would go out is free.
spec fn run_free(occupied: Seq<bool>, interval: u32, phase: u32) -> bool {
    forall|t: int|
        0 <= t < occupied.len() && t % (interval as int) == phase ==> !#[trigger] occupied[t]
}

/// The ticks of the cycle that `slots[order[..k]]` take.
spec fn occupied_by(occupied: Seq<bool>, order: Seq<usize>, k: int, slots: Seq<Slot>) -> bool {
    forall|t: int|
        0 <= t < occupied.len() ==> (#[trigger] occupied[t] <==> exists|m: int|
            0 <= m < k && (#[trigger] slots[order[m] as int]).due_at(t))
}

/// `order` lists all messages, those that pick first in front.
spec fn is_picking_order(intervals: Seq<u32>, order: Seq<usize>) -> bool {
    &&& order.len() == intervals.len()
    &&& forall|m: int| 0 <= m < order.len() ==> #[trigger] order[m] < intervals.len()
    &&& forall|m: int, n: int|
        0 <= m < n < order.len() ==> picks_before(
            intervals,
            #[trigger] order[m] as int,
            #[trigger] order[n] as int,
        )
    &&& forall|j: usize| j < intervals.len() ==> #[trigger] order.contains(j)
}

/// Those in front of `order[k]` are exactly those that pick before it.
proof fn lemma_in_front(intervals: Seq<u32>, order: Seq<usize>, k: int, j: int)
    requires
        is_picking_order(intervals, order),
        0 <= k < order.len(),
        0 <= j < intervals.len() <= usize::MAX,
        picks_before(intervals, j, order[k] as int),
    ensures
        exists|m: int| 0 <= m < k && #[trigger] order[m] == j,
{
    assert(order.contains(j as usize));
    let m = choose|m: int| 0 <= m < order.len() && order[m] == j as usize;
    if m > k {
        assert(picks_before(intervals, order[k] as int, order[m] as int));
    }
    assert(0 <= m < k && order[m] == j);
}

/// A run of ticks is free exactly where the phase is clear of the messages placed so far.
proof fn lemma_run_free_is_phase_free(
    intervals: Seq<u32>,
    occupied: Seq<bool>,
    order: Seq<usize>,
    k: int,
    slots: Seq<Slot>,
    phase: u32,
)
    requires
        well_formed(intervals),
        intervals.len() <= usize::MAX,
        is_picking_order(intervals, order),
        0 <= k < order.len(),
        slots.len() == intervals.len(),
        occupied.len() == cycle_ms(intervals),
        occupied_by(occupied, order, k, slots),
        forall|m: int|
            0 <= m < k ==> (#[trigger] slots[order[m] as int]).interval_ms
                == intervals[order[m] as int],
    ensures
        run_free(occupied, intervals[order[k] as int], phase) == phase_free(
            intervals,
            slots,
            order[k] as int,
            phase,
        ),
{
    let index = order[k] as int;
    let interval = intervals[index];
    let cycle = cycle_ms(intervals);
    let mine = Slot { interval_ms: interval, phase_ms: phase };
    lemma_cycle_bounds(intervals);
    assert(intervals[index] > 0);
    if run_free(occupied, interval, phase) {
        assert forall|j: int|
            0 <= j < intervals.len() && #[trigger] picks_before(
                intervals,
                j,
                index,
            ) implies !collide(mine, slots[j]) by {
            lemma_in_front(intervals, order, k, j);
            let m = choose|m: int| 0 <= m < k && #[trigger] order[m] == j;
            assert(slots[order[m] as int].interval_ms == intervals[j]);
            if collide(mine, slots[j]) {
                let tick = choose|tick: int|
                    0 <= tick && #[trigger] mine.due_at(tick) && slots[j].due_at(tick);
                assert(intervals[j] > 0);
                lemma_tick_in_cycle(tick, cycle, interval as int);
                lemma_tick_in_cycle(tick, cycle, intervals[j] as int);
                let t = tick % cycle;
                assert(slots[order[m] as int].due_at(t));
                assert(occupied[t]);
            }
        }
    }
    if phase_free(intervals, slots, index, phase) {
        assert forall|t: int|
            0 <= t < occupied.len() && t % (interval as int) == phase implies !#[trigger] occupied[t] by {
            if occupied[t] {
                let m = choose|m: int|
                    0 <= m < k && (#[trigger] slots[order[m] as int]).due_at(t);
                assert(picks_before(intervals, order[m] as int, order[k] as int));
                assert(mine.due_at(t));
                assert(collide(mine, slots[order[m] as int]));
            }
        }
    }
}

/// Two schedules agree on message `k` where both have placed it and all that pick before it.
proof fn lemma_agree(intervals: Seq<u32>, a: Seq<Slot>, b: Seq<Slot>, k: int)
    requires
        0 <= k < intervals.len(),
        placed(intervals, a, k),
        placed(intervals, b, k),
        forall|j: int|
            0 <= j < intervals.len() && #[trigger] picks_before(intervals, j, k) ==> placed(
                intervals,
                a,
                j,
            ) && placed(intervals, b, j),
    ensures
        a[k] == b[k],
    decreases intervals[k], k, 1int,
{
    lemma_agree_before(intervals, a, b, k);
    lemma_phase_free_agrees(intervals, a, b, k, a[k].phase_ms);
    lemma_phase_free_agrees(intervals, a, b, k, b[k].phase_ms);
}

proof fn lemma_agree_before(intervals: Seq<u32>, a: Seq<Slot>, b: Seq<Slot>, k: int)
    requires
        0 <= k < intervals.len(),
        forall|j: int|
            0 <= j < intervals.len() && #[trigger] picks_before(intervals, j, k) ==> placed(
                intervals,
                a,
                j,
            ) && placed(intervals, b, j),
    ensures
        forall|j: int|
            0 <= j < intervals.len() && #[trigger] picks_before(intervals, j, k) ==> a[j] == b[j],
    decreases intervals[k], k, 0int,
{
    assert forall|j: int| 0 <= j < intervals.len() && #[trigger] picks_before(
        intervals,
        j,
        k,
    ) implies a[j] == b[j] by {
        assert forall|i: int| 0 <= i < intervals.len() && #[trigger] picks_before(
            intervals,
            i,
            j,
        ) implies placed(intervals, a, i) && placed(intervals, b, i) by {
            assert(picks_before(intervals, i, k));
        }
        lemma_agree(intervals, a, b, j);
    }
}

proof fn lemma_phase_free_agrees(
    intervals: Seq<u32>,
    a: Seq<Slot>,
    b: Seq<Slot>,
    k: int,
    p: u32,
)
    requires
        forall|j: int|
            0 <= j < intervals.len() && #[trigger] picks_before(intervals, j, k) ==> a[j] == b[j],
    ensures
        phase_free(intervals, a, k, p) == phase_free(intervals, b, k, p),
{
}

/// A set of intervals has at most one schedule.
pub proof fn law_schedule_is_unique(intervals: Seq<u32>, a: Seq<Slot>, b: Seq<Slot>)
    requires
        is_allocation(intervals, a),
        is_allocation(intervals, b),
    ensures
        a == b,
{
    assert forall|k: int| 0 <= k < intervals.len() implies a[k] == b[k] by {
        assert(placed(intervals, a, k) && placed(intervals, b, k));
        lemma_agree(intervals, a, b, k);
    }
    assert(a =~= b);
}

/// The slowest interval, or why there is no schedule whatever the phases.
fn check_intervals(intervals: &[u32]) -> (result: Result<u32, ScheduleError>)
    ensures
        match result {
            Ok(cycle) => well_formed(intervals@) && cycle == cycle_ms(intervals@),
            Err(ScheduleError::ZeroInterval) => !all_positive(intervals@),
            Err(ScheduleError::SlowerThanMaxCycle) => all_positive(intervals@) && cycle_ms(
                intervals@,
            ) > MAX_CYCLE_MS,
            Err(ScheduleError::DoesNotDivideSlowest) => all_positive(intervals@) && cycle_ms(
                intervals@,
            ) <= MAX_CYCLE_MS && !all_divide_cycle(intervals@),
            Err(ScheduleError::NoTickLeft) => false,
        },
{
    let mut cycle: u32 = 0;
    let mut i: usize = 0;
    while i < intervals.len()
        invariant
            i <= intervals.len(),
            cycle == cycle_ms(intervals@.take(i as int)),
            forall|j: int| 0 <= j < i ==> #[trigger] intervals[j] > 0,
        decreases intervals.len() - i,
    {
        if intervals[i] == 0 {
            return Err(ScheduleError::ZeroInterval);
        }
        assert(intervals@.take(i + 1).drop_last() =~= intervals@.take(i as int));
        if intervals[i] > cycle {
            cycle = intervals[i];
        }
        i += 1;
    }
    assert(intervals@.take(i as int) =~= intervals@);
    if cycle > MAX_CYCLE_MS {
        return Err(ScheduleError::SlowerThanMaxCycle);
    }
    let mut i: usize = 0;
    while i < intervals.len()
        invariant
            i <= intervals.len(),
            cycle == cycle_ms(intervals@),
            all_positive(intervals@),
            cycle <= MAX_CYCLE_MS,
            forall|j: int| 0 <= j < i ==> cycle as int % (#[trigger] intervals[j] as int) == 0,
        decreases intervals.len() - i,
    {
        assert(intervals@[i as int] > 0);
        if cycle % intervals[i] != 0 {
            assert(cycle_ms(intervals@) % (intervals@[i as int] as int) != 0);
            return Err(ScheduleError::DoesNotDivideSlowest);
        }
        i += 1;
    }
    Ok(cycle)
}

/// The messages in the order in which they pick a phase. The fastest ones come first: they
/// constrain more ticks than the slow ones. Equally fast ones stay in declaration order.
fn picking_order(intervals: &[u32]) -> (order: Vec<usize>)
    ensures
        is_picking_order(intervals@, order@),
{
    let mut order: Vec<usize> = Vec::new();
    let mut i: usize = 0;
    while i < intervals.len()
        invariant
            i <= intervals.len(),
            order.len() == i,
            forall|m: int| 0 <= m < i ==> #[trigger] order[m] < i,
            forall|m: int, n: int|
                0 <= m < n < i ==> picks_before(
                    intervals@,
                    #[trigger] order[m] as int,
                    #[trigger] order[n] as int,
                ),
            forall|j: usize| j < i ==> #[trigger] order@.contains(j),
        decreases intervals.len() - i,
    {
        let mut j: usize = i;
        while j > 0 && intervals[order[j - 1]] > intervals[i]
            invariant
                j <= i < intervals.len(),
                order.len() == i,
                forall|m: int| 0 <= m < i ==> #[trigger] order[m] < i,
                forall|m: int| j <= m < i ==> intervals[#[trigger] order[m] as int] > intervals[i as int],
            decreases j,
        {
            j -= 1;
        }
        let ghost before = order@;
        order.insert(j, i);
        assert forall|m: int, n: int| 0 <= m < n < i + 1 implies picks_before(
            intervals@,
            #[trigger] order[m] as int,
            #[trigger] order[n] as int,
        ) by {
            let pm = if m < j { m } else { m - 1 };
            let pn = if n < j { n } else { n - 1 };
            if m != j && n != j {
                assert(order[m] == before[pm] && order[n] == before[pn]);
            } else if m == j {
                assert(order[n] == before[pn]);
            } else {
                assert(order[m] == before[m]);
                assert(order[n] == i);
                if j > 0 {
                    assert(intervals[before[j - 1] as int] <= intervals[i as int]);
                    if m < j - 1 {
                        assert(picks_before(intervals@, before[m] as int, before[j - 1] as int));
                    }
                }
            }
        }
        assert forall|q: usize| q < i + 1 implies #[trigger] order@.contains(q) by {
            if q == i {
                assert(order[j as int] == i);
            } else {
                assert(before.contains(q));
                let m = choose|m: int| 0 <= m < before.len() && before[m] == q;
                if m < j {
                    assert(order[m] == q);
                } else {
                    assert(order[m + 1] == q);
                }
            }
        }
        i += 1;
    }
    order
}

/// Whether every tick of a message with this interval and phase is still free.
fn is_run_free(occupied: &Vec<bool>, interval: u32, phase: u32) -> (free: bool)
    requires
        phase < interval <= MAX_CYCLE_MS,
        occupied.len() <= MAX_CYCLE_MS,
    ensures
        free == run_free(occupied@, interval, phase),
{
    let cycle: u32 = occupied.len() as u32;
    let mut tick: u32 = phase;
    proof {
        lemma_small_mod(phase as nat, interval as nat);
        assert forall|t: int|
            0 <= t < tick && t < cycle && t % (interval as int) == phase implies !#[trigger] occupied[t] by {
            lemma_small_mod(t as nat, interval as nat);
        }
    }
    while tick < cycle
        invariant
            cycle == occupied.len() <= MAX_CYCLE_MS,
            phase < interval <= MAX_CYCLE_MS,
            tick as int % (interval as int) == phase,
            tick < cycle + interval,
            forall|t: int|
                0 <= t < tick && t < cycle && t % (interval as int) == phase ==> !#[trigger] occupied[t],
        decreases cycle + interval - tick,
    {
        if occupied[tick as usize] {
            return false;
        }
        proof {
            lemma_step_keeps_phase(tick as int, interval as int, phase as int);
            assert forall|t: int|
                0 <= t < tick + interval && t < cycle && t % (interval as int)
                    == phase implies !#[trigger] occupied[t] by {
                if t >= tick {
                    lemma_same_tick(tick as int, t, interval as int);
                }
            }
        }
        tick += interval;
    }
    true
}

/// Marks every tick of a message with this interval and phase.
fn occupy(occupied: &mut Vec<bool>, interval: u32, phase: u32)
    requires
        phase < interval <= MAX_CYCLE_MS,
        old(occupied).len() <= MAX_CYCLE_MS,
    ensures
        final(occupied).len() == old(occupied).len(),
        forall|t: int|
            0 <= t < old(occupied).len() ==> (#[trigger] final(occupied)[t] <==> old(occupied)[t] || t
                % (interval as int) == phase),
{
    let cycle: u32 = occupied.len() as u32;
    let mut tick: u32 = phase;
    let ghost before = occupied@;
    proof {
        lemma_small_mod(phase as nat, interval as nat);
        assert forall|t: int| 0 <= t < cycle implies (#[trigger] occupied[t] <==> before[t] || (t < tick
            && t % (interval as int) == phase)) by {
            if t < tick {
                lemma_small_mod(t as nat, interval as nat);
            }
        }
    }
    while tick < cycle
        invariant
            cycle == occupied.len() == before.len() <= MAX_CYCLE_MS,
            phase < interval <= MAX_CYCLE_MS,
            tick as int % (interval as int) == phase,
            tick < cycle + interval,
            forall|t: int|
                0 <= t < cycle ==> (#[trigger] occupied[t] <==> before[t] || (t < tick && t % (
                interval as int) == phase)),
        decreases cycle + interval - tick,
    {
        let ghost current = occupied@;
        occupied.set(tick as usize, true);
        proof {
            lemma_step_keeps_phase(tick as int, interval as int, phase as int);
            assert forall|t: int| 0 <= t < cycle implies (#[trigger] occupied[t] <==> before[t] || (t
                < tick + interval && t % (interval as int) == phase)) by {
                assert(t != tick ==> occupied[t] == current[t]);
                if tick <= t < tick + interval && t % (interval as int) == phase {
                    lemma_same_tick(tick as int, t, interval as int);
                }
            }
        }
        tick += interval;
    }
}

/// The lowest phase whose whole run of ticks through the cycle is still free.
fn lowest_free_phase(occupied: &Vec<bool>, interval: u32) -> (found: Option<u32>)
    requires
        0 < interval <= MAX_CYCLE_MS,
        occupied.len() <= MAX_CYCLE_MS,
    ensures
        match found {
            Some(phase) => phase < interval && run_free(occupied@, interval, phase) && forall|q: u32|
                q < phase ==> !#[trigger] run_free(occupied@, interval, q),
            None => forall|q: u32| q < interval ==> !#[trigger] run_free(occupied@, interval, q),
        },
{
    let mut phase: u32 = 0;
    while phase < interval
        invariant
            phase <= interval <= MAX_CYCLE_MS,
            occupied.len() <= MAX_CYCLE_MS,
            forall|q: u32| q < phase ==> !#[trigger] run_free(occupied@, interval, q),
        decreases interval - phase,
    {
        if is_run_free(occupied, interval, phase) {
            return Some(phase);
        }
        phase += 1;
    }
    None
}

/// A message without a free phase, after all that pick before it were placed, rules out every
/// schedule.
proof fn lemma_no_tick_left(intervals: Seq<u32>, slots: Seq<Slot>, k: int)
    requires
        0 <= k < intervals.len(),
        forall|j: int|
            0 <= j < intervals.len() && #[trigger] picks_before(intervals, j, k) ==> placed(
                intervals,
                slots,
                j,
            ),
        forall|p: u32| p < intervals[k] ==> !#[trigger] phase_free(intervals, slots, k, p),
    ensures
        !schedulable(intervals),
{
    if schedulable(intervals) {
        let other = choose|other: Seq<Slot>| is_allocation(intervals, other);
        assert(placed(intervals, other, k));
        lemma_agree_before(intervals, slots, other, k);
        lemma_phase_free_agrees(intervals, slots, other, k, other[k].phase_ms);
        assert(phase_free(intervals, slots, k, other[k].phase_ms));
    }
}

/// Placing one more message leaves those that picked before it where they are.
proof fn lemma_stays_placed(intervals: Seq<u32>, slots: Seq<Slot>, k: int, slot: Slot, j: int)
    requires
        slots.len() == intervals.len(),
        0 <= k < intervals.len(),
        0 <= j < intervals.len(),
        picks_before(intervals, j, k),
        placed(intervals, slots, j),
    ensures
        placed(intervals, slots.update(k, slot), j),
{
    let after = slots.update(k, slot);
    assert forall|p: u32| phase_free(intervals, slots, j, p) == #[trigger] phase_free(
        intervals,
        after,
        j,
        p,
    ) by {
        lemma_phase_free_agrees(intervals, slots, after, j, p);
    }
}

/// The schedule of `intervals`, or why there is none.
pub fn try_allocate(intervals: &[u32]) -> (result: Result<Vec<Slot>, ScheduleError>)
    ensures
        match result {
            Ok(slots) => schedulable(intervals@) && is_allocation(intervals@, slots@),
            Err(ScheduleError::ZeroInterval) => !all_positive(intervals@),
            Err(ScheduleError::SlowerThanMaxCycle) => all_positive(intervals@) && cycle_ms(
                intervals@,
            ) > MAX_CYCLE_MS,
            Err(ScheduleError::DoesNotDivideSlowest) => all_positive(intervals@) && cycle_ms(
                intervals@,
            ) <= MAX_CYCLE_MS && !all_divide_cycle(intervals@),
            Err(ScheduleError::NoTickLeft) => well_formed(intervals@) && !schedulable(intervals@),
        },
{
    let cycle: u32 = match check_intervals(intervals) {
        Ok(cycle) => cycle,
        Err(error) => return Err(error),
    };
    let order = picking_order(intervals);

    // Which ticks of the cycle are spoken for.
    let mut occupied: Vec<bool> = vec![false; cycle as usize];
    let mut slots: Vec<Slot> = vec![Slot { interval_ms: 0, phase_ms: 0 }; intervals.len()];
    let ghost all = intervals@;

    let mut k: usize = 0;
    while k < intervals.len()
        invariant
            k <= intervals.len(),
            all == intervals@,
            well_formed(all),
            is_picking_order(all, order@),
            occupied.len() == cycle == cycle_ms(all),
            slots.len() == all.len(),
            occupied_by(occupied@, order@, k as int, slots@),
            forall|m: int| 0 <= m < k ==> placed(all, slots@, #[trigger] order[m] as int),
        decreases intervals.len() - k,
    {
        let index: usize = order[k];
        let interval: u32 = intervals[index];
        proof {
            lemma_cycle_bounds(all);
            assert(all[index as int] == interval);
            assert forall|m: int| 0 <= m < k implies (#[trigger] slots[order[m] as int]).interval_ms
                == all[order[m] as int] by {
                assert(placed(all, slots@, order[m] as int));
            }
            assert forall|p: u32| #[trigger] run_free(occupied@, interval, p) == phase_free(
                all,
                slots@,
                index as int,
                p,
            ) by {
                lemma_run_free_is_phase_free(all, occupied@, order@, k as int, slots@, p);
            }
            assert forall|j: int|
                0 <= j < all.len() && #[trigger] picks_before(all, j, index as int) implies placed(
                all,
                slots@,
                j,
            ) by {
                lemma_in_front(all, order@, k as int, j);
                let m = choose|m: int| 0 <= m < k && #[trigger] order[m] == j;
                assert(placed(all, slots@, order[m] as int));
            }
        }
        let phase: u32 = match lowest_free_phase(&occupied, interval) {
            Some(phase) => phase,
            None => {
                proof {
                    assert forall|p: u32| p < all[index as int] implies !#[trigger] phase_free(
                        all,
                        slots@,
                        index as int,
                        p,
                    ) by {
                        assert(!run_free(occupied@, interval, p));
                    }
                    lemma_no_tick_left(all, slots@, index as int);
                }
                return Err(ScheduleError::NoTickLeft);
            },
        };
        let ghost taken = occupied@;
        let ghost before = slots@;
        occupy(&mut occupied, interval, phase);
        let slot = Slot { interval_ms: interval, phase_ms: phase };
        slots.set(index, slot);
        proof {
            let at = index as int;
            assert forall|m: int| 0 <= m < k implies order[m] != index && slots[order[m] as int]
                == before[#[trigger] order[m] as int] && placed(
                all,
                slots@,
                order[m] as int,
            ) by {
                assert(picks_before(all, order[m] as int, order[k as int] as int));
                assert(placed(all, before, order[m] as int));
                lemma_stays_placed(all, before, at, slot, order[m] as int);
            }
            assert forall|p: u32| phase_free(all, before, at, p) == #[trigger] phase_free(
                all,
                slots@,
                at,
                p,
            ) by {
                lemma_phase_free_agrees(all, before, slots@, at, p);
            }
            assert(run_free(taken, interval, phase));
            assert forall|p: u32| p < phase implies !#[trigger] phase_free(all, slots@, at, p) by {
                assert(!run_free(taken, interval, p));
            }
            assert(placed(all, slots@, at));
            assert forall|t: int| 0 <= t < occupied.len() implies (#[trigger] occupied[t]
                <==> exists|m: int| 0 <= m < k + 1 && (#[trigger] slots[order[m] as int]).due_at(t)) by {
                if taken[t] {
                    let m = choose|m: int|
                        0 <= m < k && (#[trigger] before[order[m] as int]).due_at(t);
                    assert(slots[order[m] as int] == before[order[m] as int]);
                    assert(slots[order[m] as int].due_at(t));
                }
                if slot.due_at(t) {
                    assert(slots[order[k as int] as int].due_at(t));
                }
                if exists|m: int| 0 <= m < k + 1 && (#[trigger] slots[order[m] as int]).due_at(t) {
                    let m = choose|m: int|
                        0 <= m < k + 1 && (#[trigger] slots[order[m] as int]).due_at(t);
                    if m < k {
                        assert(slots[order[m] as int] == before[order[m] as int]);
                        assert(before[order[m] as int].due_at(t));
                        assert(taken[t]);
                    }
                }
            }
        }
        k += 1;
    }
    proof {
        assert forall|j: int| 0 <= j < all.len() implies #[trigger] placed(all, slots@, j) by {
            assert(order@.contains(j as usize));
            let m = choose|m: int| 0 <= m < order.len() && order[m] == j as usize;
            assert(placed(all, slots@, order[m] as int));
        }
        assert(is_allocation(all, slots@));
    }
    Ok(slots)
}

/// One slot per interval, in the order the intervals came in.
pub fn allocate<const N: usize>(intervals: [u32; N]) -> (slots: [Slot; N])
    requires
        schedulable(intervals@),
    ensures
        is_allocation(intervals@, slots@),
{
    let mut slots: [Slot; N] = [Slot { interval_ms: 0, phase_ms: 0 };N];
    if let Ok(found) = try_allocate(&intervals) {
        let mut i: usize = 0;
        while i < N
            invariant
                i <= N,
                found.len() == N,
                forall|j: int| 0 <= j < i ==> #[trigger] slots[j] == found[j],
            decreases N - i,
        {
            slots[i] = found[i];
            i += 1;
        }
        assert(slots@ =~= found@);
    }
    slots
}

/// No tick carries two messages of a schedule.
pub proof fn law_at_most_one_message_per_tick(
    intervals: Seq<u32>,
    slots: Seq<Slot>,
    tick: int,
    i: int,
    j: int,
)
    requires
        is_allocation(intervals, slots),
        0 <= tick,
        0 <= i < slots.len(),
        0 <= j < slots.len(),
        slots[i].due_at(tick),
        slots[j].due_at(tick),
    ensures
        i == j,
{
    assert(placed(intervals, slots, i) && placed(intervals, slots, j));
    if i != j {
        if picks_before(intervals, i, j) {
            assert(collide(slots[j], slots[i]));
        } else {
            assert(picks_before(intervals, j, i));
            assert(collide(slots[i], slots[j]));
        }
    }
}

/// Of two equally fast messages the one declared first gets the lower phase.
pub proof fn law_equal_intervals_keep_declaration_order(
    intervals: Seq<u32>,
    slots: Seq<Slot>,
    i: int,
    j: int,
)
    requires
        all_positive(intervals),
        is_allocation(intervals, slots),
        0 <= i < j < slots.len(),
        intervals[i] == intervals[j],
    ensures
        slots[i].phase_ms < slots[j].phase_ms,
{
    assert(placed(intervals, slots, i) && placed(intervals, slots, j));
    let (p, q) = (slots[i].phase_ms, slots[j].phase_ms);
    assert(intervals[i] > 0);
    if q <= p {
        if q == p {
            lemma_small_mod(p as nat, intervals[i] as nat);
            assert(slots[j].due_at(p as int));
            assert(collide(slots[j], slots[i]));
            assert(picks_before(intervals, i, j));
        } else {
            assert forall|m: int|
                0 <= m < intervals.len() && #[trigger] picks_before(intervals, m, i) implies !collide(
                Slot { interval_ms: intervals[i], phase_ms: q },
                slots[m],
            ) by {
                assert(picks_before(intervals, m, j));
            }
            assert(phase_free(intervals, slots, i, q));
        }
    }
}

/// On how many of the ticks `0..end` the message of `slot` goes out.
pub open spec fn sends(slot: Slot, end: nat) -> nat
    decreases end,
{
    if end == 0 {
        0
    } else {
        sends(slot, (end - 1) as nat) + if slot.due_at(end - 1) {
            1nat
        } else {
            0nat
        }
    }
}

proof fn lemma_sends(slot: Slot, end: nat)
    requires
        slot.phase_ms < slot.interval_ms,
    ensures
        sends(slot, end) == (end + slot.interval_ms - 1 - slot.phase_ms) / (slot.interval_ms as int),
    decreases end,
{
    let d = slot.interval_ms as int;
    let p = slot.phase_ms as int;
    if end == 0 {
        lemma_fundamental_div_mod_converse(d - 1 - p, d, 0, d - 1 - p);
    } else {
        let t = end - 1;
        lemma_sends(slot, t as nat);
        let x = t + d - 1 - p;
        lemma_fundamental_div_mod(x, d);
        lemma_mod_bound(x, d);
        let (q, r) = (x / d, x % d);
        if r == d - 1 {
            assert(x + 1 == (q + 1) * d) by (nonlinear_arith)
                requires
                    x == d * q + r,
                    r == d - 1,
            ;
            lemma_fundamental_div_mod_converse(x + 1, d, q + 1, 0);
            assert(t == q * d + p) by (nonlinear_arith)
                requires
                    t == x - d + 1 + p,
                    x + 1 == (q + 1) * d,
            ;
            lemma_fundamental_div_mod_converse(t, d, q, p);
        } else {
            assert(x + 1 == q * d + (r + 1)) by (nonlinear_arith)
                requires
                    x == d * q + r,
            ;
            lemma_fundamental_div_mod_converse(x + 1, d, q, r + 1);
            if slot.due_at(t) {
                lemma_fundamental_div_mod(t, d);
                let qt = t / d;
                assert(x == qt * d + (d - 1)) by (nonlinear_arith)
                    requires
                        t == d * qt + p,
                        x == t + d - 1 - p,
                ;
                lemma_fundamental_div_mod_converse(x, d, qt, d - 1);
            }
        }
    }
}

/// In one cycle every message goes out as often as its interval fits into the cycle.
pub proof fn law_sends_per_cycle(intervals: Seq<u32>, slots: Seq<Slot>, k: int)
    requires
        well_formed(intervals),
        is_allocation(intervals, slots),
        0 <= k < slots.len(),
    ensures
        sends(slots[k], cycle_ms(intervals) as nat) == cycle_ms(intervals) / (intervals[k] as int),
{
    lemma_cycle_bounds(intervals);
    assert(placed(intervals, slots, k));
    let cycle = cycle_ms(intervals);
    let d = intervals[k] as int;
    let p = slots[k].phase_ms as int;
    lemma_sends(slots[k], cycle as nat);
    lemma_fundamental_div_mod(cycle, d);
    let q = cycle / d;
    assert(cycle + d - 1 - p == q * d + (d - 1 - p)) by (nonlinear_arith)
        requires
            cycle == d * q,
    ;
    lemma_fundamental_div_mod_converse(cycle + d - 1 - p, d, q, d - 1 - p);
}

/// The message that picks last.
proof fn lemma_last_to_pick(intervals: Seq<u32>) -> (last: int)
    requires
        intervals.len() > 0,
    ensures
        0 <= last < intervals.len(),
        forall|j: int|
            0 <= j < intervals.len() && j != last ==> #[trigger] picks_before(intervals, j, last),
    decreases intervals.len(),
{
    let end = intervals.len() - 1;
    if end == 0 {
        0
    } else {
        let rest = intervals.drop_last();
        let l = lemma_last_to_pick(rest);
        let last = if picks_before(intervals, l, end) {
            end
        } else {
            l
        };
        assert forall|j: int|
            0 <= j < intervals.len() && j != last implies #[trigger] picks_before(
            intervals,
            j,
            last,
        ) by {
            if j < end && j != l {
                assert(picks_before(rest, j, l));
            }
        }
        last
    }
}

/// The message that picks last is in nobody's way: without it, the same phases are free to the
/// others.
proof fn lemma_phase_free_without_last(
    intervals: Seq<u32>,
    slots: Seq<Slot>,
    last: int,
    k: int,
    p: u32,
)
    requires
        slots.len() == intervals.len(),
        0 <= last < intervals.len(),
        forall|j: int|
            0 <= j < intervals.len() && j != last ==> #[trigger] picks_before(intervals, j, last),
        0 <= k < intervals.len() - 1,
    ensures
        phase_free(
            intervals,
            slots,
            if k < last {
                k
            } else {
                k + 1
            },
            p,
        ) == phase_free(intervals.remove(last), slots.remove(last), k, p),
{
    let (fewer, left) = (intervals.remove(last), slots.remove(last));
    let up = |i: int| if i < last { i } else { i + 1 };
    assert(picks_before(intervals, up(k), last));
    let mine = Slot { interval_ms: intervals[up(k)], phase_ms: p };
    if phase_free(intervals, slots, up(k), p) {
        assert forall|j: int|
            0 <= j < fewer.len() && #[trigger] picks_before(fewer, j, k) implies !collide(
            mine,
            left[j],
        ) by {
            assert(picks_before(intervals, up(j), up(k)));
        }
    }
    if phase_free(fewer, left, k, p) {
        assert forall|j: int|
            0 <= j < intervals.len() && #[trigger] picks_before(
                intervals,
                j,
                up(k),
            ) implies !collide(mine, slots[j]) by {
            assert(j != last);
            let down = if j < last { j } else { j - 1 };
            assert(picks_before(fewer, down, k));
            assert(left[down] == slots[j]);
        }
    }
}

/// The others are placed with the message that picks last exactly as they are without it.
proof fn lemma_placed_without_last(intervals: Seq<u32>, slots: Seq<Slot>, last: int, k: int)
    requires
        slots.len() == intervals.len(),
        0 <= last < intervals.len(),
        forall|j: int|
            0 <= j < intervals.len() && j != last ==> #[trigger] picks_before(intervals, j, last),
        0 <= k < intervals.len() - 1,
    ensures
        placed(
            intervals,
            slots,
            if k < last {
                k
            } else {
                k + 1
            },
        ) == placed(intervals.remove(last), slots.remove(last), k),
{
    let (fewer, left) = (intervals.remove(last), slots.remove(last));
    let at = if k < last { k } else { k + 1 };
    assert forall|p: u32|
        #![trigger phase_free(intervals, slots, at, p)]
        #![trigger phase_free(fewer, left, k, p)]
        phase_free(intervals, slots, at, p) == phase_free(fewer, left, k, p) by {
        lemma_phase_free_without_last(intervals, slots, last, k, p);
    }
}

/// Without the message that picks last, the other slots are still a schedule.
proof fn lemma_remove_last_to_pick(intervals: Seq<u32>, slots: Seq<Slot>, last: int)
    requires
        is_allocation(intervals, slots),
        0 <= last < intervals.len(),
        forall|j: int|
            0 <= j < intervals.len() && j != last ==> #[trigger] picks_before(intervals, j, last),
    ensures
        is_allocation(intervals.remove(last), slots.remove(last)),
{
    let (fewer, left) = (intervals.remove(last), slots.remove(last));
    assert forall|k: int| 0 <= k < fewer.len() implies #[trigger] placed(fewer, left, k) by {
        lemma_placed_without_last(intervals, slots, last, k);
        assert(placed(intervals, slots, if k < last { k } else { k + 1 }));
    }
}

/// The slot of the message that picks last depends only on which slots the others have.
proof fn lemma_last_phase(
    a: Seq<u32>,
    sa: Seq<Slot>,
    la: int,
    b: Seq<u32>,
    sb: Seq<Slot>,
    lb: int,
    phase: u32,
)
    requires
        sa.len() == a.len(),
        sb.len() == b.len(),
        0 <= la < a.len(),
        0 <= lb < b.len(),
        a[la] == b[lb],
        forall|j: int| 0 <= j < a.len() && j != la ==> #[trigger] picks_before(a, j, la),
        sb.remove(lb).to_multiset() == sa.remove(la).to_multiset(),
        phase_free(a, sa, la, phase),
    ensures
        phase_free(b, sb, lb, phase),
{
    let mine = Slot { interval_ms: a[la], phase_ms: phase };
    assert forall|j: int|
        0 <= j < b.len() && #[trigger] picks_before(b, j, lb) implies !collide(mine, sb[j]) by {
        assert(j != lb);
        let down = if j < lb { j } else { j - 1 };
        let rest = sb.remove(lb);
        assert(rest[down] == sb[j]);
        assert(rest.contains(sb[j]));
        assert(rest.to_multiset().contains(sb[j]));
        assert(sa.remove(la).to_multiset().contains(sb[j]));
        assert(sa.remove(la).contains(sb[j]));
        let i = choose|i: int| 0 <= i < sa.remove(la).len() && sa.remove(la)[i] == sb[j];
        let up = if i < la { i } else { i + 1 };
        assert(sa[up] == sb[j]);
        assert(picks_before(a, up, la));
    }
}

/// The phases do not depend on the order in which the messages are declared: the same intervals
/// in another order get the same slots, each as often.
pub proof fn law_phases_do_not_depend_on_declaration_order(
    a: Seq<u32>,
    sa: Seq<Slot>,
    b: Seq<u32>,
    sb: Seq<Slot>,
)
    requires
        a.to_multiset() == b.to_multiset(),
        is_allocation(a, sa),
        is_allocation(b, sb),
    ensures
        sa.to_multiset() == sb.to_multiset(),
    decreases a.len(),
{
    assert(a.len() == a.to_multiset().len());
    assert(b.len() == b.to_multiset().len());
    if a.len() == 0 {
        assert(sa =~= sb);
    } else {
        let la = lemma_last_to_pick(a);
        let lb = lemma_last_to_pick(b);
        lemma_same_slowest(a, la, b, lb);
        lemma_remove_last_to_pick(a, sa, la);
        lemma_remove_last_to_pick(b, sb, lb);
        assert(a.remove(la).to_multiset() == a.to_multiset().remove(a[la]));
        assert(b.remove(lb).to_multiset() == b.to_multiset().remove(b[lb]));
        law_phases_do_not_depend_on_declaration_order(
            a.remove(la),
            sa.remove(la),
            b.remove(lb),
            sb.remove(lb),
        );
        assert(placed(a, sa, la) && placed(b, sb, lb));
        lemma_last_phase(a, sa, la, b, sb, lb, sa[la].phase_ms);
        lemma_last_phase(b, sb, lb, a, sa, la, sb[lb].phase_ms);
        assert(sa[la] == sb[lb]);
        assert(sa.remove(la).to_multiset() == sa.to_multiset().remove(sa[la]));
        assert(sb.remove(lb).to_multiset() == sb.to_multiset().remove(sb[lb]));
        assert(sa.to_multiset() =~= sa.to_multiset().remove(sa[la]).insert(sa[la])) by {
            assert(sa.contains(sa[la]));
        }
        assert(sb.to_multiset() =~= sb.to_multiset().remove(sb[lb]).insert(sb[lb])) by {
            assert(sb.contains(sb[lb]));
        }
    }
}

/// The schedule of the same intervals in another order.
proof fn lemma_permuted_schedule(a: Seq<u32>, sa: Seq<Slot>, b: Seq<u32>) -> (sb: Seq<Slot>)
    requires
        a.to_multiset() == b.to_multiset(),
        is_allocation(a, sa),
    ensures
        is_allocation(b, sb),
        sa.to_multiset() == sb.to_multiset(),
    decreases a.len(),
{
    assert(a.len() == a.to_multiset().len());
    assert(b.len() == b.to_multiset().len());
    if a.len() == 0 {
        sa
    } else {
        let la = lemma_last_to_pick(a);
        let lb = lemma_last_to_pick(b);
        lemma_same_slowest(a, la, b, lb);
        lemma_remove_last_to_pick(a, sa, la);
        assert(a.remove(la).to_multiset() == a.to_multiset().remove(a[la]));
        assert(b.remove(lb).to_multiset() == b.to_multiset().remove(b[lb]));
        let rest = lemma_permuted_schedule(a.remove(la), sa.remove(la), b.remove(lb));
        let sb = rest.insert(lb, sa[la]);
        assert(sb.remove(lb) =~= rest);
        assert(placed(a, sa, la));
        assert forall|k: int| 0 <= k < b.len() implies #[trigger] placed(b, sb, k) by {
            if k == lb {
                lemma_last_phase(a, sa, la, b, sb, lb, sa[la].phase_ms);
                assert forall|p: u32| p < sb[lb].phase_ms implies !#[trigger] phase_free(
                    b,
                    sb,
                    lb,
                    p,
                ) by {
                    if phase_free(b, sb, lb, p) {
                        lemma_last_phase(b, sb, lb, a, sa, la, p);
                    }
                }
            } else {
                let down = if k < lb { k } else { k - 1 };
                assert(placed(b.remove(lb), rest, down));
                lemma_placed_without_last(b, sb, lb, down);
            }
        }
        law_phases_do_not_depend_on_declaration_order(a, sa, b, sb);
        sb
    }
}

/// The same intervals in another order have the same slowest one.
proof fn lemma_same_slowest(a: Seq<u32>, la: int, b: Seq<u32>, lb: int)
    requires
        a.to_multiset() == b.to_multiset(),
        0 <= la < a.len(),
        0 <= lb < b.len(),
        forall|j: int| 0 <= j < a.len() && j != la ==> #[trigger] picks_before(a, j, la),
        forall|j: int| 0 <= j < b.len() && j != lb ==> #[trigger] picks_before(b, j, lb),
    ensures
        a[la] == b[lb],
{
    assert(a.to_multiset().contains(b[lb]) && b.to_multiset().contains(a[la])) by {
        assert(b.contains(b[lb]) && a.contains(a[la]));
    }
    assert(a.contains(b[lb]) && b.contains(a[la]));
    let i = choose|i: int| 0 <= i < a.len() && a[i] == b[lb];
    let j = choose|j: int| 0 <= j < b.len() && b[j] == a[la];
    if i != la {
        assert(picks_before(a, i, la));
    }
    if j != lb {
        assert(picks_before(b, j, lb));
    }
}

/// Whether intervals can be scheduled does not depend on the order in which they are declared, and
/// neither do the slots: the same intervals in another order are schedulable too, and get the same
/// slots, each as often.
pub proof fn law_a_permutation_is_schedulable(a: Seq<u32>, b: Seq<u32>)
    requires
        a.to_multiset() == b.to_multiset(),
        schedulable(a),
    ensures
        schedulable(b),
        forall|sa: Seq<Slot>, sb: Seq<Slot>|
            #![trigger is_allocation(a, sa), is_allocation(b, sb)]
            is_allocation(a, sa) && is_allocation(b, sb) ==> sa.to_multiset() == sb.to_multiset(),
{
    assert(a.len() == a.to_multiset().len());
    assert(b.len() == b.to_multiset().len());
    let slots = choose|slots: Seq<Slot>| is_allocation(a, slots);
    let permuted = lemma_permuted_schedule(a, slots, b);
    lemma_cycle_bounds(a);
    lemma_cycle_bounds(b);
    assert forall|i: int| 0 <= i < b.len() implies a.contains(#[trigger] b[i]) by {
        assert(b.contains(b[i]));
        assert(a.to_multiset().contains(b[i]));
    }
    assert forall|i: int| 0 <= i < a.len() implies b.contains(#[trigger] a[i]) by {
        assert(a.contains(a[i]));
        assert(b.to_multiset().contains(a[i]));
    }
    if a.len() > 0 {
        let i = choose|i: int| 0 <= i < a.len() && #[trigger] a[i] == cycle_ms(a);
        let j = choose|j: int| 0 <= j < b.len() && #[trigger] b[j] == cycle_ms(b);
        assert(b.contains(a[i]) && a.contains(b[j]));
        let k = choose|k: int| 0 <= k < b.len() && b[k] == a[i];
        let m = choose|m: int| 0 <= m < a.len() && a[m] == b[j];
        assert(b[k] <= cycle_ms(b) && a[m] <= cycle_ms(a));
    }
    assert forall|i: int| 0 <= i < b.len() implies #[trigger] b[i] > 0 && cycle_ms(b) % (b[i] as int)
        == 0 by {
        assert(a.contains(b[i]));
        let m = choose|m: int| 0 <= m < a.len() && a[m] == b[i];
        assert(a[m] > 0);
    }
    assert(is_allocation(b, permuted));
    assert forall|sa: Seq<Slot>, sb: Seq<Slot>|
        #![trigger is_allocation(a, sa), is_allocation(b, sb)]
        is_allocation(a, sa) && is_allocation(b, sb) implies sa.to_multiset()
        == sb.to_multiset() by {
        law_phases_do_not_depend_on_declaration_order(a, sa, b, sb);
    }
}

/// Where all intervals are multiples of a grain, a tick's place within the grain tells its phase.
proof fn lemma_place_in_grain(tick: int, interval: int, grain: int)
    requires
        0 <= tick,
        0 < grain,
        0 < interval,
        interval % grain == 0,
    ensures
        (tick % interval) % grain == tick % grain,
{
    lemma_tick_in_cycle(tick, interval, grain);
}

/// Some message has this phase.
spec fn some_phase(slots: Seq<Slot>, phase: u32) -> bool {
    exists|k: int| 0 <= k < slots.len() && (#[trigger] slots[k]).phase_ms == phase
}

/// The schedule of coarse intervals: the phases are the places in the picking order.
proof fn lemma_coarse_schedule(intervals: Seq<u32>, grain: int) -> (slots: Seq<Slot>)
    requires
        0 < grain,
        all_positive(intervals),
        forall|i: int| 0 <= i < intervals.len() ==> (#[trigger] intervals[i]) as int % grain == 0,
        intervals.len() <= grain,
    ensures
        is_allocation(intervals, slots),
        forall|k: int| 0 <= k < slots.len() ==> (#[trigger] slots[k]).phase_ms < slots.len(),
        forall|q: u32| q < slots.len() ==> #[trigger] some_phase(slots, q),
    decreases intervals.len(),
{
    if intervals.len() == 0 {
        Seq::empty()
    } else {
        let n = intervals.len() as int;
        let last = lemma_last_to_pick(intervals);
        let fewer = intervals.remove(last);
        assert forall|i: int| 0 <= i < fewer.len() implies #[trigger] fewer[i] > 0 && fewer[i] as int
            % grain == 0 by {
            assert(fewer[i] == intervals[if i < last { i } else { i + 1 }]);
        }
        let rest = lemma_coarse_schedule(fewer, grain);
        let interval = intervals[last];
        assert(interval >= grain) by {
            if interval < grain {
                lemma_small_mod(interval as nat, grain as nat);
            }
        }
        let slot = Slot { interval_ms: interval, phase_ms: (n - 1) as u32 };
        let slots = rest.insert(last, slot);
        assert(slots.remove(last) =~= rest);
        assert forall|k: int| 0 <= k < n && k != last implies slots[k].phase_ms < n - 1
            && #[trigger] placed(intervals, slots, k) by {
            let down = if k < last { k } else { k - 1 };
            assert(rest[down] == slots[k]);
            assert(placed(fewer, rest, down));
            lemma_placed_without_last(intervals, slots, last, down);
        }
        assert(phase_free(intervals, slots, last, slot.phase_ms)) by {
            assert forall|j: int|
                0 <= j < n && #[trigger] picks_before(intervals, j, last) implies !collide(
                slot,
                slots[j],
            ) by {
                assert(placed(intervals, slots, j));
                if collide(slot, slots[j]) {
                    let tick = choose|tick: int|
                        0 <= tick && #[trigger] slot.due_at(tick) && slots[j].due_at(tick);
                    assert(intervals[last] > 0 && intervals[j] > 0);
                    lemma_place_in_grain(tick, interval as int, grain);
                    lemma_place_in_grain(tick, intervals[j] as int, grain);
                    lemma_small_mod((n - 1) as nat, grain as nat);
                    lemma_small_mod(slots[j].phase_ms as nat, grain as nat);
                }
            }
        }
        assert forall|p: u32| p < slot.phase_ms implies !#[trigger] phase_free(
            intervals,
            slots,
            last,
            p,
        ) by {
            assert(some_phase(rest, p));
            let i = choose|i: int| 0 <= i < rest.len() && (#[trigger] rest[i]).phase_ms == p;
            let k = if i < last { i } else { i + 1 };
            assert(slots[k] == rest[i]);
            assert(placed(intervals, slots, k));
            let mine = Slot { interval_ms: interval, phase_ms: p };
            lemma_small_mod(p as nat, interval as nat);
            lemma_small_mod(p as nat, intervals[k] as nat);
            assert(mine.due_at(p as int));
            assert(collide(mine, slots[k]));
            assert(picks_before(intervals, k, last));
        }
        assert(placed(intervals, slots, last));
        assert forall|q: u32| q < n implies #[trigger] some_phase(slots, q) by {
            if q == n - 1 {
                assert(slots[last].phase_ms == q);
            } else {
                assert(some_phase(rest, q));
                let i = choose|i: int| 0 <= i < rest.len() && (#[trigger] rest[i]).phase_ms == q;
                let k = if i < last { i } else { i + 1 };
                assert(slots[k] == rest[i]);
            }
        }
        slots
    }
}

/// Messages always fit where every interval is a multiple of some grain and there are no more
/// messages than that grain has ticks.
pub proof fn law_coarse_intervals_always_fit(intervals: Seq<u32>, grain: int)
    requires
        well_formed(intervals),
        0 < grain,
        forall|i: int| 0 <= i < intervals.len() ==> (#[trigger] intervals[i]) as int % grain == 0,
        intervals.len() <= grain,
    ensures
        schedulable(intervals),
{
    let slots = lemma_coarse_schedule(intervals, grain);
    assert(is_allocation(intervals, slots));
}

} // verus!

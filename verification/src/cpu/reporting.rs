//! What the load and the latency amount to.

use vstd::prelude::*;

use crate::cpu::{
    window_permille, CpuLoad, CpuMonitor, LoopHealth, MonitorState, SleepAccount, TICK_PERIOD,
    WINDOW, WINDOWS_PER_REPORT,
};

verus! {

/// A window is a tenth of a second, a report is on half a second, and an iteration has a
/// millisecond.
pub proof fn law_how_long_is_measured()
    ensures
        WINDOW == 100_000,
        WINDOW * WINDOWS_PER_REPORT == 500_000,
        TICK_PERIOD == 1000,
{
}

/// The load is the part of the time that was not slept, in whole thousandths.
pub proof fn law_the_load_in_thousandths(total: int, slept: int)
    requires
        0 <= slept <= total,
        0 < total,
    ensures
        window_permille(total, slept) * total <= (total - slept) * 1000 < (window_permille(
            total,
            slept,
        ) + 1) * total,
{
    let busy = (total - slept) * 1000;
    vstd::arithmetic::div_mod::lemma_fundamental_div_mod(busy, total);
    let q = busy / total;
    assert(q * total == total * q && (q + 1) * total == total * q + total) by (nonlinear_arith);
}

/// The worst latency and the highest load are kept until they are reported, and a window starts
/// where the one before ended.
pub proof fn law_peaks_are_kept(state: MonitorState, latency: int, now: int, slept: int)
    requires
        latency >= 0,
        state.peak_latency_us >= 0,
    ensures
        ({
            let noted = state.noted(latency);
            let rolled = state.rolled(now, slept);
            &&& noted.peak_latency_us >= state.peak_latency_us
            &&& latency <= 65535 ==> noted.peak_latency_us >= latency
            &&& latency > 65535 ==> noted.peak_latency_us >= 65535
            &&& noted.peak_latency_us == state.peak_latency_us || noted.peak_latency_us == latency
                || noted.peak_latency_us == 65535
            &&& noted.peak_permille == state.peak_permille
            &&& rolled.window_start == now
            &&& rolled.windows == state.windows + 1
            &&& rolled.peak_permille >= state.peak_permille
            &&& rolled.peak_permille >= window_permille(now - state.window_start, slept)
            &&& rolled.peak_permille == state.peak_permille || rolled.peak_permille
                == window_permille(now - state.window_start, slept)
            &&& rolled.peak_latency_us == state.peak_latency_us
        }),
{
}

/// An iteration that takes longer than a millisecond is counted. A tenth of a second later the load
/// of that time is taken, and after five of these the highest load and the worst latency are
/// published.
pub proof fn law_what_an_iteration_adds(
    monitor: &mut CpuMonitor,
    latency: u64,
    now: u64,
    sleep: &mut SleepAccount,
    load: &mut CpuLoad,
    health: &mut LoopHealth,
)
    requires
        (*old(monitor)).wf(),
        (*old(monitor))@.window_start <= now,
        now - (*old(monitor))@.window_start <= u64::MAX / 1000,
        call_ensures(CpuMonitor::update, (monitor, latency, now, sleep, load, health), ()),
    ensures
        ({
            let (before, after) = ((*old(monitor))@, (*final(monitor))@);
            let ended = now - before.window_start >= 100_000;
            &&& latency > 1000 && (*old(health)).missed() < 65535 ==> (*final(health)).missed() == (*old(health)).missed() + 1
            &&& latency <= 1000 ==> (*final(health)).missed() == (*old(health)).missed()
            &&& !ended ==> (*final(load))@ == (*old(load))@ && after.window_start
                == before.window_start && after.windows == before.windows && (*final(sleep)).slept() == (*old(sleep)).slept()
            &&& ended ==> after.window_start == now && (*final(sleep)).slept() == 0
            &&& ended && before.windows + 1 < 5 ==> (*final(load))@ == (*old(load))@
                && after.windows == before.windows + 1
            &&& ended && before.windows + 1 >= 5 ==> (*final(load))@ is Some && after.windows == 0
                && after.peak_permille == 0 && after.peak_latency_us == 0
        }),
{
}

/// The load is published in thousandths, and never above a thousand.
pub proof fn law_the_load_is_a_thousandth(load: &mut CpuLoad, permille: u16, fresh: CpuLoad)
    requires
        call_ensures(CpuLoad::set_permille, (load, permille), ()),
        call_ensures(CpuLoad::new, (), fresh),
    ensures
        permille <= 1000 ==> (*final(load))@ == Some(permille),
        permille > 1000 ==> (*final(load))@ == Some(1000u16),
        fresh@ is None,
{
}

/// Time slept adds up, and is taken all at once.
pub proof fn law_time_slept_adds_up(
    charged: &mut SleepAccount,
    taken: &mut SleepAccount,
    slept: u64,
    all: u32,
    fresh: SleepAccount,
)
    requires
        call_ensures(SleepAccount::charge, (charged, slept), ()),
        call_ensures(SleepAccount::take, (taken,), all),
        call_ensures(SleepAccount::new, (), fresh),
    ensures
        (*old(charged)).slept() + slept <= 0xffff_ffff ==> (*final(charged)).slept() == (*old(charged)).slept() + slept,
        all == (*old(taken)).slept(),
        (*final(taken)).slept() == 0,
        fresh.slept() == 0,
{
}

/// Missed deadlines are counted one by one, up to what can be told; the worst latency is set.
pub proof fn law_missed_deadlines_are_counted(
    counted: &mut LoopHealth,
    set: &mut LoopHealth,
    us: u16,
)
    requires
        call_ensures(LoopHealth::record_overrun, (counted,), ()),
        call_ensures(LoopHealth::set_peak_latency_us, (set, us), ()),
    ensures
        (*old(counted)).missed() < 65535 ==> (*final(counted)).missed() == (*old(counted)).missed() + 1,
        (*old(counted)).missed() == 65535 ==> (*final(counted)).missed() == 65535,
        (*final(counted)).peak() == (*old(counted)).peak(),
        (*final(set)).peak() == us,
        (*final(set)).missed() == (*old(set)).missed(),
{
}

} // verus!

//! The utilization of the CPU, and whether the main loop meets its deadline.
//!
//! The time that is spent asleep is accounted for; the rest of the wall-clock time is load.

use vstd::prelude::*;

pub mod reporting;

verus! {

const UNKNOWN: u16 = u16::MAX;

/// One measurement window \[us\].
pub const WINDOW: u64 = 100_000;

/// Windows per published value.
pub const WINDOWS_PER_REPORT: u32 = 5;

/// The main loop's period \[us\]. An iteration taking longer than this has missed its deadline.
pub const TICK_PERIOD: u64 = 1000;

/// The share of wall-clock time the CPU spent doing anything other than sleeping.
///
/// Per mille rather than percent because that is the unit MAVLink's `SYS_STATUS.load` wants.
#[derive(Copy, Clone, Debug, PartialEq, Eq, Structural)]
pub struct CpuLoad(u16);

impl View for CpuLoad {
    type V = Option<u16>;

    /// The estimate, where there is one.
    closed spec fn view(&self) -> Option<u16> {
        if self.0 == UNKNOWN {
            None
        } else {
            Some(self.0)
        }
    }
}

impl CpuLoad {
    /// Nothing has been measured.
    pub fn new() -> (load: Self)
        ensures
            load@ is None,
    {
        CpuLoad(UNKNOWN)
    }

    /// Publish a new estimate, clamped to the 0-1000 range `SYS_STATUS.load` is defined over.
    pub fn set_permille(&mut self, permille: u16)
        ensures
            final(self)@ == Some(
                if permille < 1000 {
                    permille
                } else {
                    1000
                },
            ),
    {
        self.0 = if permille < 1000 {
            permille
        } else {
            1000
        };
    }

    /// The most recent estimate, or `None` on a platform that doesn't measure CPU load.
    pub fn permille(&self) -> (permille: Option<u16>)
        ensures
            permille == self@,
    {
        if self.0 == UNKNOWN {
            None
        } else {
            Some(self.0)
        }
    }
}

impl Default for CpuLoad {
    fn default() -> (load: Self)
        ensures
            load@ is None,
    {
        CpuLoad::new()
    }
}

/// Whether the main loop is still meeting its 1 kHz deadline.
#[derive(Copy, Clone, Debug, PartialEq, Eq, Structural)]
pub struct LoopHealth {
    overruns: u16,
    peak_latency_us: u16,
}

impl LoopHealth {
    /// How many iterations missed the deadline, saturating.
    pub closed spec fn missed(self) -> u16 {
        self.overruns
    }

    /// The published worst latency.
    pub closed spec fn peak(self) -> u16 {
        self.peak_latency_us
    }

    pub fn new() -> (health: Self)
        ensures
            health.missed() == 0,
            health.peak() == 0,
    {
        LoopHealth { overruns: 0, peak_latency_us: 0 }
    }

    /// Cumulative count of iterations that took longer than the tick period, saturating.
    pub fn record_overrun(&mut self)
        ensures
            final(self).missed() == if old(self).missed() < u16::MAX {
                (old(self).missed() + 1) as u16
            } else {
                u16::MAX
            },
            final(self).peak() == old(self).peak(),
    {
        if self.overruns < u16::MAX {
            self.overruns = self.overruns + 1;
        }
    }

    pub fn set_peak_latency_us(&mut self, us: u16)
        ensures
            final(self).peak() == us,
            final(self).missed() == old(self).missed(),
    {
        self.peak_latency_us = us;
    }

    pub fn overruns(&self) -> (overruns: u16)
        ensures
            overruns == self.missed(),
    {
        self.overruns
    }

    /// Worst iteration latency over the last reporting window, saturating at `u16::MAX` us.
    pub fn peak_latency_us(&self) -> (us: u16)
        ensures
            us == self.peak(),
    {
        self.peak_latency_us
    }
}

impl Default for LoopHealth {
    fn default() -> (health: Self)
        ensures
            health.missed() == 0,
            health.peak() == 0,
    {
        LoopHealth::new()
    }
}

/// The time spent asleep since the last window, in microseconds.
#[derive(Copy, Clone, Debug, PartialEq, Eq, Structural)]
pub struct SleepAccount {
    ticks: u32,
}

impl SleepAccount {
    /// What the account holds.
    pub closed spec fn slept(self) -> u32 {
        self.ticks
    }

    pub fn new() -> (account: Self)
        ensures
            account.slept() == 0,
    {
        SleepAccount { ticks: 0 }
    }

    /// Charges the time of one sleep to the account, which wraps around.
    pub fn charge(&mut self, slept: u64)
        ensures
            final(self).slept() == (old(self).slept() + if slept < u32::MAX {
                slept as int
            } else {
                u32::MAX as int
            }) % 0x1_0000_0000,
    {
        let slept: u32 = if slept < u32::MAX as u64 {
            slept as u32
        } else {
            u32::MAX
        };
        self.ticks = ((self.ticks as u64 + slept as u64) % 0x1_0000_0000) as u32;
    }

    /// What the account holds; it is empty afterwards.
    pub fn take(&mut self) -> (slept: u32)
        ensures
            slept == old(self).slept(),
            final(self).slept() == 0,
    {
        let slept: u32 = self.ticks;
        self.ticks = 0;
        slept
    }
}

/// What the monitor has measured since the last report.
pub struct MonitorState {
    pub window_start: int,
    pub windows: int,
    pub peak_permille: int,
    pub peak_latency_us: int,
}

/// Rolls the measurement window and publishes the load. Owned by the main loop.
#[derive(Copy, Clone, Debug, PartialEq, Eq, Structural)]
pub struct CpuMonitor {
    window_start: u64,
    windows: u32,
    peak_permille: u16,
    peak_latency_us: u16,
}

impl View for CpuMonitor {
    type V = MonitorState;

    closed spec fn view(&self) -> MonitorState {
        MonitorState {
            window_start: self.window_start as int,
            windows: self.windows as int,
            peak_permille: self.peak_permille as int,
            peak_latency_us: self.peak_latency_us as int,
        }
    }
}

/// The greater of two numbers.
pub open spec fn greater(a: int, b: int) -> int {
    if a < b {
        b
    } else {
        a
    }
}

/// The load of a window of this length in which so much time was slept.
pub open spec fn window_permille(total: int, slept: int) -> int {
    (if slept < total {
        total - slept
    } else {
        0
    }) * 1000 / total
}

impl MonitorState {
    /// The latency of one more iteration is noted.
    pub open spec fn noted(self, latency: int) -> MonitorState {
        MonitorState {
            peak_latency_us: greater(
                self.peak_latency_us,
                if latency < u16::MAX {
                    latency
                } else {
                    u16::MAX as int
                },
            ),
            ..self
        }
    }

    /// The window has ended at `now`.
    pub open spec fn rolled(self, now: int, slept: int) -> MonitorState {
        MonitorState {
            window_start: now,
            windows: self.windows + 1,
            peak_permille: greater(
                self.peak_permille,
                window_permille(now - self.window_start, slept),
            ),
            ..self
        }
    }
}

impl CpuMonitor {
    /// No more windows have passed than make up a report.
    pub closed spec fn wf(self) -> bool {
        self.windows < WINDOWS_PER_REPORT && self.peak_permille <= 1000
    }

    pub fn new(now: u64) -> (monitor: Self)
        ensures
            monitor.wf(),
            monitor@ == (MonitorState {
                window_start: now as int,
                windows: 0,
                peak_permille: 0,
                peak_latency_us: 0,
            }),
    {
        CpuMonitor { window_start: now, windows: 0, peak_permille: 0, peak_latency_us: 0 }
    }

    /// Call once per main loop iteration, passing how long this iteration's work took. Times are
    /// in microseconds.
    pub fn update(
        &mut self,
        latency: u64,
        now: u64,
        sleep: &mut SleepAccount,
        load: &mut CpuLoad,
        health: &mut LoopHealth,
    )
        requires
            old(self).wf(),
            old(self)@.window_start <= now,
            now - old(self)@.window_start <= u64::MAX / 1000,
        ensures
            final(self).wf(),
            final(health).missed() == if latency > TICK_PERIOD && old(health).missed() < u16::MAX {
                (old(health).missed() + 1) as u16
            } else {
                old(health).missed()
            },
            ({
                let noted = old(self)@.noted(latency as int);
                let rolled = noted.rolled(now as int, old(sleep).slept() as int);
                if now - old(self)@.window_start < WINDOW {
                    &&& final(self)@ == noted
                    &&& *final(sleep) == *old(sleep)
                    &&& *final(load) == *old(load)
                    &&& final(health).peak() == old(health).peak()
                } else if rolled.windows < WINDOWS_PER_REPORT {
                    &&& final(self)@ == rolled
                    &&& final(sleep).slept() == 0
                    &&& *final(load) == *old(load)
                    &&& final(health).peak() == old(health).peak()
                } else {
                    &&& final(self)@ == (MonitorState {
                        window_start: now as int,
                        windows: 0,
                        peak_permille: 0,
                        peak_latency_us: 0,
                    })
                    &&& final(sleep).slept() == 0
                    &&& final(load)@ == Some(rolled.peak_permille as u16)
                    &&& final(health).peak() == rolled.peak_latency_us
                }
            }),
    {
        if latency > TICK_PERIOD {
            health.record_overrun();
        }
        let latency_us: u16 = if latency < u16::MAX as u64 {
            latency as u16
        } else {
            u16::MAX
        };
        if self.peak_latency_us < latency_us {
            self.peak_latency_us = latency_us;
        }
        let elapsed: u64 = now - self.window_start;
        if elapsed < WINDOW {
            return ;
        }
        let slept: u64 = sleep.take() as u64;
        self.window_start = now;
        let busy: u64 = if slept < elapsed {
            elapsed - slept
        } else {
            0
        };
        assert(busy * 1000 / (elapsed as int) <= 1000) by (nonlinear_arith)
            requires
                0 <= busy <= elapsed,
                elapsed > 0,
        ;
        let permille: u16 = (busy * 1000 / elapsed) as u16;
        if self.peak_permille < permille {
            self.peak_permille = permille;
        }
        self.windows = self.windows + 1;
        if self.windows >= WINDOWS_PER_REPORT {
            load.set_permille(self.peak_permille);
            health.set_peak_latency_us(self.peak_latency_us);
            self.peak_permille = 0;
            self.peak_latency_us = 0;
            self.windows = 0;
        }
    }
}

/// The load of a window is between nothing and everything: a CPU that did not sleep is fully
/// loaded, and one that only slept is not loaded at all.
pub proof fn law_load_is_the_time_not_slept(total: int, slept: int)
    requires
        total > 0,
        slept >= 0,
    ensures
        0 <= window_permille(total, slept) <= 1000,
        slept == 0 ==> window_permille(total, slept) == 1000,
        slept >= total ==> window_permille(total, slept) == 0,
{
    let busy = if slept < total {
        total - slept
    } else {
        0
    };
    assert(0 <= busy * 1000 / total <= 1000) by (nonlinear_arith)
        requires
            0 <= busy <= total,
            total > 0,
    ;
    assert(total * 1000 / total == 1000) by (nonlinear_arith)
        requires
            total > 0,
    ;
}

} // verus!

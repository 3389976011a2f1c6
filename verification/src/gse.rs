//! The probe of the ground support equipment: moves valves when an operator says so, and at no
//! other time, except to close a valve at the end of a pulse.

use vstd::prelude::*;

use crate::bus::{law_valve_state_is_its_promille, ValveState};
use crate::inventory::{law_map_has_one_value_per_component, InventoryId, ValveId, ValveMap};
use crate::single::TimeSpan;
use crate::valves::ValveCommand;

pub mod pulses;

verus! {

broadcast use {law_map_has_one_value_per_component, law_valve_state_is_its_promille};

/// When the pulses that are under way end \[us\].
pub struct ManualValves {
    pulse_deadlines: ValveMap<Option<u64>>,
}

/// The end of a pulse that starts now; `None` where it is beyond all time.
pub open spec fn pulse_end(now: u64, span: TimeSpan) -> Option<u64> {
    let end = now + span.total_millis() * 1000;
    if end <= u64::MAX {
        Some(end as u64)
    } else {
        None
    }
}

/// The deadline of a valve after the command.
pub open spec fn deadline_after(cmd: ValveCommand, now: u64) -> Option<u64> {
    match cmd {
        ValveCommand::PulseOpen(span) => pulse_end(now, span),
        _ => None,
    }
}

impl ManualValves {
    /// When the pulse of the valve ends, if one is under way.
    pub closed spec fn deadline(self, valve: ValveId) -> Option<u64> {
        self.pulse_deadlines.at(valve)
    }

    pub fn new() -> (valves: Self)
        ensures
            forall|valve: ValveId| #[trigger] valves.deadline(valve) is None,
    {
        proof {
            ValveId::law_all_is_in_index_order();
        }
        ManualValves { pulse_deadlines: ValveMap::splat(None) }
    }

    /// When the next pulse ends.
    pub fn next_deadline(&self) -> (next: Option<u64>)
        ensures
            match next {
                Some(next) => {
                    &&& exists|valve: ValveId| #[trigger] self.deadline(valve) == Some(next)
                    &&& forall|valve: ValveId|
                        #[trigger] self.deadline(valve) matches Some(other) ==> next <= other
                },
                None => forall|valve: ValveId| #[trigger] self.deadline(valve) is None,
            },
    {
        proof {
            ValveId::law_all_is_in_index_order();
        }
        let mut next: Option<u64> = None;
        let mut i: usize = 0;
        while i < 9
            invariant
                i <= 9,
                forall|j: int| 0 <= j < 9 ==> (#[trigger] ValveId::ALL@[j]).index_of() == j,
                forall|v: ValveId|
                    0 <= #[trigger] v.index_of() < 9 && ValveId::ALL@[v.index_of()] == v,
                match next {
                    Some(next) => exists|v: ValveId| #[trigger] self.deadline(v) == Some(next),
                    None => true,
                },
                forall|v: ValveId|
                    v.index_of() < i ==> (#[trigger] self.deadline(v) matches Some(other) ==> (next
                        matches Some(next) && next <= other)),
            decreases 9 - i,
        {
            let valve = ValveId::ALL[i];
            let deadline = *self.pulse_deadlines.get(valve);
            assert(self.deadline(valve) == deadline);
            next =
            match (deadline, next) {
                (Some(d), Some(n)) => if d < n {
                    Some(d)
                } else {
                    Some(n)
                },
                (Some(d), None) => Some(d),
                (None, n) => n,
            };
            assert forall|v: ValveId| v.index_of() < i + 1 implies (#[trigger] self.deadline(v)
                matches Some(other) ==> (next matches Some(next) && next <= other)) by {
                assert(v.index_of() == i ==> v == valve);
            }
            i += 1;
        }
        assert(forall|v: ValveId| 0 <= #[trigger] v.index_of() < 9);
        next
    }

    /// Carries out a command: returns the state that the valve has to be moved to.
    pub fn command(&mut self, valve: ValveId, cmd: ValveCommand, now: u64) -> (state: ValveState)
        requires
            cmd.wf(),
        ensures
            state@ == cmd.drives_to(),
            is_commanded(*old(self), valve, cmd, now, *final(self)),
    {
        proof {
            ValveId::law_all_is_in_index_order();
        }
        let deadline = match cmd {
            ValveCommand::PulseOpen(span) => end_of_pulse(now, span),
            ValveCommand::Open | ValveCommand::Partial(_) | ValveCommand::Close => None,
        };
        self.pulse_deadlines.set(valve, deadline);
        ValveState::from_command(cmd)
    }

    /// Ends the pulses whose time has come: returns the valves that have to be closed.
    pub fn expire(&mut self, now: u64) -> (closed: Vec<ValveId>)
        ensures
            forall|valve: ValveId| #[trigger]
                final(self).deadline(valve) == if is_over(old(self).deadline(valve), now) {
                    None
                } else {
                    old(self).deadline(valve)
                },
            forall|valve: ValveId| #[trigger]
                closed@.contains(valve) <==> is_over(old(self).deadline(valve), now),
            forall|i: int, j: int|
                0 <= i < j < closed.len() ==> (#[trigger] closed[i]).index_of() < (
                #[trigger] closed[j]).index_of(),
    {
        proof {
            ValveId::law_all_is_in_index_order();
        }
        let mut closed: Vec<ValveId> = Vec::new();
        let mut i: usize = 0;
        while i < 9
            invariant
                i <= 9,
                forall|j: int| 0 <= j < 9 ==> (#[trigger] ValveId::ALL@[j]).index_of() == j,
                forall|v: ValveId|
                    0 <= #[trigger] v.index_of() < 9 && ValveId::ALL@[v.index_of()] == v,
                forall|v: ValveId| #[trigger]
                    self.deadline(v) == if v.index_of() < i && is_over(
                        old(self).deadline(v),
                        now,
                    ) {
                        None
                    } else {
                        old(self).deadline(v)
                    },
                forall|v: ValveId| #[trigger]
                    closed@.contains(v) <==> v.index_of() < i && is_over(
                        old(self).deadline(v),
                        now,
                    ),
                forall|a: int, b: int|
                    0 <= a < b < closed.len() ==> (#[trigger] closed[a]).index_of() < (
                    #[trigger] closed[b]).index_of(),
            decreases 9 - i,
        {
            let valve = ValveId::ALL[i];
            let deadline = *self.pulse_deadlines.get(valve);
            let over = match deadline {
                Some(deadline) => deadline <= now,
                None => false,
            };
            assert(self.deadline(valve) == deadline);
            let ghost before = closed@;
            let ghost was = *self;
            if over {
                self.pulse_deadlines.set(valve, None);
                closed.push(valve);
                proof {
                    assert forall|a: int| 0 <= a < before.len() implies (
                    #[trigger] before[a]).index_of() < i by {
                        assert(before.contains(before[a]));
                    }
                    assert(closed@.contains(valve)) by {
                        assert(closed[before.len() as int] == valve);
                    }
                    assert forall|v: ValveId| before.contains(v) implies #[trigger] closed@.contains(
                        v,
                    ) by {
                        let a = choose|a: int| 0 <= a < before.len() && before[a] == v;
                        assert(closed[a] == v);
                    }
                    assert forall|v: ValveId| #[trigger] closed@.contains(v) implies v == valve
                        || before.contains(v) by {
                        let a = choose|a: int| 0 <= a < closed.len() && closed[a] == v;
                        if a < before.len() {
                            assert(before[a] == v);
                        }
                    }
                }
            }
            assert forall|v: ValveId| #[trigger] self.deadline(v) == if v.index_of() < i + 1
                && is_over(old(self).deadline(v), now) {
                None
            } else {
                old(self).deadline(v)
            } by {
                assert(was.deadline(v) == was.deadline(v));
                assert(v.index_of() == i ==> v == valve);
            }
            assert forall|v: ValveId| #[trigger] closed@.contains(v) <==> v.index_of() < i + 1
                && is_over(old(self).deadline(v), now) by {
                assert(v.index_of() == i ==> v == valve);
                assert(before.contains(v) <==> v.index_of() < i && is_over(
                    old(self).deadline(v),
                    now,
                ));
            }
            i += 1;
        }
        closed
    }
}

/// The command is given to this valve and no other.
pub open spec fn is_commanded(
    before: ManualValves,
    valve: ValveId,
    cmd: ValveCommand,
    now: u64,
    after: ManualValves,
) -> bool {
    forall|other: ValveId| #[trigger]
        after.deadline(other) == if other == valve {
            deadline_after(cmd, now)
        } else {
            before.deadline(other)
        }
}

/// The deadline has come.
pub open spec fn is_over(deadline: Option<u64>, now: u64) -> bool {
    deadline matches Some(deadline) && deadline <= now
}

/// The end of a pulse that starts now.
fn end_of_pulse(now: u64, span: TimeSpan) -> (end: Option<u64>)
    requires
        span.wf(),
    ensures
        end == pulse_end(now, span),
{
    let total: u128 = now as u128 + span.secs as u128 * 1_000_000 + (span.nanos
        / 1_000_000) as u128 * 1000;
    assert(total == now + span.total_millis() * 1000);
    if total <= u64::MAX as u128 {
        Some(total as u64)
    } else {
        None
    }
}

/// A pulse ends: once its time has come, the valve is closed and no longer under way.
pub proof fn law_a_pulse_ends_closed(
    before: ManualValves,
    now: u64,
    after: ManualValves,
    closed: Vec<ValveId>,
    valve: ValveId,
)
    requires
        forall|v: ValveId| #[trigger]
            after.deadline(v) == if is_over(before.deadline(v), now) {
                None
            } else {
                before.deadline(v)
            },
        forall|v: ValveId| #[trigger]
            closed@.contains(v) <==> is_over(before.deadline(v), now),
        before.deadline(valve) matches Some(deadline) && deadline <= now,
    ensures
        closed@.contains(valve),
        after.deadline(valve) is None,
{
}

} // verus!

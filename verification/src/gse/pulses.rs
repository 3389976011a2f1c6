//! When pulses on the ground end.

use vstd::prelude::*;

use crate::bus::ValveState;
use crate::gse::{deadline_after, is_over, ManualValves};
use crate::inventory::ValveId;
use crate::single::TimeSpan;
use crate::valves::ValveCommand;

verus! {

/// A pulse ends after its whole milliseconds, counted in microseconds from now. No other command
/// ends, and one ends a pulse that was under way.
pub proof fn law_when_a_pulse_ends(span: TimeSpan, cmd: ValveCommand, now: u64, later: u64)
    requires
        span.nanos < 1_000_000_000,
    ensures
        ({
            let millis = span.secs * 1000 + span.nanos as int / 1_000_000;
            &&& now + millis * 1000 <= u64::MAX ==> (is_over(
                deadline_after(ValveCommand::PulseOpen(span), now),
                later,
            ) <==> later >= now + millis * 1000)
            &&& now + millis * 1000 > u64::MAX ==> !is_over(
                deadline_after(ValveCommand::PulseOpen(span), now),
                later,
            )
            &&& !(cmd is PulseOpen) ==> !is_over(deadline_after(cmd, now), later)
        }),
{
}

/// A command moves its valve at once, to the state that it says; a pulse is remembered until its
/// end, and any other command ends it. No other valve is touched.
pub proof fn law_a_command_moves_its_valve(
    valves: &mut ManualValves,
    valve: ValveId,
    cmd: ValveCommand,
    now: u64,
    state: ValveState,
    other: ValveId,
)
    requires
        cmd.wf(),
        call_ensures(ManualValves::command, (valves, valve, cmd, now), state),
    ensures
        cmd == ValveCommand::Open || cmd is PulseOpen ==> state@ == 1000,
        cmd == ValveCommand::Close ==> state@ == 0,
        !(cmd is PulseOpen) ==> (*final(valves)).deadline(valve) is None,
        cmd matches ValveCommand::PulseOpen(span) ==> {
            let end = now + (span.secs * 1000 + span.nanos as int / 1_000_000) * 1000;
            &&& end <= u64::MAX ==> (*final(valves)).deadline(valve) == Some(end as u64)
            &&& end > u64::MAX ==> (*final(valves)).deadline(valve) is None
        },
        other != valve ==> (*final(valves)).deadline(other) == (*old(valves)).deadline(other),
{
}

/// The valves whose pulses are over are closed, and no others.
pub proof fn law_which_valves_are_closed(
    valves: &mut ManualValves,
    now: u64,
    closed: Vec<ValveId>,
    valve: ValveId,
)
    requires
        call_ensures(ManualValves::expire, (valves, now), closed),
    ensures
        closed@.contains(valve) <==> ((*old(valves)).deadline(valve) matches Some(end) && end
            <= now),
        closed@.contains(valve) ==> (*final(valves)).deadline(valve) is None,
        !closed@.contains(valve) ==> (*final(valves)).deadline(valve) == (*old(valves)).deadline(valve),
{
}

} // verus!

//! What the modes and the operator make of each valve, valve by valve.

use vstd::arithmetic::power2::lemma_pow2_pos;
use vstd::prelude::*;

use crate::bus::ValveState;
use crate::inventory::{ValveId, ValveMap};
use crate::modes::FlightMode;
use crate::single::value::{
    is_number, law_comparisons_are_by_value, law_constants_have_their_values,
    law_scaled_casts_truncate, magnitude_value, unit, value,
};
use crate::single::{Single, TimeSpan, ONE_BITS, THOUSAND_BITS};
use crate::valves::{
    is_accepted, live, manual_permitted, mode_after, state_by_history, ValveCommand,
    ValveController, ValveError, ValveEvent, ValveSlot,
};

verus! {

/// With no command in force, and but for `Hold`, the mode alone decides. The main valve is open
/// from ignition to the end of the coast. The pressurization valve is open then and while
/// pressurizing. The oxidizer is filled in in its own mode. The vents are open while venting and
/// once the drogue is out. What is outside the vehicle stays shut.
pub proof fn law_each_valve_is_open_in_its_modes(
    slot: ValveSlot,
    mode: FlightMode,
    valve: ValveId,
    now: u32,
)
    requires
        slot.command is None,
        mode != FlightMode::Hold,
    ensures
        ({
            let open = match valve {
                ValveId::Main => mode == FlightMode::Ignite || mode == FlightMode::Burn || mode
                    == FlightMode::Coast,
                ValveId::Pressurization => mode == FlightMode::Pressurize || mode
                    == FlightMode::Ignite || mode == FlightMode::Burn || mode == FlightMode::Coast,
                ValveId::OxidizerFill => mode == FlightMode::FillOxidizer,
                ValveId::PressurantVent | ValveId::OxidizerVent => mode == FlightMode::Vent || mode
                    == FlightMode::DeployDrogue || mode == FlightMode::DeployMain || mode
                    == FlightMode::Landed,
                ValveId::ExternalPressurantFill
                | ValveId::ExternalOxidizerFill
                | ValveId::ExternalPressurantVent
                | ValveId::ExternalOxidizerVent => false,
            };
            slot.output(mode, valve, now) == if open {
                1000int
            } else {
                0
            }
        }),
{
}

/// The same of any history: a valve for which no command is live is open in its modes, whatever
/// else happened.
pub proof fn law_each_valve_follows_the_mode_in_any_history(
    events: Seq<ValveEvent>,
    valve: ValveId,
    now: u32,
)
    requires
        live(events, valve, now) is None,
        mode_after(events) != FlightMode::Hold,
    ensures
        ({
            let mode = mode_after(events);
            let thrust = mode == FlightMode::Ignite || mode == FlightMode::Burn || mode
                == FlightMode::Coast;
            let venting = mode == FlightMode::Vent || mode == FlightMode::DeployDrogue || mode
                == FlightMode::DeployMain || mode == FlightMode::Landed;
            let state = state_by_history(events, valve, now);
            &&& state == 0 || state == 1000
            &&& valve == ValveId::Main ==> (state == 1000 <==> thrust)
            &&& valve == ValveId::Pressurization ==> (state == 1000 <==> thrust || mode
                == FlightMode::Pressurize)
            &&& valve == ValveId::OxidizerFill ==> (state == 1000 <==> mode
                == FlightMode::FillOxidizer)
            &&& valve == ValveId::PressurantVent || valve == ValveId::OxidizerVent ==> (state
                == 1000 <==> venting)
            &&& valve == ValveId::ExternalPressurantFill || valve == ValveId::ExternalOxidizerFill
                || valve == ValveId::ExternalPressurantVent || valve
                == ValveId::ExternalOxidizerVent ==> state == 0
        }),
{
}

/// The operator may command every valve in `Hold`, the vents and the oxidizer fill valve while
/// filling and pressurizing, and none otherwise: never the engine's valves outside `Hold`, and
/// nothing once the vehicle is armed.
pub proof fn law_what_the_operator_may_command(mode: FlightMode, valve: ValveId)
    ensures
        manual_permitted(mode, valve) <==> mode == FlightMode::Hold || ((mode
            == FlightMode::FillPressurant || mode == FlightMode::FillOxidizer || mode
            == FlightMode::Pressurize) && (valve == ValveId::PressurantVent || valve
            == ValveId::OxidizerVent || valve == ValveId::OxidizerFill)),
{
}

/// A pulse may last 30 seconds, a part is one from zero to one, and the rest is always valid.
pub proof fn law_what_a_valid_command_is(cmd: ValveCommand)
    ensures
        match cmd {
            ValveCommand::Open | ValveCommand::Close => cmd.valid(),
            ValveCommand::PulseOpen(span) => cmd.valid() <==> span.secs * 1_000_000_000
                + span.nanos <= 30_000_000_000,
            ValveCommand::Partial(part) => cmd.valid() <==> is_number(part) && 0 <= value(part)
                <= unit(),
        },
{
    if let ValveCommand::Partial(part) = cmd {
        law_comparisons_are_by_value(Single { bits: 0 }, part);
        law_comparisons_are_by_value(part, Single { bits: ONE_BITS });
        law_constants_have_their_values();
        lemma_zero_value();
    }
}

proof fn lemma_zero_value()
    ensures
        value((Single { bits: 0 })) == 0,
        is_number((Single { bits: 0 })),
{
    reveal(magnitude_value);
}

/// A command drives its valve where it says: open, closed, or open by the part that it names, to
/// the thousandth.
pub proof fn law_where_a_command_drives_to(cmd: ValveCommand)
    requires
        cmd.valid(),
    ensures
        match cmd {
            ValveCommand::Open | ValveCommand::PulseOpen(_) => cmd.drives_to() == 1000,
            ValveCommand::Close => cmd.drives_to() == 0,
            ValveCommand::Partial(part) => {
                let to = cmd.drives_to();
                &&& 0 <= to <= 1000
                &&& 10_000 * (to * unit()) <= 10_000_000 * value(part) + unit()
                &&& to < 1000 ==> 10_000_000 * value(part) < 10_000 * ((to + 1) * unit()) + unit()
            },
        },
{
    if let ValveCommand::Partial(part) = cmd {
        law_what_a_valid_command_is(cmd);
        law_constants_have_their_values();
        lemma_zero_value();
        law_comparisons_are_by_value(Single { bits: 0 }, part);
        law_comparisons_are_by_value(part, Single { bits: ONE_BITS });
        lemma_pow2_pos(149);
        let factor = Single { bits: THOUSAND_BITS };
        let (to, v, u) = (cmd.drives_to(), value(part), unit());
        if part.exponent() > 0 {
            law_scaled_casts_truncate(part, factor, 0, 1000);
            assert(part.finite());
            let one = u * u;
            assert(v * (1000 * u) == (1000 * v) * u) by (nonlinear_arith);
            assert(to * one == (to * u) * u) by (nonlinear_arith)
                requires
                    one == u * u,
            ;
            assert((to + 1) * one == ((to + 1) * u) * u) by (nonlinear_arith)
                requires
                    one == u * u,
            ;
            if v > 0 {
                let (a, b) = (to * u, 1000 * v);
                assert(a * 10_000_000 <= b * 10_000_001) by (nonlinear_arith)
                    requires
                        (a * u) * 10_000_000 <= (b * u) * 10_000_001,
                        u > 0,
                ;
                if to < 1000 {
                    let c = (to + 1) * u;
                    assert(c * 10_000_000 > b * 9_999_999) by (nonlinear_arith)
                        requires
                            (c * u) * 10_000_000 > (b * u) * 9_999_999,
                            u > 0,
                    ;
                }
            } else {
                assert(v == 0);
                crate::single::value::law_below_zero_by_the_bits(part);
                assert(part.magnitude() == 0);
            }
        } else {
            assert(to == 0);
            reveal(magnitude_value);
            assert(v < 0x80_0000);
            vstd::arithmetic::power2::lemma2_to64();
            vstd::arithmetic::power2::lemma_pow2_strictly_increases(60, 149);
            vstd::arithmetic::power2::lemma2_to64_rest();
            assert(0 * u == 0 && 1 * u == u) by (nonlinear_arith);
        }
    }
}

/// A command is accepted where it is permitted and valid, and then live at once; and what is live
/// for a valve was accepted for it.
pub proof fn law_an_accepted_command_is_live(
    events: Seq<ValveEvent>,
    valve: ValveId,
    cmd: ValveCommand,
    now: u32,
)
    requires
        is_accepted(events, valve, cmd),
    ensures
        live(events.push(ValveEvent::Attempted { valve, cmd, now }), valve, now) == Some(cmd),
        forall|other: ValveId, later: u32|
            #![trigger live(events.push(ValveEvent::Attempted { valve, cmd, now }), other, later)]
            other != valve ==> live(
                events.push(ValveEvent::Attempted { valve, cmd, now }),
                other,
                later,
            ) == live(events, other, later),
{
    let more = events.push(ValveEvent::Attempted { valve, cmd, now });
    assert(more.drop_last() =~= events);
}

/// A pulse is live for its milliseconds and no longer: after these, what was latched before it is
/// live again. Other commands do not expire.
pub proof fn law_a_pulse_lasts_its_milliseconds(
    events: Seq<ValveEvent>,
    valve: ValveId,
    span: TimeSpan,
    now: u32,
    later: u32,
)
    requires
        is_accepted(events, valve, ValveCommand::PulseOpen(span)),
    ensures
        ({
            let more = events.push(
                ValveEvent::Attempted { valve, cmd: ValveCommand::PulseOpen(span), now },
            );
            let millis = (span.secs * 1_000_000_000 + span.nanos) / 1_000_000;
            live(more, valve, later) == if (later - now) % 0x1_0000_0000 <= millis {
                Some(ValveCommand::PulseOpen(span))
            } else {
                crate::valves::latched(events, valve)
            }
        }),
{
    let more = events.push(
        ValveEvent::Attempted { valve, cmd: ValveCommand::PulseOpen(span), now },
    );
    assert(more.drop_last() =~= events);
}

/// What the resolution of the setpoints gives, with no command in force: each valve is open in its
/// modes, fully, and closed in all others.
pub proof fn law_resolving_opens_each_valve_in_its_modes(
    controller: &mut ValveController,
    now: u32,
    resolved: ValveMap<ValveState>,
    valve: ValveId,
)
    requires
        call_ensures(ValveController::resolve, (controller, now), resolved),
        (*old(controller)).slot(valve).command is None,
        (*old(controller)).mode() != FlightMode::Hold,
    ensures
        ({
            let mode = (*old(controller)).mode();
            resolved.at(valve)@ == match mode {
                FlightMode::Idle | FlightMode::FillPressurant | FlightMode::DetectLaunch => 0int,
                FlightMode::FillOxidizer => if valve == ValveId::OxidizerFill {
                    1000
                } else {
                    0
                },
                FlightMode::Pressurize => if valve == ValveId::Pressurization {
                    1000
                } else {
                    0
                },
                FlightMode::Ignite | FlightMode::Burn | FlightMode::Coast => if valve
                    == ValveId::Main || valve == ValveId::Pressurization {
                    1000
                } else {
                    0
                },
                _ => if valve == ValveId::PressurantVent || valve == ValveId::OxidizerVent {
                    1000
                } else {
                    0
                },
            }
        }),
        (*final(controller)).mode() == (*old(controller)).mode(),
{
    law_each_valve_is_open_in_its_modes(
        (*old(controller)).slot(valve),
        (*old(controller)).mode(),
        valve,
        now,
    );
}

/// The mode's own wish for a valve.
pub proof fn law_what_the_mode_wants_of_a_valve(
    controller: &ValveController,
    valve: ValveId,
    state: Option<ValveState>,
)
    requires
        call_ensures(ValveController::mode_valve_state, (controller, valve), state),
    ensures
        state is None <==> controller.mode() == FlightMode::Hold,
        valve == ValveId::Main && state is Some ==> (state->0@ == 1000 <==> controller.mode()
            == FlightMode::Ignite || controller.mode() == FlightMode::Burn || controller.mode()
            == FlightMode::Coast),
        valve == ValveId::Pressurization && state is Some ==> (state->0@ == 1000
            <==> controller.mode() == FlightMode::Pressurize || controller.mode()
            == FlightMode::Ignite || controller.mode() == FlightMode::Burn || controller.mode()
            == FlightMode::Coast),
        valve == ValveId::OxidizerFill && state is Some ==> (state->0@ == 1000 <==> controller.mode()
            == FlightMode::FillOxidizer),
        (valve == ValveId::PressurantVent || valve == ValveId::OxidizerVent) && state is Some ==> (
        state->0@ == 1000 <==> controller.mode() == FlightMode::Vent || controller.mode()
            == FlightMode::DeployDrogue || controller.mode() == FlightMode::DeployMain
            || controller.mode() == FlightMode::Landed),
        state is Some ==> state->0@ == 1000 || state->0@ == 0,
        state is Some && state->0@ == 1000 ==> valve == ValveId::Main || valve
            == ValveId::Pressurization || valve == ValveId::OxidizerFill || valve
            == ValveId::PressurantVent || valve == ValveId::OxidizerVent,
{
}

/// A command that is not permitted is refused for that, and one that is permitted but not valid for
/// that. A refused command changes nothing; one that is accepted is in force for its valve from now
/// on, and no other valve is touched.
pub proof fn law_what_becomes_of_a_command(
    controller: &mut ValveController,
    valve: ValveId,
    cmd: ValveCommand,
    now: u32,
    result: Result<(), ValveError>,
    other: ValveId,
)
    requires
        call_ensures(ValveController::try_command, (controller, valve, cmd, now), result),
    ensures
        ({
            let mode = (*old(controller)).mode();
            let filling = mode == FlightMode::FillPressurant || mode == FlightMode::FillOxidizer
                || mode == FlightMode::Pressurize;
            let relief = valve == ValveId::PressurantVent || valve == ValveId::OxidizerVent || valve
                == ValveId::OxidizerFill;
            let permitted = mode == FlightMode::Hold || (filling && relief);
            &&& !permitted <==> result == Err::<(), ValveError>(ValveError::NotPermittedInMode)
            &&& permitted && (cmd is Open || cmd is Close) ==> result is Ok
            &&& result is Err && permitted ==> result == Err::<(), ValveError>(
                ValveError::InvalidCommand,
            )
            &&& cmd matches ValveCommand::PulseOpen(span) ==> permitted ==> (result is Ok
                <==> span.secs * 1_000_000_000 + span.nanos <= 30_000_000_000)
            &&& cmd matches ValveCommand::Partial(part) ==> permitted ==> (result is Ok
                <==> is_number(part) && 0 <= value(part) <= unit())
        }),
        result is Ok ==> ((*final(controller)).slot(valve).command matches Some(c) && c.cmd == cmd
            && c.issued_at == now),
        result is Err ==> (*final(controller)).slot(other) == (*old(controller)).slot(other),
        other != valve ==> (*final(controller)).slot(other) == (*old(controller)).slot(other),
        (*final(controller)).mode() == (*old(controller)).mode(),
{
    law_what_the_operator_may_command((*old(controller)).mode(), valve);
    law_what_a_valid_command_is(cmd);
}

/// Entering a mode forgets all commands, but for `Hold`, which keeps them and holds what was last
/// resolved without pulses.
pub proof fn law_what_entering_a_mode_does_to_commands(
    controller: &mut ValveController,
    mode: FlightMode,
    valve: ValveId,
)
    requires
        call_ensures(ValveController::set_mode, (controller, mode), ()),
    ensures
        (*final(controller)).mode() == mode,
        mode != FlightMode::Hold ==> (*final(controller)).slot(valve).command is None,
        mode == FlightMode::Hold ==> {
            &&& (*final(controller)).slot(valve).command == (*old(controller)).slot(valve).command
            &&& (*final(controller)).slot(valve).baseline == (*old(controller)).slot(valve).nonpulse
        },
        (*final(controller)).slot(valve).nonpulse == (*old(controller)).slot(valve).nonpulse,
{
}

/// The state that a command drives its valve to.
pub proof fn law_the_state_of_a_command(cmd: ValveCommand, state: ValveState)
    requires
        call_ensures(ValveState::from_command, (cmd,), state),
        cmd.valid(),
    ensures
        cmd == ValveCommand::Close ==> state@ == 0,
        cmd == ValveCommand::Open || cmd is PulseOpen ==> state@ == 1000,
        cmd matches ValveCommand::Partial(part) ==> {
            &&& 10_000 * (state@ * unit()) <= 10_000_000 * value(part) + unit()
            &&& state@ < 1000 ==> 10_000_000 * value(part) < 10_000 * ((state@ + 1) * unit())
                + unit()
        },
{
    law_where_a_command_drives_to(cmd);
}

} // verus!

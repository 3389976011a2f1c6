//! What a tick, a mode change and a command make of the vehicle, output by output.

use vstd::prelude::*;

use crate::flight_logic::Estimate;
use crate::inventory::{BinaryOutputId, InventoryId, ValveId, ValveTarget};
use crate::links::uplink::{MavResult, UplinkCommand};
use crate::modes::FlightMode;
use crate::param_group::ParamValue;
use crate::params::{applied, unique_ids, FailsafeParams, Params, PropulsionParams};
use crate::valves::ValveCommand;
use crate::vehicle::{commanded, drives, FlightParams, TickOutputs, Vehicle, VehicleState};

verus! {

/// A tick is one millisecond. It enters the mode that the flight logic asks for, if any, and stays
/// in the mode otherwise.
pub proof fn law_a_tick_is_a_millisecond(
    state: VehicleState,
    estimate: Estimate,
    params: FlightParams,
)
    ensures
        ({
            let after = state.ticked(estimate, params);
            let asked = state.logic.transition(
                state.time,
                state.mode,
                estimate,
                params.recovery,
                params.failsafe,
            );
            &&& after.time == (state.time + 1) % 0x1_0000_0000
            &&& after.mode == match asked {
                Some(mode) => mode,
                None => state.mode,
            }
            &&& after.mode != state.mode ==> after.entered_at == state.time
            &&& after.mode == state.mode ==> after.entered_at == state.entered_at
        }),
{
}

/// The igniters are on for the set time from the entry of `Ignite` on, both of them, and off at any
/// other time. A tick does not touch the cameras, but for what entering a mode does.
pub proof fn law_when_the_igniters_are_on(
    state: VehicleState,
    estimate: Estimate,
    params: FlightParams,
)
    requires
        state.binary.len() == 4,
    ensures
        ({
            let after = state.ticked(estimate, params);
            let on = after.mode == FlightMode::Ignite && (state.time - after.entered_at)
                % 0x1_0000_0000 < params.propulsion.igniter_on_time;
            &&& after.binary.len() == 4
            &&& after.binary[0] == on
            &&& after.binary[1] == on
            &&& after.mode == state.mode ==> after.binary[2] == state.binary[2] && after.binary[3]
                == state.binary[3]
        }),
{
}

/// Both cameras are switched on as a mode from `DetectLaunch` on is entered. No mode switches them
/// off, and none switches an igniter.
pub proof fn law_when_the_cameras_come_on(state: VehicleState, mode: FlightMode)
    requires
        state.binary.len() == 4,
        mode != state.mode,
    ensures
        ({
            let after = state.entered(mode);
            let armed = mode == FlightMode::DetectLaunch || mode == FlightMode::Ignite || mode
                == FlightMode::Burn || mode == FlightMode::Coast || mode
                == FlightMode::DeployDrogue || mode == FlightMode::DeployMain || mode
                == FlightMode::Landed;
            &&& after.binary.len() == 4
            &&& after.binary[2] == (state.binary[2] || armed)
            &&& after.binary[3] == (state.binary[3] || armed)
            &&& after.binary[0] == state.binary[0]
            &&& after.binary[1] == state.binary[1]
            &&& after.mode == mode
            &&& after.entered_at == state.time
            &&& after.time == state.time
        }),
{
}

/// Entering the mode that the vehicle is in changes nothing.
pub proof fn law_a_mode_is_entered_once(state: VehicleState, mode: FlightMode)
    ensures
        state.entered(mode).entered(mode) == state.entered(mode),
        state.mode == mode ==> state.entered(mode) == state,
{
}

/// The numbers of the binary outputs: igniters first, then cameras.
pub proof fn law_outputs_by_number(output: BinaryOutputId)
    ensures
        output.index_of() == match output {
            BinaryOutputId::Igniter1 => 0int,
            BinaryOutputId::Igniter2 => 1,
            BinaryOutputId::Camera1 => 2,
            BinaryOutputId::Camera2 => 3,
        },
{
}

/// The recovery system is armed from `DetectLaunch` on. The drogue is fired in its mode, and the
/// main parachute in its own.
pub proof fn law_when_the_parachutes_are_fired(state: VehicleState, outputs: TickOutputs)
    requires
        drives(state, outputs),
    ensures
        outputs.drogue <==> state.mode == FlightMode::DeployDrogue,
        outputs.main <==> state.mode == FlightMode::DeployMain,
        !outputs.recovery_armed <==> (state.mode == FlightMode::Idle || state.mode
            == FlightMode::FillPressurant || state.mode == FlightMode::FillOxidizer || state.mode
            == FlightMode::Vent || state.mode == FlightMode::Pressurize || state.mode
            == FlightMode::Hold),
{
}

/// What a tick puts on the bus for the valves and the outputs is what it worked out, each under its
/// own name.
pub proof fn law_outputs_are_what_was_worked_out(
    state: VehicleState,
    outputs: TickOutputs,
    valve: ValveId,
    output: BinaryOutputId,
)
    requires
        drives(state, outputs),
    ensures
        outputs.bus.valve.at(valve)@ == state.setpoints[match valve {
            ValveId::PressurantVent => 0,
            ValveId::Pressurization => 1,
            ValveId::OxidizerVent => 2,
            ValveId::OxidizerFill => 3,
            ValveId::Main => 4,
            ValveId::ExternalPressurantFill => 5,
            ValveId::ExternalOxidizerFill => 6,
            ValveId::ExternalPressurantVent => 7,
            ValveId::ExternalOxidizerVent => 8,
        }],
        outputs.bus.binary_output.at(output) == state.binary[match output {
            BinaryOutputId::Igniter1 => 0,
            BinaryOutputId::Igniter2 => 1,
            BinaryOutputId::Camera1 => 2,
            BinaryOutputId::Camera2 => 3,
        }],
{
    broadcast use crate::inventory::law_map_has_one_value_per_component;

    ValveId::law_all_is_in_index_order();
    BinaryOutputId::law_all_is_in_index_order();
    assert(0 <= valve.index_of() < 9);
    assert(0 <= output.index_of() < 4);
}

/// With no command in force and but for `Hold`, a tick leaves each valve as the mode wants it: the
/// engine's valves open from ignition to the end of the coast, the pressurization valve while
/// pressurizing too, the oxidizer fill valve while filling, and the vents while venting and under
/// the parachutes.
pub proof fn law_a_tick_sets_the_valves_by_the_mode(
    state: VehicleState,
    estimate: Estimate,
    params: FlightParams,
    valve: ValveId,
)
    requires
        state.ticked(estimate, params).mode != FlightMode::Hold,
        state.transitioned(estimate, params).valves[valve.index_of()].command is None,
    ensures
        ({
            let after = state.ticked(estimate, params);
            let open = match after.mode {
                FlightMode::Idle | FlightMode::FillPressurant | FlightMode::DetectLaunch => false,
                FlightMode::FillOxidizer => valve == ValveId::OxidizerFill,
                FlightMode::Pressurize => valve == ValveId::Pressurization,
                FlightMode::Ignite | FlightMode::Burn | FlightMode::Coast => valve == ValveId::Main
                    || valve == ValveId::Pressurization,
                _ => valve == ValveId::PressurantVent || valve == ValveId::OxidizerVent,
            };
            after.setpoints[valve.index_of()] == if open {
                1000int
            } else {
                0
            }
        }),
{
    ValveId::law_all_is_in_index_order();
    assert(ValveId::ALL@[valve.index_of()] == valve);
    assert(0 <= valve.index_of() < 9);
}

/// A change of mode forgets the commands of the operator, except that `Hold` keeps them.
pub proof fn law_a_mode_change_forgets_commands(
    state: VehicleState,
    mode: FlightMode,
    valve: ValveId,
)
    requires
        state.mode != mode,
    ensures
        ({
            let slot = state.entered(mode).valves[valve.index_of()];
            let before = state.valves[valve.index_of()];
            &&& mode != FlightMode::Hold ==> slot.command is None && slot.baseline
                == before.baseline
            &&& mode == FlightMode::Hold ==> slot.command == before.command && slot.baseline
                == before.nonpulse
            &&& slot.nonpulse == before.nonpulse
        }),
{
    ValveId::law_all_is_in_index_order();
    assert(0 <= valve.index_of() < 9);
}

/// A command that was accepted is for its own valve, from now on. All other valves are as before,
/// and so is everything else.
pub proof fn law_a_command_is_for_its_valve(
    state: VehicleState,
    valve: ValveId,
    cmd: ValveCommand,
    other: ValveId,
)
    requires
        state.valves.len() == 9,
    ensures
        ({
            let after = commanded(state, valve, cmd);
            let slot = after.valves[valve.index_of()];
            &&& slot.command matches Some(c) && c.cmd == cmd && c.issued_at == state.time
            &&& other != valve ==> after.valves[other.index_of()]
                == state.valves[other.index_of()]
            &&& after.mode == state.mode && after.time == state.time && after.binary
                == state.binary && after.logic == state.logic && after.setpoints
                == state.setpoints
        }),
{
    ValveId::law_all_is_in_index_order();
    assert(ValveId::ALL@[valve.index_of()] == valve);
    assert(ValveId::ALL@[other.index_of()] == other);
}

/// What a tick drives: the valves as the mode wants them where no command is in force, the igniters
/// for their time, the parachutes in their modes, and time goes on by one.
pub proof fn law_what_a_tick_drives(
    vehicle: &mut Vehicle,
    estimate: &Estimate,
    outputs: TickOutputs,
    valve: ValveId,
)
    requires
        (*old(vehicle)).wf(),
        call_ensures(Vehicle::tick, (vehicle, estimate), outputs),
    ensures
        ({
            let (before, after) = ((*old(vehicle))@, (*final(vehicle))@);
            let params = (*old(vehicle)).flight_params();
            let on = after.mode == FlightMode::Ignite && (before.time - after.entered_at)
                % 0x1_0000_0000 < params.propulsion.igniter_on_time;
            &&& after.time == (before.time + 1) % 0x1_0000_0000
            &&& outputs.drogue <==> after.mode == FlightMode::DeployDrogue
            &&& outputs.main <==> after.mode == FlightMode::DeployMain
            &&& before.binary.len() == 4 ==> {
                &&& outputs.bus.binary_output.at(BinaryOutputId::Igniter1) == on
                &&& outputs.bus.binary_output.at(BinaryOutputId::Igniter2) == on
            }
            &&& after.mode != FlightMode::Hold && before.transitioned(
                *estimate,
                params,
            ).valves[valve.index_of()].command is None ==> {
                let thrust = after.mode == FlightMode::Ignite || after.mode == FlightMode::Burn
                    || after.mode == FlightMode::Coast;
                &&& valve == ValveId::Main ==> (outputs.bus.valve.at(valve)@ == 1000 <==> thrust)
                &&& valve == ValveId::Pressurization ==> (outputs.bus.valve.at(valve)@ == 1000
                    <==> thrust || after.mode == FlightMode::Pressurize)
                &&& outputs.bus.valve.at(valve)@ == 1000 || outputs.bus.valve.at(valve)@ == 0
            }
        }),
{
    let (before, after) = ((*old(vehicle))@, (*final(vehicle))@);
    let params = (*old(vehicle)).flight_params();
    law_when_the_parachutes_are_fired(after, outputs);
    if before.binary.len() == 4 {
        law_when_the_igniters_are_on(before, *estimate, params);
    }
    law_outputs_are_what_was_worked_out(after, outputs, valve, BinaryOutputId::Igniter1);
    law_outputs_are_what_was_worked_out(after, outputs, valve, BinaryOutputId::Igniter2);
    if after.mode != FlightMode::Hold && before.transitioned(
        *estimate,
        params,
    ).valves[valve.index_of()].command is None {
        law_a_tick_sets_the_valves_by_the_mode(before, *estimate, params, valve);
    }
}

/// A new vehicle is idle at time zero, with everything closed and off and no command in force.
pub proof fn law_how_a_vehicle_starts(
    params: Params,
    propulsion: PropulsionParams,
    failsafe: FailsafeParams,
    vehicle: Vehicle,
    i: int,
)
    requires
        params.wf(),
        unique_ids(params.all()),
        call_ensures(Vehicle::new_with_params, (params, propulsion, failsafe), vehicle),
        0 <= i < 9,
    ensures
        vehicle@.mode == FlightMode::Idle,
        vehicle@.time == 0,
        vehicle@.valves[i].command is None,
        vehicle@.setpoints[i] == 0,
        vehicle@.binary == seq![false, false, false, false],
        vehicle.flight_params().propulsion == propulsion,
        vehicle.flight_params().failsafe == failsafe,
        vehicle.all_params() == params.all(),
{
}

/// What becomes of a command from the ground: a mode is entered, a valve is commanded where that is
/// permitted and valid, and a parameter is set and then stored. The rest is not for the vehicle.
pub proof fn law_what_becomes_of_a_command_from_the_ground(
    vehicle: &mut Vehicle,
    command: UplinkCommand,
    done: (MavResult, Option<(u16, ParamValue)>),
)
    requires
        (*old(vehicle)).wf(),
        call_ensures(Vehicle::execute, (vehicle, command), done),
    ensures
        match command {
            UplinkCommand::SetFlightMode(mode) => {
                &&& (*final(vehicle))@.mode == mode
                &&& done.0 == MavResult::Accepted
                &&& done.1 is None
            },
            UplinkCommand::CommandValve(ValveTarget::Listed(valve), cmd) => {
                let mode = (*old(vehicle))@.mode;
                let filling = mode == FlightMode::FillPressurant || mode
                    == FlightMode::FillOxidizer || mode == FlightMode::Pressurize;
                let relief = valve == ValveId::PressurantVent || valve == ValveId::OxidizerVent
                    || valve == ValveId::OxidizerFill;
                let ok = (mode == FlightMode::Hold || (filling && relief)) && cmd.valid();
                &&& done.0 == MavResult::Accepted <==> ok
                &&& done.0 == MavResult::Denied <==> !ok
                &&& ok ==> (*final(vehicle))@ == commanded((*old(vehicle))@, valve, cmd)
                &&& !ok ==> (*final(vehicle))@ == (*old(vehicle))@
                &&& done.1 is None
            },
            UplinkCommand::CommandValve(ValveTarget::Extra(_), _) => done.0 == MavResult::Denied
                && (*final(vehicle))@ == (*old(vehicle))@ && done.1 is None,
            UplinkCommand::SetParam { id, raw } => {
                &&& done.0 == MavResult::Accepted
                &&& (*final(vehicle))@ == (*old(vehicle))@
                &&& (*final(vehicle)).all_params() == applied(
                    (*old(vehicle)).all_params(),
                    id,
                    raw,
                )
                &&& done.1 matches Some((stored, _)) ==> stored == id
            },
            _ => done.0 == MavResult::Unsupported && (*final(vehicle))@ == (*old(vehicle))@
                && done.1 is None,
        },
{
}

/// What else is told to the vehicle: the ground was heard just now, and the mode it enters.
pub proof fn law_hearing_the_ground_and_entering_modes(
    heard: &mut Vehicle,
    vehicle: &mut Vehicle,
    mode: FlightMode,
)
    requires
        (*old(vehicle)).wf(),
        call_ensures(Vehicle::note_uplink, (heard,), ()),
        call_ensures(Vehicle::set_mode, (vehicle, mode), ()),
    ensures
        (*final(heard))@.logic.last_uplink == (*old(heard))@.time,
        (*final(heard))@.mode == (*old(heard))@.mode,
        (*final(vehicle))@.mode == mode,
        (*old(vehicle))@.mode != mode ==> (*final(vehicle))@.entered_at == (*old(vehicle))@.time
            && (*final(vehicle))@.logic.condition_true_since is None,
        (*old(vehicle))@.mode == mode ==> (*final(vehicle))@ == (*old(vehicle))@,
        mode == FlightMode::Burn && (*old(vehicle))@.mode != FlightMode::Burn ==> (*final(vehicle))@.logic.takeoff_time == (*old(vehicle))@.time,
{
}

} // verus!

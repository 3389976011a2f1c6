//! The vehicle: flight mode, valves, igniters, cameras and recovery system, tick by tick.

use vstd::prelude::*;

use crate::bus::{law_valve_state_is_its_promille, BusOutputImage, FcTemperature};
use crate::flight_logic::{Estimate, FlightLogic, LogicState};
use crate::inventory::{
    law_map_has_one_value_per_component, BinaryOutputId, InventoryId, ValveId, ValveTarget,
};
use crate::links::uplink::{MavResult, UplinkCommand};
use crate::modes::FlightMode;
use crate::param_group::{index_by_id, lemma_index_by_id, Param, ParamValue};
use crate::params::{
    applied, unique_ids, FailsafeParams, Params, PropulsionParams, RecoveryParams, RECOVERY_COUNT,
};
use crate::valves::{manual_permitted, ValveCommand, ValveController, ValveError, ValveSlot};

pub mod ticks;

verus! {

broadcast use {law_map_has_one_value_per_component, law_valve_state_is_its_promille};

/// What the vehicle is doing.
#[verifier::ext_equal]
pub struct VehicleState {
    /// Vehicle time \[ms\], which wraps around.
    pub time: u32,
    pub mode: FlightMode,
    /// Vehicle time at which the current mode was entered.
    pub entered_at: u32,
    pub logic: LogicState,
    /// What is known of each valve.
    pub valves: Seq<ValveSlot>,
    /// Whether each binary output is on.
    pub binary: Seq<bool>,
    /// How far open each valve should be, in thousandths.
    pub setpoints: Seq<int>,
}

/// The parameters that govern the vehicle.
pub struct FlightParams {
    pub recovery: RecoveryParams,
    pub propulsion: PropulsionParams,
    pub failsafe: FailsafeParams,
}

impl VehicleState {
    /// The state after the mode was entered. Nothing changes where the vehicle is in it already.
    pub open spec fn entered(self, mode: FlightMode) -> VehicleState {
        if mode == self.mode {
            self
        } else {
            VehicleState {
                mode,
                entered_at: self.time,
                logic: self.logic.entered(self.time, mode),
                valves: Seq::new(9, |i: int| self.valves[i].entered(mode)),
                // Cameras are turned on automatically, but never back off.
                binary: if mode.is_ground() {
                    self.binary
                } else {
                    self.binary.update(BinaryOutputId::Camera1.index_of(), true).update(
                        BinaryOutputId::Camera2.index_of(),
                        true,
                    )
                },
                ..self
            }
        }
    }

    /// The state after the automatic transition of a tick, if there is one.
    pub open spec fn transitioned(self, estimate: Estimate, params: FlightParams) -> VehicleState {
        let updated = VehicleState {
            logic: self.logic.after_update(self.time, self.mode, estimate, params.recovery),
            ..self
        };
        match self.logic.transition(
            self.time,
            self.mode,
            estimate,
            params.recovery,
            params.failsafe,
        ) {
            Some(mode) => updated.entered(mode),
            None => updated,
        }
    }

    /// The igniters are energized: for the first milliseconds of ignition.
    pub open spec fn igniting(self, params: FlightParams) -> bool {
        &&& self.mode is Ignite
        &&& self.time.wrapping_sub(self.entered_at) < params.propulsion.igniter_on_time
    }

    /// The state after a tick.
    pub open spec fn ticked(self, estimate: Estimate, params: FlightParams) -> VehicleState {
        let now = self.transitioned(estimate, params);
        let igniting = now.igniting(params);
        VehicleState {
            time: now.time.wrapping_add(1),
            valves: Seq::new(
                9,
                |i: int| now.valves[i].resolved(now.mode, ValveId::ALL@[i], now.time),
            ),
            binary: now.binary.update(BinaryOutputId::Igniter1.index_of(), igniting).update(
                BinaryOutputId::Igniter2.index_of(),
                igniting,
            ),
            setpoints: Seq::new(
                9,
                |i: int| now.valves[i].output(now.mode, ValveId::ALL@[i], now.time),
            ),
            ..now
        }
    }
}

/// What is to be driven after a tick.
pub struct TickOutputs {
    pub recovery_armed: bool,
    pub drogue: bool,
    pub main: bool,
    pub bus: BusOutputImage,
}

/// The recovery outputs follow the mode, the bus outputs the state.
pub open spec fn drives(state: VehicleState, outputs: TickOutputs) -> bool {
    &&& outputs.recovery_armed == !state.mode.is_ground()
    &&& outputs.drogue == (state.mode is DeployDrogue)
    &&& outputs.main == (state.mode is DeployMain)
    &&& outputs.bus.binary_output@ == state.binary
    &&& forall|i: int| 0 <= i < 9 ==> (#[trigger] outputs.bus.valve@[i])@ == state.setpoints[i]
}

/// The vehicle.
pub struct Vehicle {
    time: u32,
    mode: FlightMode,
    mode_entered_at: u32,
    flight_logic: FlightLogic,
    params: Params,
    propulsion_params: PropulsionParams,
    failsafe_params: FailsafeParams,
    bus_outputs: BusOutputImage,
    valves: ValveController,
}

impl View for Vehicle {
    type V = VehicleState;

    closed spec fn view(&self) -> VehicleState {
        VehicleState {
            time: self.time,
            mode: self.mode,
            entered_at: self.mode_entered_at,
            logic: self.flight_logic@,
            valves: Seq::new(9, |i: int| self.valves.slot(ValveId::ALL@[i])),
            binary: self.bus_outputs.binary_output@,
            setpoints: Seq::new(9, |i: int| self.bus_outputs.valve@[i]@ as int),
        }
    }
}

impl Vehicle {
    /// The valve controller is in the mode of the vehicle, and the parameters are in order.
    pub closed spec fn wf(self) -> bool {
        &&& self.valves.mode() == self.mode
        &&& self.params.wf()
        &&& unique_ids(self.params.all())
    }

    /// All parameters with their values.
    pub closed spec fn all_params(self) -> Seq<Param> {
        self.params.all()
    }

    /// The parameters that govern the vehicle.
    pub closed spec fn flight_params(self) -> FlightParams {
        FlightParams {
            recovery: self.params.recovery_part(),
            propulsion: self.propulsion_params,
            failsafe: self.failsafe_params,
        }
    }

    /// The flight computer's own temperatures, as they are reported on the bus.
    pub closed spec fn temperature(self) -> FcTemperature {
        self.bus_outputs.temperature
    }

    pub fn new_with_params(
        params: Params,
        propulsion_params: PropulsionParams,
        failsafe_params: FailsafeParams,
    ) -> (vehicle: Self)
        requires
            params.wf(),
            unique_ids(params.all()),
        ensures
            vehicle.wf(),
            vehicle.all_params() == params.all(),
            vehicle.flight_params() == (FlightParams {
                recovery: params.recovery_part(),
                propulsion: propulsion_params,
                failsafe: failsafe_params,
            }),
            vehicle.temperature() == (FcTemperature { baro_milli_c: None, mcu_milli_c: None }),
            vehicle@ == (VehicleState {
                time: 0,
                mode: FlightMode::Idle,
                entered_at: 0,
                logic: LogicState {
                    condition_true_since: None,
                    mode_time: 0,
                    takeoff_time: 0,
                    last_uplink: 0,
                },
                valves: Seq::new(
                    9,
                    |i: int| ValveSlot { command: None, nonpulse: 0, baseline: 0 },
                ),
                binary: seq![false, false, false, false],
                setpoints: Seq::new(9, |i: int| 0int),
            }),
    {
        let vehicle = Vehicle {
            time: 0,
            mode: FlightMode::Idle,
            mode_entered_at: 0,
            flight_logic: FlightLogic::default(),
            params,
            propulsion_params,
            failsafe_params,
            bus_outputs: BusOutputImage::default(),
            valves: ValveController::new(),
        };
        assert(vehicle@.valves =~= Seq::new(
            9,
            |i: int| ValveSlot { command: None, nonpulse: 0, baseline: 0 },
        ));
        assert(vehicle@.binary =~= seq![false, false, false, false]);
        assert(vehicle@.setpoints =~= Seq::new(9, |i: int| 0int));
        vehicle
    }

    pub fn time(&self) -> (time: u32)
        ensures
            time == self@.time,
    {
        self.time
    }

    pub fn mode(&self) -> (mode: FlightMode)
        ensures
            mode == self@.mode,
    {
        self.mode
    }

    pub fn params(&self) -> (params: &Params)
        ensures
            params.all() == self.all_params(),
            params.recovery_part() == self.flight_params().recovery,
    {
        &self.params
    }

    /// The temperatures of the flight computer, to be reported on the bus from now on.
    pub fn set_temperature(&mut self, temperature: FcTemperature)
        ensures
            final(self).temperature() == temperature,
            final(self)@ == old(self)@,
            final(self).wf() == old(self).wf(),
            final(self).all_params() == old(self).all_params(),
            final(self).flight_params() == old(self).flight_params(),
    {
        self.bus_outputs.temperature = temperature;
    }

    /// Must be called whenever ground station traffic is received on any link.
    pub fn note_uplink(&mut self)
        ensures
            final(self)@ == (VehicleState {
                logic: LogicState { last_uplink: old(self)@.time, ..old(self)@.logic },
                ..old(self)@
            }),
            final(self).wf() == old(self).wf(),
            final(self).all_params() == old(self).all_params(),
            final(self).flight_params() == old(self).flight_params(),
    {
        let time: u32 = self.time;
        self.flight_logic.note_uplink(time);
        assert(self@.valves =~= old(self)@.valves);
        assert(self@.setpoints =~= old(self)@.setpoints);
    }

    /// Enters the mode, unless the vehicle is in it already.
    pub fn set_mode(&mut self, mode: FlightMode)
        requires
            old(self).wf(),
        ensures
            final(self).wf(),
            final(self)@ == old(self)@.entered(mode),
            final(self).all_params() == old(self).all_params(),
            final(self).flight_params() == old(self).flight_params(),
            final(self).temperature() == old(self).temperature(),
    {
        if mode == self.mode {
            return;
        }
        let time: u32 = self.time;
        self.mode = mode;
        self.mode_entered_at = time;

        self.flight_logic.set_mode(time, mode);
        self.valves.set_mode(mode);

        if !mode.is_before(FlightMode::DetectLaunch) {
            self.bus_outputs.binary_output.set(BinaryOutputId::Camera1, true);
            self.bus_outputs.binary_output.set(BinaryOutputId::Camera2, true);
        }
        assert(self@.valves =~= old(self)@.entered(mode).valves);
        assert(self@.setpoints =~= old(self)@.setpoints);
    }

    /// One tick: evaluates the flight logic on this tick's estimate and determines all outputs.
    pub fn tick(&mut self, estimate: &Estimate) -> (outputs: TickOutputs)
        requires
            old(self).wf(),
        ensures
            final(self).wf(),
            final(self)@ == old(self)@.ticked(*estimate, old(self).flight_params()),
            drives(final(self)@, outputs),
            outputs.bus.temperature == old(self).temperature(),
            final(self).all_params() == old(self).all_params(),
            final(self).flight_params() == old(self).flight_params(),
            final(self).temperature() == old(self).temperature(),
    {
        let ghost before = self@;
        let ghost params = self.flight_params();
        let recovery = self.params.recovery();
        // Check if we need to auto-transition to a new flight mode based on the new state.
        let new_mode = self.flight_logic.update(
            self.time,
            self.mode,
            estimate,
            &recovery,
            &self.failsafe_params,
        );
        assert(self@.valves =~= before.valves);
        assert(self@.setpoints =~= before.setpoints);
        if let Some(new_mode) = new_mode {
            self.set_mode(new_mode);
        }
        let ghost now = self@;
        assert(now == before.transitioned(*estimate, params));

        // The igniters are energized for the first milliseconds of ignition.
        let igniting = self.mode == FlightMode::Ignite && self.time.wrapping_sub(
            self.mode_entered_at,
        ) < self.propulsion_params.igniter_on_time;
        self.bus_outputs.binary_output.set(BinaryOutputId::Igniter1, igniting);
        self.bus_outputs.binary_output.set(BinaryOutputId::Igniter2, igniting);

        // Determine the intended state of all valves.
        let time: u32 = self.time;
        self.bus_outputs.valve = self.valves.resolve(time);
        self.time = time.wrapping_add(1);
        proof {
            ValveId::law_all_is_in_index_order();
            let after = before.ticked(*estimate, params);
            assert forall|i: int|
                #![trigger self@.valves[i]]
                #![trigger self@.setpoints[i]]
                0 <= i < 9 implies self@.valves[i] == after.valves[i] && self@.setpoints[i]
                == after.setpoints[i] by {
                let valve = ValveId::ALL@[i];
                assert(valve.index_of() == i);
                assert(self.bus_outputs.valve.at(valve) == self.bus_outputs.valve@[i]);
            }
            assert(self@.valves =~= after.valves);
            assert(self@.setpoints =~= after.setpoints);
            assert(self@.binary =~= after.binary);
        }
        // The recovery outputs follow the flight mode.
        TickOutputs {
            recovery_armed: !self.mode.is_before(FlightMode::DetectLaunch),
            drogue: self.mode == FlightMode::DeployDrogue,
            main: self.mode == FlightMode::DeployMain,
            bus: self.bus_outputs,
        }
    }

    /// Accept or reject a manual valve command.
    pub fn try_command_valve(&mut self, valve: ValveId, cmd: ValveCommand) -> (result: Result<
        (),
        ValveError,
    >)
        requires
            old(self).wf(),
            cmd.wf(),
        ensures
            final(self).wf(),
            result == (if !manual_permitted(old(self)@.mode, valve) {
                Err(ValveError::NotPermittedInMode)
            } else if !cmd.valid() {
                Err(ValveError::InvalidCommand)
            } else {
                Ok(())
            }),
            final(self)@ == (if result is Ok {
                commanded(old(self)@, valve, cmd)
            } else {
                old(self)@
            }),
            final(self).all_params() == old(self).all_params(),
            final(self).flight_params() == old(self).flight_params(),
            final(self).temperature() == old(self).temperature(),
    {
        let time: u32 = self.time;
        let result = self.valves.try_command(valve, cmd, time);
        proof {
            ValveId::law_all_is_in_index_order();
            let i = valve.index_of();
            assert forall|j: int| 0 <= j < 9 && j != i implies ValveId::ALL@[j] != valve by {
                assert(ValveId::ALL@[j].index_of() == j);
            }
            assert(self@.setpoints =~= old(self)@.setpoints);
            if result is Ok {
                assert(self@.valves =~= commanded(old(self)@, valve, cmd).valves);
            } else {
                assert(self@.valves =~= old(self)@.valves);
            }
        }
        result
    }

    /// Sets the parameter with the id to the value that is encoded as `raw`, and returns what has
    /// to be stored. Unknown ids are ignored.
    pub fn set_param(&mut self, id: u16, raw: u32) -> (stored: Option<(u16, ParamValue)>)
        requires
            old(self).wf(),
        ensures
            final(self).wf(),
            final(self)@ == old(self)@,
            final(self).temperature() == old(self).temperature(),
            final(self).all_params() == applied(old(self).all_params(), id, raw),
            final(self).flight_params().propulsion == old(self).flight_params().propulsion,
            final(self).flight_params().failsafe == old(self).flight_params().failsafe,
            ({
                let all = old(self).all_params();
                let i = index_by_id(all, id);
                stored == if i < all.len() {
                    Some((id, all[i].ty.value_of(raw)))
                } else {
                    None
                }
            }),
    {
        proof {
            lemma_index_by_id(self.params.all(), id);
        }
        let descriptor = match self.params.by_id(id) {
            Some(descriptor) => descriptor,
            None => return None,
        };
        let value = descriptor.ty.decode_raw(raw);
        let ghost before = self.params.all();
        proof {
            lemma_ids_stay_unique(before, id, raw);
        }
        self.params.apply_raw(id, raw);
        assert(self@.valves =~= old(self)@.valves);
        assert(self@.setpoints =~= old(self)@.setpoints);
        Some((id, value))
    }

    /// Carries out a command from the ground, and says how to answer it. Also returns what has to
    /// be stored.
    pub fn execute(&mut self, command: UplinkCommand) -> (done: (
        MavResult,
        Option<(u16, ParamValue)>,
    ))
        requires
            old(self).wf(),
            command matches UplinkCommand::CommandValve(_, cmd) ==> cmd.wf(),
            // The vehicle has no place for what a command to an extra valve would set.
            command matches UplinkCommand::CommandValve(ValveTarget::Extra(_), cmd) ==> !(
            old(self)@.mode is Hold && cmd.valid()),
        ensures
            final(self).wf(),
            final(self).temperature() == old(self).temperature(),
            !(command is SetParam) ==> {
                &&& done.1 is None
                &&& final(self).all_params() == old(self).all_params()
                &&& final(self).flight_params() == old(self).flight_params()
            },
            match command {
                UplinkCommand::SetFlightMode(mode) => {
                    &&& done.0 is Accepted
                    &&& final(self)@ == old(self)@.entered(mode)
                },
                UplinkCommand::CommandValve(ValveTarget::Extra(_), _) => {
                    &&& done.0 is Denied
                    &&& final(self)@ == old(self)@
                },
                UplinkCommand::CommandValve(ValveTarget::Listed(valve), cmd) => {
                    let ok = manual_permitted(old(self)@.mode, valve) && cmd.valid();
                    &&& done.0 == (if ok {
                        MavResult::Accepted
                    } else {
                        MavResult::Denied
                    })
                    &&& final(self)@ == if ok {
                        commanded(old(self)@, valve, cmd)
                    } else {
                        old(self)@
                    }
                },
                UplinkCommand::SetParam { id, raw } => {
                    let all = old(self).all_params();
                    let i = index_by_id(all, id);
                    &&& done.0 is Accepted
                    &&& done.1 == if i < all.len() {
                        Some((id, all[i].ty.value_of(raw)))
                    } else {
                        None
                    }
                    &&& final(self)@ == old(self)@
                    &&& final(self).all_params() == applied(all, id, raw)
                },
                _ => done.0 is Unsupported && final(self)@ == old(self)@,
            },
    {
        match command {
            UplinkCommand::SetFlightMode(mode) => {
                self.set_mode(mode);
                (MavResult::Accepted, None)
            },
            UplinkCommand::CommandValve(ValveTarget::Listed(valve), cmd) => {
                match self.try_command_valve(valve, cmd) {
                    Ok(()) => (MavResult::Accepted, None),
                    Err(_) => (MavResult::Denied, None),
                }
            },
            UplinkCommand::CommandValve(ValveTarget::Extra(_), _) => (MavResult::Denied, None),
            UplinkCommand::SetParam { id, raw } => (MavResult::Accepted, self.set_param(id, raw)),
            UplinkCommand::RequestAvailableModes(_)
            | UplinkCommand::RequestCanForwarding
            | UplinkCommand::RequestParams { .. }
            | UplinkCommand::PlayTune(_) => (MavResult::Unsupported, None),
        }
    }
}

/// The state after a manual valve command was accepted.
pub open spec fn commanded(state: VehicleState, valve: ValveId, cmd: ValveCommand) -> VehicleState {
    VehicleState {
        valves: state.valves.update(
            valve.index_of(),
            state.valves[valve.index_of()].commanded(cmd, state.time),
        ),
        ..state
    }
}

proof fn lemma_ids_stay_unique(params: Seq<Param>, id: u16, raw: u32)
    requires
        unique_ids(params),
    ensures
        unique_ids(applied(params, id, raw)),
        applied(params, id, raw).len() == params.len(),
{
    lemma_index_by_id(params, id);
    let after = applied(params, id, raw);
    assert forall|i: int, j: int| 0 <= i < j < after.len() implies (#[trigger] after[i]).id != (
    #[trigger] after[j]).id by {
        assert(params[i].id != params[j].id);
    }
}

/// The recovery parameters that govern the flight are those among all parameters, so that one that
/// was set is what the next tick goes by.
pub proof fn law_the_flight_goes_by_the_parameters(vehicle: Vehicle)
    ensures
        ({
            let all = vehicle.all_params();
            &&& all.len() >= RECOVERY_COUNT
            &&& all.skip(all.len() - RECOVERY_COUNT) == vehicle.flight_params().recovery.params()
        }),
{
    let all = vehicle.all_params();
    assert(all.skip(all.len() - RECOVERY_COUNT) =~= vehicle.flight_params().recovery.params());
}

/// The igniters are only ever on in `Ignite`, and only for the time that is set.
pub proof fn law_igniters_only_while_igniting(
    state: VehicleState,
    estimate: Estimate,
    params: FlightParams,
)
    requires
        state.binary.len() == 4,
    ensures
        ({
            let after = state.ticked(estimate, params);
            after.binary[0] || after.binary[1] ==> after.mode is Ignite && state.time.wrapping_sub(
                after.entered_at,
            ) < params.propulsion.igniter_on_time
        }),
{
}

/// A camera that is on stays on, through ticks and mode changes.
pub proof fn law_cameras_stay_on(
    state: VehicleState,
    mode: FlightMode,
    estimate: Estimate,
    params: FlightParams,
    camera: int,
)
    requires
        state.binary.len() == 4,
        camera == BinaryOutputId::Camera1.index_of() || camera == BinaryOutputId::Camera2.index_of(),
        state.binary[camera],
    ensures
        state.entered(mode).binary[camera],
        state.ticked(estimate, params).binary[camera],
{
}

/// Both cameras run from the moment the vehicle is armed.
pub proof fn law_cameras_run_once_armed(state: VehicleState, mode: FlightMode)
    requires
        state.binary.len() == 4,
        state.mode != mode,
        !mode.is_ground(),
    ensures
        state.entered(mode).binary[BinaryOutputId::Camera1.index_of()],
        state.entered(mode).binary[BinaryOutputId::Camera2.index_of()],
{
}

/// The parachutes are only driven with the recovery system armed, and never both at once.
pub proof fn law_parachutes_need_an_armed_recovery_system(
    state: VehicleState,
    outputs: TickOutputs,
)
    requires
        drives(state, outputs),
    ensures
        outputs.drogue ==> outputs.recovery_armed,
        outputs.main ==> outputs.recovery_armed,
        !(outputs.drogue && outputs.main),
{
}

/// With no command in force, the valves follow the mode: a tick in `Ignite` opens the main and
/// pressurization valves and no other.
pub proof fn law_ignition_opens_the_engine_valves(
    state: VehicleState,
    estimate: Estimate,
    params: FlightParams,
    valve: ValveId,
)
    requires
        state.ticked(estimate, params).mode is Ignite,
        state.transitioned(estimate, params).valves[valve.index_of()].command is None,
    ensures
        state.ticked(estimate, params).setpoints[valve.index_of()] == (if valve is Main
            || valve is Pressurization {
            1000int
        } else {
            0int
        }),
{
    ValveId::law_all_is_in_index_order();
    assert(ValveId::ALL@[valve.index_of()] == valve);
    assert(0 <= valve.index_of() < 9);
}

} // verus!

//! Reconciles the current flight mode and the valve states it implies with any operator commands,
//! and determines the flight computer's final word on what each valve should be doing.
//!
//! # Assumptions
//!
//! - The safe default for all valves on initialization is closed.
//! - Safety functions such as emergency venting are the responsibility of the actuator that
//!   controls the valve. In such a case, the commands emitted here may be ignored.
//!
//! # Valve priorities
//!
//! The commanded state of each valve is decided as follows (highest wins):
//!
//! 1. manual command (only if allowed for mode and valve)
//! 2. mode-based state
//! 3. `Hold` baseline (the setpoints frozen at the moment `Hold` was entered)
//!
//! # Manual valve commands
//!
//! - Open: open a valve and keep it opened
//! - Close: close a valve and keep it closed
//! - Partial: drive a valve to a specific setpoint and keep it there
//! - PulseOpen: pulse the valve open for a certain time, then return to the previous state
//!
//! Manual commands are reset upon flight mode changes, except for changes into `Hold`.

use vstd::prelude::*;

use crate::bus::{law_valve_state_is_its_promille, ValveState};
use crate::inventory::{law_map_has_one_value_per_component, InventoryId, ValveId, ValveMap};
use crate::modes::FlightMode;
use crate::single::{Single, TimeSpan, THOUSAND_BITS};

pub mod plan;

verus! {

broadcast use {law_map_has_one_value_per_component, law_valve_state_is_its_promille};

/// The longest pulse an operator may command, in milliseconds.
pub const MAX_PULSE_MILLIS: u64 = 30_000;

/// What an operator may ask of a valve.
#[derive(Copy, Clone, PartialEq, Eq, Debug, Structural)]
pub enum ValveCommand {
    Open,
    Close,
    /// How far to open, from zero to one.
    Partial(Single),
    PulseOpen(TimeSpan),
}

/// Why a valve command is not carried out.
#[derive(Copy, Clone, PartialEq, Eq, Debug, Structural)]
pub enum ValveError {
    NotPermittedInMode,
    InvalidCommand,
    Inhibited,
    TransportFailed,
}

/// A command that was accepted.
#[derive(Copy, Clone, PartialEq, Eq, Debug, Structural)]
pub struct ManualCommand {
    /// Vehicle time \[ms\] at which the command was accepted.
    pub issued_at: u32,
    pub cmd: ValveCommand,
    /// The non-pulse command this pulse replaced, restored when the pulse expires.
    pub replaced: Option<ValveCommand>,
}

impl ValveCommand {
    /// The command may be carried out: a pulse is not too long, and a fraction is one.
    pub open spec fn valid(self) -> bool {
        match self {
            ValveCommand::PulseOpen(span) => span.total_nanos() <= MAX_PULSE_MILLIS * 1_000_000,
            ValveCommand::Partial(p) => Single { bits: 0 }.at_most(p) && p.at_most(
                Single { bits: 0x3f80_0000 },
            ),
            ValveCommand::Open | ValveCommand::Close => true,
        }
    }

    /// The values in the command are well formed.
    pub open spec fn wf(self) -> bool {
        self matches ValveCommand::PulseOpen(span) ==> span.wf()
    }

    /// How far the command drives its valve open, in thousandths. A pulse counts as open.
    pub open spec fn drives_to(self) -> int {
        match self {
            ValveCommand::Close => 0,
            ValveCommand::Partial(p) => p.cast_scaled(Single { bits: THOUSAND_BITS }, 0, 1000),
            ValveCommand::Open | ValveCommand::PulseOpen(_) => 1000,
        }
    }

    /// Whether the command may be carried out.
    pub fn is_valid(&self) -> (valid: bool)
        requires
            self.wf(),
        ensures
            valid == self.valid(),
    {
        match *self {
            ValveCommand::PulseOpen(span) => span.is_at_most(
                TimeSpan::from_millis(MAX_PULSE_MILLIS),
            ),
            // A value that is no number fails both comparisons.
            ValveCommand::Partial(p) => Single::zero().is_at_most(p) && p.is_at_most(Single::one()),
            ValveCommand::Open | ValveCommand::Close => true,
        }
    }
}

impl ValveState {
    /// The state a command drives its valve towards. A pulse maps to open, its expiry is the
    /// controller's job.
    pub fn from_command(cmd: ValveCommand) -> (state: Self)
        ensures
            state@ == cmd.drives_to(),
    {
        match cmd {
            ValveCommand::Close => ValveState::fully_closed(),
            ValveCommand::Partial(p) => {
                let promille: i64 = p.scaled(Single { bits: THOUSAND_BITS }, 0, u16::MAX as i64);
                ValveState::from_promille_clamped(promille as u16)
            },
            ValveCommand::Open | ValveCommand::PulseOpen(_) => ValveState::fully_open(),
        }
    }
}

/// May the operator manually command this valve in this mode?
pub open spec fn manual_permitted(mode: FlightMode, valve: ValveId) -> bool {
    match mode {
        FlightMode::Hold => true,
        FlightMode::FillPressurant | FlightMode::FillOxidizer | FlightMode::Pressurize => {
            valve is PressurantVent || valve is OxidizerVent || valve is OxidizerFill
        },
        _ => false,
    }
}

/// How far open, in thousandths, the mode wants the valve; `None` where it has no opinion.
pub open spec fn mode_setpoint(mode: FlightMode, valve: ValveId) -> Option<int> {
    let open = match mode {
        FlightMode::FillOxidizer => valve is OxidizerFill,
        FlightMode::Pressurize => valve is Pressurization,
        FlightMode::Ignite | FlightMode::Burn | FlightMode::Coast => {
            valve is Main || valve is Pressurization
        },
        FlightMode::Vent
        | FlightMode::DeployDrogue
        | FlightMode::DeployMain
        | FlightMode::Landed => valve is PressurantVent || valve is OxidizerVent,
        _ => false,
    };
    if mode is Hold {
        None
    } else if open {
        Some(1000)
    } else {
        Some(0)
    }
}

/// What the controller knows of one valve.
pub struct ValveSlot {
    /// The command in force.
    pub command: Option<ManualCommand>,
    /// The setpoint as of the last resolution, as if no pulse were running.
    pub nonpulse: int,
    /// The setpoint that `Hold` holds.
    pub baseline: int,
}

/// The command in force, where a running pulse counts as the command it replaced.
pub open spec fn nonpulse_command(command: Option<ManualCommand>) -> Option<ValveCommand> {
    match command {
        Some(c) => if c.cmd is PulseOpen {
            c.replaced
        } else {
            Some(c.cmd)
        },
        None => None,
    }
}

/// The pulse is over. Time wraps around at the end of its range.
pub open spec fn pulse_over(command: ManualCommand, now: u32) -> bool {
    match command.cmd {
        ValveCommand::PulseOpen(span) => now.wrapping_sub(command.issued_at) > span.total_millis(),
        _ => false,
    }
}

/// The setpoint by priority: command, mode, baseline.
pub open spec fn setpoint(
    command: Option<ValveCommand>,
    mode: FlightMode,
    valve: ValveId,
    baseline: int,
) -> int {
    match command {
        Some(cmd) => cmd.drives_to(),
        None => match mode_setpoint(mode, valve) {
            Some(state) => state,
            None => baseline,
        },
    }
}

impl ValveSlot {
    /// The slot after the command was accepted at `now`.
    pub open spec fn commanded(self, cmd: ValveCommand, now: u32) -> ValveSlot {
        ValveSlot {
            command: Some(
                ManualCommand {
                    issued_at: now,
                    cmd,
                    replaced: if cmd is PulseOpen {
                        nonpulse_command(self.command)
                    } else {
                        None
                    },
                },
            ),
            ..self
        }
    }

    /// The slot after the mode was entered.
    pub open spec fn entered(self, mode: FlightMode) -> ValveSlot {
        if mode is Hold {
            ValveSlot { baseline: self.nonpulse, ..self }
        } else {
            ValveSlot { command: None, ..self }
        }
    }

    /// The command in force at `now`: a pulse that is over hands back to the command it replaced.
    pub open spec fn command_at(self, now: u32) -> Option<ManualCommand> {
        match self.command {
            Some(c) if pulse_over(c, now) => match c.replaced {
                Some(cmd) => Some(ManualCommand { issued_at: now, cmd, replaced: None }),
                None => None,
            },
            other => other,
        }
    }

    /// The setpoint of the valve at `now`.
    pub open spec fn output(self, mode: FlightMode, valve: ValveId, now: u32) -> int {
        let cmd = match self.command_at(now) {
            Some(c) => Some(c.cmd),
            None => None,
        };
        setpoint(cmd, mode, valve, self.baseline)
    }

    /// The slot after the setpoints for `now` were resolved.
    pub open spec fn resolved(self, mode: FlightMode, valve: ValveId, now: u32) -> ValveSlot {
        ValveSlot {
            command: self.command_at(now),
            nonpulse: setpoint(
                nonpulse_command(self.command_at(now)),
                mode,
                valve,
                self.baseline,
            ),
            ..self
        }
    }
}

/// Arbitrates between the flight mode and the operator.
pub struct ValveController {
    mode: FlightMode,
    commands: ValveMap<Option<ManualCommand>>,
    /// Setpoints from the most recent [`Self::resolve`], computed as if no pulse were running.
    nonpulse_setpoints: ValveMap<ValveState>,
    /// The non-pulse setpoints frozen when `Hold` was last entered.
    hold_baseline: ValveMap<ValveState>,
}

/// Only commands that were valid are ever in force.
spec fn command_ok(command: Option<ManualCommand>) -> bool {
    match command {
        Some(c) => c.cmd.wf() && c.cmd.valid() && (c.replaced matches Some(cmd) ==> cmd.wf()
            && cmd.valid() && !(cmd is PulseOpen)),
        None => true,
    }
}

impl ValveController {
    #[verifier::type_invariant]
    spec fn inv(self) -> bool {
        &&& forall|i: int| 0 <= i < 9 ==> command_ok(#[trigger] self.commands@[i])
        &&& forall|valve: ValveId| #[trigger]
            self.commands.at(valve) is Some ==> manual_permitted(self.mode, valve)
    }

    /// The flight mode.
    pub closed spec fn mode(self) -> FlightMode {
        self.mode
    }

    /// What the controller knows of the valve.
    pub closed spec fn slot(self, valve: ValveId) -> ValveSlot {
        ValveSlot {
            command: self.commands.at(valve),
            nonpulse: self.nonpulse_setpoints.at(valve)@ as int,
            baseline: self.hold_baseline.at(valve)@ as int,
        }
    }

    pub fn new() -> (controller: Self)
        ensures
            controller.mode() is Idle,
            forall|valve: ValveId| #[trigger]
                controller.slot(valve) == (ValveSlot { command: None, nonpulse: 0, baseline: 0 }),
            controller.is_after(Seq::empty()),
    {
        ValveController {
            mode: FlightMode::Idle,
            commands: ValveMap::splat(None),
            nonpulse_setpoints: ValveMap::splat(ValveState::fully_closed()),
            hold_baseline: ValveMap::splat(ValveState::fully_closed()),
        }
    }

    /// May the operator manually command this valve in this mode?
    pub fn manual_valve_allowed(&self, valve: ValveId) -> (allowed: bool)
        ensures
            allowed == manual_permitted(self.mode(), valve),
    {
        match self.mode {
            // Hold: every valve commandable
            FlightMode::Hold => true,
            // Vent valves pulsable for relief during fill / pressurize
            FlightMode::FillPressurant | FlightMode::FillOxidizer | FlightMode::Pressurize => {
                matches!(
                    valve,
                    ValveId::PressurantVent | ValveId::OxidizerVent | ValveId::OxidizerFill
                )
            },
            // No manual overrides anywhere else
            FlightMode::Idle
            | FlightMode::Vent
            | FlightMode::DetectLaunch
            | FlightMode::Ignite
            | FlightMode::Burn
            | FlightMode::Coast
            | FlightMode::DeployDrogue
            | FlightMode::DeployMain
            | FlightMode::Landed => false,
        }
    }

    /// Accept or reject a manual valve command. A newly accepted command replaces any previous
    /// command for the same valve.
    pub fn try_command(&mut self, valve: ValveId, cmd: ValveCommand, now: u32) -> (result: Result<
        (),
        ValveError,
    >)
        requires
            cmd.wf(),
        ensures
            final(self).mode() == old(self).mode(),
            result == (if !manual_permitted(old(self).mode(), valve) {
                Err(ValveError::NotPermittedInMode)
            } else if !cmd.valid() {
                Err(ValveError::InvalidCommand)
            } else {
                Ok(())
            }),
            forall|other: ValveId| #[trigger]
                final(self).slot(other) == if other == valve && result is Ok {
                    old(self).slot(other).commanded(cmd, now)
                } else {
                    old(self).slot(other)
                },
            forall|events: Seq<ValveEvent>| #[trigger]
                old(self).is_after(events) ==> final(self).is_after(
                    events.push(ValveEvent::Attempted { valve, cmd, now }),
                ),
    {
        proof {
            use_type_invariant(&*self);
            ValveId::law_all_is_in_index_order();
            assert forall|events: Seq<ValveEvent>| #![auto]
                events.push(ValveEvent::Attempted { valve, cmd, now }).drop_last() == events by {
                lemma_after_push(events, ValveEvent::Attempted { valve, cmd, now });
            }
        }
        if !self.manual_valve_allowed(valve) {
            return Err(ValveError::NotPermittedInMode);
        }
        if !cmd.is_valid() {
            return Err(ValveError::InvalidCommand);
        }
        // A pulse remembers the command it replaced so it can restore it on expiry. A pulse
        // replacing a pulse inherits the original target, so repeated pulses can't ratchet the
        // restore state towards "open".

        let replaced = match (cmd, *self.commands.get(valve)) {
            (ValveCommand::PulseOpen(_), Some(prev)) => match prev.cmd {
                ValveCommand::PulseOpen(_) => prev.replaced,
                non_pulse => Some(non_pulse),
            },
            _ => None,
        };
        let mut commands = self.commands;
        commands.set(valve, Some(ManualCommand { issued_at: now, cmd, replaced }));
        assert forall|other: ValveId| #[trigger] commands.at(other) is Some implies manual_permitted(
            self.mode,
            other,
        ) by {
            assert(other != valve ==> commands.at(other) == self.commands.at(other));
        }
        self.commands = commands;
        assert(forall|other: ValveId| #[trigger]
            self.slot(other) == if other == valve {
                old(self).slot(other).commanded(cmd, now)
            } else {
                old(self).slot(other)
            });
        Ok(())
    }

    /// Must be called on every mode change with the mode being entered.
    ///
    /// Clears all manual commands, except when entering `Hold`, which instead freezes the current
    /// non-pulse setpoints as the baseline it maintains and lets running commands finish on top.
    pub fn set_mode(&mut self, entered: FlightMode)
        ensures
            final(self).mode() == entered,
            forall|valve: ValveId| #[trigger]
                final(self).slot(valve) == old(self).slot(valve).entered(entered),
            forall|events: Seq<ValveEvent>| #[trigger]
                old(self).is_after(events) ==> final(self).is_after(
                    events.push(ValveEvent::Entered { mode: entered }),
                ),
    {
        proof {
            use_type_invariant(&*self);
            ValveId::law_all_is_in_index_order();
            assert forall|events: Seq<ValveEvent>| #![auto]
                events.push(ValveEvent::Entered { mode: entered }).drop_last() == events by {
                lemma_after_push(events, ValveEvent::Entered { mode: entered });
            }
        }
        if entered == FlightMode::Hold {
            self.hold_baseline = self.nonpulse_setpoints;
        } else {
            self.commands = ValveMap::splat(None);
        }
        self.mode = entered;
        assert(forall|valve: ValveId| #[trigger]
            self.slot(valve) == old(self).slot(valve).entered(entered));
    }

    /// The per-mode valve truth table. `None` only for `Hold`, which has no opinion of its own;
    /// every other mode asserts a state for every valve.
    pub fn mode_valve_state(&self, valve: ValveId) -> (state: Option<ValveState>)
        ensures
            match state {
                Some(state) => mode_setpoint(self.mode(), valve) == Some(state@ as int),
                None => mode_setpoint(self.mode(), valve) is None,
            },
    {
        let open = match self.mode {
            // Hold asserts nothing; the setpoints frozen when Hold was entered are substituted.
            FlightMode::Hold => {
                return None;
            },
            // Inert ground modes: everything closed.
            FlightMode::Idle | FlightMode::FillPressurant | FlightMode::DetectLaunch => false,
            // On-pad modes
            FlightMode::FillOxidizer => matches!(valve, ValveId::OxidizerFill),
            FlightMode::Pressurize => matches!(valve, ValveId::Pressurization),
            FlightMode::Vent => matches!(valve, ValveId::PressurantVent | ValveId::OxidizerVent),
            // In-flight modes
            FlightMode::Ignite | FlightMode::Burn | FlightMode::Coast => {
                matches!(valve, ValveId::Main | ValveId::Pressurization)
            },
            FlightMode::DeployDrogue | FlightMode::DeployMain | FlightMode::Landed => {
                matches!(valve, ValveId::PressurantVent | ValveId::OxidizerVent)
            },
        };
        if open {
            Some(ValveState::fully_open())
        } else {
            Some(ValveState::fully_closed())
        }
    }

    /// The setpoint of the valve under this command: command, mode, baseline.
    fn choose_setpoint(&self, command: Option<ValveCommand>, valve: ValveId) -> (state: ValveState)
        ensures
            state@ == setpoint(command, self.mode(), valve, self.slot(valve).baseline),
    {
        match command {
            Some(cmd) => ValveState::from_command(cmd),
            None => match self.mode_valve_state(valve) {
                Some(state) => state,
                None => *self.hold_baseline.get(valve),
            },
        }
    }

    /// The command in force on the valve at `now`.
    fn command_in_force(&self, valve: ValveId, now: u32) -> (command: Option<ManualCommand>)
        ensures
            command == self.slot(valve).command_at(now),
            command_ok(command),
    {
        proof {
            use_type_invariant(self);
            ValveId::law_all_is_in_index_order();
        }
        let c = match *self.commands.get(valve) {
            Some(c) => c,
            None => return None,
        };
        let expired = match c.cmd {
            ValveCommand::PulseOpen(span) => now.wrapping_sub(c.issued_at) as u64
                > span.as_millis(),
            ValveCommand::Open | ValveCommand::Close | ValveCommand::Partial(_) => false,
        };
        if expired {
            match c.replaced {
                Some(cmd) => Some(ManualCommand { issued_at: now, cmd, replaced: None }),
                None => None,
            }
        } else {
            Some(c)
        }
    }

    /// Resolve the commanded state of every valve for this tick.
    pub fn resolve(&mut self, now: u32) -> (resolved: ValveMap<ValveState>)
        ensures
            final(self).mode() == old(self).mode(),
            forall|valve: ValveId|
                #![trigger final(self).slot(valve)]
                #![trigger resolved.at(valve)]
                {
                    &&& final(self).slot(valve) == old(self).slot(valve).resolved(
                        old(self).mode(),
                        valve,
                        now,
                    )
                    &&& resolved.at(valve)@ == old(self).slot(valve).output(
                        old(self).mode(),
                        valve,
                        now,
                    )
                    // A command is only ever in force where the mode permits it.
                    &&& !manual_permitted(old(self).mode(), valve) ==> Some(
                        resolved.at(valve)@ as int,
                    ) == mode_setpoint(old(self).mode(), valve)
                },
            forall|events: Seq<ValveEvent>| #[trigger]
                old(self).is_after(events) ==> final(self).is_after(
                    events.push(ValveEvent::Resolved { now }),
                ),
            forall|events: Seq<ValveEvent>, valve: ValveId|
                #![trigger old(self).is_after(events), resolved.at(valve)]
                old(self).is_after(events) ==> resolved.at(valve)@ == state_by_history(
                    events,
                    valve,
                    now,
                ),
    {
        proof {
            use_type_invariant(&*self);
            ValveId::law_all_is_in_index_order();
            assert forall|events: Seq<ValveEvent>| #![auto]
                events.push(ValveEvent::Resolved { now }).drop_last() == events by {
                lemma_after_push(events, ValveEvent::Resolved { now });
            }
            assert forall|events: Seq<ValveEvent>, valve: ValveId|
                #![trigger self.is_after(events), self.slot(valve)]
                self.is_after(events) implies self.slot(valve).output(self.mode(), valve, now)
                == state_by_history(events, valve, now) by {
                law_the_state_follows_from_the_history(events, valve, now);
            }
        }
        let mut commands: ValveMap<Option<ManualCommand>> = ValveMap::splat(None);
        let mut resolved: ValveMap<ValveState> = ValveMap::splat(ValveState::fully_closed());
        let mut nonpulse: ValveMap<ValveState> = ValveMap::splat(ValveState::fully_closed());
        let mut i: usize = 0;
        while i < 9
            invariant
                i <= 9,
                *self == *old(self),
                forall|j: int| 0 <= j < 9 ==> (#[trigger] ValveId::ALL@[j]).index_of() == j,
                forall|id: ValveId|
                    0 <= #[trigger] id.index_of() < 9 && ValveId::ALL@[id.index_of()] == id,
                forall|j: int| 0 <= j < 9 ==> command_ok(#[trigger] commands@[j]),
                forall|valve: ValveId|
                    0 <= #[trigger] valve.index_of() < i ==> {
                        let after = self.slot(valve).resolved(self.mode(), valve, now);
                        &&& commands.at(valve) == after.command
                        &&& nonpulse.at(valve)@ == after.nonpulse
                        &&& resolved.at(valve)@ == self.slot(valve).output(self.mode(), valve, now)
                    },
            decreases 9 - i,
        {
            let valve = ValveId::ALL[i];
            let command = self.command_in_force(valve, now);
            // Command, mode, baseline
            let cmd = match command {
                Some(c) => Some(c.cmd),
                None => None,
            };
            // Imagine a world without pulses (a running pulse counts as the command it replaced),
            // so we can keep track of what to return to
            let nonpulse_cmd = match command {
                Some(c) => match c.cmd {
                    ValveCommand::PulseOpen(_) => c.replaced,
                    cmd => Some(cmd),
                },
                None => None,
            };
            commands.set(valve, command);
            resolved.set(valve, self.choose_setpoint(cmd, valve));
            nonpulse.set(valve, self.choose_setpoint(nonpulse_cmd, valve));
            i += 1;
        }
        self.commands = commands;
        self.nonpulse_setpoints = nonpulse;
        resolved
    }
}

impl Default for ValveController {
    fn default() -> (controller: Self)
        ensures
            controller.mode() is Idle,
            forall|valve: ValveId| #[trigger]
                controller.slot(valve) == (ValveSlot { command: None, nonpulse: 0, baseline: 0 }),
    {
        Self::new()
    }
}

/// What happens to the valve controller.
pub enum ValveEvent {
    /// The operator attempts to command a valve.
    Attempted { valve: ValveId, cmd: ValveCommand, now: u32 },
    /// A mode is entered.
    Entered { mode: FlightMode },
    /// The states of the valves are resolved.
    Resolved { now: u32 },
}

/// The mode after the events: the one that was entered last, at first `Idle`.
pub open spec fn mode_after(events: Seq<ValveEvent>) -> FlightMode
    decreases events.len(),
{
    if events.len() == 0 {
        FlightMode::Idle
    } else {
        match events.last() {
            ValveEvent::Entered { mode } => mode,
            _ => mode_after(events.drop_last()),
        }
    }
}

/// The command that is attempted after the events is accepted.
pub open spec fn is_accepted(events: Seq<ValveEvent>, valve: ValveId, cmd: ValveCommand) -> bool {
    manual_permitted(mode_after(events), valve) && cmd.valid()
}

/// What the controller knows of the valve after the events, step by step.
pub open spec fn slot_after(events: Seq<ValveEvent>, valve: ValveId) -> ValveSlot
    decreases events.len(),
{
    if events.len() == 0 {
        ValveSlot { command: None, nonpulse: 0, baseline: 0 }
    } else {
        let rest = events.drop_last();
        let before = slot_after(rest, valve);
        match events.last() {
            ValveEvent::Attempted { valve: commanded, cmd, now } => if commanded == valve
                && is_accepted(rest, valve, cmd) {
                before.commanded(cmd, now)
            } else {
                before
            },
            ValveEvent::Entered { mode } => before.entered(mode),
            ValveEvent::Resolved { now } => before.resolved(mode_after(rest), valve, now),
        }
    }
}

/// The command other than a pulse that was accepted last for the valve, unless a mode other than
/// `Hold` was entered since.
pub open spec fn latched(events: Seq<ValveEvent>, valve: ValveId) -> Option<ValveCommand>
    decreases events.len(),
{
    if events.len() == 0 {
        None
    } else {
        let rest = events.drop_last();
        match events.last() {
            ValveEvent::Attempted { valve: commanded, cmd, .. } => if commanded == valve
                && is_accepted(rest, valve, cmd) && !(cmd is PulseOpen) {
                Some(cmd)
            } else {
                latched(rest, valve)
            },
            ValveEvent::Entered { mode } => if mode is Hold {
                latched(rest, valve)
            } else {
                None
            },
            ValveEvent::Resolved { .. } => latched(rest, valve),
        }
    }
}

/// The pulse has lasted longer than it should.
pub open spec fn is_expired(pulse: (u32, TimeSpan), now: u32) -> bool {
    now.wrapping_sub(pulse.0) > pulse.1.total_millis()
}

/// The pulse that was accepted last for the valve, with its time, unless another command was
/// accepted since, a mode other than `Hold` was entered, or it was found to have expired.
pub open spec fn pulse_under_way(events: Seq<ValveEvent>, valve: ValveId) -> Option<(u32, TimeSpan)>
    decreases events.len(),
{
    if events.len() == 0 {
        None
    } else {
        let rest = events.drop_last();
        match events.last() {
            ValveEvent::Attempted { valve: commanded, cmd, now } => if commanded == valve
                && is_accepted(rest, valve, cmd) {
                match cmd {
                    ValveCommand::PulseOpen(span) => Some((now, span)),
                    _ => None,
                }
            } else {
                pulse_under_way(rest, valve)
            },
            ValveEvent::Entered { mode } => if mode is Hold {
                pulse_under_way(rest, valve)
            } else {
                None
            },
            ValveEvent::Resolved { now } => match pulse_under_way(rest, valve) {
                Some(pulse) if is_expired(pulse, now) => None,
                other => other,
            },
        }
    }
}

/// The command that is live at `now`: a pulse until it expires, else the command that it replaced,
/// which is the one that is latched.
pub open spec fn live(events: Seq<ValveEvent>, valve: ValveId, now: u32) -> Option<ValveCommand> {
    match pulse_under_way(events, valve) {
        Some(pulse) if !is_expired(pulse, now) => Some(ValveCommand::PulseOpen(pulse.1)),
        _ => latched(events, valve),
    }
}

/// The setpoint of the valve when it was last resolved, taken as if no pulse ran; closed where it
/// never was.
pub open spec fn last_unpulsed(events: Seq<ValveEvent>, valve: ValveId) -> int
    decreases events.len(), 0int,
{
    if events.len() == 0 {
        0
    } else {
        let rest = events.drop_last();
        match events.last() {
            ValveEvent::Resolved { .. } => setpoint(
                latched(rest, valve),
                mode_after(rest),
                valve,
                held(rest, valve),
            ),
            _ => last_unpulsed(rest, valve),
        }
    }
}

/// What `Hold` holds: the setpoint of the last resolution before `Hold` was entered, taken as if no
/// pulse ran.
pub open spec fn held(events: Seq<ValveEvent>, valve: ValveId) -> int
    decreases events.len(), 1int,
{
    if events.len() == 0 {
        0
    } else {
        let rest = events.drop_last();
        match events.last() {
            ValveEvent::Entered { mode } if mode is Hold => last_unpulsed(rest, valve),
            _ => held(rest, valve),
        }
    }
}

/// What the history makes of the valve at `now`: the command that is live counts, else the mode,
/// else what `Hold` holds.
pub open spec fn state_by_history(events: Seq<ValveEvent>, valve: ValveId, now: u32) -> int {
    match live(events, valve, now) {
        Some(cmd) => cmd.drives_to(),
        None => match mode_setpoint(mode_after(events), valve) {
            Some(state) => state,
            None => held(events, valve),
        },
    }
}

impl ValveController {
    /// The controller is as it should be after the events.
    pub open spec fn is_after(self, events: Seq<ValveEvent>) -> bool {
        &&& self.mode() == mode_after(events)
        &&& forall|valve: ValveId| #[trigger] self.slot(valve) == slot_after(events, valve)
    }
}

/// One more event.
proof fn lemma_after_push(events: Seq<ValveEvent>, event: ValveEvent)
    ensures
        events.push(event).drop_last() == events,
        events.push(event).last() == event,
{
    assert(events.push(event).drop_last() =~= events);
}

/// What the controller knows of a valve is what the history says of it.
proof fn lemma_slot_is_history(events: Seq<ValveEvent>, valve: ValveId)
    ensures
        ({
            let slot = slot_after(events, valve);
            &&& match pulse_under_way(events, valve) {
                Some((issued_at, span)) => slot.command == Some(
                    ManualCommand {
                        issued_at,
                        cmd: ValveCommand::PulseOpen(span),
                        replaced: latched(events, valve),
                    },
                ),
                None => match latched(events, valve) {
                    Some(cmd) => slot.command is Some && (slot.command->0).cmd == cmd,
                    None => slot.command is None,
                },
            }
            &&& !(latched(events, valve) matches Some(cmd) && cmd is PulseOpen)
            &&& slot.baseline == held(events, valve)
            &&& slot.nonpulse == last_unpulsed(events, valve)
        }),
    decreases events.len(),
{
    if events.len() > 0 {
        lemma_slot_is_history(events.drop_last(), valve);
    }
}

/// The state of a valve follows from the whole history of commands, mode changes and resolutions:
/// the command that is live counts, else the mode, else what `Hold` holds.
///
/// A command that was accepted is live until another one is accepted for the same valve, or a mode
/// other than `Hold` is entered. A pulse is live until it has lasted longer than it should; then the
/// command that it replaced, if any, is live again. `Hold` holds the setpoint of the last resolution
/// before it was entered, taken as if no pulse ran, and closed where there was none.
pub proof fn law_the_state_follows_from_the_history(
    events: Seq<ValveEvent>,
    valve: ValveId,
    now: u32,
)
    ensures
        slot_after(events, valve).output(mode_after(events), valve, now) == state_by_history(
            events,
            valve,
            now,
        ),
        mode_setpoint(mode_after(events), valve) is None <==> mode_after(events) is Hold,
{
    lemma_slot_is_history(events, valve);
}

/// The order of priorities: a command wins over the mode, the mode over the `Hold` baseline.
pub proof fn law_priorities(slot: ValveSlot, mode: FlightMode, valve: ValveId, now: u32)
    ensures
        slot.command_at(now) matches Some(c) ==> slot.output(mode, valve, now)
            == c.cmd.drives_to(),
        slot.command_at(now) is None && mode_setpoint(mode, valve) is Some ==> slot.output(
            mode,
            valve,
            now,
        ) == mode_setpoint(mode, valve)->0,
        slot.command_at(now) is None && mode_setpoint(mode, valve) is None ==> slot.output(
            mode,
            valve,
            now,
        ) == slot.baseline,
{
}

/// Every mode but `Hold` asserts a state for every valve, and `Hold` for none.
pub proof fn law_every_mode_except_hold_asserts_every_valve(mode: FlightMode, valve: ValveId)
    ensures
        mode_setpoint(mode, valve) is None <==> mode is Hold,
        mode_setpoint(mode, valve) matches Some(state) ==> state == 0 || state == 1000,
{
}

/// Entering any mode but `Hold` leaves no manual command in force, so that the mode decides.
pub proof fn law_mode_change_clears_manual_commands(
    slot: ValveSlot,
    entered: FlightMode,
    valve: ValveId,
    now: u32,
)
    requires
        !(entered is Hold),
    ensures
        slot.entered(entered).command is None,
        Some(slot.entered(entered).output(entered, valve, now)) == mode_setpoint(entered, valve),
{
}

/// Entering `Hold` keeps every command that is in force.
pub proof fn law_hold_entry_keeps_commands(slot: ValveSlot)
    ensures
        slot.entered(FlightMode::Hold).command == slot.command,
{
}

/// A pulse holds the valve open for its duration and then hands back to what was in force before
/// it, whatever that was. Time may wrap around meanwhile.
pub proof fn law_pulse_opens_and_then_restores(
    slot: ValveSlot,
    mode: FlightMode,
    valve: ValveId,
    span: TimeSpan,
    issued: u32,
    now: u32,
)
    requires
        !(slot.command matches Some(c) && c.cmd is PulseOpen),
    ensures
        ({
            let pulsed = slot.commanded(ValveCommand::PulseOpen(span), issued);
            if now.wrapping_sub(issued) <= span.total_millis() {
                pulsed.output(mode, valve, now) == 1000
            } else {
                pulsed.output(mode, valve, now) == slot.output(mode, valve, now)
            }
        }),
{
}

/// Resolving during a pulse neither ends it nor changes what it will restore.
pub proof fn law_resolving_keeps_a_running_pulse(
    slot: ValveSlot,
    mode: FlightMode,
    valve: ValveId,
    now: u32,
    later: u32,
)
    requires
        slot.command matches Some(c) && !pulse_over(c, now),
    ensures
        slot.resolved(mode, valve, now).command == slot.command,
        slot.resolved(mode, valve, now).output(mode, valve, later) == slot.output(
            mode,
            valve,
            later,
        ),
{
}

/// A pulse that replaces a pulse restores what the first one would have restored: repeated pulses
/// cannot ratchet a valve towards open.
pub proof fn law_repeated_pulses_keep_the_restore_target(
    slot: ValveSlot,
    first: TimeSpan,
    first_at: u32,
    second: TimeSpan,
    second_at: u32,
)
    ensures
        nonpulse_command(
            slot.commanded(ValveCommand::PulseOpen(first), first_at).commanded(
                ValveCommand::PulseOpen(second),
                second_at,
            ).command,
        ) == nonpulse_command(slot.command),
{
}

/// A pulse on a valve that stands open does nothing that could be noticed, neither while it runs
/// nor once it is over.
pub proof fn law_pulse_on_an_open_valve_is_unnoticeable(
    slot: ValveSlot,
    mode: FlightMode,
    valve: ValveId,
    span: TimeSpan,
    issued: u32,
    now: u32,
)
    requires
        !(slot.command matches Some(c) && c.cmd is PulseOpen),
        slot.output(mode, valve, issued) == 1000,
    ensures
        slot.commanded(ValveCommand::PulseOpen(span), issued).output(mode, valve, now) == 1000,
{
}

/// Entering `Hold` during a pulse does not freeze the valve open: the pulse runs on and, once it
/// is over, the valve is back at the setpoint it had without the pulse.
pub proof fn law_hold_freezes_the_setpoint_without_the_pulse(
    slot: ValveSlot,
    mode: FlightMode,
    valve: ValveId,
    span: TimeSpan,
    issued: u32,
    resolved_at: u32,
    now: u32,
)
    requires
        !(slot.command matches Some(c) && c.cmd is PulseOpen),
        resolved_at.wrapping_sub(issued) <= span.total_millis(),
    ensures
        ({
            let held = slot.commanded(ValveCommand::PulseOpen(span), issued).resolved(
                mode,
                valve,
                resolved_at,
            ).entered(FlightMode::Hold);
            if now.wrapping_sub(issued) <= span.total_millis() {
                held.output(FlightMode::Hold, valve, now) == 1000
            } else {
                held.output(FlightMode::Hold, valve, now) == slot.output(mode, valve, issued)
            }
        }),
{
}

/// Entering `Hold` with no pulse running keeps every valve where it is.
pub proof fn law_hold_holds(
    slot: ValveSlot,
    mode: FlightMode,
    valve: ValveId,
    resolved_at: u32,
    now: u32,
)
    requires
        !(slot.command matches Some(c) && c.cmd is PulseOpen),
    ensures
        slot.resolved(mode, valve, resolved_at).entered(FlightMode::Hold).output(
            FlightMode::Hold,
            valve,
            now,
        ) == slot.output(mode, valve, resolved_at),
{
}

/// With no setpoint ever resolved, `Hold` holds every valve closed, and so ends a pulse.
pub proof fn law_fresh_hold_is_closed(valve: ValveId, span: TimeSpan, issued: u32, now: u32)
    requires
        now.wrapping_sub(issued) > span.total_millis(),
    ensures
        (ValveSlot { command: None, nonpulse: 0, baseline: 0 }).entered(FlightMode::Hold).commanded(
            ValveCommand::PulseOpen(span),
            issued,
        ).output(FlightMode::Hold, valve, now) == 0,
{
}

} // verus!

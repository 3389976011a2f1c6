//! Decides what the buzzer plays, by the flight mode and the voltage of the battery.
//!
//! [`Alerts::update`] is called from the main loop on every tick. It asks for two kinds of sounds:
//!
//! * A short chirp on every change of the flight mode ([`Sound::ModeChange`]).
//! * A continuous *alert loop*, for conditions that last longer than a single sound. Only one can
//!   be active at a time, in order of priority:
//!   1. [`Sound::Landed`] - locator beacon, so the rocket can be found.
//!   2. [`Sound::Pressurized`] - hazard warning, from the moment the vehicle is pressurized until
//!      it lifts off (or is vented again).
//!
//! Battery warnings are one-shots repeated at a fixed interval. They are muted while an alert loop
//! is running, because both of those are more important than a battery that is running low, and
//! after liftoff, where nobody can hear or act on them anyway.

use vstd::prelude::*;

use crate::buzzer::{sound_name, Command, Sound};
use crate::modes::FlightMode;
use crate::text::{name_str, name_text, same_ignoring_case, TuneName};

verus! {

/// Bus voltage below which the battery is considered low \[mV\].
///
/// The flight computer runs off a 3S LiPo, i.e. 12.6V fully charged and 9.9V empty. 11.5V is ~3.83V
/// per cell, 10.0V is ~3.33V per cell.
pub const BATTERY_LOW_MV: u16 = 11_500;

/// Bus voltage below which the battery is considered nearly empty \[mV\].
pub const BATTERY_EXTREME_LOW_MV: u16 = 10_000;

/// Hysteresis applied when recovering from a warning \[mV\], so that a voltage hovering around a
/// threshold does not toggle the warning back and forth.
pub const BATTERY_HYSTERESIS_MV: u16 = 300;

/// Below this the main bus is assumed to be unpowered \[mV\], e.g. because the board is being
/// bench-tested without a battery, and warnings are muted.
pub const BATTERY_PRESENT_MIN_MV: u16 = 5_000;

/// How long the voltage has to stay beyond a threshold before it is warned about \[us\].
pub const BATTERY_DEBOUNCE: u64 = 2_000_000;

/// How often the low battery warning repeats \[us\].
pub const BATTERY_LOW_INTERVAL: u64 = 30_000_000;

/// How often the nearly empty battery warning repeats \[us\].
pub const BATTERY_EXTREME_LOW_INTERVAL: u64 = 10_000_000;

#[derive(Copy, Clone, Debug, PartialEq, Eq, Structural)]
pub enum BatteryState {
    Good,
    Low,
    ExtremeLow,
}

/// What the alerts go by.
pub struct AlertState {
    pub mode: FlightMode,
    /// Whether the vehicle is currently pressurized.
    pub pressurized: bool,
    pub battery: BatteryState,
    /// The battery state that is about to come, and since when the voltage has called for it.
    pub battery_pending: Option<(BatteryState, u64)>,
    /// When the current battery warning was last played.
    pub battery_warned_at: Option<u64>,
    /// The alert loop that is requested.
    pub alert_loop: Option<Sound>,
}

/// Whether the vehicle is pressurized once it enters the mode.
pub open spec fn pressurized_in(mode: FlightMode, before: bool) -> bool {
    match mode {
        // Entering it opens the pressurization valve.
        FlightMode::Pressurize => true,
        // Reachable from both: the tanks stay as they are.
        FlightMode::Hold | FlightMode::DetectLaunch | FlightMode::Ignite => before,
        // Not pressurized (yet), or lifted off.
        _ => false,
    }
}

/// The alert loop of a mode.
pub open spec fn loop_in(mode: FlightMode, pressurized: bool) -> Option<Sound> {
    if mode is Landed {
        Some(Sound::Landed)
    } else if pressurized {
        Some(Sound::Pressurized)
    } else {
        None
    }
}

/// The threshold, raised while the warning is on.
pub open spec fn raised(threshold: int, on: bool) -> int {
    if on {
        threshold + 300
    } else {
        threshold
    }
}

/// The state that a voltage calls for.
pub open spec fn called_for(battery: BatteryState, mv: u16) -> BatteryState {
    if mv < BATTERY_PRESENT_MIN_MV && battery is Good {
        BatteryState::Good
    } else if mv < raised(10_000, battery is ExtremeLow) {
        BatteryState::ExtremeLow
    } else if mv < raised(11_500, battery is Low) {
        BatteryState::Low
    } else {
        BatteryState::Good
    }
}

impl AlertState {
    /// Nothing lies in the future.
    pub open spec fn wf_at(self, now: int) -> bool {
        &&& self.battery_pending is Some ==> (self.battery_pending->0).1 <= now
        &&& self.battery_warned_at is Some ==> self.battery_warned_at->0 <= now
    }

    /// The vehicle is in the mode.
    pub open spec fn in_mode(self, mode: FlightMode) -> AlertState {
        if mode == self.mode {
            self
        } else {
            let pressurized = pressurized_in(mode, self.pressurized);
            AlertState { mode, pressurized, alert_loop: loop_in(mode, pressurized), ..self }
        }
    }

    /// What is asked for when the vehicle is in the mode: the loop before the chirp, which it
    /// would cut short otherwise.
    pub open spec fn mode_requests(self, mode: FlightMode) -> Seq<Command> {
        if mode == self.mode {
            Seq::empty()
        } else {
            let after = self.in_mode(mode);
            if after.alert_loop == self.alert_loop {
                seq![Command::PlayOnce(Sound::ModeChange)]
            } else {
                seq![Command::SetLoop(after.alert_loop), Command::PlayOnce(Sound::ModeChange)]
            }
        }
    }

    /// The voltage is this.
    pub open spec fn with_voltage(self, mv: Option<u16>, now: u64) -> AlertState {
        match mv {
            None => self,
            Some(mv) => {
                let candidate = called_for(self.battery, mv);
                if candidate == self.battery {
                    AlertState { battery_pending: None, ..self }
                } else if self.battery_pending is Some && (self.battery_pending->0).0 == candidate {
                    if now - (self.battery_pending->0).1 >= BATTERY_DEBOUNCE {
                        AlertState {
                            battery: candidate,
                            battery_pending: None,
                            battery_warned_at: None,
                            ..self
                        }
                    } else {
                        self
                    }
                } else {
                    AlertState { battery_pending: Some((candidate, now)), ..self }
                }
            },
        }
    }

    /// The warning that is due.
    pub open spec fn warning(self, now: u64) -> Option<Sound> {
        let free = self.alert_loop is None && !self.mode.is_airborne();
        let since = now - self.battery_warned_at->0;
        match self.battery {
            BatteryState::Low if free && (self.battery_warned_at is None || since
                >= BATTERY_LOW_INTERVAL) => Some(Sound::BatteryLow),
            BatteryState::ExtremeLow if free && (self.battery_warned_at is None || since
                >= BATTERY_EXTREME_LOW_INTERVAL) => Some(Sound::BatteryExtremeLow),
            _ => None,
        }
    }

    /// The state once the mode and the voltage are known.
    pub open spec fn sensed(self, mode: FlightMode, mv: Option<u16>, now: u64) -> AlertState {
        self.in_mode(mode).with_voltage(mv, now)
    }

    /// The state after an update.
    pub open spec fn updated(self, mode: FlightMode, mv: Option<u16>, now: u64) -> AlertState {
        let sensed = self.sensed(mode, mv, now);
        if sensed.warning(now) is Some {
            AlertState { battery_warned_at: Some(now), ..sensed }
        } else {
            sensed
        }
    }

    /// What an update asks for.
    pub open spec fn requests(self, mode: FlightMode, mv: Option<u16>, now: u64) -> Seq<Command> {
        match self.sensed(mode, mv, now).warning(now) {
            Some(sound) => self.mode_requests(mode).push(Command::PlayOnce(sound)),
            None => self.mode_requests(mode),
        }
    }
}

/// Buzzer alert state machine, see the [module documentation](self).
///
/// Starts out in the flight mode the vehicle boots up in, so that no chirp is played for the
/// initial mode.
#[derive(Debug)]
pub struct Alerts {
    mode: FlightMode,
    pressurized: bool,
    battery: BatteryState,
    battery_pending: Option<(BatteryState, u64)>,
    battery_warned_at: Option<u64>,
    alert_loop: Option<Sound>,
}

impl View for Alerts {
    type V = AlertState;

    closed spec fn view(&self) -> AlertState {
        AlertState {
            mode: self.mode,
            pressurized: self.pressurized,
            battery: self.battery,
            battery_pending: self.battery_pending,
            battery_warned_at: self.battery_warned_at,
            alert_loop: self.alert_loop,
        }
    }
}

impl Default for Alerts {
    fn default() -> (alerts: Self)
        ensures
            alerts@ == (AlertState {
                mode: FlightMode::Idle,
                pressurized: false,
                battery: BatteryState::Good,
                battery_pending: None,
                battery_warned_at: None,
                alert_loop: None,
            }),
    {
        Alerts {
            mode: FlightMode::Idle,
            pressurized: false,
            battery: BatteryState::Good,
            battery_pending: None,
            battery_warned_at: None,
            alert_loop: None,
        }
    }
}

impl Alerts {
    /// Takes the current flight mode and the voltage of the main bus (`None` if the ADC has no
    /// reading yet), and tells what to ask of the buzzer, in order.
    pub fn update(&mut self, mode: FlightMode, battery_mv: Option<u16>, now: u64) -> (requests: Vec<
        Command,
    >)
        requires
            old(self)@.wf_at(now as int),
        ensures
            final(self)@ == old(self)@.updated(mode, battery_mv, now),
            final(self)@.wf_at(now as int),
            requests@ == old(self)@.requests(mode, battery_mv, now),
    {
        let mut requests: Vec<Command> = Vec::new();
        if mode != self.mode {
            self.mode = mode;
            self.mode_changed(mode, &mut requests);
        }
        assert(requests@ =~= old(self)@.mode_requests(mode));
        assert(self@ == old(self)@.in_mode(mode));
        self.update_battery(battery_mv, now);
        self.warn_about_battery(now, &mut requests);
        requests
    }

    fn mode_changed(&mut self, mode: FlightMode, requests: &mut Vec<Command>)
        requires
            old(self)@.mode == mode,
        ensures
            ({
                let pressurized = pressurized_in(mode, old(self)@.pressurized);
                let alert_loop = loop_in(mode, pressurized);
                &&& final(self)@ == (AlertState { pressurized, alert_loop, ..old(self)@ })
                &&& final(requests)@ == old(requests)@ + if alert_loop == old(self)@.alert_loop {
                    seq![Command::PlayOnce(Sound::ModeChange)]
                } else {
                    seq![Command::SetLoop(alert_loop), Command::PlayOnce(Sound::ModeChange)]
                }
            }),
    {
        self.pressurized = match mode {
            // Entering Pressurize opens the pressurization valve.
            FlightMode::Pressurize => true,
            // Reachable from both pressurized and unpressurized modes, so keep whatever it was: the
            // tanks stay pressurized while the launch is awaited and while the ignition sequence
            // runs.
            FlightMode::Hold | FlightMode::DetectLaunch | FlightMode::Ignite => self.pressurized,
            // Either not pressurized (yet), or already lifted off - in both cases nobody is
            // standing next to a pressurized rocket.
            FlightMode::Idle
            | FlightMode::FillPressurant
            | FlightMode::FillOxidizer
            | FlightMode::Vent
            | FlightMode::Burn
            | FlightMode::Coast
            | FlightMode::DeployDrogue
            | FlightMode::DeployMain
            | FlightMode::Landed => false,
        };
        let alert_loop = if mode == FlightMode::Landed {
            Some(Sound::Landed)
        } else if self.pressurized {
            Some(Sound::Pressurized)
        } else {
            None
        };
        let ghost asked = requests@;
        self.set_alert_loop(alert_loop, requests);
        requests.push(Command::PlayOnce(Sound::ModeChange));
        assert(requests@ =~= asked + if alert_loop == old(self)@.alert_loop {
            seq![Command::PlayOnce(Sound::ModeChange)]
        } else {
            seq![Command::SetLoop(alert_loop), Command::PlayOnce(Sound::ModeChange)]
        });
    }

    /// Whether a continuous alert is currently sounding.
    ///
    /// Used to keep lower-priority sounds, e.g. a tune requested from the ground, from silencing
    /// the hazard warning or the landing beacon.
    pub fn alert_active(&self) -> (active: bool)
        ensures
            active == (self@.alert_loop is Some),
    {
        self.alert_loop.is_some()
    }

    /// What to ask of the buzzer when a tune is requested from the ground: nothing while a
    /// continuous alert is sounding, or where no sound has that name.
    pub fn requested_tune(&self, name: &TuneName) -> (request: Option<Command>)
        ensures
            match request {
                Some(Command::PlayOnce(sound)) => self@.alert_loop is None && same_ignoring_case(
                    sound_name(sound),
                    name_text(*name),
                ),
                Some(_) => false,
                None => self@.alert_loop is Some || forall|sound: Sound|
                    !same_ignoring_case(#[trigger] sound_name(sound), name_text(*name)),
            },
    {
        if self.alert_active() {
            return None;
        }
        match Sound::from_name(name_str(name)) {
            Some(sound) => Some(Command::PlayOnce(sound)),
            None => None,
        }
    }

    fn set_alert_loop(&mut self, sound: Option<Sound>, requests: &mut Vec<Command>)
        ensures
            final(self)@ == (AlertState { alert_loop: sound, ..old(self)@ }),
            final(requests)@ == if sound == old(self)@.alert_loop {
                old(requests)@
            } else {
                old(requests)@.push(Command::SetLoop(sound))
            },
    {
        let same = match (sound, self.alert_loop) {
            (None, None) => true,
            (Some(a), Some(b)) => a == b,
            _ => false,
        };
        if !same {
            self.alert_loop = sound;
            requests.push(Command::SetLoop(sound));
        }
    }

    /// Classify the given voltage, with hysteresis around the thresholds, and commit the new state
    /// once it has been stable for [`BATTERY_DEBOUNCE`].
    fn update_battery(&mut self, battery_mv: Option<u16>, now: u64)
        requires
            old(self)@.wf_at(now as int),
        ensures
            final(self)@ == old(self)@.with_voltage(battery_mv, now),
    {
        let battery_mv: u16 = match battery_mv {
            Some(battery_mv) => battery_mv,
            None => {
                return ;
            },
        };
        let candidate = self.classify_battery(battery_mv);
        if candidate == self.battery {
            self.battery_pending = None;
            return ;
        }
        if let Some((pending, since)) = self.battery_pending {
            if pending == candidate {
                if now - since >= BATTERY_DEBOUNCE {
                    self.battery = candidate;
                    self.battery_pending = None;
                    // Warn about the new state right away.
                    self.battery_warned_at = None;
                }
                return ;
            }
        }
        self.battery_pending = Some((candidate, now));
    }

    fn classify_battery(&self, battery_mv: u16) -> (state: BatteryState)
        ensures
            state == called_for(self@.battery, battery_mv),
    {
        // Recovering from a warning requires a little more voltage than entering it did. A battery
        // under load sags, so the voltage jumps around by a few hundred mV in normal operation.
        let extreme_low: u16 = if self.battery == BatteryState::ExtremeLow {
            BATTERY_EXTREME_LOW_MV + BATTERY_HYSTERESIS_MV
        } else {
            BATTERY_EXTREME_LOW_MV
        };
        let low: u16 = if self.battery == BatteryState::Low {
            BATTERY_LOW_MV + BATTERY_HYSTERESIS_MV
        } else {
            BATTERY_LOW_MV
        };
        // A voltage this low means that the main bus is not powered by a battery at all, e.g.
        // because the board is running off the debug probe, rather than by a battery that is nearly
        // empty. Once there is known to be a battery that is running low, the warning goes on, no
        // matter how far it sags.
        if battery_mv < BATTERY_PRESENT_MIN_MV && self.battery == BatteryState::Good {
            BatteryState::Good
        } else if battery_mv < extreme_low {
            BatteryState::ExtremeLow
        } else if battery_mv < low {
            BatteryState::Low
        } else {
            BatteryState::Good
        }
    }

    fn warn_about_battery(&mut self, now: u64, requests: &mut Vec<Command>)
        requires
            old(self)@.wf_at(now as int),
        ensures
            final(self)@ == if old(self)@.warning(now) is Some {
                AlertState { battery_warned_at: Some(now), ..old(self)@ }
            } else {
                old(self)@
            },
            final(requests)@ == (match old(self)@.warning(now) {
                Some(sound) => old(requests)@.push(Command::PlayOnce(sound)),
                None => old(requests)@,
            }),
    {
        let (sound, interval) = match self.battery {
            BatteryState::Good => {
                return ;
            },
            BatteryState::Low => (Sound::BatteryLow, BATTERY_LOW_INTERVAL),
            BatteryState::ExtremeLow => (Sound::BatteryExtremeLow, BATTERY_EXTREME_LOW_INTERVAL),
        };
        // An active alert loop and the flight itself both take precedence. The warning is not lost,
        // it is played once the buzzer is free again.
        if self.alert_loop.is_some() || !self.mode.is_before(FlightMode::Burn) {
            return ;
        }
        let due = match self.battery_warned_at {
            None => true,
            Some(warned_at) => now - warned_at >= interval,
        };
        if due {
            requests.push(Command::PlayOnce(sound));
            self.battery_warned_at = Some(now);
        }
    }
}

/// The hazard warning sounds from the moment the vehicle is pressurized until it lifts off or is
/// vented, and the beacon once it has landed: the loop always is that of the mode.
pub proof fn law_the_loop_is_that_of_the_mode(
    state: AlertState,
    mode: FlightMode,
    mv: Option<u16>,
    now: u64,
)
    requires
        state.alert_loop == loop_in(state.mode, state.pressurized),
    ensures
        ({
            let after = state.updated(mode, mv, now);
            &&& after.mode == mode
            &&& after.alert_loop == loop_in(mode, after.pressurized)
            &&& mode is Landed ==> after.alert_loop == Some(Sound::Landed)
            &&& mode is Pressurize && !(state.mode is Pressurize) ==> after.alert_loop == Some(
                Sound::Pressurized,
            )
            &&& (mode is Hold || mode is DetectLaunch || mode is Ignite) && state.pressurized
                ==> after.alert_loop == Some(Sound::Pressurized)
            &&& mode is Vent && !(state.mode is Vent) ==> after.alert_loop is None
            &&& mode is Burn && !(state.mode is Burn) ==> after.alert_loop is None
        }),
{
}

/// Every change of the mode is chirped, and nothing is asked for where nothing changed and no
/// battery warning is due.
pub proof fn law_every_mode_change_chirps(
    state: AlertState,
    mode: FlightMode,
    mv: Option<u16>,
    now: u64,
)
    ensures
        mode != state.mode <==> state.requests(mode, mv, now).contains(
            Command::PlayOnce(Sound::ModeChange),
        ),
{
    let requests = state.requests(mode, mv, now);
    let chirp = Command::PlayOnce(Sound::ModeChange);
    if mode != state.mode {
        let n = state.mode_requests(mode).len() - 1;
        assert(requests[n] == chirp);
    } else {
        assert forall|k: int| 0 <= k < requests.len() implies requests[k] != chirp by {}
    }
}

/// Battery warnings are muted while an alert loop is running, and after liftoff.
pub proof fn law_battery_warnings_are_muted(
    state: AlertState,
    mode: FlightMode,
    mv: Option<u16>,
    now: u64,
    warning: Command,
)
    requires
        warning == Command::PlayOnce(Sound::BatteryLow) || warning == Command::PlayOnce(
            Sound::BatteryExtremeLow,
        ),
        state.updated(mode, mv, now).alert_loop is Some || mode.is_airborne(),
    ensures
        !state.requests(mode, mv, now).contains(warning),
{
    let requests = state.requests(mode, mv, now);
    assert forall|k: int| 0 <= k < requests.len() implies requests[k] != warning by {}
}

/// What is thought of the battery only changes when the voltage has called for the same other state
/// for two seconds: an update that changes it finds it pending since then.
pub proof fn law_the_battery_is_debounced(
    state: AlertState,
    mode: FlightMode,
    mv: Option<u16>,
    now: u64,
)
    requires
        state.updated(mode, mv, now).battery != state.battery,
    ensures
        state.battery_pending is Some,
        (state.battery_pending->0).0 == state.updated(mode, mv, now).battery,
        now - (state.battery_pending->0).1 >= 2_000_000,
        mv is Some,
        called_for(state.battery, mv->0) == state.updated(mode, mv, now).battery,
{
}

/// While the state of the battery stays the same, two warnings are at least the interval apart.
pub proof fn law_battery_warnings_are_spaced(
    state: AlertState,
    mode: FlightMode,
    mv: Option<u16>,
    now: u64,
)
    requires
        state.battery_warned_at is Some,
        state.updated(mode, mv, now).battery == state.battery,
        state.sensed(mode, mv, now).warning(now) is Some,
    ensures
        now - state.battery_warned_at->0 >= if state.battery is ExtremeLow {
            10_000_000int
        } else {
            30_000_000int
        },
{
}

} // verus!

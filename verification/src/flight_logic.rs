//! Automatic flight mode transitions.
//!
//! All conditions must hold for a debounce duration, so that noise and glitches of the sensors do
//! not cause transitions.

use vstd::prelude::*;

use crate::modes::FlightMode;
use crate::params::{FailsafeParams, RecoveryParams};
use crate::single::{Single, ELEVEN_TENTHS_BITS, NINE_TENTHS_BITS, THREE_BITS};

pub mod flights;

verus! {

/// The acceleration of the vehicle in its own frame.
#[derive(Copy, Clone, Debug, PartialEq, Eq, Structural)]
pub struct Acceleration {
    /// Along the body Z axis.
    pub z: Single,
    /// The length of the acceleration vector.
    pub magnitude: Single,
}

/// The accelerations the flight logic compares with, derived from the gravity of earth.
#[derive(Copy, Clone, Debug, PartialEq, Eq, Structural)]
pub struct GravityLimits {
    gravity: Single,
    launch: Single,
    rest_min: Single,
    rest_max: Single,
}

/// The value can be the gravity of earth: it is positive, and neither tiny nor huge.
pub open spec fn is_gravity(value: Single) -> bool {
    value.is_factor() && value.exponent() >= 2
}

impl GravityLimits {
    #[verifier::type_invariant]
    spec fn inv(self) -> bool {
        &&& is_gravity(self.gravity)
        &&& self.launch == self.gravity.product(Single { bits: THREE_BITS })
        &&& self.rest_min == self.gravity.product(Single { bits: NINE_TENTHS_BITS })
        &&& self.rest_max == self.gravity.product(Single { bits: ELEVEN_TENTHS_BITS })
    }

    /// The gravity of earth.
    pub closed spec fn value(self) -> Single {
        self.gravity
    }

    /// Three times gravity.
    pub open spec fn launch_limit(self) -> Single {
        self.value().product(Single { bits: THREE_BITS })
    }

    /// Nine tenths of gravity.
    pub open spec fn rest_lower(self) -> Single {
        self.value().product(Single { bits: NINE_TENTHS_BITS })
    }

    /// Eleven tenths of gravity.
    pub open spec fn rest_upper(self) -> Single {
        self.value().product(Single { bits: ELEVEN_TENTHS_BITS })
    }

    /// The limits for this gravity.
    pub fn of(gravity: Single) -> (limits: Self)
        requires
            is_gravity(gravity),
        ensures
            limits.value() == gravity,
    {
        GravityLimits {
            gravity,
            launch: gravity.times(Single { bits: THREE_BITS }),
            rest_min: gravity.times(Single { bits: NINE_TENTHS_BITS }),
            rest_max: gravity.times(Single { bits: ELEVEN_TENTHS_BITS }),
        }
    }

    /// Whether the acceleration is that of a launch.
    pub fn is_launch(&self, acceleration: Single) -> (launch: bool)
        ensures
            launch == self.launch_limit().below(acceleration),
    {
        proof {
            use_type_invariant(self);
        }
        self.launch.is_below(acceleration)
    }

    /// Whether the acceleration is about that of a body at rest.
    pub fn is_rest(&self, acceleration: Single) -> (rest: bool)
        ensures
            rest == (self.rest_lower().at_most(acceleration) && acceleration.below(
                self.rest_upper(),
            )),
    {
        proof {
            use_type_invariant(self);
        }
        self.rest_min.is_at_most(acceleration) && acceleration.is_below(self.rest_max)
    }
}

/// What the state estimator knows, as far as the flight logic reads it.
#[derive(Copy, Clone, Debug, PartialEq, Eq, Structural)]
pub struct Estimate {
    pub acceleration: Option<Acceleration>,
    pub vertical_speed: Single,
    pub altitude_agl: Single,
    pub gravity: GravityLimits,
}

impl Estimate {
    /// The acceleration along the body Z axis, zero where it is unknown.
    pub open spec fn accel_z(self) -> Single {
        match self.acceleration {
            Some(a) => a.z,
            None => Single { bits: 0 },
        }
    }

    /// Thrust lifts the vehicle: more than three times gravity along the body Z axis.
    pub open spec fn lifting(self) -> bool {
        self.gravity.launch_limit().below(self.accel_z())
    }

    /// The motor is burnt out: the vehicle decelerates along the body Z axis.
    pub open spec fn decelerating(self) -> bool {
        self.accel_z().below(Single { bits: 0 })
    }

    /// The vehicle loses altitude.
    pub open spec fn falling(self) -> bool {
        self.vertical_speed.below(Single { bits: 0 })
    }

    /// The vehicle hardly moves up or down, and about one gravity is measured, if any is.
    pub open spec fn at_rest(self) -> bool {
        &&& self.acceleration matches Some(a) ==> self.gravity.rest_lower().at_most(a.magnitude)
            && a.magnitude.below(self.gravity.rest_upper())
        &&& self.vertical_speed.magnitude() < crate::single::ONE_BITS
    }

    fn accel_z_or_zero(&self) -> (z: Single)
        ensures
            z == self.accel_z(),
    {
        match self.acceleration {
            Some(a) => a.z,
            None => Single::zero(),
        }
    }

    fn is_at_rest(&self) -> (rest: bool)
        ensures
            rest == self.at_rest(),
    {
        let gravity_present = match self.acceleration {
            Some(a) => self.gravity.is_rest(a.magnitude),
            None => true,
        };
        gravity_present && self.vertical_speed.abs().is_below(Single::one())
    }
}

/// What the flight logic remembers.
pub struct LogicState {
    /// Time since which the current transition condition has been true
    pub condition_true_since: Option<u32>,
    /// Time at which the current mode was entered
    pub mode_time: u32,
    /// Time at which takeoff (Burn) was entered
    pub takeoff_time: u32,
    /// Time of the last ground station contact on any link
    pub last_uplink: u32,
}

/// The uplink is lost for longer than the timeout, which counts unless it is zero.
pub open spec fn timed_out(age: u32, timeout: u32) -> bool {
    timeout != 0 && age >= timeout
}

/// Where a lost uplink sends a vehicle on the ground: to `Vent` if that is due, else to `Idle` if
/// that is; nowhere if it is there already.
pub open spec fn failsafe_target(
    age: u32,
    mode: FlightMode,
    params: FailsafeParams,
) -> Option<FlightMode> {
    if timed_out(age, params.uplink_vent_timeout) {
        if mode is Vent {
            None
        } else {
            Some(FlightMode::Vent)
        }
    } else if timed_out(age, params.uplink_idle_timeout) {
        if mode is Idle {
            None
        } else {
            Some(FlightMode::Idle)
        }
    } else {
        None
    }
}

/// The condition that is debounced in this mode and for how many milliseconds it has to hold.
pub open spec fn debounced(
    mode: FlightMode,
    estimate: Estimate,
    params: RecoveryParams,
) -> Option<(bool, u32)> {
    match mode {
        FlightMode::DetectLaunch | FlightMode::Ignite => Some((estimate.lifting(), 50)),
        FlightMode::Burn => Some((estimate.decelerating(), 50)),
        FlightMode::Coast => Some((estimate.falling(), 500)),
        FlightMode::DeployDrogue => Some(
            (estimate.altitude_agl.below(params.main_deploy_altitude), 100),
        ),
        FlightMode::DeployMain => Some((estimate.at_rest(), 1000)),
        _ => None,
    }
}

/// Since when the condition has been true, given since when it was.
pub open spec fn true_since_after(since: Option<u32>, time: u32, cond: bool) -> Option<u32> {
    if !cond {
        None
    } else if since is None {
        Some(time)
    } else {
        since
    }
}

/// The condition has been true for more than `duration` milliseconds.
pub open spec fn held_for(since: Option<u32>, time: u32, duration: u32) -> bool {
    since matches Some(t) && time.wrapping_sub(t) > duration
}

impl LogicState {
    /// What is remembered after a condition was looked at.
    pub open spec fn checked(self, time: u32, cond: bool) -> LogicState {
        LogicState {
            condition_true_since: true_since_after(self.condition_true_since, time, cond),
            ..self
        }
    }

    /// What is remembered after ground station contact.
    pub open spec fn contacted(self, time: u32) -> LogicState {
        LogicState { last_uplink: time, ..self }
    }

    /// What is remembered after an update.
    pub open spec fn after_update(
        self,
        time: u32,
        mode: FlightMode,
        estimate: Estimate,
        params: RecoveryParams,
    ) -> LogicState {
        match debounced(mode, estimate, params) {
            Some((cond, _)) => self.checked(time, cond),
            None => self,
        }
    }

    /// The mode that an update asks for.
    pub open spec fn transition(
        self,
        time: u32,
        mode: FlightMode,
        estimate: Estimate,
        params: RecoveryParams,
        failsafe: FailsafeParams,
    ) -> Option<FlightMode> {
        let in_mode = time.wrapping_sub(self.mode_time);
        let since_takeoff = time.wrapping_sub(self.takeoff_time);
        let held = match debounced(mode, estimate, params) {
            Some((cond, duration)) => held_for(
                true_since_after(self.condition_true_since, time, cond),
                time,
                duration,
            ),
            None => false,
        };
        match mode {
            FlightMode::DetectLaunch | FlightMode::Ignite => if held {
                Some(FlightMode::Burn)
            } else {
                None
            },
            FlightMode::Burn => if held || since_takeoff > 15_000 {
                Some(FlightMode::Coast)
            } else {
                None
            },
            FlightMode::Coast => if (since_takeoff > params.min_time_to_drogue && held)
                || since_takeoff > 30_000 {
                Some(FlightMode::DeployDrogue)
            } else {
                None
            },
            FlightMode::DeployDrogue => if in_mode > params.min_time_to_main && held {
                Some(FlightMode::DeployMain)
            } else {
                None
            },
            FlightMode::DeployMain => if in_mode > 3000 && held {
                Some(FlightMode::Landed)
            } else {
                None
            },
            FlightMode::Landed => None,
            _ => failsafe_target(time.wrapping_sub(self.last_uplink), mode, failsafe),
        }
    }

    /// What is remembered after the mode was entered.
    pub open spec fn entered(self, time: u32, mode: FlightMode) -> LogicState {
        LogicState {
            condition_true_since: None,
            mode_time: time,
            takeoff_time: if mode is Burn {
                time
            } else {
                self.takeoff_time
            },
            ..self
        }
    }
}

/// Automatic flight mode transitions based on what the state estimator knows.
pub struct FlightLogic {
    condition_true_since: Option<u32>,
    mode_time: u32,
    takeoff_time: u32,
    last_uplink: u32,
}

impl View for FlightLogic {
    type V = LogicState;

    closed spec fn view(&self) -> LogicState {
        LogicState {
            condition_true_since: self.condition_true_since,
            mode_time: self.mode_time,
            takeoff_time: self.takeoff_time,
            last_uplink: self.last_uplink,
        }
    }
}

impl Default for FlightLogic {
    fn default() -> (logic: Self)
        ensures
            logic@ == (LogicState {
                condition_true_since: None,
                mode_time: 0,
                takeoff_time: 0,
                last_uplink: 0,
            }),
    {
        FlightLogic { condition_true_since: None, mode_time: 0, takeoff_time: 0, last_uplink: 0 }
    }
}

impl FlightLogic {
    /// Evaluate whether a mode transition should happen. Returns the new mode if a transition is
    /// warranted, or `None` to stay in the current mode.
    pub fn update(
        &mut self,
        time: u32,
        mode: FlightMode,
        estimate: &Estimate,
        params: &RecoveryParams,
        failsafe: &FailsafeParams,
    ) -> (new_mode: Option<FlightMode>)
        ensures
            new_mode == old(self)@.transition(time, mode, *estimate, *params, *failsafe),
            final(self)@ == old(self)@.after_update(time, mode, *estimate, *params),
    {
        let t_in_mode: u32 = time.wrapping_sub(self.mode_time);
        let t_since_takeoff: u32 = time.wrapping_sub(self.takeoff_time);

        if mode.is_before(FlightMode::DetectLaunch) {
            return self.uplink_failsafe(time, mode, failsafe);
        }
        let next = match mode {
            // Takeoff detection: sustained high acceleration along body Z axis
            FlightMode::DetectLaunch | FlightMode::Ignite => {
                let high_accel = estimate.gravity.is_launch(estimate.accel_z_or_zero());
                if self.true_since(time, high_accel, 50) {
                    Some(FlightMode::Burn)
                } else {
                    None
                }
            },
            // Wait for motor burnout (negative vehicle-frame Z accel = deceleration)
            FlightMode::Burn => {
                let slowing = estimate.accel_z_or_zero().is_below(Single::zero());
                let burnout = self.true_since(time, slowing, 50);
                let max_exceeded = t_since_takeoff > 15_000;  // safety timeout
                if burnout || max_exceeded {
                    Some(FlightMode::Coast)
                } else {
                    None
                }
            },
            // Apogee detection: sustained negative vertical speed
            FlightMode::Coast => {
                let sinking = estimate.vertical_speed.is_below(Single::zero());
                let falling = self.true_since(time, sinking, 500);
                let min_exceeded = t_since_takeoff > params.min_time_to_drogue;
                let max_exceeded = t_since_takeoff > 30_000;  // safety: 30s max coast
                if (min_exceeded && falling) || max_exceeded {
                    Some(FlightMode::DeployDrogue)
                } else {
                    None
                }
            },
            // Main chute deployment: below altitude threshold
            FlightMode::DeployDrogue => {
                let low = estimate.altitude_agl.is_below(params.main_deploy_altitude);
                let below_alt = self.true_since(time, low, 100);
                if t_in_mode > params.min_time_to_main && below_alt {
                    Some(FlightMode::DeployMain)
                } else {
                    None
                }
            },
            // Landing detection: near-zero vertical speed with ~1G present
            FlightMode::DeployMain => {
                let landed = self.true_since(time, estimate.is_at_rest(), 1000);
                if t_in_mode > 3000 && landed {
                    Some(FlightMode::Landed)
                } else {
                    None
                }
            },
            // No autonomous transition out of these.
            FlightMode::Idle
            | FlightMode::Landed
            | FlightMode::FillPressurant
            | FlightMode::FillOxidizer
            | FlightMode::Vent
            | FlightMode::Pressurize
            | FlightMode::Hold => None,
        };
        next
    }

    /// Must be called whenever ground station traffic is received on any link.
    pub fn note_uplink(&mut self, time: u32)
        ensures
            final(self)@ == old(self)@.contacted(time),
    {
        self.last_uplink = time;
    }

    /// Two-stage fallback to Idle (closing all valves), then Vent for a lost uplink on the ground
    fn uplink_failsafe(&self, time: u32, mode: FlightMode, params: &FailsafeParams) -> (target:
        Option<FlightMode>)
        ensures
            target == failsafe_target(time.wrapping_sub(self@.last_uplink), mode, *params),
    {
        let age: u32 = time.wrapping_sub(self.last_uplink);
        let idle_due = params.uplink_idle_timeout != 0 && age >= params.uplink_idle_timeout;
        let vent_due = params.uplink_vent_timeout != 0 && age >= params.uplink_vent_timeout;

        // Vent obviously beats Idle
        if vent_due {
            if mode != FlightMode::Vent {
                Some(FlightMode::Vent)
            } else {
                None
            }
        } else if idle_due {
            if mode != FlightMode::Idle {
                Some(FlightMode::Idle)
            } else {
                None
            }
        } else {
            None
        }
    }

    /// Must be called when the mode actually changes, to track mode timing.
    pub fn set_mode(&mut self, time: u32, new_mode: FlightMode)
        ensures
            final(self)@ == old(self)@.entered(time, new_mode),
    {
        self.mode_time = time;
        self.condition_true_since = None;
        if new_mode == FlightMode::Burn {
            self.takeoff_time = time;
        }
    }

    /// Returns true if `cond` has been continuously true for more than `duration` ms.
    pub fn true_since(&mut self, time: u32, cond: bool, duration: u32) -> (held: bool)
        ensures
            final(self)@ == old(self)@.checked(time, cond),
            held == held_for(final(self)@.condition_true_since, time, duration),
    {
        self.condition_true_since = match (cond, self.condition_true_since) {
            (true, None) => Some(time),
            (true, Some(t)) => Some(t),
            (false, _) => None,
        };
        match self.condition_true_since {
            Some(t) => time.wrapping_sub(t) > duration,
            None => false,
        }
    }
}

/// On the ground nothing but a lost uplink changes the mode, and only to `Idle` or `Vent`.
pub proof fn law_on_the_ground_only_the_failsafe_acts(
    state: LogicState,
    time: u32,
    mode: FlightMode,
    estimate: Estimate,
    params: RecoveryParams,
    failsafe: FailsafeParams,
)
    requires
        mode.is_ground(),
    ensures
        state.transition(time, mode, estimate, params, failsafe) == failsafe_target(
            time.wrapping_sub(state.last_uplink),
            mode,
            failsafe,
        ),
        state.transition(time, mode, estimate, params, failsafe) matches Some(next) ==> next is Idle
            || next is Vent,
{
}

/// Ground modes are held while the uplink is alive.
pub proof fn law_ground_modes_are_held_while_the_uplink_is_alive(
    state: LogicState,
    time: u32,
    mode: FlightMode,
    estimate: Estimate,
    params: RecoveryParams,
    failsafe: FailsafeParams,
)
    requires
        mode.is_ground(),
        failsafe.uplink_idle_timeout == 0 || time.wrapping_sub(state.last_uplink)
            < failsafe.uplink_idle_timeout,
        failsafe.uplink_vent_timeout == 0 || time.wrapping_sub(state.last_uplink)
            < failsafe.uplink_vent_timeout,
    ensures
        state.transition(time, mode, estimate, params, failsafe) is None,
{
}

/// Once the vent stage is due it beats the idle stage, and a vehicle that vents stays venting.
pub proof fn law_vent_beats_idle(
    state: LogicState,
    time: u32,
    mode: FlightMode,
    estimate: Estimate,
    params: RecoveryParams,
    failsafe: FailsafeParams,
)
    requires
        mode.is_ground(),
        timed_out(time.wrapping_sub(state.last_uplink), failsafe.uplink_vent_timeout),
    ensures
        state.transition(time, mode, estimate, params, failsafe) == if mode is Vent {
            None
        } else {
            Some(FlightMode::Vent)
        },
{
}

/// The failsafe does not apply once armed: from `DetectLaunch` on, neither the last contact nor
/// the timeouts make a difference, and no transition leads back to a ground mode.
pub proof fn law_failsafe_does_not_apply_once_armed(
    state: LogicState,
    last_uplink: u32,
    time: u32,
    mode: FlightMode,
    estimate: Estimate,
    params: RecoveryParams,
    failsafe: FailsafeParams,
    other: FailsafeParams,
)
    requires
        !mode.is_ground(),
    ensures
        state.transition(time, mode, estimate, params, failsafe) == (LogicState {
            last_uplink,
            ..state
        }).transition(time, mode, estimate, params, other),
        state.transition(time, mode, estimate, params, failsafe) matches Some(next)
            ==> !next.is_ground(),
{
}

/// From `DetectLaunch` on, automatic transitions only ever go forward in flight order.
pub proof fn law_flight_only_goes_forward(
    state: LogicState,
    time: u32,
    mode: FlightMode,
    estimate: Estimate,
    params: RecoveryParams,
    failsafe: FailsafeParams,
)
    requires
        !mode.is_ground(),
    ensures
        state.transition(time, mode, estimate, params, failsafe) matches Some(next)
            ==> mode.precedes(next),
{
}

/// Contact restarts the timeouts: right after it, and until a timeout has passed again, a ground
/// mode is held.
pub proof fn law_contact_resets_the_timeouts(
    state: LogicState,
    contact: u32,
    time: u32,
    mode: FlightMode,
    estimate: Estimate,
    params: RecoveryParams,
    failsafe: FailsafeParams,
)
    requires
        mode.is_ground(),
        !timed_out(time.wrapping_sub(contact), failsafe.uplink_idle_timeout),
        !timed_out(time.wrapping_sub(contact), failsafe.uplink_vent_timeout),
    ensures
        (LogicState { last_uplink: contact, ..state }).transition(
            time,
            mode,
            estimate,
            params,
            failsafe,
        ) is None,
{
}

/// A launch is only detected after the vehicle was found lifting in every update for more than
/// the debounce duration: one update that does not find it lifting starts the count again.
pub proof fn law_launch_needs_sustained_thrust(
    state: LogicState,
    time: u32,
    later: u32,
    mode: FlightMode,
    estimate: Estimate,
    next: Estimate,
    params: RecoveryParams,
    failsafe: FailsafeParams,
)
    requires
        mode is DetectLaunch || mode is Ignite,
        !estimate.lifting(),
    ensures
        state.transition(time, mode, estimate, params, failsafe) is None,
        state.after_update(time, mode, estimate, params).transition(
            later,
            mode,
            next,
            params,
            failsafe,
        ) is None,
{
}

/// The safety timeouts end the burn after 15 and the coast after 30 seconds of flight, whatever
/// the sensors say.
pub proof fn law_safety_timeouts(
    state: LogicState,
    time: u32,
    estimate: Estimate,
    params: RecoveryParams,
    failsafe: FailsafeParams,
)
    ensures
        time.wrapping_sub(state.takeoff_time) > 15_000 ==> state.transition(
            time,
            FlightMode::Burn,
            estimate,
            params,
            failsafe,
        ) == Some(FlightMode::Coast),
        time.wrapping_sub(state.takeoff_time) > 30_000 ==> state.transition(
            time,
            FlightMode::Coast,
            estimate,
            params,
            failsafe,
        ) == Some(FlightMode::DeployDrogue),
{
}

/// No parachute is deployed before its minimum time, except that the drogue is at the latest 30
/// seconds into the flight.
pub proof fn law_minimum_times(
    state: LogicState,
    time: u32,
    estimate: Estimate,
    params: RecoveryParams,
    failsafe: FailsafeParams,
)
    ensures
        state.transition(time, FlightMode::Coast, estimate, params, failsafe) is Some
            ==> time.wrapping_sub(state.takeoff_time) > params.min_time_to_drogue
            || time.wrapping_sub(state.takeoff_time) > 30_000,
        state.transition(time, FlightMode::DeployDrogue, estimate, params, failsafe) is Some
            ==> time.wrapping_sub(state.mode_time) > params.min_time_to_main,
{
}

/// What happens to the flight logic.
pub enum LogicEvent {
    /// A condition is looked at.
    Checked { time: u32, cond: bool },
    /// A mode is entered.
    Entered { time: u32, mode: FlightMode },
    /// A ground station is heard.
    Contacted { time: u32 },
}

impl LogicState {
    /// What is remembered after the event.
    pub open spec fn after(self, event: LogicEvent) -> LogicState {
        match event {
            LogicEvent::Checked { time, cond } => self.checked(time, cond),
            LogicEvent::Entered { time, mode } => self.entered(time, mode),
            LogicEvent::Contacted { time } => self.contacted(time),
        }
    }

    /// What is remembered after all events.
    pub open spec fn after_all(self, events: Seq<LogicEvent>) -> LogicState
        decreases events.len(),
    {
        if events.len() == 0 {
            self
        } else {
            self.after_all(events.drop_last()).after(events.last())
        }
    }
}

/// The event ends a run of calls with a true condition: the condition is false, or a mode is
/// entered.
pub open spec fn ends_run(event: LogicEvent) -> bool {
    match event {
        LogicEvent::Checked { cond, .. } => !cond,
        LogicEvent::Entered { .. } => true,
        LogicEvent::Contacted { .. } => false,
    }
}

/// A run of calls with a true condition starts at this event, and nothing has ended it since.
pub open spec fn runs_from(state: LogicState, events: Seq<LogicEvent>, start: int) -> bool {
    &&& 0 <= start < events.len()
    &&& events[start] matches LogicEvent::Checked { cond, .. } && cond
    &&& forall|i: int| start <= i < events.len() ==> !ends_run(#[trigger] events[i])
    // There is no run before it.
    &&& state.after_all(events.take(start)).condition_true_since is None
}

/// A condition counts from the first call of the present unbroken run of calls with a true
/// condition, however many follow: the start of the run never moves. The debounce is true once the
/// condition has held for strictly more than the duration, and false before that.
pub proof fn law_a_condition_counts_from_the_start_of_its_run(
    state: LogicState,
    events: Seq<LogicEvent>,
    start: int,
    duration: u32,
)
    requires
        runs_from(state, events, start),
    ensures
        ({
            let first = events[start]->Checked_time;
            let since = state.after_all(events).condition_true_since;
            &&& since == Some(first)
            &&& forall|time: u32| #[trigger]
                held_for(since, time, duration) <==> time.wrapping_sub(first) > duration
        }),
    decreases events.len(),
{
    let n = events.len() - 1;
    if start < n {
        let rest = events.drop_last();
        assert(rest.take(start) =~= events.take(start));
        assert forall|i: int| start <= i < rest.len() implies !ends_run(#[trigger] rest[i]) by {
            assert(rest[i] == events[i]);
        }
        assert(rest[start] == events[start]);
        law_a_condition_counts_from_the_start_of_its_run(state, rest, start, duration);
        assert(!ends_run(events[n]));
    } else {
        assert(events.take(start) =~= events.drop_last());
    }
}

/// A call with a false condition is false whatever came before it. It ends the run, as entering a
/// mode does: the next call with a true condition starts a new one.
pub proof fn law_a_run_ends(
    state: LogicState,
    events: Seq<LogicEvent>,
    ending: LogicEvent,
    time: u32,
    duration: u32,
)
    requires
        ends_run(ending),
    ensures
        ({
            let ended = state.after_all(events.push(ending));
            &&& ended.condition_true_since is None
            &&& !held_for(ended.condition_true_since, time, duration)
            &&& ended.checked(time, true).condition_true_since == Some(time)
            &&& runs_from(
                state,
                events.push(ending).push(LogicEvent::Checked { time, cond: true }),
                (events.len() + 1) as int,
            )
        }),
{
    let with_end = events.push(ending);
    assert(with_end.drop_last() =~= events);
    let with_start = with_end.push(LogicEvent::Checked { time, cond: true });
    assert(with_start.take(events.len() as int + 1) =~= with_end);
}

} // verus!

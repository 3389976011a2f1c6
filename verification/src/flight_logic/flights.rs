//! What the flight logic makes of a flight: of series of updates, from the entry of a mode on.

use vstd::prelude::*;

use crate::flight_logic::{debounced, Estimate, FlightLogic, GravityLimits, LogicState};
use crate::modes::FlightMode;
use crate::params::{FailsafeParams, RecoveryParams};
use crate::single::value::{
    is_about, is_number, law_below_zero_by_the_bits, law_comparisons_are_by_value,
    law_constants_have_their_values, law_products_are_rounded, unit, value,
};
use crate::single::{Single, ELEVEN_TENTHS_BITS, NINE_TENTHS_BITS, ONE_BITS, THREE_BITS};

verus! {

/// What the flight logic is told in one update.
pub struct Update {
    pub time: u32,
    pub estimate: Estimate,
}

/// What is remembered after the updates in this mode.
pub open spec fn after_updates(
    state: LogicState,
    mode: FlightMode,
    updates: Seq<Update>,
    params: RecoveryParams,
) -> LogicState
    decreases updates.len(),
{
    if updates.len() == 0 {
        state
    } else {
        after_updates(state, mode, updates.drop_last(), params).after_update(
            updates.last().time,
            mode,
            updates.last().estimate,
            params,
        )
    }
}

/// What the last of the updates in this mode asks for.
pub open spec fn asked(
    state: LogicState,
    mode: FlightMode,
    updates: Seq<Update>,
    params: RecoveryParams,
    failsafe: FailsafeParams,
) -> Option<FlightMode> {
    after_updates(state, mode, updates.drop_last(), params).transition(
        updates.last().time,
        mode,
        updates.last().estimate,
        params,
        failsafe,
    )
}

/// The condition holds in this update and in all that follow, and not in the one before.
pub open spec fn starts_run(
    updates: Seq<Update>,
    cond: spec_fn(Estimate) -> bool,
    start: int,
) -> bool {
    &&& 0 <= start < updates.len()
    &&& forall|i: int| start <= i < updates.len() ==> cond((#[trigger] updates[i]).estimate)
    &&& start > 0 ==> !cond(updates[start - 1].estimate)
}

/// The condition has held in every update up to the last one, for more than this many milliseconds.
pub open spec fn sustained(
    updates: Seq<Update>,
    cond: spec_fn(Estimate) -> bool,
    millis: int,
) -> bool {
    exists|start: int| #[trigger]
        starts_run(updates, cond, start) && elapsed(updates[start].time, updates.last().time)
            > millis
}

/// The milliseconds from one time to a later one. Times wrap around.
pub open spec fn elapsed(from: u32, to: u32) -> int {
    (to - from) % 0x1_0000_0000
}

/// In this mode the condition is debounced for this many milliseconds.
spec fn is_debounced(
    mode: FlightMode,
    updates: Seq<Update>,
    params: RecoveryParams,
    cond: spec_fn(Estimate) -> bool,
    millis: u32,
) -> bool {
    forall|i: int|
        0 <= i < updates.len() ==> debounced(mode, (#[trigger] updates[i]).estimate, params)
            == Some((cond(updates[i].estimate), millis))
}

/// There is one run at most.
proof fn lemma_one_run(updates: Seq<Update>, cond: spec_fn(Estimate) -> bool, a: int, b: int)
    requires
        starts_run(updates, cond, a),
        starts_run(updates, cond, b),
    ensures
        a == b,
{
    if a < b {
        assert(cond(updates[b - 1].estimate));
    } else if b < a {
        assert(cond(updates[a - 1].estimate));
    }
}

/// What is remembered of the condition is the start of its run.
proof fn lemma_run_is_remembered(
    state: LogicState,
    mode: FlightMode,
    updates: Seq<Update>,
    params: RecoveryParams,
    cond: spec_fn(Estimate) -> bool,
    millis: u32,
)
    requires
        state.condition_true_since is None,
        is_debounced(mode, updates, params, cond, millis),
    ensures
        ({
            let after = after_updates(state, mode, updates, params);
            &&& after.mode_time == state.mode_time
            &&& after.takeoff_time == state.takeoff_time
            &&& after.last_uplink == state.last_uplink
            &&& match after.condition_true_since {
                Some(t) => exists|start: int| #[trigger]
                    starts_run(updates, cond, start) && updates[start].time == t,
                None => updates.len() == 0 || !cond(updates.last().estimate),
            }
        }),
    decreases updates.len(),
{
    if updates.len() > 0 {
        let rest = updates.drop_last();
        let n = rest.len() as int;
        assert forall|i: int| 0 <= i < rest.len() implies debounced(
            mode,
            (#[trigger] rest[i]).estimate,
            params,
        ) == Some((cond(rest[i].estimate), millis)) by {
            assert(rest[i] == updates[i]);
        }
        lemma_run_is_remembered(state, mode, rest, params, cond, millis);
        let before = after_updates(state, mode, rest, params);
        let last = updates[n];
        if cond(last.estimate) {
            match before.condition_true_since {
                Some(t) => {
                    let start = choose|start: int| #[trigger]
                        starts_run(rest, cond, start) && rest[start].time == t;
                    assert forall|i: int| start <= i < updates.len() implies cond(
                        (#[trigger] updates[i]).estimate,
                    ) by {
                        if i < n {
                            assert(rest[i] == updates[i]);
                        }
                    }
                    assert(start > 0 ==> rest[start - 1] == updates[start - 1]);
                    assert(starts_run(updates, cond, start));
                },
                None => {
                    assert(n > 0 ==> rest.last() == updates[n - 1]);
                    assert(starts_run(updates, cond, n));
                },
            }
        }
    }
}

/// The debounce holds where the condition is sustained.
proof fn lemma_debounce(
    state: LogicState,
    mode: FlightMode,
    updates: Seq<Update>,
    params: RecoveryParams,
    cond: spec_fn(Estimate) -> bool,
    millis: u32,
)
    requires
        state.condition_true_since is None,
        updates.len() > 0,
        is_debounced(mode, updates, params, cond, millis),
    ensures
        ({
            let before = after_updates(state, mode, updates.drop_last(), params);
            let last = updates.last();
            let since = crate::flight_logic::true_since_after(
                before.condition_true_since,
                last.time,
                cond(last.estimate),
            );
            &&& crate::flight_logic::held_for(since, last.time, millis) == sustained(
                updates,
                cond,
                millis as int,
            )
            &&& before.mode_time == state.mode_time
            &&& before.takeoff_time == state.takeoff_time
            &&& before.last_uplink == state.last_uplink
        }),
{
    let rest = updates.drop_last();
    assert forall|i: int| 0 <= i < rest.len() implies debounced(
        mode,
        (#[trigger] rest[i]).estimate,
        params,
    ) == Some((cond(rest[i].estimate), millis)) by {
        assert(rest[i] == updates[i]);
    }
    lemma_run_is_remembered(state, mode, rest, params, cond, millis);
    lemma_run_is_remembered(state, mode, updates, params, cond, millis);
    let last = updates[updates.len() - 1];
    let after = after_updates(state, mode, updates, params);
    match after.condition_true_since {
        Some(t) => {
            let start = choose|start: int| #[trigger]
                starts_run(updates, cond, start) && updates[start].time == t;
            if sustained(updates, cond, millis as int) {
                let other = choose|start: int| #[trigger]
                    starts_run(updates, cond, start) && elapsed(
                        updates[start].time,
                        last.time,
                    ) > millis;
                lemma_one_run(updates, cond, start, other);
            }
        },
        None => {
            assert(!cond(last.estimate));
            if sustained(updates, cond, millis as int) {
                let other = choose|start: int| #[trigger]
                    starts_run(updates, cond, start) && elapsed(
                        updates[start].time,
                        last.time,
                    ) > millis;
                assert(cond(updates[updates.len() - 1].estimate));
            }
        },
    }
}

/// The value is a number below zero.
pub open spec fn is_negative(x: Single) -> bool {
    0x8000_0000 < x.bits <= 0xff80_0000
}

/// One number is lower than the other.
pub open spec fn is_lower(x: Single, y: Single) -> bool {
    is_number(x) && is_number(y) && value(x) < value(y)
}

/// The limits that accelerations are held against are three times, nine tenths and eleven tenths of
/// gravity.
pub proof fn law_limits_are_multiples_of_gravity(limits: GravityLimits)
    requires
        crate::flight_logic::is_gravity(limits.value()),
    ensures
        ({
            let g = value(limits.value());
            let near = |limit: Single, n: int, d: int|
                {
                    &&& is_number(limit)
                    &&& value(limit) > 0
                    &&& (value(limit) * d - g * n) * 1_000_000 <= g * n
                    &&& (g * n - value(limit) * d) * 1_000_000 <= g * n
                };
            &&& near(limits.launch_limit(), 3, 1)
            &&& near(limits.rest_lower(), 9, 10)
            &&& near(limits.rest_upper(), 11, 10)
        }),
{
    law_constants_have_their_values();
    let gravity = limits.value();
    lemma_near_multiple(gravity, Single { bits: THREE_BITS }, 3, 1);
    lemma_near_multiple(gravity, Single { bits: NINE_TENTHS_BITS }, 9, 10);
    lemma_near_multiple(gravity, Single { bits: ELEVEN_TENTHS_BITS }, 11, 10);
}

proof fn lemma_near_multiple(gravity: Single, factor: Single, n: int, d: int)
    requires
        crate::flight_logic::is_gravity(gravity),
        factor.is_factor(),
        126 <= factor.exponent() <= 179,
        d > 0,
        n > 0,
        is_about(factor, n, d) || value(factor) * d == n * unit(),
    ensures
        ({
            let limit = gravity.product(factor);
            let g = value(gravity);
            &&& is_number(limit)
            &&& value(limit) > 0
            &&& (value(limit) * d - g * n) * 1_000_000 <= g * n
            &&& (g * n - value(limit) * d) * 1_000_000 <= g * n
        }),
{
    law_products_are_rounded(gravity, factor);
    let (g, f, u, v) = (value(gravity), value(factor), unit(), value(gravity.product(factor)));
    vstd::arithmetic::power2::lemma_pow2_pos(149);
    law_comparisons_are_by_value(Single { bits: 0 }, gravity);
    law_below_zero_by_the_bits(gravity);
    law_comparisons_are_by_value(Single { bits: 0 }, factor);
    law_below_zero_by_the_bits(factor);
    assert(value(Single { bits: 0 }) == 0) by {
        reveal(crate::single::value::magnitude_value);
    }
    assert(g > 0);
    let fd = f * d;
    let nu = n * u;
    assert(nu > 0) by (nonlinear_arith)
        requires
            nu == n * u,
            n > 0,
            u > 0,
    ;
    assert((fd - nu) * 10_000_000 <= nu && (nu - fd) * 10_000_000 <= nu);
    // Both errors together are less than one part in a million.
    let e = g * f;
    let p = v * u;
    assert((p - e) * 10_000_000 <= e && (e - p) * 10_000_000 <= e) by {
        assert(e >= 0) by (nonlinear_arith)
            requires
                e == g * f,
                g > 0,
                f >= 0,
        ;
    }
    let ed = e * d;
    let pd = p * d;
    assert((pd - ed) * 10_000_000 <= ed && (ed - pd) * 10_000_000 <= ed) by (nonlinear_arith)
        requires
            pd == p * d,
            ed == e * d,
            (p - e) * 10_000_000 <= e,
            (e - p) * 10_000_000 <= e,
            d > 0,
    ;
    let gn = g * nu;
    assert(ed == g * fd) by (nonlinear_arith)
        requires
            ed == e * d,
            e == g * f,
            fd == f * d,
    ;
    assert((ed - gn) * 10_000_000 <= gn && (gn - ed) * 10_000_000 <= gn) by (nonlinear_arith)
        requires
            ed == g * fd,
            gn == g * nu,
            (fd - nu) * 10_000_000 <= nu,
            (nu - fd) * 10_000_000 <= nu,
            g > 0,
    ;
    assert((pd - gn) * 1_000_000 <= gn && (gn - pd) * 1_000_000 <= gn);
    let a = v * d;
    let b = g * n;
    assert(pd == a * u) by (nonlinear_arith)
        requires
            pd == p * d,
            p == v * u,
            a == v * d,
    ;
    assert(gn == b * u) by (nonlinear_arith)
        requires
            gn == g * nu,
            nu == n * u,
            b == g * n,
    ;
    assert((a - b) * 1_000_000 <= b && (b - a) * 1_000_000 <= b) by (nonlinear_arith)
        requires
            (a * u - b * u) * 1_000_000 <= b * u,
            (b * u - a * u) * 1_000_000 <= b * u,
            u > 0,
    ;
}

/// Takeoff is detected in `DetectLaunch` and `Ignite`, and there alone: once more than three times
/// gravity has been felt along the body Z axis in every update for more than 50 milliseconds.
pub proof fn law_takeoff_is_sustained_thrust(
    state: LogicState,
    entry: u32,
    mode: FlightMode,
    updates: Seq<Update>,
    params: RecoveryParams,
    failsafe: FailsafeParams,
)
    requires
        mode == FlightMode::DetectLaunch || mode == FlightMode::Ignite,
        updates.len() > 0,
        forall|i: int|
            0 <= i < updates.len() ==> crate::flight_logic::is_gravity(
                (#[trigger] updates[i]).estimate.gravity.value(),
            ),
    ensures
        ({
            let thrust = |e: Estimate|
                e.acceleration matches Some(a) && is_lower(e.gravity.launch_limit(), a.z);
            asked(state.entered(entry, mode), mode, updates, params, failsafe) == if sustained(
                updates,
                thrust,
                50,
            ) {
                Some(FlightMode::Burn)
            } else {
                None
            }
        }),
{
    let thrust = |e: Estimate|
        e.acceleration matches Some(a) && is_lower(e.gravity.launch_limit(), a.z);
    assert forall|i: int| 0 <= i < updates.len() implies debounced(
        mode,
        (#[trigger] updates[i]).estimate,
        params,
    ) == Some((thrust(updates[i].estimate), 50u32)) by {
        let e = updates[i].estimate;
        law_limits_are_multiples_of_gravity(e.gravity);
        law_comparisons_are_by_value(e.gravity.launch_limit(), e.accel_z());
        lemma_zero();
    }
    lemma_debounce(state.entered(entry, mode), mode, updates, params, thrust, 50);
}

proof fn lemma_zero()
    ensures
        value((Single { bits: 0 })) == 0,
        is_number((Single { bits: 0 })),
{
    reveal(crate::single::value::magnitude_value);
}

/// Burnout is detected once the vehicle has been slowing down along the body Z axis in every update
/// for more than 50 milliseconds, and at the latest 15 seconds after takeoff.
pub proof fn law_burnout_is_sustained_deceleration(
    state: LogicState,
    takeoff: u32,
    updates: Seq<Update>,
    params: RecoveryParams,
    failsafe: FailsafeParams,
)
    requires
        updates.len() > 0,
    ensures
        ({
            let slowing = |e: Estimate| e.acceleration matches Some(a) && is_negative(a.z);
            asked(
                state.entered(takeoff, FlightMode::Burn),
                FlightMode::Burn,
                updates,
                params,
                failsafe,
            ) == if sustained(updates, slowing, 50) || elapsed(takeoff, updates.last().time)
                > 15_000 {
                Some(FlightMode::Coast)
            } else {
                None
            }
        }),
{
    let slowing = |e: Estimate| e.acceleration matches Some(a) && is_negative(a.z);
    assert forall|i: int| 0 <= i < updates.len() implies debounced(
        FlightMode::Burn,
        (#[trigger] updates[i]).estimate,
        params,
    ) == Some((slowing(updates[i].estimate), 50u32)) by {
        let e = updates[i].estimate;
        law_below_zero_by_the_bits(e.accel_z());
    }
    lemma_debounce(
        state.entered(takeoff, FlightMode::Burn),
        FlightMode::Burn,
        updates,
        params,
        slowing,
        50,
    );
}

/// Apogee is detected once the vertical speed has been below zero in every update for more than 500
/// milliseconds, but not before the minimum time since takeoff has passed. The drogue is deployed
/// then, and at the latest 30 seconds after takeoff. While the vehicle climbs or the time is short
/// of both, it stays in `Coast`.
pub proof fn law_apogee_is_sustained_falling(
    state: LogicState,
    takeoff: u32,
    burn: Seq<Update>,
    burnout: u32,
    updates: Seq<Update>,
    params: RecoveryParams,
    failsafe: FailsafeParams,
)
    requires
        updates.len() > 0,
    ensures
        ({
            let falling = |e: Estimate| is_negative(e.vertical_speed);
            let coasting = after_updates(
                state.entered(takeoff, FlightMode::Burn),
                FlightMode::Burn,
                burn,
                params,
            ).entered(burnout, FlightMode::Coast);
            let in_flight = elapsed(takeoff, updates.last().time);
            asked(coasting, FlightMode::Coast, updates, params, failsafe) == if in_flight > 30_000
                || (in_flight > params.min_time_to_drogue && sustained(updates, falling, 500)) {
                Some(FlightMode::DeployDrogue)
            } else {
                None
            }
        }),
{
    let falling = |e: Estimate| is_negative(e.vertical_speed);
    let launched = state.entered(takeoff, FlightMode::Burn);
    lemma_updates_keep_times(launched, FlightMode::Burn, burn, params);
    let coasting = after_updates(launched, FlightMode::Burn, burn, params).entered(
        burnout,
        FlightMode::Coast,
    );
    assert forall|i: int| 0 <= i < updates.len() implies debounced(
        FlightMode::Coast,
        (#[trigger] updates[i]).estimate,
        params,
    ) == Some((falling(updates[i].estimate), 500u32)) by {
        let e = updates[i].estimate;
        law_below_zero_by_the_bits(e.vertical_speed);
    }
    lemma_debounce(coasting, FlightMode::Coast, updates, params, falling, 500);
}

/// In any state and whatever came before: a transition out of `Coast` within 30 seconds of takeoff
/// means that the vehicle falls in this very update, and one that does not find it falling asks for
/// nothing and starts the count again.
pub proof fn law_no_drogue_while_climbing(
    state: LogicState,
    time: u32,
    estimate: Estimate,
    params: RecoveryParams,
    failsafe: FailsafeParams,
)
    requires
        elapsed(state.takeoff_time, time) <= 30_000,
        !is_negative(estimate.vertical_speed),
    ensures
        state.transition(time, FlightMode::Coast, estimate, params, failsafe) is None,
        state.after_update(time, FlightMode::Coast, estimate, params).condition_true_since is None,
{
    law_below_zero_by_the_bits(estimate.vertical_speed);
}

proof fn lemma_updates_keep_times(
    state: LogicState,
    mode: FlightMode,
    updates: Seq<Update>,
    params: RecoveryParams,
)
    ensures
        ({
            let after = after_updates(state, mode, updates, params);
            &&& after.mode_time == state.mode_time
            &&& after.takeoff_time == state.takeoff_time
            &&& after.last_uplink == state.last_uplink
        }),
    decreases updates.len(),
{
    if updates.len() > 0 {
        lemma_updates_keep_times(state, mode, updates.drop_last(), params);
    }
}

/// The main parachute is deployed once the vehicle has been lower than the altitude for it in every
/// update for more than 100 milliseconds, but not before the drogue has been out for the minimum
/// time.
pub proof fn law_main_is_deployed_low(
    state: LogicState,
    entry: u32,
    updates: Seq<Update>,
    params: RecoveryParams,
    failsafe: FailsafeParams,
)
    requires
        updates.len() > 0,
    ensures
        ({
            let low = |e: Estimate| is_lower(e.altitude_agl, params.main_deploy_altitude);
            asked(
                state.entered(entry, FlightMode::DeployDrogue),
                FlightMode::DeployDrogue,
                updates,
                params,
                failsafe,
            ) == if elapsed(entry, updates.last().time) > params.min_time_to_main && sustained(
                updates,
                low,
                100,
            ) {
                Some(FlightMode::DeployMain)
            } else {
                None
            }
        }),
{
    let low = |e: Estimate| is_lower(e.altitude_agl, params.main_deploy_altitude);
    assert forall|i: int| 0 <= i < updates.len() implies debounced(
        FlightMode::DeployDrogue,
        (#[trigger] updates[i]).estimate,
        params,
    ) == Some((low(updates[i].estimate), 100u32)) by {
        let e = updates[i].estimate;
        law_comparisons_are_by_value(e.altitude_agl, params.main_deploy_altitude);
    }
    lemma_debounce(
        state.entered(entry, FlightMode::DeployDrogue),
        FlightMode::DeployDrogue,
        updates,
        params,
        low,
        100,
    );
}

/// Landing is detected once the vehicle has been still in every update for more than a second: it
/// moves up or down by less than one meter per second, and what it feels is one gravity within a
/// tenth, where that is known. The main parachute must have been out for more than three seconds.
pub proof fn law_landing_is_sustained_rest(
    state: LogicState,
    entry: u32,
    updates: Seq<Update>,
    params: RecoveryParams,
    failsafe: FailsafeParams,
)
    requires
        updates.len() > 0,
    ensures
        ({
            let still = |e: Estimate|
                {
                    &&& is_number(e.vertical_speed)
                    &&& -unit() < value(e.vertical_speed) < unit()
                    &&& e.acceleration matches Some(a) ==> is_lower(
                        a.magnitude,
                        e.gravity.rest_upper(),
                    ) && is_number(e.gravity.rest_lower()) && !is_lower(
                        a.magnitude,
                        e.gravity.rest_lower(),
                    )
                };
            asked(
                state.entered(entry, FlightMode::DeployMain),
                FlightMode::DeployMain,
                updates,
                params,
                failsafe,
            ) == if elapsed(entry, updates.last().time) > 3000 && sustained(updates, still, 1000) {
                Some(FlightMode::Landed)
            } else {
                None
            }
        }),
{
    let still = |e: Estimate|
        {
            &&& is_number(e.vertical_speed)
            &&& -unit() < value(e.vertical_speed) < unit()
            &&& e.acceleration matches Some(a) ==> is_lower(a.magnitude, e.gravity.rest_upper())
                && is_number(e.gravity.rest_lower()) && !is_lower(
                a.magnitude,
                e.gravity.rest_lower(),
            )
        };
    assert forall|i: int| 0 <= i < updates.len() implies debounced(
        FlightMode::DeployMain,
        (#[trigger] updates[i]).estimate,
        params,
    ) == Some((still(updates[i].estimate), 1000u32)) by {
        let e = updates[i].estimate;
        let speed = e.vertical_speed;
        law_constants_have_their_values();
        law_comparisons_are_by_value(speed, Single { bits: ONE_BITS });
        law_comparisons_are_by_value(speed.negated(), Single { bits: ONE_BITS });
        crate::single::value::law_negation_is_by_value(speed);
        lemma_zero();
        law_comparisons_are_by_value(speed, Single { bits: 0 });
        vstd::arithmetic::power2::lemma_pow2_pos(149);
        if let Some(a) = e.acceleration {
            law_comparisons_are_by_value(a.magnitude, e.gravity.rest_upper());
            law_comparisons_are_by_value(e.gravity.rest_lower(), a.magnitude);
            law_comparisons_are_by_value(a.magnitude, e.gravity.rest_lower());
        }
    }
    lemma_debounce(
        state.entered(entry, FlightMode::DeployMain),
        FlightMode::DeployMain,
        updates,
        params,
        still,
        1000,
    );
}

/// A lost uplink sends a vehicle on the pad to `Idle` and then to `Vent`, each once the ground has
/// not been heard for its timeout, where that is not zero. Nothing else changes the mode there, and
/// contact starts the count again.
pub proof fn law_a_lost_uplink_makes_the_vehicle_safe(
    state: LogicState,
    contact: u32,
    entry: u32,
    mode: FlightMode,
    updates: Seq<Update>,
    params: RecoveryParams,
    failsafe: FailsafeParams,
)
    requires
        updates.len() > 0,
        mode == FlightMode::Idle || mode == FlightMode::FillPressurant || mode
            == FlightMode::FillOxidizer || mode == FlightMode::Vent || mode
            == FlightMode::Pressurize || mode == FlightMode::Hold,
    ensures
        ({
            let next = asked(
                state.contacted(contact).entered(entry, mode),
                mode,
                updates,
                params,
                failsafe,
            );
            let silence = elapsed(contact, updates.last().time);
            let (idle, vent) = (failsafe.uplink_idle_timeout, failsafe.uplink_vent_timeout);
            &&& next == Some(FlightMode::Vent) <==> mode != FlightMode::Vent && 0 < vent
                <= silence
            &&& next == Some(FlightMode::Idle) <==> mode != FlightMode::Idle && 0 < idle
                <= silence && !(0 < vent <= silence)
            &&& next matches Some(target) ==> target == FlightMode::Vent || target
                == FlightMode::Idle
        }),
{
    lemma_updates_keep_times(
        state.contacted(contact).entered(entry, mode),
        mode,
        updates.drop_last(),
        params,
    );
}

/// A vehicle that has landed stays landed.
pub proof fn law_landed_is_final(
    state: LogicState,
    time: u32,
    estimate: Estimate,
    params: RecoveryParams,
    failsafe: FailsafeParams,
)
    ensures
        state.transition(time, FlightMode::Landed, estimate, params, failsafe) is None,
{
}

/// The ground modes come first, then those on the way to liftoff, then those of the flight in its
/// order.
pub proof fn law_modes_are_in_flight_order(mode: FlightMode)
    ensures
        mode.is_ground() <==> (mode == FlightMode::Idle || mode == FlightMode::FillPressurant
            || mode == FlightMode::FillOxidizer || mode == FlightMode::Vent || mode
            == FlightMode::Pressurize || mode == FlightMode::Hold),
        mode.is_airborne() <==> (mode == FlightMode::Burn || mode == FlightMode::Coast || mode
            == FlightMode::DeployDrogue || mode == FlightMode::DeployMain || mode
            == FlightMode::Landed),
        FlightMode::DetectLaunch.precedes(FlightMode::Ignite),
        FlightMode::Ignite.precedes(FlightMode::Burn),
        FlightMode::Burn.precedes(FlightMode::Coast),
        FlightMode::Coast.precedes(FlightMode::DeployDrogue),
        FlightMode::DeployDrogue.precedes(FlightMode::DeployMain),
        FlightMode::DeployMain.precedes(FlightMode::Landed),
        mode.precedes(FlightMode::Landed) || mode == FlightMode::Landed,
{
}

/// An update of the flight logic in `Coast`: within 30 seconds of takeoff, the drogue is only asked
/// for where the vehicle falls in this update and is known to have fallen for more than half a
/// second; and then it is, once the minimum time has passed.
pub proof fn law_an_update_in_coast(
    logic: &mut FlightLogic,
    time: u32,
    estimate: &Estimate,
    params: &RecoveryParams,
    failsafe: &FailsafeParams,
    next: Option<FlightMode>,
)
    requires
        call_ensures(
            FlightLogic::update,
            (logic, time, FlightMode::Coast, estimate, params, failsafe),
            next,
        ),
        elapsed((*old(logic))@.takeoff_time, time) <= 30_000,
    ensures
        next == Some(FlightMode::DeployDrogue) <==> {
            &&& is_negative(estimate.vertical_speed)
            &&& (*old(logic))@.condition_true_since matches Some(since) && elapsed(since, time)
                > 500
            &&& elapsed((*old(logic))@.takeoff_time, time) > params.min_time_to_drogue
        },
        next is None || next == Some(FlightMode::DeployDrogue),
        (*final(logic))@.condition_true_since == if is_negative(estimate.vertical_speed) {
            match (*old(logic))@.condition_true_since {
                Some(since) => Some(since),
                None => Some(time),
            }
        } else {
            None
        },
{
    law_below_zero_by_the_bits(estimate.vertical_speed);
}

/// An update in any mode gives what the series of updates amounts to, and remembers as much.
pub proof fn law_an_update_goes_by_the_series(
    logic: &mut FlightLogic,
    state: LogicState,
    mode: FlightMode,
    updates: Seq<Update>,
    params: &RecoveryParams,
    failsafe: &FailsafeParams,
    next: Option<FlightMode>,
)
    requires
        updates.len() > 0,
        (*old(logic))@ == after_updates(state, mode, updates.drop_last(), *params),
        call_ensures(
            FlightLogic::update,
            (logic, updates.last().time, mode, &updates.last().estimate, params, failsafe),
            next,
        ),
    ensures
        next == asked(state, mode, updates, *params, *failsafe),
        (*final(logic))@ == after_updates(state, mode, updates, *params),
{
}

/// Entering a mode starts its time and all conditions anew; entering `Burn` is takeoff. Contact with
/// the ground is remembered.
pub proof fn law_what_entering_a_mode_starts(
    logic: &mut FlightLogic,
    heard: &mut FlightLogic,
    time: u32,
    mode: FlightMode,
)
    requires
        call_ensures(FlightLogic::set_mode, (logic, time, mode), ()),
        call_ensures(FlightLogic::note_uplink, (heard, time), ()),
    ensures
        (*final(logic))@.mode_time == time,
        (*final(logic))@.condition_true_since is None,
        (*final(logic))@.takeoff_time == if mode == FlightMode::Burn {
            time
        } else {
            (*old(logic))@.takeoff_time
        },
        (*final(logic))@.last_uplink == (*old(logic))@.last_uplink,
        (*final(heard))@.last_uplink == time,
        (*final(heard))@.mode_time == (*old(heard))@.mode_time,
        (*final(heard))@.takeoff_time == (*old(heard))@.takeoff_time,
        (*final(heard))@.condition_true_since == (*old(heard))@.condition_true_since,
{
}

} // verus!

use zenith::flight_logic::{Acceleration, Estimate, FlightLogic, GravityLimits};
use zenith::modes::FlightMode;
use zenith::modes::FlightMode as M;
use zenith::params::{FailsafeParams, RecoveryParams};
use zenith::single::Single;

const IDLE_TIMEOUT: u32 = 10_000;
const VENT_TIMEOUT: u32 = 120_000;
const GRAVITY: f32 = 9.80665;

fn single(value: f32) -> Single {
    Single::from_bits(value.to_bits())
}

fn estimate(accel_z: Option<f32>, vertical_speed: f32, altitude_agl: f32) -> Estimate {
    Estimate {
        acceleration: accel_z.map(|z| Acceleration {
            z: single(z),
            magnitude: single(z.abs()),
        }),
        vertical_speed: single(vertical_speed),
        altitude_agl: single(altitude_agl),
        gravity: GravityLimits::of(single(GRAVITY)),
    }
}

fn failsafe_params() -> FailsafeParams {
    FailsafeParams {
        uplink_idle_timeout: IDLE_TIMEOUT,
        uplink_vent_timeout: VENT_TIMEOUT,
    }
}

/// The ground modes the failsafe applies in.
fn ground_modes() -> Vec<FlightMode> {
    M::ALL
        .into_iter()
        .filter(|m| m.is_before(M::DetectLaunch))
        .collect()
}

/// `update` for tests that only care about the failsafe.
fn update(
    logic: &mut FlightLogic,
    now: u32,
    mode: FlightMode,
    params: &FailsafeParams,
) -> Option<FlightMode> {
    logic.update(
        now,
        mode,
        &estimate(None, 0.0, 0.0),
        &RecoveryParams::default(),
        params,
    )
}

#[test]
fn ground_modes_are_held_while_the_uplink_is_alive() {
    let params = failsafe_params();

    for mode in ground_modes() {
        let mut logic = FlightLogic::default();
        for t in (0..10 * VENT_TIMEOUT).step_by(1000) {
            logic.note_uplink(t);
            assert_eq!(
                update(&mut logic, t, mode, &params),
                None,
                "transitioned out of {mode:?} at t={t} despite a live uplink"
            );
        }
    }
}

#[test]
fn uplink_loss_falls_back_to_idle_after_the_configured_timeout() {
    let params = failsafe_params();

    for mode in ground_modes().into_iter().filter(|m| *m != M::Idle) {
        let mut logic = FlightLogic::default();
        logic.note_uplink(5000);

        assert_eq!(
            update(&mut logic, 5000 + IDLE_TIMEOUT - 1, mode, &params),
            None
        );
        assert_eq!(
            update(&mut logic, 5000 + IDLE_TIMEOUT, mode, &params),
            Some(M::Idle),
            "{mode:?} did not fall back to Idle"
        );
    }
}

#[test]
fn idle_is_stable_until_the_vent_timeout() {
    let params = failsafe_params();
    let mut logic = FlightLogic::default();

    for t in (IDLE_TIMEOUT..VENT_TIMEOUT).step_by(1000) {
        assert_eq!(update(&mut logic, t, M::Idle, &params), None, "at t={t}");
    }
    assert_eq!(
        update(&mut logic, VENT_TIMEOUT, M::Idle, &params),
        Some(M::Vent)
    );
}

#[test]
fn sustained_uplink_loss_escalates_to_vent_and_stays_there() {
    let params = failsafe_params();
    let mut logic = FlightLogic::default();

    assert_eq!(update(&mut logic, VENT_TIMEOUT - 1, M::Idle, &params), None);
    assert_eq!(
        update(&mut logic, VENT_TIMEOUT, M::Idle, &params),
        Some(M::Vent)
    );

    // Once vented, the idle stage must not pull the vehicle back out of Vent.
    for t in (VENT_TIMEOUT..10 * VENT_TIMEOUT).step_by(1000) {
        assert_eq!(update(&mut logic, t, M::Vent, &params), None, "at t={t}");
    }
}

#[test]
fn the_timeouts_run_from_boot_without_any_contact() {
    let params = failsafe_params();
    let mut logic = FlightLogic::default();

    assert_eq!(
        update(&mut logic, IDLE_TIMEOUT, M::Hold, &params),
        Some(M::Idle)
    );
}

#[test]
fn contact_resets_the_timeouts() {
    let params = failsafe_params();
    let mut logic = FlightLogic::default();

    assert_eq!(
        update(&mut logic, IDLE_TIMEOUT - 1, M::Pressurize, &params),
        None
    );
    logic.note_uplink(IDLE_TIMEOUT - 1);
    assert_eq!(
        update(&mut logic, 2 * IDLE_TIMEOUT - 2, M::Pressurize, &params),
        None
    );
    assert_eq!(
        update(&mut logic, 2 * IDLE_TIMEOUT - 1, M::Pressurize, &params),
        Some(M::Idle)
    );
}

#[test]
fn a_zero_timeout_disables_its_stage() {
    let mut logic = FlightLogic::default();

    let vent_only = FailsafeParams {
        uplink_idle_timeout: 0,
        uplink_vent_timeout: VENT_TIMEOUT,
    };
    assert_eq!(
        update(&mut logic, VENT_TIMEOUT - 1, M::FillOxidizer, &vent_only),
        None
    );
    assert_eq!(
        update(&mut logic, VENT_TIMEOUT, M::FillOxidizer, &vent_only),
        Some(M::Vent)
    );

    let idle_only = FailsafeParams {
        uplink_idle_timeout: IDLE_TIMEOUT,
        uplink_vent_timeout: 0,
    };
    assert_eq!(
        update(&mut logic, IDLE_TIMEOUT, M::FillOxidizer, &idle_only),
        Some(M::Idle)
    );
    assert_eq!(
        update(&mut logic, 10 * VENT_TIMEOUT, M::Idle, &idle_only),
        None
    );

    let disabled = FailsafeParams {
        uplink_idle_timeout: 0,
        uplink_vent_timeout: 0,
    };
    for mode in ground_modes() {
        assert_eq!(
            update(&mut logic, 10 * VENT_TIMEOUT, mode, &disabled),
            None,
            "{mode:?}"
        );
    }
}

#[test]
fn the_failsafe_does_not_apply_once_armed() {
    let params = failsafe_params();
    let mut logic = FlightLogic::default();

    // Landed sits above DetectLaunch as well, and already vents via the valve controller. The
    // in-flight modes have their own timeouts, so only the failsafe targets are ruled out.
    for mode in [M::DetectLaunch, M::Ignite, M::Burn, M::Coast, M::Landed] {
        let new_mode = update(&mut logic, 10 * VENT_TIMEOUT, mode, &params);
        assert!(
            !matches!(new_mode, Some(M::Idle | M::Vent)),
            "{mode:?} was overridden by the uplink failsafe: {new_mode:?}"
        );
    }
}

#[test]
fn the_failsafe_does_not_disturb_the_launch_debounce() {
    let params = failsafe_params();
    let mut logic = FlightLogic::default();

    // No uplink at all, and the vehicle is armed: launch detection has to work regardless.
    for t in 0..100u32 {
        let new_mode = logic.update(
            t,
            M::DetectLaunch,
            &estimate(Some(5.0 * GRAVITY), 0.0, 0.0),
            &RecoveryParams::default(),
            &params,
        );
        assert_eq!(new_mode, (t > 50).then_some(M::Burn), "at t={t}");
    }
}

#[test]
fn an_interrupted_condition_starts_over() {
    let params = failsafe_params();
    let recovery = RecoveryParams::default();
    let mut logic = FlightLogic::default();
    let thrust = estimate(Some(5.0 * GRAVITY), 0.0, 0.0);
    let rest = estimate(Some(GRAVITY), 0.0, 0.0);

    for t in 0..40 {
        assert_eq!(
            logic.update(t, M::DetectLaunch, &thrust, &recovery, &params),
            None
        );
    }
    assert_eq!(
        logic.update(40, M::DetectLaunch, &rest, &recovery, &params),
        None
    );
    for t in 41..=91 {
        assert_eq!(
            logic.update(t, M::DetectLaunch, &thrust, &recovery, &params),
            None,
            "at t={t}"
        );
    }
    assert_eq!(
        logic.update(92, M::DetectLaunch, &thrust, &recovery, &params),
        Some(M::Burn)
    );
}

#[test]
fn the_backup_timers_end_the_burn_and_deploy_the_drogue() {
    let params = failsafe_params();
    let recovery = RecoveryParams::default();
    let mut logic = FlightLogic::default();
    // Climbing under thrust, so that no condition of its own ends the mode.
    let climbing = estimate(Some(5.0 * GRAVITY), 100.0, 1000.0);

    logic.set_mode(1000, M::Burn);
    assert_eq!(
        logic.update(16_000, M::Burn, &climbing, &recovery, &params),
        None
    );
    assert_eq!(
        logic.update(16_001, M::Burn, &climbing, &recovery, &params),
        Some(M::Coast)
    );
    logic.set_mode(16_001, M::Coast);
    assert_eq!(
        logic.update(31_000, M::Coast, &climbing, &recovery, &params),
        None
    );
    assert_eq!(
        logic.update(31_001, M::Coast, &climbing, &recovery, &params),
        Some(M::DeployDrogue)
    );
}

#[test]
fn the_main_parachute_waits_for_its_altitude_and_time() {
    let params = failsafe_params();
    let recovery = RecoveryParams::default();
    let mut logic = FlightLogic::default();
    logic.set_mode(0, M::DeployDrogue);

    let high = estimate(None, -10.0, 400.0);
    let low = estimate(None, -10.0, 399.0);
    for t in 0..4000 {
        assert_eq!(
            logic.update(t, M::DeployDrogue, &high, &recovery, &params),
            None
        );
    }
    // Below 400 m, and for more than 100 ms.
    for t in 4000..=4100 {
        assert_eq!(
            logic.update(t, M::DeployDrogue, &low, &recovery, &params),
            None
        );
    }
    assert_eq!(
        logic.update(4101, M::DeployDrogue, &low, &recovery, &params),
        Some(M::DeployMain)
    );
    // Not before three seconds have passed in the mode.
    logic.set_mode(10_000, M::DeployDrogue);
    for t in 10_000..=13_000 {
        assert_eq!(
            logic.update(t, M::DeployDrogue, &low, &recovery, &params),
            None
        );
    }
    assert_eq!(
        logic.update(13_001, M::DeployDrogue, &low, &recovery, &params),
        Some(M::DeployMain)
    );
}

#[test]
fn a_condition_counts_from_the_start_of_its_run() {
    let mut logic = FlightLogic::default();
    // The run starts before the clock wraps around.
    let start = u32::MAX - 20;
    assert!(!logic.true_since(start, true, 50));
    for elapsed in [1, 20, 21, 49, 50] {
        assert!(!logic.true_since(start.wrapping_add(elapsed), true, 50));
    }
    assert!(logic.true_since(start.wrapping_add(51), true, 50));
    assert!(logic.true_since(start.wrapping_add(500), true, 50));
    // A false condition ends the run.
    assert!(!logic.true_since(1000, false, 50));
    assert!(!logic.true_since(1001, true, 50));
    assert!(!logic.true_since(1051, true, 50));
    assert!(logic.true_since(1052, true, 50));
    // So does entering a mode, but not ground station contact.
    logic.note_uplink(1053);
    assert!(logic.true_since(1054, true, 50));
    logic.set_mode(1055, M::Coast);
    assert!(!logic.true_since(1056, true, 50));
}

#[test]
fn the_limits_are_fractions_of_gravity() {
    let limits = GravityLimits::of(single(GRAVITY));
    let launch = 3.0 * GRAVITY;
    assert!(!limits.is_launch(single(launch)));
    assert!(limits.is_launch(single(f32::from_bits(launch.to_bits() + 1))));
    let (low, high) = (GRAVITY * 0.9, GRAVITY * 1.1);
    assert!(limits.is_rest(single(low)));
    assert!(!limits.is_rest(single(f32::from_bits(low.to_bits() - 1))));
    assert!(limits.is_rest(single(f32::from_bits(high.to_bits() - 1))));
    assert!(!limits.is_rest(single(high)));
}

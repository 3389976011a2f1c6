use zenith::bus::ValveState;
use zenith::inventory::{InventoryId, ValveId as V};
use zenith::modes::FlightMode as M;
use zenith::single::{Single, TimeSpan};
use zenith::valves::{ValveCommand, ValveController, ValveError, MAX_PULSE_MILLIS};

fn open() -> ValveState {
    ValveState::fully_open()
}

fn closed() -> ValveState {
    ValveState::fully_closed()
}

fn single(value: f32) -> Single {
    Single::from_bits(value.to_bits())
}

fn partial(value: f32) -> ValveCommand {
    ValveCommand::Partial(single(value))
}

fn pulse(millis: u64) -> ValveCommand {
    ValveCommand::PulseOpen(TimeSpan::from_millis(millis))
}

#[test]
fn every_mode_except_hold_asserts_every_valve() {
    let mut c = ValveController::new();
    for mode in M::ALL {
        c.set_mode(mode);
        for valve in V::ALL {
            assert_eq!(
                c.mode_valve_state(valve).is_none(),
                mode == M::Hold,
                "mode {mode:?} valve {valve:?}"
            );
        }
    }
}

#[test]
fn pulse_returns_control_to_mode_policy_after_expiry() {
    let mut c = ValveController::new();
    c.set_mode(M::FillOxidizer);

    c.try_command(V::OxidizerVent, pulse(500), 1000).unwrap();

    // During the pulse the vent is open, afterwards FillOxidizer's policy (closed) resumes.
    assert!(c.resolve(1400)[V::OxidizerVent] == open());
    assert!(c.resolve(1600)[V::OxidizerVent] == closed());
    // The mode policy is untouched by all this.
    assert!(c.resolve(1600)[V::OxidizerFill] == open());
}

#[test]
fn pulse_in_hold_restores_the_setpoints_from_entry() {
    let mut c = ValveController::new();

    // FillOxidizer, with a manually opened pressurant vent.
    c.set_mode(M::FillOxidizer);
    c.try_command(V::PressurantVent, ValveCommand::Open, 0)
        .unwrap();
    c.resolve(1);

    // Entering Hold freezes exactly that picture...
    c.set_mode(M::Hold);
    let held = c.resolve(2);
    assert!(held[V::OxidizerFill] == open());
    assert!(held[V::PressurantVent] == open());
    assert!(held[V::Main] == closed());

    // ...and a pulse deviates from it only for its duration.
    c.try_command(V::OxidizerVent, pulse(500), 100).unwrap();
    assert!(c.resolve(300)[V::OxidizerVent] == open());

    let after = c.resolve(700);
    assert!(after[V::OxidizerVent] == closed());
    assert!(after[V::OxidizerFill] == open());
    assert!(after[V::PressurantVent] == open());
}

#[test]
fn pulse_survives_hold_entry_and_ends_at_non_pulse_setpoint() {
    let mut c = ValveController::new();
    c.set_mode(M::FillOxidizer);

    c.try_command(V::OxidizerVent, pulse(500), 0).unwrap();
    assert!(c.resolve(100)[V::OxidizerVent] == open());

    // Entering Hold mid-pulse: the pulse keeps running...
    c.set_mode(M::Hold);
    assert!(c.resolve(300)[V::OxidizerVent] == open());

    // ...and finishes into the pre-pulse setpoint (closed under FillOxidizer's policy), not the
    // pulsed-open state.
    let after = c.resolve(600);
    assert!(after[V::OxidizerVent] == closed());
    // The rest of the frozen FillOxidizer picture is untouched.
    assert!(after[V::OxidizerFill] == open());
}

#[test]
fn pulse_with_unknown_prior_ends_closed() {
    // Fresh state, e.g. right after a reboot into Hold: no setpoint was ever resolved, so the pulse
    // must fall back to closed.
    let mut c = ValveController::new();
    c.set_mode(M::Hold);

    c.try_command(V::OxidizerVent, pulse(500), 0).unwrap();

    assert!(c.resolve(100)[V::OxidizerVent] == open());
    assert!(c.resolve(600)[V::OxidizerVent] == closed());
}

#[test]
fn mode_change_clears_manual_commands() {
    let mut c = ValveController::new();
    c.set_mode(M::Hold);

    c.try_command(V::Main, ValveCommand::Open, 0).unwrap();
    assert!(c.resolve(1)[V::Main] == open());

    c.set_mode(M::FillOxidizer);
    assert!(c.resolve(2)[V::Main] == closed());
}

#[test]
fn commands_rejected_without_permission() {
    let mut c = ValveController::new();

    c.set_mode(M::Burn);
    assert!(matches!(
        c.try_command(V::Main, ValveCommand::Close, 0),
        Err(ValveError::NotPermittedInMode)
    ));

    c.set_mode(M::FillOxidizer);
    assert!(matches!(
        c.try_command(V::Main, ValveCommand::Open, 0),
        Err(ValveError::NotPermittedInMode)
    ));
}

#[test]
fn pulse_restores_the_latched_command_it_replaced() {
    let mut c = ValveController::new();
    c.set_mode(M::Hold); // baseline: everything closed

    // A latched half-open setpoint...
    c.try_command(V::OxidizerVent, partial(0.5), 0).unwrap();
    c.resolve(1);

    // ...is temporarily overridden by a pulse...
    c.try_command(V::OxidizerVent, pulse(500), 100).unwrap();
    assert!(c.resolve(300)[V::OxidizerVent] == open());

    // ...and restored on expiry, instead of the (closed) Hold baseline.
    let after = c.resolve(700);
    assert!(after[V::OxidizerVent] == ValveState::from_promille_clamped(500));
}

#[test]
fn repeated_pulses_inherit_the_original_restore_target() {
    let mut c = ValveController::new();
    c.set_mode(M::Hold);

    c.try_command(V::OxidizerVent, partial(0.5), 0).unwrap();
    c.resolve(1);

    // A second pulse replaces the first mid-flight; the restore target must stay the latched
    // command, not become "open".
    for t in [100, 300] {
        c.try_command(V::OxidizerVent, pulse(500), t).unwrap();
    }

    assert!(c.resolve(500)[V::OxidizerVent] == open());
    let after = c.resolve(900);
    assert!(after[V::OxidizerVent] == ValveState::from_promille_clamped(500));
}

#[test]
fn invalid_commands_rejected() {
    let mut c = ValveController::new();
    c.set_mode(M::Hold);

    assert!(matches!(
        c.try_command(V::OxidizerVent, pulse(MAX_PULSE_MILLIS + 1), 0),
        Err(ValveError::InvalidCommand)
    ));
    assert!(matches!(
        c.try_command(V::OxidizerVent, partial(f32::NAN), 0),
        Err(ValveError::InvalidCommand)
    ));
    assert!(matches!(
        c.try_command(V::OxidizerVent, partial(1.5), 0),
        Err(ValveError::InvalidCommand)
    ));
    assert!(matches!(
        c.try_command(V::OxidizerVent, partial(-0.1), 0),
        Err(ValveError::InvalidCommand)
    ));

    // The boundaries themselves are accepted.
    c.try_command(V::OxidizerVent, pulse(MAX_PULSE_MILLIS), 0)
        .unwrap();
    c.try_command(V::OxidizerVent, partial(1.0), 0).unwrap();
    c.try_command(V::OxidizerVent, partial(0.0), 0).unwrap();
}

#[test]
fn pulse_expiry_is_wrapping_safe() {
    let mut c = ValveController::new();
    c.set_mode(M::Hold);

    // Command issued just before the 32-bit millisecond clock wraps.
    c.try_command(V::OxidizerVent, pulse(500), u32::MAX - 100)
        .unwrap();

    assert!(c.resolve(u32::MAX - 50)[V::OxidizerVent] == open());
    assert!(c.resolve(200)[V::OxidizerVent] == open());
    assert!(c.resolve(500)[V::OxidizerVent] == closed());
}

#[test]
fn the_permission_comes_before_the_validity() {
    let mut c = ValveController::new();
    c.set_mode(M::Burn);
    assert_eq!(
        c.try_command(V::Main, partial(2.0), 0),
        Err(ValveError::NotPermittedInMode)
    );
    c.set_mode(M::Hold);
    assert_eq!(
        c.try_command(V::Main, partial(2.0), 0),
        Err(ValveError::InvalidCommand)
    );
}

#[test]
fn a_partial_command_is_a_promille() {
    assert_eq!(ValveState::from_command(partial(0.25)).promille(), 250);
    assert_eq!(ValveState::from_command(partial(0.9999)).promille(), 999);
    assert_eq!(ValveState::from_command(ValveCommand::Open).promille(), 1000);
    assert_eq!(ValveState::from_command(ValveCommand::Close).promille(), 0);
    assert_eq!(ValveState::from_command(pulse(10)).promille(), 1000);
}

#[test]
fn the_state_of_a_valve_is_clamped() {
    assert_eq!(ValveState::from_percent_open(42).promille(), 420);
    assert_eq!(ValveState::from_percent_open(101).promille(), 1000);
    assert_eq!(ValveState::from_promille_clamped(1001).promille(), 1000);
    let mut state = ValveState::from_promille_clamped(7);
    state.set_fully_open();
    assert_eq!(state.promille(), 1000);
    state.set_fully_closed();
    assert_eq!(state.promille(), 0);
}

#[test]
fn the_state_follows_from_the_history() {
    let mut c = ValveController::new();
    // Not accepted: of no consequence.
    assert!(c.try_command(V::OxidizerVent, ValveCommand::Open, 0).is_err());
    c.set_mode(M::FillOxidizer);
    assert!(c.resolve(10)[V::OxidizerVent] == closed());

    // A command, a pulse on top, a pulse on that: the last pulse counts, then the command.
    c.try_command(V::OxidizerVent, partial(0.5), 20).unwrap();
    c.try_command(V::OxidizerVent, pulse(100), 30).unwrap();
    c.try_command(V::OxidizerVent, pulse(300), 60).unwrap();
    assert!(c.resolve(360)[V::OxidizerVent] == open());

    // What is held is what was last resolved, as if no pulse ran.
    c.set_mode(M::Hold);
    assert!(c.resolve(361)[V::OxidizerVent].promille() == 500);
    c.try_command(V::OxidizerVent, ValveCommand::Close, 400).unwrap();
    assert!(c.resolve(410)[V::OxidizerVent] == closed());
    assert!(c.resolve(410)[V::OxidizerFill] == open());

    // Entering Hold again holds what was last resolved in Hold.
    c.set_mode(M::Hold);
    assert!(c.resolve(420)[V::OxidizerVent] == closed());

    // Another mode clears the command; Hold entered before a resolution holds the last one.
    c.set_mode(M::Vent);
    c.set_mode(M::Hold);
    let resolved = c.resolve(430);
    assert!(resolved[V::OxidizerVent] == closed());
    assert!(resolved[V::OxidizerFill] == open());
    c.set_mode(M::Vent);
    assert!(c.resolve(440)[V::OxidizerVent] == open());
}

#[test]
fn burning_opens_the_main_valve() {
    let mut c = ValveController::new();
    c.set_mode(M::Burn);
    assert!(c.resolve(0)[V::Main] == open());
    c.set_mode(M::Idle);
    assert!(c.resolve(0)[V::Main] == closed());
}

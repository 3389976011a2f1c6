use zenith::gcs::{Debouncer, Relay, UplinkEvent, UplinkMessage};
use zenith::gse::ManualValves;
use zenith::inventory::{ValveId, ValveTarget};
use zenith::links::uplink::{MavCmd, UplinkCommand};
use zenith::modes::FlightMode as M;
use zenith::single::TimeSpan;
use zenith::valves::ValveCommand;

fn set_mode(mode: M) -> UplinkEvent {
    UplinkEvent::Eth(UplinkCommand::SetFlightMode(mode))
}

#[test]
fn the_button_only_ignites_a_pressurized_vehicle() {
    let mut relay = Relay::new();
    assert!(relay.handle(UplinkEvent::IgnitionButton(true), true).is_none());
    let sent = relay.handle(set_mode(M::Pressurize), true).unwrap();
    assert_eq!(sent.seq, 1);
    assert_eq!(sent.message, UplinkMessage::SetMode(M::Pressurize));
    assert_eq!(sent.accepted, Some(MavCmd::DoSetMode));
    relay.handle(set_mode(M::Hold), true).unwrap();
    let ignite = relay.handle(UplinkEvent::IgnitionButton(true), true).unwrap();
    assert_eq!(ignite.message, UplinkMessage::SetMode(M::Ignite));
    assert_eq!(ignite.accepted, None);
    assert_eq!(ignite.seq, 3);
    assert!(relay.handle(UplinkEvent::IgnitionButton(false), true).is_none());
}

#[test]
fn an_abort_sets_the_interlock_again() {
    let mut relay = Relay::new();
    relay.handle(set_mode(M::Pressurize), true);
    relay.handle(set_mode(M::Vent), true);
    relay.handle(set_mode(M::Hold), true);
    assert!(relay.handle(UplinkEvent::IgnitionButton(true), true).is_none());
}

#[test]
fn ground_software_cannot_ignite() {
    let mut relay = Relay::new();
    relay.handle(set_mode(M::Pressurize), true);
    assert!(relay.handle(set_mode(M::Ignite), true).is_none());
    assert!(relay
        .handle(
            UplinkEvent::Usb(UplinkCommand::SetFlightMode(M::Ignite)),
            true
        )
        .is_none());
}

#[test]
fn other_events_are_passed_on_or_not() {
    let mut relay = Relay::new();
    assert!(relay.handle(UplinkEvent::Heartbeat, false).is_none());
    assert_eq!(
        relay.handle(UplinkEvent::Heartbeat, true).unwrap().message,
        UplinkMessage::Heartbeat
    );
    assert!(relay
        .handle(UplinkEvent::Eth(UplinkCommand::RequestCanForwarding), true)
        .is_none());
    let valve = relay
        .handle(
            UplinkEvent::Usb(UplinkCommand::CommandValve(
                ValveTarget::Listed(ValveId::Main),
                ValveCommand::Open,
            )),
            true,
        )
        .unwrap();
    assert_eq!(
        valve.message,
        UplinkMessage::SetValve(ValveTarget::Listed(ValveId::Main), ValveCommand::Open)
    );
    assert_eq!(valve.accepted, Some(MavCmd::CommandValve));
    let extra = UplinkCommand::CommandValve(ValveTarget::Extra(3), ValveCommand::Close);
    assert_eq!(
        relay.handle(UplinkEvent::Eth(extra), true).unwrap().message,
        UplinkMessage::SetValve(ValveTarget::Extra(3), ValveCommand::Close)
    );
}

#[test]
fn the_button_is_debounced() {
    let mut button = Debouncer::new(false);
    for _ in 0..5 {
        assert_eq!(button.sample(true), None);
    }
    assert_eq!(button.sample(true), Some(true));
    assert_eq!(button.sample(true), None);
    // A bounce starts over.
    assert_eq!(button.sample(false), None);
    assert_eq!(button.sample(true), None);
    for _ in 0..5 {
        assert_eq!(button.sample(false), None);
    }
    assert_eq!(button.sample(false), Some(false));
}

#[test]
fn a_pulse_closes_the_valve_when_its_time_has_come() {
    let mut valves = ManualValves::new();
    assert_eq!(valves.next_deadline(), None);
    let pulse = ValveCommand::PulseOpen(TimeSpan::from_millis(500));
    let state = valves.command(ValveId::ExternalOxidizerFill, pulse, 1_000);
    assert_eq!(state.promille(), 1000);
    assert_eq!(valves.next_deadline(), Some(501_000));
    assert!(valves.expire(500_999).is_empty());
    assert_eq!(valves.expire(501_000), vec![ValveId::ExternalOxidizerFill]);
    assert_eq!(valves.next_deadline(), None);
}

#[test]
fn another_command_ends_a_pulse() {
    let mut valves = ManualValves::new();
    let pulse = ValveCommand::PulseOpen(TimeSpan::from_millis(500));
    valves.command(ValveId::ExternalOxidizerVent, pulse, 0);
    let state = valves.command(ValveId::ExternalOxidizerVent, ValveCommand::Close, 10);
    assert_eq!(state.promille(), 0);
    assert_eq!(valves.next_deadline(), None);
}

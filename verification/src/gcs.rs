//! The relay on the ground: passes commands on to the vehicle by radio, and guards ignition.
//!
//! Ignition is never passed on from ground software. The only way to it is the physical button,
//! and only while the vehicle was last commanded to pressurize.

use vstd::prelude::*;

use crate::inventory::ValveTarget;
use crate::links::uplink::{answered_by_vehicle, MavCmd, UplinkCommand};
use crate::modes::FlightMode;
use crate::valves::ValveCommand;

pub mod interlock;

verus! {

/// How many further samples have to agree before a new level of the button is accepted.
pub const DEBOUNCE_SAMPLES: u8 = 5;

/// Something that happened on the ground.
pub enum UplinkEvent {
    /// A command came in over Ethernet.
    Eth(UplinkCommand),
    /// A command came in over USB.
    Usb(UplinkCommand),
    /// The button was pressed or released.
    IgnitionButton(bool),
    /// Nothing happened for a while.
    Heartbeat,
}

/// What is sent to the vehicle.
#[derive(Copy, Clone, Debug, PartialEq, Eq, Structural)]
pub enum UplinkMessage {
    SetMode(FlightMode),
    SetValve(ValveTarget, ValveCommand),
    Heartbeat,
}

/// A message to the vehicle, and the command whose acceptance is reported on the ground.
#[derive(Copy, Clone, Debug, PartialEq, Eq, Structural)]
pub struct Relayed {
    pub seq: u16,
    pub message: UplinkMessage,
    pub accepted: Option<MavCmd>,
}

/// The command in the event, if it is one.
pub open spec fn command_of(event: UplinkEvent) -> Option<UplinkCommand> {
    match event {
        UplinkEvent::Eth(command) => Some(command),
        UplinkEvent::Usb(command) => Some(command),
        _ => None,
    }
}

/// The mode that the event commands, if it commands one.
pub open spec fn commanded_mode(event: UplinkEvent) -> Option<FlightMode> {
    match command_of(event) {
        Some(UplinkCommand::SetFlightMode(mode)) => Some(mode),
        _ => None,
    }
}

/// Whether the ignition interlock is released after the event: a command to pressurize releases it,
/// one to hold (and one to ignite, which is swallowed) leaves it alone, and one to enter any other
/// mode sets it again.
pub open spec fn released_after(released: bool, event: UplinkEvent) -> bool {
    match commanded_mode(event) {
        Some(FlightMode::Pressurize) => true,
        Some(FlightMode::Hold) | Some(FlightMode::Ignite) => released,
        Some(_) => false,
        None => released,
    }
}

/// What is sent to the vehicle on the event.
pub open spec fn message_for(released: bool, event: UplinkEvent, connected: bool) -> Option<
    UplinkMessage,
> {
    match command_of(event) {
        Some(UplinkCommand::SetFlightMode(FlightMode::Ignite)) => None,
        Some(UplinkCommand::SetFlightMode(mode)) => Some(UplinkMessage::SetMode(mode)),
        Some(UplinkCommand::CommandValve(valve, command)) => Some(
            UplinkMessage::SetValve(valve, command),
        ),
        Some(_) => None,
        None => match event {
            UplinkEvent::IgnitionButton(true) if released => Some(
                UplinkMessage::SetMode(FlightMode::Ignite),
            ),
            UplinkEvent::Heartbeat if connected => Some(UplinkMessage::Heartbeat),
            _ => None,
        },
    }
}

/// The relay on the ground.
pub struct Relay {
    seq: u16,
    pressurized: bool,
}

impl Relay {
    /// The number of the last message sent.
    pub closed spec fn last_seq(self) -> u16 {
        self.seq
    }

    /// The button may release an ignition.
    pub closed spec fn released(self) -> bool {
        self.pressurized
    }

    pub fn new() -> (relay: Self)
        ensures
            relay.last_seq() == 0,
            !relay.released(),
    {
        Relay { seq: 0, pressurized: false }
    }

    /// What is to be done about an event, given whether the vehicle is heard.
    pub fn handle(&mut self, event: UplinkEvent, connected: bool) -> (relayed: Option<Relayed>)
        ensures
            final(self).released() == released_after(old(self).released(), event),
            match message_for(old(self).released(), event, connected) {
                Some(message) => {
                    &&& final(self).last_seq() == old(self).last_seq().wrapping_add(1)
                    &&& relayed == Some(
                        Relayed {
                            seq: final(self).last_seq(),
                            message,
                            accepted: match command_of(event) {
                                Some(command) => answered_by_vehicle(command),
                                None => None,
                            },
                        },
                    )
                },
                None => relayed is None && final(self).last_seq() == old(self).last_seq(),
            },
    {
        // Only a command carries a MAVLink command id that needs an answer.
        let mut accepted: Option<MavCmd> = None;
        let message = match event {
            UplinkEvent::Eth(command) | UplinkEvent::Usb(command) => {
                accepted = command.mav_cmd();
                match command {
                    // Remember that the vehicle is being pressurized. This releases the interlock.
                    UplinkCommand::SetFlightMode(FlightMode::Pressurize) => {
                        self.pressurized = true;
                        UplinkMessage::SetMode(FlightMode::Pressurize)
                    },
                    // Ignition may never be requested from the ground software.
                    UplinkCommand::SetFlightMode(FlightMode::Ignite) => {
                        return None;
                    },
                    // Holding does not change the interlock.
                    UplinkCommand::SetFlightMode(FlightMode::Hold) => {
                        UplinkMessage::SetMode(FlightMode::Hold)
                    },
                    // Any other mode change sets the interlock again.
                    UplinkCommand::SetFlightMode(mode) => {
                        self.pressurized = false;
                        UplinkMessage::SetMode(mode)
                    },
                    UplinkCommand::CommandValve(valve, command) => {
                        UplinkMessage::SetValve(valve, command)
                    },
                    UplinkCommand::RequestAvailableModes(_)
                    | UplinkCommand::RequestCanForwarding
                    | UplinkCommand::SetParam { .. }
                    | UplinkCommand::RequestParams { .. }
                    | UplinkCommand::PlayTune(_) => {
                        return None;
                    },
                }
            },
            // The only way to ignition, and only while pressurized.
            UplinkEvent::IgnitionButton(true) => {
                if !self.pressurized {
                    return None;
                }
                UplinkMessage::SetMode(FlightMode::Ignite)
            },
            UplinkEvent::IgnitionButton(false) => {
                return None;
            },
            UplinkEvent::Heartbeat => {
                if !connected {
                    return None;
                }
                UplinkMessage::Heartbeat
            },
        };
        self.seq = self.seq.wrapping_add(1);
        Some(Relayed { seq: self.seq, message, accepted })
    }
}

/// The vehicle is only ever told to ignite because the button was pressed while the interlock was
/// released.
pub proof fn law_ignition_needs_the_button(released: bool, event: UplinkEvent, connected: bool)
    requires
        message_for(released, event, connected) == Some(UplinkMessage::SetMode(FlightMode::Ignite)),
    ensures
        event matches UplinkEvent::IgnitionButton(pressed) && pressed,
        released,
{
}

/// Whether the interlock is released after a series of events.
pub open spec fn released_after_all(released: bool, events: Seq<UplinkEvent>) -> bool
    decreases events.len(),
{
    if events.len() == 0 {
        released
    } else {
        released_after(released_after_all(released, events.drop_last()), events.last())
    }
}

/// After an abort (a command into any mode but `Pressurize`, `Hold` and `Ignite`), the vehicle is
/// not told to ignite until it is commanded to pressurize again, whatever happens.
pub proof fn law_an_abort_rules_out_ignition(
    released: bool,
    abort: UplinkEvent,
    events: Seq<UplinkEvent>,
    next: UplinkEvent,
    connected: bool,
)
    requires
        commanded_mode(abort) matches Some(mode) && !(mode is Pressurize) && !(mode is Hold)
            && !(mode is Ignite),
        forall|i: int|
            0 <= i < events.len() ==> commanded_mode(#[trigger] events[i]) != Some(
                FlightMode::Pressurize,
            ),
    ensures
        !released_after_all(released_after(released, abort), events),
        message_for(
            released_after_all(released_after(released, abort), events),
            next,
            connected,
        ) != Some(UplinkMessage::SetMode(FlightMode::Ignite)),
    decreases events.len(),
{
    if events.len() > 0 {
        let rest = events.drop_last();
        assert forall|i: int| 0 <= i < rest.len() implies commanded_mode(#[trigger] rest[i])
            != Some(FlightMode::Pressurize) by {
            assert(rest[i] == events[i]);
        }
        law_an_abort_rules_out_ignition(released, abort, rest, next, connected);
        let last = events[events.len() - 1];
        assert(commanded_mode(last) != Some(FlightMode::Pressurize));
    }
}

/// The debounced state of the ignition button.
#[derive(Copy, Clone, Debug, PartialEq, Eq, Structural)]
pub struct Debouncer {
    pub stable: bool,
    pub last: bool,
    pub count: u8,
}

/// The state after a sample.
pub open spec fn sampled(state: Debouncer, now: bool) -> Debouncer {
    let count = if now != state.last {
        0u8
    } else if state.count == u8::MAX {
        u8::MAX
    } else {
        (state.count + 1) as u8
    };
    Debouncer {
        stable: if count >= DEBOUNCE_SAMPLES {
            now
        } else {
            state.stable
        },
        last: now,
        count,
    }
}

impl Debouncer {
    pub fn new(level: bool) -> (debouncer: Self)
        ensures
            debouncer == (Debouncer { stable: level, last: level, count: 0 }),
    {
        Debouncer { stable: level, last: level, count: 0 }
    }

    /// Takes a sample. Returns the new state of the button where it changes.
    pub fn sample(&mut self, now: bool) -> (changed: Option<bool>)
        ensures
            *final(self) == sampled(*old(self), now),
            changed == (if final(self).stable != old(self).stable {
                Some(final(self).stable)
            } else {
                None
            }),
    {
        if now == self.last {
            self.count = self.count.saturating_add(1);
        } else {
            self.last = now;
            self.count = 0;
        }
        if self.count >= DEBOUNCE_SAMPLES && now != self.stable {
            self.stable = now;
            return Some(now);
        }
        None
    }
}

/// The state after a series of samples.
pub open spec fn sampled_all(state: Debouncer, samples: Seq<bool>) -> Debouncer
    decreases samples.len(),
{
    if samples.len() == 0 {
        state
    } else {
        sampled(sampled_all(state, samples.drop_last()), samples.last())
    }
}

proof fn lemma_count_is_agreement(level: bool, samples: Seq<bool>)
    ensures
        ({
            let state = sampled_all(Debouncer { stable: level, last: level, count: 0 }, samples);
            &&& state.count <= samples.len()
            &&& forall|i: int|
                samples.len() - state.count <= i < samples.len() ==> #[trigger] samples[i]
                    == state.last
            &&& samples.len() > state.count ==> samples[samples.len() - state.count - 1]
                == state.last
            &&& samples.len() == state.count ==> state.last == level && state.stable == level
        }),
    decreases samples.len(),
{
    if samples.len() > 0 {
        let rest = samples.drop_last();
        lemma_count_is_agreement(level, rest);
        let before = sampled_all(Debouncer { stable: level, last: level, count: 0 }, rest);
        assert forall|i: int| 0 <= i < rest.len() implies #[trigger] samples[i] == rest[i] by {
        }
    }
}

/// The button only changes to a level that the sample has with which it changes and that the
/// [`DEBOUNCE_SAMPLES`] samples before it had.
pub proof fn law_a_change_needs_agreeing_samples(level: bool, samples: Seq<bool>, now: bool)
    requires
        ({
            let start = Debouncer { stable: level, last: level, count: 0 };
            sampled_all(start, samples.push(now)).stable != sampled_all(start, samples).stable
        }),
    ensures
        sampled_all(
            Debouncer { stable: level, last: level, count: 0 },
            samples.push(now),
        ).stable == now,
        samples.len() >= DEBOUNCE_SAMPLES,
        forall|i: int|
            samples.len() - DEBOUNCE_SAMPLES <= i < samples.len() ==> #[trigger] samples[i] == now,
{
    let start = Debouncer { stable: level, last: level, count: 0 };
    let all = samples.push(now);
    assert(all.drop_last() =~= samples);
    lemma_count_is_agreement(level, all);
    lemma_count_is_agreement(level, samples);
    let state = sampled_all(start, all);
    let n = all.len() as int;
    assert(state.count >= DEBOUNCE_SAMPLES);
    assert forall|i: int|
        samples.len() - DEBOUNCE_SAMPLES <= i < samples.len() implies #[trigger] samples[i]
        == now by {
        assert(all[i] == samples[i]);
        if i >= n - state.count {
            assert(all[i] == state.last);
        } else {
            assert(i == n - state.count - 1);
        }
    }
}

} // verus!

//! What it takes to ignite from the ground, and what else is relayed.

use vstd::prelude::*;

use crate::gcs::{
    message_for, released_after, released_after_all, sampled, Debouncer, Relay, Relayed,
    UplinkEvent, UplinkMessage,
};
use crate::inventory::ValveTarget;
use crate::links::uplink::{MavCmd, UplinkCommand};
use crate::modes::FlightMode;
use crate::valves::ValveCommand;

verus! {

/// The event is a command, over either link, to enter this mode.
pub open spec fn commands(event: UplinkEvent, mode: FlightMode) -> bool {
    ||| event == UplinkEvent::Eth(UplinkCommand::SetFlightMode(mode))
    ||| event == UplinkEvent::Usb(UplinkCommand::SetFlightMode(mode))
}

/// The event leaves the interlock as it is: it commands no mode, or one of pressurizing, holding
/// and ignition.
pub open spec fn keeps_interlock(event: UplinkEvent) -> bool {
    forall|mode: FlightMode| #[trigger]
        commands(event, mode) ==> mode == FlightMode::Pressurize || mode == FlightMode::Hold || mode
            == FlightMode::Ignite
}

/// The interlock is released where pressurizing was commanded and, since then, no mode but holding
/// (or ignition, which has no effect).
pub proof fn law_when_the_interlock_is_released(events: Seq<UplinkEvent>)
    ensures
        released_after_all(false, events) <==> exists|k: int|
            {
                &&& 0 <= k < events.len()
                &&& commands(#[trigger] events[k], FlightMode::Pressurize)
                &&& forall|j: int| k < j < events.len() ==> keeps_interlock(#[trigger] events[j])
            },
    decreases events.len(),
{
    if events.len() > 0 {
        let rest = events.drop_last();
        let n = rest.len() as int;
        let last = events[n];
        law_when_the_interlock_is_released(rest);
        lemma_one_event(released_after_all(false, rest), last);
        if commands(last, FlightMode::Pressurize) {
            assert(commands(events[n], FlightMode::Pressurize));
        }
        if released_after_all(false, rest) && keeps_interlock(last) {
            let k = choose|k: int|
                {
                    &&& 0 <= k < rest.len()
                    &&& commands(#[trigger] rest[k], FlightMode::Pressurize)
                    &&& forall|j: int| k < j < rest.len() ==> keeps_interlock(#[trigger] rest[j])
                };
            assert(events[k] == rest[k]);
            assert forall|j: int| k < j < events.len() implies keeps_interlock(
                #[trigger] events[j],
            ) by {
                if j < n {
                    assert(rest[j] == events[j]);
                }
            }
        }
        if exists|k: int|
            {
                &&& 0 <= k < events.len()
                &&& commands(#[trigger] events[k], FlightMode::Pressurize)
                &&& forall|j: int| k < j < events.len() ==> keeps_interlock(#[trigger] events[j])
            } {
            let k = choose|k: int|
                {
                    &&& 0 <= k < events.len()
                    &&& commands(#[trigger] events[k], FlightMode::Pressurize)
                    &&& forall|j: int|
                        k < j < events.len() ==> keeps_interlock(#[trigger] events[j])
                };
            if k < n {
                assert(rest[k] == events[k]);
                assert forall|j: int| k < j < rest.len() implies keeps_interlock(
                    #[trigger] rest[j],
                ) by {
                    assert(rest[j] == events[j]);
                }
                assert(keeps_interlock(events[n]));
            }
        }
    }
}

proof fn lemma_one_event(released: bool, event: UplinkEvent)
    ensures
        commands(event, FlightMode::Pressurize) ==> released_after(released, event),
        !commands(event, FlightMode::Pressurize) ==> (released_after(released, event) <==> released
            && keeps_interlock(event)),
        commands(event, FlightMode::Pressurize) ==> keeps_interlock(event),
{
    match event {
        UplinkEvent::Eth(UplinkCommand::SetFlightMode(mode)) => {
            assert(commands(event, mode));
        },
        UplinkEvent::Usb(UplinkCommand::SetFlightMode(mode)) => {
            assert(commands(event, mode));
        },
        _ => {},
    }
}

/// The vehicle is told to ignite where the button is pressed with the interlock released, and at no
/// other time: a command to ignite is swallowed. Other modes and valve commands are relayed as they
/// are; a sign of life goes out while the vehicle is heard; nothing else is sent.
pub proof fn law_what_is_relayed(
    released: bool,
    event: UplinkEvent,
    connected: bool,
    mode: FlightMode,
    valve: ValveTarget,
    cmd: ValveCommand,
)
    ensures
        ({
            let sent = message_for(released, event, connected);
            &&& sent == Some(UplinkMessage::SetMode(FlightMode::Ignite)) <==> event
                == UplinkEvent::IgnitionButton(true) && released
            &&& mode != FlightMode::Ignite ==> (sent == Some(UplinkMessage::SetMode(mode))
                <==> commands(event, mode))
            &&& sent == Some(UplinkMessage::SetValve(valve, cmd)) <==> (event == UplinkEvent::Eth(
                UplinkCommand::CommandValve(valve, cmd),
            ) || event == UplinkEvent::Usb(UplinkCommand::CommandValve(valve, cmd)))
            &&& sent == Some(UplinkMessage::Heartbeat) <==> event == UplinkEvent::Heartbeat
                && connected
        }),
{
}

/// The button changes once six samples in a row agree, and keeps its level until then.
pub proof fn law_six_samples_in_a_row_count(state: Debouncer, now: bool)
    requires
        state.last != now || state.count < 250,
    ensures
        ({
            let one = sampled(state, now);
            let two = sampled(one, now);
            let three = sampled(two, now);
            let four = sampled(three, now);
            let five = sampled(four, now);
            let six = sampled(five, now);
            &&& six.stable == now
            &&& state.last != now ==> one.stable == state.stable && two.stable == state.stable
                && three.stable == state.stable && four.stable == state.stable && five.stable
                == state.stable
        }),
{
}

/// What the relay does about an event: it sends what is to be sent under the next number, and
/// nothing else; what it reports on the ground is the command that it relayed.
pub proof fn law_what_the_relay_sends(
    relay: &mut Relay,
    event: UplinkEvent,
    connected: bool,
    relayed: Option<Relayed>,
    mode: FlightMode,
)
    requires
        call_ensures(Relay::handle, (relay, event, connected), relayed),
    ensures
        // Ignition: by the button, with the interlock released, and not otherwise.
        (relayed matches Some(r) && r.message == UplinkMessage::SetMode(FlightMode::Ignite))
            <==> event == UplinkEvent::IgnitionButton(true) && (*old(relay)).released(),
        mode != FlightMode::Ignite ==> ((relayed matches Some(r) && r.message
            == UplinkMessage::SetMode(mode)) <==> commands(event, mode)),
        (relayed matches Some(r) && r.message == UplinkMessage::Heartbeat) <==> event
            == UplinkEvent::Heartbeat && connected,
        relayed matches Some(r) ==> r.seq == ((*old(relay)).last_seq() + 1) % 0x1_0000
            && (*final(relay)).last_seq() == r.seq,
        relayed is None ==> (*final(relay)).last_seq() == (*old(relay)).last_seq(),
        relayed matches Some(r) ==> r.accepted == (match event {
            UplinkEvent::Eth(UplinkCommand::SetFlightMode(_))
            | UplinkEvent::Usb(UplinkCommand::SetFlightMode(_)) => Some(MavCmd::DoSetMode),
            UplinkEvent::Eth(UplinkCommand::CommandValve(_, _))
            | UplinkEvent::Usb(UplinkCommand::CommandValve(_, _)) => Some(MavCmd::CommandValve),
            _ => None,
        }),
        // The interlock.
        commands(event, FlightMode::Pressurize) ==> (*final(relay)).released(),
        !commands(event, FlightMode::Pressurize) ==> ((*final(relay)).released() <==> (*old(relay)).released() && keeps_interlock(event)),
{
    lemma_one_event((*old(relay)).released(), event);
    law_what_is_relayed(
        (*old(relay)).released(),
        event,
        connected,
        mode,
        ValveTarget::Extra(0),
        ValveCommand::Open,
    );
}

/// The relay starts with the interlock set.
pub proof fn law_the_interlock_is_set_at_first(relay: Relay)
    requires
        call_ensures(Relay::new, (), relay),
    ensures
        !relay.released(),
        relay.last_seq() == 0,
{
}

/// A sample changes the button to its own level, where five others before it had the same.
pub proof fn law_a_sample_changes_the_button(
    button: &mut Debouncer,
    now: bool,
    changed: Option<bool>,
)
    requires
        call_ensures(Debouncer::sample, (button, now), changed),
    ensures
        changed == (if old(button).stable != now && old(button).last == now && old(button).count
            >= 4 {
            Some(now)
        } else {
            None
        }),
        final(button).stable == (if changed is Some {
            now
        } else {
            old(button).stable
        }),
        final(button).last == now,
        final(button).count == (if old(button).last != now {
            0int
        } else if old(button).count < 255 {
            old(button).count + 1
        } else {
            255
        }),
{
}

} // verus!

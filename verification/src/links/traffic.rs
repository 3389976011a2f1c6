//! What passes over the links, and where it comes out again.

use vstd::prelude::*;

use crate::io::sdo::WireId;
use crate::links::can_probe::{to_bus, CanFrame, CanProbe, Refusal};
use crate::links::commands::{
    is_response, supported_tunes, CommandHandler, CommandMessage, FrameHeader, Response,
    SupportedTunes, TuneFormat,
};
use crate::links::frame::{
    checksum_in, frame_in, may_be_frame, truncated, EncodedMessage, Endpoint, RawFrame,
};
use crate::links::inbox::{Links, Received, Waiting};
use crate::links::link_quality::{
    gap, link_node_status, lost, reordered, sequences_of, total_length, with_received, without_old,
    LinkNodeStatus, LinkQuality, ReceptionLog,
};
use crate::links::modes::{
    available_modes, entry, mode_pause_ms, mode_properties, AvailableMode, ModeProperties,
};
use crate::links::params::{answer, request_of, ParamMessage, ParamReply, ParamRequest};
use crate::links::radio::{radio_status, RadioStatus};
use crate::links::stream::{goes_out_over_usb, is_usb_split, usb_packets, FrameBuffer, Outgoing};
use crate::links::uplink::{
    command_ack, from_wired, note_command_result, note_uplink_activity, take_uplink_activity,
    wired_denial, CommandAck, CommandToken, Downlink, MavCmd, MavResult, ResultRoute,
    UplinkActivity, UplinkCommand, WiredLink,
};
use crate::mavlink::TelemetryMessage;
use crate::modes::FlightMode;
use crate::params::SharedParams;
use crate::single::value::{
    is_about, is_scaled, law_constants_have_their_values, law_fields_are_scaled,
};
use crate::single::{Single, HUNDRED_BITS};

verus! {

/// A command on a wired link passes as it is, unless it asks for ignition, which is denied.
pub proof fn law_wired_links_pass_all_but_ignition(
    link: WiredLink,
    command: UplinkCommand,
    passed: Option<(CommandToken, UplinkCommand)>,
)
    requires
        call_ensures(from_wired, (link, command), passed),
    ensures
        passed is None <==> command == UplinkCommand::SetFlightMode(FlightMode::Ignite),
        passed matches Some((_, through)) ==> through == command,
{
}

/// The result of a command goes back on the link that the command came in on, and names the command
/// that it answers. Only mode changes and valve commands are answered by the vehicle.
pub proof fn law_results_go_back_where_commands_came_from(
    link: WiredLink,
    command: UplinkCommand,
    passed: Option<(CommandToken, UplinkCommand)>,
    result: MavResult,
    route: ResultRoute,
)
    requires
        call_ensures(from_wired, (link, command), passed),
        passed is Some,
        call_ensures(note_command_result, ((passed->0).0, result), route),
    ensures
        match command {
            UplinkCommand::SetFlightMode(_) => route == ResultRoute::Wired(
                link,
                CommandAck {
                    command: MavCmd::DoSetMode,
                    result,
                    target_system: 0,
                    target_component: 0,
                },
            ),
            UplinkCommand::CommandValve(_, _) => route == ResultRoute::Wired(
                link,
                CommandAck {
                    command: MavCmd::CommandValve,
                    result,
                    target_system: 0,
                    target_component: 0,
                },
            ),
            _ => route == ResultRoute::Nowhere,
        },
{
}

/// The result of a command that came by radio goes back by radio, with the number of its frame.
pub proof fn law_radio_results_go_back_by_radio(seq: u16, result: MavResult, route: ResultRoute)
    requires
        call_ensures(note_command_result, (CommandToken::Lora(seq), result), route),
    ensures
        route == ResultRoute::Lora(seq, result),
{
}

/// The links take turns by rank: the radio first, then Ethernet, then USB. Each gives its oldest
/// command, and what it does not give stays. Over USB nothing but mode changes gets through.
pub proof fn law_links_are_served_by_rank(waiting: Waiting)
    ensures
        ({
            let (received, after) = waiting.next();
            &&& waiting.lora.len() > 0 ==> {
                &&& received == Received::Command(
                    CommandToken::Lora(waiting.lora[0].0),
                    waiting.lora[0].1,
                )
                &&& after.lora == waiting.lora.drop_first()
                &&& after.ethernet == waiting.ethernet
                &&& after.usb == waiting.usb
            }
            &&& waiting.lora.len() == 0 && waiting.ethernet.len() > 0 ==> {
                &&& match received {
                    Received::Command(token, command) => command == waiting.ethernet[0] && !(token
                        is Lora) && !(token is Usb),
                    Received::Denied(link) => link == WiredLink::Ethernet && waiting.ethernet[0]
                        == UplinkCommand::SetFlightMode(FlightMode::Ignite),
                    Received::Nothing => false,
                }
                &&& after.ethernet == waiting.ethernet.drop_first()
                &&& after.lora == waiting.lora
                &&& after.usb == waiting.usb
            }
            &&& waiting.lora.len() == 0 && waiting.ethernet.len() == 0 ==> {
                match received {
                    Received::Command(token, command) => command is SetFlightMode
                        && waiting.usb.contains(command) && token == CommandToken::Usb(
                        MavCmd::DoSetMode,
                    ),
                    Received::Denied(link) => link == WiredLink::Usb && waiting.usb.contains(
                        UplinkCommand::SetFlightMode(FlightMode::Ignite),
                    ),
                    Received::Nothing => forall|i: int|
                        0 <= i < waiting.usb.len() ==> !(#[trigger] waiting.usb[i]
                            is SetFlightMode),
                }
            }
        }),
{
    lemma_first_mode(waiting.usb);
}

proof fn lemma_first_mode(commands: Seq<UplinkCommand>)
    ensures
        ({
            let rest = crate::links::inbox::from_first_mode(commands);
            &&& rest.len() > 0 ==> rest[0] is SetFlightMode && commands.contains(rest[0])
            &&& rest.len() == 0 ==> forall|i: int|
                0 <= i < commands.len() ==> !(#[trigger] commands[i] is SetFlightMode)
        }),
    decreases commands.len(),
{
    if commands.len() > 0 {
        assert(commands.contains(commands[0]));
        if !(commands[0] is SetFlightMode) {
            let tail = commands.drop_first();
            lemma_first_mode(tail);
            let rest = crate::links::inbox::from_first_mode(tail);
            if rest.len() > 0 {
                let k = choose|k: int| 0 <= k < tail.len() && tail[k] == rest[0];
                assert(commands[k + 1] == rest[0]);
            } else {
                assert forall|i: int| 0 <= i < commands.len() implies !(#[trigger] commands[i]
                    is SetFlightMode) by {
                    if i > 0 {
                        assert(tail[i - 1] == commands[i]);
                    }
                }
            }
        }
    }
}

/// The strength of a signal travels as a signed byte, and so does the noise, which is lower than
/// the strength by the ratio, as far as it can be told. The loss is in percent.
pub proof fn law_what_is_told_of_the_radio(
    rssi: i8,
    snr: i8,
    loss: Single,
    status: RadioStatus,
)
    requires
        call_ensures(radio_status, (Some((rssi, snr, loss)),), status),
    ensures
        (status.remrssi - rssi) % 256 == 0,
        -128 <= rssi - snr <= 127 ==> (status.remnoise - (rssi - snr)) % 256 == 0,
        rssi - snr < -128 ==> status.remnoise == 128,
        rssi - snr > 127 ==> status.remnoise == 127,
        is_scaled(status.fixed as int, loss, 100, 1, 0, 65535),
{
    law_constants_have_their_values();
    vstd::arithmetic::power2::lemma_pow2_pos(149);
    assert(is_about(Single { bits: HUNDRED_BITS }, 100, 1));
    law_fields_are_scaled(loss, Single { bits: HUNDRED_BITS }, 100, 1, 0, 65535);
}

/// A frame from the ground goes on the bus with its identifier and its bytes, where the identifier
/// has 11 bits at most and there are eight bytes at most.
pub proof fn law_frames_from_the_ground(
    frame: &CanFrame,
    result: Result<(u16, [u8; 8]), Refusal>,
)
    requires
        call_ensures(to_bus, (frame,), result),
    ensures
        result is Ok <==> frame.id < 2048 && frame.len <= 8,
        result matches Ok((id, data)) ==> id == frame.id && data@ == frame.data@,
        result == Err::<(u16, [u8; 8]), Refusal>(Refusal::NonStandard) <==> frame.id >= 2048,
{
}

/// A frame on the bus goes to everyone on the ground, with its identifier and its bytes and zeros
/// after them, where forwarding was asked for.
pub proof fn law_frames_to_the_ground(
    probe: CanProbe,
    id: WireId,
    bytes: &[u8],
    frame: Option<CanFrame>,
)
    requires
        bytes@.len() <= 8,
        call_ensures(CanProbe::to_ground, (&probe, id, bytes), frame),
    ensures
        frame is Some <==> probe.is_forwarding(),
        frame matches Some(frame) ==> {
            &&& match id {
                WireId::Standard(raw) => frame.id == raw,
                WireId::Extended(raw) => frame.id == raw,
            }
            &&& frame.len == bytes@.len()
            &&& frame.data@.take(bytes@.len() as int) == bytes@
            &&& forall|i: int| bytes@.len() <= i < 8 ==> #[trigger] frame.data@[i] == 0
            &&& frame.target_system == 255 && frame.target_component == 255
            &&& frame.bus == 1
        },
{
    if let Some(frame) = frame {
        assert(frame.data@.take(bytes@.len() as int) =~= bytes@);
    }
}

/// Which modes a hybrid's operator cannot select, which are for the advanced, and which the vehicle
/// enters on its own.
pub proof fn law_what_the_ground_is_told_of_a_mode(
    mode: FlightMode,
    hybrid: bool,
    properties: ModeProperties,
)
    requires
        call_ensures(mode_properties, (mode, hybrid), properties),
    ensures
        hybrid ==> (properties.not_user_selectable <==> mode == FlightMode::DetectLaunch),
        !hybrid ==> (properties.not_user_selectable <==> (mode == FlightMode::FillPressurant || mode
            == FlightMode::FillOxidizer || mode == FlightMode::Vent || mode
            == FlightMode::Pressurize || mode == FlightMode::Hold || mode == FlightMode::Ignite)),
        properties.auto_mode <==> (mode == FlightMode::Burn || mode == FlightMode::Coast || mode
            == FlightMode::DeployDrogue || mode == FlightMode::DeployMain),
        !properties.advanced <==> (mode == FlightMode::Idle || mode == FlightMode::Landed),
{
}

/// The properties are told by the bits of one, two and four.
pub proof fn law_properties_by_their_bits(properties: ModeProperties, bits: u32)
    requires
        call_ensures(ModeProperties::bits, (&properties,), bits),
    ensures
        bits % 2 == 1 <==> properties.advanced,
        bits / 2 % 2 == 1 <==> properties.not_user_selectable,
        bits / 4 % 2 == 1 <==> properties.auto_mode,
        bits < 8,
{
}

/// Every mode is listed once, in order, under its number and one more as its index; or the one that
/// is asked for.
pub proof fn law_every_mode_is_listed(
    index: usize,
    hybrid: bool,
    entries: Vec<AvailableMode>,
    k: int,
)
    requires
        call_ensures(available_modes, (index, hybrid), entries),
        0 <= k < entries.len(),
    ensures
        index == 0 ==> entries.len() == 13 && entries@[k].mode_index == k + 1,
        1 <= index <= 13 ==> entries.len() == 1 && entries@[k].mode_index == index,
        index <= 13,
        entries@[k].number_modes == 13,
        entries@[k].custom_mode == entries@[k].mode_index - 1,
        entries@[k].mode.code() == entries@[k].custom_mode,
{
    crate::modes::law_all_modes_by_number();
    if index == 0 {
        assert(entries@[k] == entry(k + 1, hybrid));
        assert(FlightMode::ALL@[k].code() == k);
    } else if index <= 13 {
        assert(entries@[0] == entry(index as int, hybrid));
        assert(FlightMode::ALL@[index - 1].code() == index - 1);
    }
}

/// A message is cut into packets of 64 bytes, the last of which is not full.
pub proof fn law_usb_packets_are_full_but_the_last(
    len: usize,
    packets: Vec<(usize, usize)>,
    k: int,
)
    requires
        len <= 1024,
        call_ensures(usb_packets, (len,), packets),
        0 <= k < packets.len(),
    ensures
        packets.len() == len as int / 64 + 1,
        packets@[k].0 == 64 * k,
        packets@[k].1 == if k == packets.len() - 1 {
            len as int
        } else {
            64 * k + 64
        },
        k == packets.len() - 1 ==> packets@[k].1 - packets@[k].0 < 64,
{
    assert(packets@[packets.len() - 1] == packets@.last());
    lemma_usb_split(packets@, len as int, k);
}

proof fn lemma_usb_split(packets: Seq<(usize, usize)>, len: int, k: int)
    requires
        is_usb_split(packets, len),
        packets.len() == len / 64 + 1,
        packets.last().1 - packets.last().0 == len % 64,
        0 <= k < packets.len(),
    ensures
        packets[k].0 == 64 * k,
        packets[k].1 == if k == packets.len() - 1 {
            len
        } else {
            64 * k + 64
        },
{
    let n = packets.len() - 1;
    let (start, end) = packets.last();
    assert(start == 64 * n);
    if k < n {
        lemma_full_packets(packets.drop_last(), 64 * n, k);
        assert(packets.drop_last()[k] == packets[k]);
    }
}

proof fn lemma_full_packets(packets: Seq<(usize, usize)>, len: int, k: int)
    requires
        is_usb_split(packets, len),
        len == 64 * packets.len(),
        0 <= k < packets.len(),
    ensures
        packets[k].0 == 64 * k,
        packets[k].1 == 64 * k + 64,
    decreases packets.len(),
{
    let n = packets.len() - 1;
    let (start, end) = packets.last();
    let rest = packets.drop_last();
    lemma_split_length(rest, start as int);
    assert(start == 64 * n);
    if k < n {
        lemma_full_packets(rest, start as int, k);
        assert(rest[k] == packets[k]);
    }
}

proof fn lemma_split_length(packets: Seq<(usize, usize)>, len: int)
    requires
        is_usb_split(packets, len),
    ensures
        0 <= len <= 64 * packets.len(),
    decreases packets.len(),
{
    if packets.len() > 0 {
        lemma_split_length(packets.drop_last(), packets.last().0 as int);
    }
}

/// What does not go out over USB.
pub proof fn law_what_stays_off_usb(message: Outgoing, goes: bool)
    requires
        call_ensures(goes_out_over_usb, (message,), goes),
    ensures
        !goes <==> match message {
            Outgoing::LinkNodeStatus
            | Outgoing::ParamValue
            | Outgoing::Telemetry(TelemetryMessage::VfrHud)
            | Outgoing::Telemetry(TelemetryMessage::SysStatus)
            | Outgoing::Telemetry(TelemetryMessage::GlobalPositionInt)
            | Outgoing::Telemetry(TelemetryMessage::GpsRawInt)
            | Outgoing::Telemetry(TelemetryMessage::RocketInfo)
            | Outgoing::Telemetry(TelemetryMessage::AutopilotVersion)
            | Outgoing::Telemetry(TelemetryMessage::PressureVessel(_))
            | Outgoing::Telemetry(TelemetryMessage::Valve(_)) => true,
            _ => false,
        },
{
}

/// A frame starts with 0xfd, and has 1024 bytes at most.
pub proof fn law_how_frames_start(bytes: Seq<u8>)
    ensures
        bytes.len() > 0 ==> (may_be_frame(bytes) <==> bytes[0] == 0xfd && bytes.len() <= 1024),
        bytes.len() == 0 ==> may_be_frame(bytes),
{
}

/// A payload loses the zeros at its end and nothing else, but never its first byte.
pub proof fn law_payloads_lose_zeros_at_their_end(payload: Seq<u8>)
    requires
        payload.len() > 0,
    ensures
        ({
            let kept = truncated(payload);
            &&& 1 <= kept.len() <= payload.len()
            &&& kept == payload.take(kept.len() as int)
            &&& forall|i: int| kept.len() <= i < payload.len() ==> #[trigger] payload[i] == 0
            &&& kept.len() > 1 ==> kept.last() != 0
        }),
    decreases payload.len(),
{
    if payload.len() > 1 && payload.last() == 0 {
        let rest = payload.drop_last();
        law_payloads_lose_zeros_at_their_end(rest);
        let kept = truncated(rest);
        assert(kept =~= payload.take(kept.len() as int));
        assert forall|i: int| kept.len() <= i < payload.len() implies #[trigger] payload[i]
            == 0 by {
            if i < rest.len() {
                assert(rest[i] == payload[i]);
            }
        }
    } else {
        assert(payload =~= payload.take(payload.len() as int));
    }
}

/// Each frame has the number after that of the one before, from zero on, and goes on at zero after
/// 255.
pub proof fn law_frames_are_numbered(endpoint: Endpoint)
    ensures
        endpoint.advanced().system_id == endpoint.system_id,
        endpoint.sequence < 255 ==> endpoint.advanced().sequence == endpoint.sequence + 1,
        endpoint.sequence == 255 ==> endpoint.advanced().sequence == 0,
{
}

/// Frames count for five seconds: the ones at the front that are older are forgotten, and no others.
pub proof fn law_frames_count_for_five_seconds(frames: Seq<(u64, u8, u16)>, now: u64)
    ensures
        ({
            let fresh = without_old(frames, now);
            let gone = frames.len() - fresh.len();
            &&& 0 <= gone
            &&& fresh == frames.skip(gone)
            &&& forall|i: int| 0 <= i < gone ==> now - (#[trigger] frames[i]).0 > 5_000_000
            &&& fresh.len() > 0 ==> now - fresh[0].0 <= 5_000_000
        }),
    decreases frames.len(),
{
    if frames.len() > 0 && now - frames[0].0 > 5_000_000 {
        let rest = frames.drop_first();
        law_frames_count_for_five_seconds(rest, now);
        let fresh = without_old(rest, now);
        let gone = frames.len() - fresh.len();
        assert(fresh =~= frames.skip(gone));
        assert forall|i: int| 0 <= i < gone implies now - (#[trigger] frames[i]).0 > 5_000_000 by {
            if i > 0 {
                assert(rest[i - 1] == frames[i]);
            }
        }
    } else {
        assert(frames.skip(0) =~= frames);
    }
}

/// A frame is remembered behind the others, with its time, number and length, as long as there are
/// fewer than 64.
pub proof fn law_the_last_frame_is_remembered(
    frames: Seq<(u64, u8, u16)>,
    now: u64,
    sequence: u8,
    length: u16,
)
    ensures
        ({
            let fresh = without_old(frames, now);
            let after = with_received(frames, now, sequence, length);
            &&& fresh.len() < 64 ==> after.len() == fresh.len() + 1 && after.last() == (
                now,
                sequence,
                length,
            ) && after.drop_last() == fresh
            &&& fresh.len() >= 64 ==> after == fresh
        }),
{
    let fresh = without_old(frames, now);
    assert(fresh.push((now, sequence, length)).drop_last() =~= fresh);
}

/// The bytes of the frames add up.
pub proof fn law_lengths_add_up(frames: Seq<(u64, u8, u16)>, frame: (u64, u8, u16))
    ensures
        total_length(frames.push(frame)) == total_length(frames) + frame.2,
        total_length(Seq::empty()) == 0,
{
    assert(frames.push(frame).drop_last() =~= frames);
}

/// A gap is the number of numbers that are skipped from one to the next; none where a number comes
/// twice.
pub proof fn law_gaps_are_skipped_numbers(last: u8, next: u8)
    ensures
        last == next ==> gap(last, next) == 0,
        last != next ==> 0 <= gap(last, next) <= 254 && (last + 1 + gap(last, next)) % 256 == next,
{
}

/// A parameter request is for us where it names our system or none, and component one or none. A
/// read is by the index where that is not negative, and by the name otherwise.
pub proof fn law_which_requests_are_for_us(msg: ParamMessage, system_id: u8)
    ensures
        match msg {
            ParamMessage::RequestList { target_system, target_component } => request_of(
                msg,
                system_id,
            ) == Some(ParamRequest::List) <==> is_ours(target_system, target_component, system_id),
            ParamMessage::RequestRead {
                target_system,
                target_component,
                param_id,
                param_index,
            } => {
                let ours = is_ours(target_system, target_component, system_id);
                &&& ours && param_index >= 0 ==> request_of(msg, system_id) == Some(
                    ParamRequest::ReadIndex(param_index as u16),
                )
                &&& ours && param_index < 0 ==> request_of(msg, system_id) == Some(
                    ParamRequest::ReadName(param_id),
                )
                &&& !ours ==> request_of(msg, system_id) is None
            },
            ParamMessage::SetValue {
                target_system,
                target_component,
                param_id,
                param_value,
                param_type,
            } => {
                let ours = is_ours(target_system, target_component, system_id);
                &&& ours ==> request_of(msg, system_id) == Some(
                    ParamRequest::SetValue { name: param_id, value: param_value, ty: param_type },
                )
                &&& !ours ==> request_of(msg, system_id) is None
            },
            ParamMessage::Other => request_of(msg, system_id) is None,
        },
{
}

/// The target is our system or none, and component one or none.
pub open spec fn is_ours(target_system: u8, target_component: u8, system_id: u8) -> bool {
    (target_system == system_id || target_system == 0) && target_component <= 1
}

/// A frame is handled where it is from a ground station and makes sense; then it is remembered for
/// the quality of the link, and answered by what it asks. Any other frame has no effect.
pub proof fn law_which_frames_are_handled(
    handler: &mut CommandHandler,
    frame: &FrameHeader,
    msg: Option<CommandMessage>,
    now: u64,
    result: Option<(Response, LinkQuality)>,
)
    requires
        call_ensures(CommandHandler::handle, (handler, frame, msg, now), result),
    ensures
        result is Some <==> frame.system_id >= 127 && msg is Some,
        result is None ==> (*final(handler)).frames() == (*old(handler)).frames(),
        result matches Some((response, quality)) ==> {
            &&& is_response(
                *frame,
                msg->0,
                (*old(handler)).ids().0,
                (*old(handler)).ids().1,
                response,
            )
            &&& (*final(handler)).frames() == with_received(
                (*old(handler)).frames(),
                now,
                frame.sequence,
                frame.body_length,
            )
            &&& quality.messages_received == (*final(handler)).frames().len()
            &&& quality.rx_rate == total_length((*final(handler)).frames())
            &&& quality.tx_rate == 0
            &&& quality.messages_lost == lost(reordered(sequences_of((*final(handler)).frames())))
        },
        (*final(handler)).ids() == (*old(handler)).ids(),
{
}

/// A command waits behind those that came in on the same link before it, and is handed out as it is.
pub proof fn law_commands_wait_in_line(
    by_radio: &mut Links,
    by_wire: &mut Links,
    asked: &mut Links,
    seq: u16,
    link: WiredLink,
    command: UplinkCommand,
    received: Received,
)
    requires
        call_ensures(Links::push_lora, (by_radio, seq, command), ()),
        call_ensures(Links::push_wired, (by_wire, link, command), ()),
        call_ensures(Links::try_recv_command, (asked,), received),
    ensures
        (*final(by_radio))@.lora == (*old(by_radio))@.lora.push((seq, command)),
        (*final(by_radio))@.ethernet == (*old(by_radio))@.ethernet,
        (*final(by_radio))@.usb == (*old(by_radio))@.usb,
        (*final(by_wire))@.lora == (*old(by_wire))@.lora,
        link == WiredLink::Ethernet ==> (*final(by_wire))@.ethernet == (*old(by_wire))@.ethernet.push(command) && (*final(by_wire))@.usb == (*old(by_wire))@.usb,
        link == WiredLink::Usb ==> (*final(by_wire))@.usb == (*old(by_wire))@.usb.push(command)
            && (*final(by_wire))@.ethernet == (*old(by_wire))@.ethernet,
        (received, (*final(asked))@) == (*old(asked))@.next(),
{
}

/// Frames on the bus are forwarded from the request for it on, and nothing stops that.
pub proof fn law_forwarding_is_by_request(
    probe: &mut CanProbe,
    command: &UplinkCommand,
    fresh: CanProbe,
)
    requires
        call_ensures(CanProbe::command, (probe, command), ()),
        call_ensures(CanProbe::new, (), fresh),
    ensures
        (*final(probe)).is_forwarding() <==> (*old(probe)).is_forwarding() || *command
            == UplinkCommand::RequestCanForwarding,
        !fresh.is_forwarding(),
{
}

/// That the ground was heard is remembered until it is asked for.
pub proof fn law_hearing_the_ground_is_remembered(
    noted: &mut UplinkActivity,
    taken: &mut UplinkActivity,
    heard: bool,
)
    requires
        call_ensures(note_uplink_activity, (noted,), ()),
        call_ensures(take_uplink_activity, (taken,), heard),
    ensures
        (*final(noted)).heard,
        heard == (*old(taken)).heard,
        !(*final(taken)).heard,
{
}

/// A packet is added to what is buffered, and everything is dropped where that gets too long. A
/// whole frame is handed out and forgotten; a beginning of one is kept.
pub proof fn law_packets_are_put_together(
    buffer: &mut FrameBuffer,
    packet: &[u8],
    frame: Option<RawFrame>,
)
    requires
        call_ensures(FrameBuffer::packet, (buffer, packet), frame),
    ensures
        ({
            let bytes = (*old(buffer))@ + packet@;
            &&& frame is Some ==> bytes.len() <= 1024 && (*final(buffer))@.len() == 0
                && frame->0.bytes@ == bytes && (bytes.len() > 0 ==> bytes[0] == 0xfd)
            &&& frame is None && bytes.len() <= 1024 && (bytes.len() > 0 ==> bytes[0] == 0xfd)
                ==> (*final(buffer))@ == bytes
            &&& frame is None && (bytes.len() > 1024 || (bytes.len() > 0 && bytes[0] != 0xfd))
                ==> (*final(buffer))@.len() == 0
        }),
{
}

/// A parameter request is taken from ground stations only.
pub proof fn law_requests_are_taken_from_the_ground(
    frame: &FrameHeader,
    msg: Option<&ParamMessage>,
    system_id: u8,
    request: Option<ParamRequest>,
)
    requires
        call_ensures(ParamRequest::receive, (frame, msg, system_id), request),
    ensures
        frame.system_id < 127 ==> request is None,
        msg is None ==> request is None,
        frame.system_id >= 127 && msg is Some ==> request == request_of(*msg->0, system_id),
{
}

/// Lists are paced: 20 milliseconds between parameters, and 50 between modes.
pub proof fn law_lists_are_paced(
    request: &ParamRequest,
    pause: u64,
    index: usize,
    mode_pause: u64,
)
    requires
        call_ensures(ParamRequest::pause_ms, (request,), pause),
        call_ensures(mode_pause_ms, (index,), mode_pause),
    ensures
        *request == ParamRequest::List ==> pause == 20,
        *request != ParamRequest::List ==> pause == 0,
        index == 0 ==> mode_pause == 50,
        index != 0 ==> mode_pause == 0,
{
}

/// How a parameter request is answered: a read by what is there; a write that is accepted by what
/// was written, which is also handed on; one that is refused by what is there.
pub proof fn law_how_requests_are_answered(
    request: &ParamRequest,
    store: &mut SharedParams,
    reply: ParamReply,
)
    requires
        (*old(store)).wf(),
        call_ensures(answer, (request, store), reply),
    ensures
        ({
            let (before, after) = ((*old(store)).all(), (*final(store)).all());
            let ready = (*old(store)).is_initialized();
            &&& *request == ParamRequest::List && ready ==> {
                &&& reply.values.len() == before.len()
                &&& forall|i: int|
                    0 <= i < before.len() ==> {
                        &&& (#[trigger] reply.values[i]).index == i
                        &&& reply.values[i].name@ == before[i].name
                    }
            }
            &&& *request matches ParamRequest::ReadIndex(index) ==> {
                &&& ready && index < before.len() ==> reply.values.len() == 1
                    && reply.values[0].index == index && reply.values[0].name@
                    == before[index as int].name
                &&& !ready || index >= before.len() ==> reply.values.len() == 0
            }
            &&& !(*request is SetValue) ==> after == before && reply.forward is None
            &&& *request matches ParamRequest::SetValue { name, value, ty } ==> {
                &&& reply.forward matches Some(UplinkCommand::SetParam { raw, .. }) ==> raw
                    == value.bits && reply.values.len() == 1 && reply.values[0].value == value
                    && reply.values[0].ty == ty
                &&& reply.forward is None ==> after == before
            }
        }),
{
}

/// What is answered to nobody in particular, and what is answered to ignition on a wire.
pub proof fn law_plain_answers(
    command: MavCmd,
    result: MavResult,
    ack: CommandAck,
    denial: CommandAck,
    frame: &FrameHeader,
    tunes: SupportedTunes,
)
    requires
        call_ensures(command_ack, (command, result), ack),
        call_ensures(wired_denial, (), denial),
        call_ensures(supported_tunes, (frame,), tunes),
    ensures
        ack.command == command && ack.result == result && ack.target_system == 0
            && ack.target_component == 0,
        denial.command == MavCmd::DoSetMode && denial.result == MavResult::Denied
            && denial.target_system == 0 && denial.target_component == 0,
        tunes.target_system == frame.system_id && tunes.target_component == frame.component_id
            && tunes.format == TuneFormat::Qbasic11,
{
}

/// A message of the flight computer speaks for component one; a frame takes the number that is next,
/// and uses it up.
pub proof fn law_who_a_message_speaks_for(
    message: EncodedMessage,
    downlink: Downlink<EncodedMessage>,
    endpoint: &mut Endpoint,
    sequence: u8,
    fresh: Endpoint,
    system_id: u8,
)
    requires
        call_ensures(Downlink::<EncodedMessage>::from_self, (message,), downlink),
        call_ensures(Endpoint::next_sequence, (endpoint,), sequence),
        call_ensures(Endpoint::new, (system_id,), fresh),
    ensures
        downlink.component_id == 1,
        downlink.message == message,
        sequence == (*old(endpoint)).sequence,
        (*final(endpoint)).sequence == (sequence + 1) % 256,
        (*final(endpoint)).system_id == (*old(endpoint)).system_id,
        fresh.sequence == 0,
        fresh.system_id == system_id,
{
}

/// An outgoing frame can be read again: it has the next number, our system, the component that it
/// speaks for, and the message without the zeros at its end.
pub proof fn law_outgoing_frames_can_be_read(
    downlink: &Downlink<EncodedMessage>,
    endpoint: &mut Endpoint,
    bytes: Vec<u8>,
)
    requires
        downlink.message.wf(),
        call_ensures(Downlink::<EncodedMessage>::frame, (downlink, endpoint), bytes),
    ensures
        frame_in(bytes@) matches Some(data) && data.sequence == (*old(endpoint)).sequence
            && data.system_id == (*old(endpoint)).system_id && data.component_id
            == downlink.component_id && data.message_id == downlink.message.message_id
            && data.payload == truncated(downlink.message.payload@),
        (*final(endpoint)).sequence == ((*old(endpoint)).sequence + 1) % 256,
{
}

/// What is remembered of a link, and what it amounts to.
pub proof fn law_what_is_remembered_of_a_link(
    log: &mut ReceptionLog,
    now: u64,
    sequence: u8,
    length: u16,
    fresh: ReceptionLog,
)
    requires
        call_ensures(ReceptionLog::received, (log, now, sequence, length), ()),
        call_ensures(ReceptionLog::new, (), fresh),
    ensures
        (*final(log))@ == with_received((*old(log))@, now, sequence, length),
        (*final(log))@.len() <= 64,
        fresh@.len() == 0,
{
}

/// What the ground is told of a link: the time, what was received and what was lost, and that the
/// buffers are empty.
pub proof fn law_what_is_told_of_a_link(
    elapsed: u64,
    quality: &LinkQuality,
    status: LinkNodeStatus,
)
    requires
        call_ensures(link_node_status, (elapsed, quality), status),
    ensures
        status.timestamp == elapsed,
        status.tx_rate == quality.tx_rate,
        status.rx_rate == quality.rx_rate,
        status.messages_received == quality.messages_received,
        status.messages_lost == quality.messages_lost,
        status.messages_sent == 0,
        status.tx_buf == 100 && status.rx_buf == 100,
        status.rx_parse_err == 0 && status.tx_overflows == 0 && status.rx_overflows == 0,
{
}

/// A frame's header is what commands go by, and it is intact where its checksum is the right one.
pub proof fn law_what_is_read_of_a_frame(
    frame: &RawFrame,
    header: FrameHeader,
    crc_extra: u8,
    intact: bool,
)
    requires
        call_ensures(RawFrame::header, (frame,), header),
        call_ensures(RawFrame::is_intact, (frame, crc_extra), intact),
    ensures
        header.system_id == frame.system_id,
        header.component_id == frame.component_id,
        header.sequence == frame.sequence,
        header.body_length == frame.body_length,
        intact <==> checksum_in(frame.bytes@, crc_extra) == Some(frame.checksum),
{
}

} // verus!

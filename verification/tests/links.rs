use zenith::inventory::{ValveId, ValveTarget};
use zenith::io::sdo::WireId;
use zenith::links::can_probe::{to_bus, CanFrame, CanProbe, Refusal};
use zenith::links::commands::{
    supported_tunes, tune_name, valve_by_number, valve_command, CommandHandler, CommandLong,
    CommandMessage, FrameHeader, SupportedTunes, TuneFormat,
};
use zenith::links::frame::{Endpoint, EncodedMessage, RawFrame};
use zenith::links::inbox::{Links, Received};
use zenith::links::link_quality::{link_node_status, LinkQuality, ReceptionLog};
use zenith::links::modes::{available_modes, mode_pause_ms, mode_properties};
use zenith::links::radio::{radio_status, RadioStatus};
use zenith::links::stream::{
    goes_out_over_usb, usb_packets, FrameBuffer, Outgoing, Parsed,
};
use zenith::links::uplink::{
    command_ack, from_wired, note_command_result, note_uplink_activity, take_uplink_activity,
    wired_denial, CommandToken, Downlink, MavCmd, MavResult, ResultRoute, UplinkActivity,
    UplinkCommand, WiredLink,
};
use zenith::mavlink::TelemetryMessage;
use zenith::modes::FlightMode as M;
use zenith::single::{Single, TimeSpan};
use zenith::valves::ValveCommand;

fn single(value: f32) -> Single {
    Single::from_bits(value.to_bits())
}

const SYSTEM_ID: u8 = 4;

fn frame(sequence: u8) -> FrameHeader {
    FrameHeader {
        system_id: 255,
        component_id: 190,
        sequence,
        body_length: 20,
    }
}

fn long(command: MavCmd, param1: f32, param2: f32, param3: f32) -> CommandMessage {
    CommandMessage::Long(CommandLong {
        target_system: SYSTEM_ID,
        target_component: 1,
        command,
        param1: single(param1),
        param2: single(param2),
        param3: single(param3),
    })
}

fn handle(message: CommandMessage) -> (Option<UplinkCommand>, Option<MavResult>, bool, bool) {
    let mut handler = CommandHandler::new(SYSTEM_ID, 1);
    let (response, _) = handler.handle(&frame(0), Some(message), 0).unwrap();
    if let Some(ack) = &response.ack {
        assert_eq!(ack.target_system, 255);
        assert_eq!(ack.target_component, 190);
    }
    (
        response.forward,
        response.ack.map(|ack| ack.result),
        response.supported_tunes.is_some(),
        response.reboot,
    )
}

#[test]
fn modes_are_commanded_by_number() {
    let (forward, result, _, _) = handle(long(MavCmd::DoSetMode, 1.0, 4.0, 0.0));
    assert!(matches!(
        forward,
        Some(UplinkCommand::SetFlightMode(M::Pressurize))
    ));
    assert_eq!(result, Some(MavResult::Accepted));
    let (forward, result, _, _) = handle(long(MavCmd::DoSetMode, 1.0, 13.0, 0.0));
    assert!(forward.is_none());
    assert_eq!(result, Some(MavResult::Denied));
    let (forward, result, _, _) = handle(long(MavCmd::DoSetMode, 0.0, 4.0, 0.0));
    assert!(forward.is_none());
    assert_eq!(result, Some(MavResult::Denied));
}

#[test]
fn messages_are_requested_by_number() {
    let (forward, result, _, _) = handle(long(MavCmd::RequestMessage, 435.0, 3.0, 0.0));
    assert!(matches!(
        forward,
        Some(UplinkCommand::RequestAvailableModes(3))
    ));
    assert_eq!(result, Some(MavResult::Accepted));
    let (_, result, tunes, _) = handle(long(MavCmd::RequestMessage, 401.0, 0.0, 0.0));
    assert!(tunes);
    assert_eq!(result, Some(MavResult::Accepted));
    let (_, result, tunes, _) = handle(long(MavCmd::RequestMessage, 1.0, 0.0, 0.0));
    assert!(!tunes);
    assert_eq!(result, Some(MavResult::Denied));
}

#[test]
fn the_vehicle_reboots_when_told_to() {
    let reboot = |param| handle(long(MavCmd::PreflightRebootShutdown, param, 0.0, 0.0));
    assert_eq!(reboot(0.0).1, Some(MavResult::Accepted));
    assert!(!reboot(0.0).3);
    assert_eq!(reboot(1.0).1, Some(MavResult::Accepted));
    assert!(reboot(1.0).3);
    assert_eq!(reboot(2.0).1, Some(MavResult::Unsupported));
}

#[test]
fn other_commands_are_answered_too() {
    let (forward, result, _, _) = handle(long(MavCmd::CanForward, 1.0, 0.0, 0.0));
    assert!(matches!(forward, Some(UplinkCommand::RequestCanForwarding)));
    assert_eq!(result, Some(MavResult::Accepted));
    assert_eq!(
        handle(long(MavCmd::Other(7), 0.0, 0.0, 0.0)).1,
        Some(MavResult::Unsupported)
    );
    let int = CommandMessage::Int {
        target_system: SYSTEM_ID,
        target_component: 1,
        command: MavCmd::DoSetMode,
    };
    assert_eq!(handle(int).1, Some(MavResult::CommandLongOnly));
    let elsewhere = CommandMessage::Int {
        target_system: SYSTEM_ID + 1,
        target_component: 1,
        command: MavCmd::DoSetMode,
    };
    assert_eq!(handle(elsewhere).1, None);
}

#[test]
fn valves_are_commanded_by_position_and_time() {
    let command = |position, seconds| valve_command(single(position), single(seconds));
    assert_eq!(command(1.0, 0.0), Some(ValveCommand::Open));
    assert_eq!(command(2.0, f32::NAN), Some(ValveCommand::Open));
    assert_eq!(command(0.0, 0.0), Some(ValveCommand::Close));
    assert_eq!(command(-1.0, -3.0), Some(ValveCommand::Close));
    assert_eq!(
        command(0.5, 0.0),
        Some(ValveCommand::Partial(single(0.5)))
    );
    assert_eq!(
        command(1.0, 1.5),
        Some(ValveCommand::PulseOpen(TimeSpan::from_millis(1500)))
    );
    assert_eq!(command(0.5, 1.5), None);
    assert_eq!(command(f32::NAN, 0.0), None);
    assert_eq!(
        valve_by_number(4),
        Some(ValveTarget::Listed(ValveId::Main))
    );

    let (forward, result, _, _) = handle(long(MavCmd::CommandValve, 4.0, 1.0, 0.5));
    assert!(matches!(
        forward,
        Some(UplinkCommand::CommandValve(
            ValveTarget::Listed(ValveId::Main),
            ValveCommand::PulseOpen(_)
        ))
    ));
    assert_eq!(result, Some(MavResult::Accepted));
}

#[test]
fn commands_to_extra_valves_are_handed_on() {
    assert_eq!(
        valve_by_number(8),
        Some(ValveTarget::Listed(ValveId::ExternalOxidizerVent))
    );
    assert_eq!(valve_by_number(9), Some(ValveTarget::Extra(1)));
    assert_eq!(valve_by_number(18), Some(ValveTarget::Extra(10)));
    assert_eq!(valve_by_number(19), None);
    assert_eq!(valve_by_number(255), None);

    let (forward, result, _, _) = handle(long(MavCmd::CommandValve, 9.0, 1.0, 0.0));
    assert_eq!(
        forward,
        Some(UplinkCommand::CommandValve(
            ValveTarget::Extra(1),
            ValveCommand::Open
        ))
    );
    assert_eq!(result, Some(MavResult::Accepted));
    let (forward, result, _, _) = handle(long(MavCmd::CommandValve, 19.0, 1.0, 0.0));
    assert!(forward.is_none());
    assert_eq!(result, Some(MavResult::Denied));
}

#[test]
fn lists_of_modes_are_paced() {
    assert_eq!(mode_pause_ms(0), 50);
    assert_eq!(mode_pause_ms(1), 0);
    assert_eq!(mode_pause_ms(14), 0);
}

fn tune(text: &[u8]) -> [u8; 248] {
    let mut field = [0; 248];
    field[..text.len()].copy_from_slice(text);
    field
}

#[test]
fn tunes_are_named_by_text() {
    assert_eq!(tune_name(&tune(b" mario\t")).unwrap().as_str(), "mario");
    assert_eq!(tune_name(&tune(b"landed\0junk")).unwrap().as_str(), "landed");
    let spaced = "\u{3000}\u{a0}two words\u{2029}\u{85}";
    assert_eq!(tune_name(&tune(spaced.as_bytes())).unwrap().as_str(), "two words");
    let kept = "\u{200b}tune";
    assert_eq!(tune_name(&tune(kept.as_bytes())).unwrap().as_str(), kept);
    assert_eq!(tune_name(&tune(b" \n ")).unwrap().as_str(), "");
    assert!(tune_name(&tune(b"\xff")).is_none());
    assert!(tune_name(&[b'a'; 248]).is_none());
    assert_eq!(tune_name(&tune(&[b'a'; 32])).unwrap().len(), 32);
    assert!(tune_name(&tune(&[b'a'; 33])).is_none());
    let play = CommandMessage::PlayTune {
        target_system: SYSTEM_ID,
        target_component: 1,
        tune: tune(b"ignition"),
    };
    let (forward, result, _, _) = handle(play);
    match forward {
        Some(UplinkCommand::PlayTune(name)) => assert_eq!(name.as_str(), "ignition"),
        _ => panic!("no tune"),
    }
    assert_eq!(result, None);
}

#[test]
fn lost_packets_are_counted() {
    let mut log = ReceptionLog::new();
    for sequence in [250, 251, 254, 255, 0, 2] {
        log.received(0, sequence, 10);
    }
    let quality = log.quality();
    assert_eq!(quality.messages_lost, 3);
    assert_eq!(quality.messages_received, 6);
}

#[test]
fn a_swapped_pair_is_not_lost() {
    let mut log = ReceptionLog::new();
    for sequence in [1, 2, 4, 3, 5] {
        log.received(0, sequence, 10);
    }
    assert_eq!(log.quality().messages_lost, 0);
}

fn lost_of(packets: &[u8]) -> u32 {
    let mut log = ReceptionLog::new();
    for sequence in packets {
        log.received(0, *sequence, 10);
    }
    log.quality().messages_lost
}

#[test]
fn shuffles_are_undone() {
    // None is more than five places early or late, and the numbers wrap around.
    assert_eq!(lost_of(&[255, 0, 1, 2, 3, 254, 9, 8, 7, 6, 5, 4]), 0);
    assert_eq!(lost_of(&[5, 1, 2, 3, 4, 0]), 0);
    // What is missing among the shuffled ones is counted.
    assert_eq!(lost_of(&[250, 252, 255, 253, 2, 0]), 3);
    // One that arrives twice is no other.
    assert_eq!(lost_of(&[7, 8, 9, 8]), 0);
}

#[test]
fn a_packet_that_six_others_overtook_is_out_of_place() {
    assert_eq!(lost_of(&[1, 2, 3, 4, 5, 0]), 0);
    assert_eq!(lost_of(&[1, 2, 3, 4, 5, 6, 0]), 255);
}

#[test]
fn a_packet_far_behind_is_out_of_place() {
    assert_eq!(lost_of(&[49, 0]), 48);
    assert_eq!(lost_of(&[50, 0]), 205);
    assert_eq!(lost_of(&[0, 205]), 204);
    assert_eq!(lost_of(&[0, 206]), 49);
}

#[test]
fn old_packets_are_forgotten() {
    let mut log = ReceptionLog::new();
    log.received(0, 1, 10);
    log.received(100_000_000, 50, 10);
    assert_eq!(log.quality().messages_received, 1);
    assert_eq!(log.quality().messages_lost, 0);
}

#[test]
fn the_link_is_reported() {
    let quality = LinkQuality {
        tx_rate: 1,
        rx_rate: 2,
        messages_received: 3,
        messages_lost: 4,
    };
    let status = link_node_status(5000, &quality);
    assert_eq!(status.timestamp, 5000);
    assert_eq!((status.tx_buf, status.rx_buf), (100, 100));
    assert_eq!((status.tx_rate, status.rx_rate), (1, 2));
    assert_eq!((status.messages_received, status.messages_lost), (3, 4));
    assert_eq!(status.messages_sent, 0);
}

#[test]
fn ignition_is_denied_on_wired_links() {
    let ignite = || UplinkCommand::SetFlightMode(M::Ignite);
    assert!(from_wired(WiredLink::Ethernet, ignite()).is_none());
    assert!(from_wired(WiredLink::Usb, ignite()).is_none());
    assert_eq!(
        wired_denial(),
        command_ack(MavCmd::DoSetMode, MavResult::Denied)
    );
    let (token, command) =
        from_wired(WiredLink::Usb, UplinkCommand::SetFlightMode(M::Hold)).unwrap();
    assert_eq!(token, CommandToken::Usb(MavCmd::DoSetMode));
    assert!(matches!(command, UplinkCommand::SetFlightMode(M::Hold)));
    let (token, _) = from_wired(WiredLink::Ethernet, UplinkCommand::RequestCanForwarding).unwrap();
    assert_eq!(token, CommandToken::Unanswered);
}

#[test]
fn results_go_where_the_command_came_from() {
    assert_eq!(
        note_command_result(CommandToken::Lora(7), MavResult::Accepted),
        ResultRoute::Lora(7, MavResult::Accepted)
    );
    assert_eq!(
        note_command_result(
            CommandToken::Ethernet(MavCmd::CommandValve),
            MavResult::Denied
        ),
        ResultRoute::Wired(
            WiredLink::Ethernet,
            command_ack(MavCmd::CommandValve, MavResult::Denied)
        )
    );
    assert_eq!(
        note_command_result(CommandToken::Unanswered, MavResult::Accepted),
        ResultRoute::Nowhere
    );
    assert_eq!(Downlink::from_self(3).component_id, 1);
    assert_eq!(Downlink::new(7, 3).component_id, 7);
}

#[test]
fn activity_is_taken_once() {
    let mut activity = UplinkActivity { heard: false };
    assert!(!take_uplink_activity(&mut activity));
    note_uplink_activity(&mut activity);
    assert!(take_uplink_activity(&mut activity));
    assert!(!take_uplink_activity(&mut activity));
}

#[test]
fn modes_are_listed_for_the_ground() {
    let all = available_modes(0, true);
    assert_eq!(all.len(), 13);
    for (i, entry) in all.iter().enumerate() {
        assert_eq!(entry.mode_index as usize, i + 1);
        assert_eq!(entry.custom_mode as usize, i);
        assert_eq!(entry.number_modes, 13);
    }
    let one = available_modes(13, true);
    assert_eq!(one.len(), 1);
    assert_eq!(one[0].mode, M::Landed);
    assert!(available_modes(14, true).is_empty());

    assert_eq!(mode_properties(M::Idle, true).bits(), 0);
    assert_eq!(mode_properties(M::Pressurize, true).bits(), 1);
    assert_eq!(mode_properties(M::Pressurize, false).bits(), 3);
    assert_eq!(mode_properties(M::DetectLaunch, true).bits(), 3);
    assert_eq!(mode_properties(M::Burn, true).bits(), 5);
}

#[test]
fn can_frames_are_forwarded_on_request() {
    let mut probe = CanProbe::new();
    assert!(probe.to_ground(WireId::Standard(0x123), &[1]).is_none());
    probe.command(&UplinkCommand::RequestAvailableModes(0));
    assert!(probe.to_ground(WireId::Standard(0x123), &[1]).is_none());
    probe.command(&UplinkCommand::RequestCanForwarding);
    let frame = probe.to_ground(WireId::Standard(0x123), &[1, 2, 3]).unwrap();
    assert_eq!(frame.id, 0x123);
    assert_eq!(frame.len, 3);
    assert_eq!(frame.data, [1, 2, 3, 0, 0, 0, 0, 0]);
    assert_eq!(frame.bus, 1);
}

#[test]
fn malformed_can_frames_are_refused() {
    let frame = |id, len| CanFrame {
        target_system: 0,
        target_component: 0,
        bus: 1,
        id,
        len,
        data: [9; 8],
    };
    assert_eq!(to_bus(&frame(0x7ff, 8)), Ok((0x7ff, [9; 8])));
    assert_eq!(to_bus(&frame(0x800, 8)), Err(Refusal::NonStandard));
    assert_eq!(to_bus(&frame(0x1_0001, 8)), Err(Refusal::NonStandard));
    assert_eq!(to_bus(&frame(0x7ff, 9)), Err(Refusal::TooLong));
}

#[test]
fn split_frames_are_put_together() {
    let mut buffer = FrameBuffer::new();
    assert!(buffer.receive(&[1, 2, 3]));
    assert!(!buffer.parsed(Parsed::TooShort));
    assert!(buffer.receive(&[4, 5]));
    assert_eq!(buffer.bytes(), &[1, 2, 3, 4, 5]);
    assert!(buffer.parsed(Parsed::Complete));
    assert!(buffer.bytes().is_empty());
    assert!(buffer.receive(&[6]));
    assert!(!buffer.parsed(Parsed::Malformed));
    assert!(buffer.bytes().is_empty());
    assert!(buffer.receive(&[0; 1024]));
    assert!(!buffer.receive(&[1]));
    assert!(buffer.bytes().is_empty());
}

#[test]
fn frames_are_read_from_packets() {
    // A frame with a payload of three bytes, of message 0x040302.
    let frame = [
        0xfd, 3, 0, 0, 77, 255, 190, 0x02, 0x03, 0x04, 9, 8, 7, 0xaa, 0xbb,
    ];
    let mut buffer = FrameBuffer::new();
    assert_eq!(buffer.packet(&frame[..6]), None);
    assert_eq!(buffer.bytes(), &frame[..6]);
    assert_eq!(buffer.packet(&frame[6..14]), None);
    assert_eq!(
        buffer.packet(&frame[14..]),
        Some(RawFrame {
            sequence: 77,
            system_id: 255,
            component_id: 190,
            body_length: 5,
            message_id: 0x0004_0302,
            payload: vec![9, 8, 7],
            checksum: 0xbbaa,
            bytes: frame.to_vec(),
        })
    );
    assert!(buffer.bytes().is_empty());
    // What cannot be the start of a frame is dropped at once.
    assert_eq!(buffer.packet(&[0; 10]), None);
    assert!(buffer.bytes().is_empty());
    assert_eq!(buffer.packet(&[]), None);
    assert!(buffer.packet(&frame).is_some());
    // What does not fit is dropped.
    assert_eq!(buffer.packet(&frame[..14]), None);
    assert_eq!(buffer.packet(&[0; 1011]), None);
    assert!(buffer.bytes().is_empty());
}

#[test]
fn damaged_frames_are_told_from_intact_ones() {
    let message = EncodedMessage {
        message_id: 0,
        payload: vec![8, 0, 0, 0, 9, 0, 129, 4, 2],
        crc_extra: 50,
    };
    let mut endpoint = Endpoint::new(4);
    let bytes = Downlink::new(7, message).frame(&mut endpoint);
    let frame = FrameBuffer::new().packet(&bytes).unwrap();
    assert!(frame.is_intact(50));
    assert!(!frame.is_intact(51));
    let mut damaged = bytes;
    damaged[12] ^= 1;
    let frame = FrameBuffer::new().packet(&damaged).unwrap();
    assert!(!frame.is_intact(50));
}

#[test]
fn frames_speak_for_the_component_of_their_message() {
    let message = |component| {
        Downlink::new(
            component,
            EncodedMessage {
                message_id: 0x0004_0302,
                payload: vec![1, 2, 0, 0],
                crc_extra: 99,
            },
        )
    };
    let mut endpoint = Endpoint::new(4);
    // One run of sequence numbers, whichever component speaks.
    for sequence in 0..=255 {
        let bytes = message(sequence % 3).frame(&mut endpoint);
        assert_eq!(bytes.len(), 10 + 2 + 2);
        let frame = FrameBuffer::new().packet(&bytes).unwrap();
        assert_eq!(frame.sequence, sequence);
        assert_eq!(frame.system_id, 4);
        assert_eq!(frame.component_id, sequence % 3);
        assert_eq!(frame.message_id, 0x0004_0302);
        assert_eq!(frame.payload, vec![1, 2]);
        assert_eq!(frame.body_length, 4);
    }
    assert_eq!(endpoint, Endpoint::new(4));
}

#[test]
fn the_tune_format_is_told_to_the_one_who_asks() {
    let mut handler = CommandHandler::new(SYSTEM_ID, 1);
    let message = long(MavCmd::RequestMessage, 401.0, 0.0, 0.0);
    let (response, _) = handler.handle(&frame(0), Some(message), 0).unwrap();
    let answer = SupportedTunes {
        target_system: 255,
        target_component: 190,
        format: TuneFormat::Qbasic11,
    };
    assert_eq!(response.supported_tunes, Some(answer));
    assert_eq!(supported_tunes(&frame(0)), answer);
}

#[test]
fn usb_transfers_end_with_a_packet_that_is_not_full() {
    assert_eq!(usb_packets(0), vec![(0, 0)]);
    assert_eq!(usb_packets(63), vec![(0, 63)]);
    assert_eq!(usb_packets(64), vec![(0, 64), (64, 64)]);
    assert_eq!(usb_packets(150), vec![(0, 64), (64, 128), (128, 150)]);
}

#[test]
fn not_everything_goes_over_usb() {
    assert!(goes_out_over_usb(Outgoing::CommandAck));
    assert!(goes_out_over_usb(Outgoing::Telemetry(
        TelemetryMessage::Heartbeat
    )));
    assert!(!goes_out_over_usb(Outgoing::Telemetry(
        TelemetryMessage::Valve(ValveId::Main)
    )));
    assert!(!goes_out_over_usb(Outgoing::LinkNodeStatus));
}

#[test]
fn commands_come_by_radio_first() {
    let mut links = Links::new();
    assert!(matches!(links.try_recv_command(), Received::Nothing));
    links.push_wired(WiredLink::Usb, UplinkCommand::RequestCanForwarding);
    links.push_wired(WiredLink::Usb, UplinkCommand::SetFlightMode(M::Vent));
    links.push_wired(WiredLink::Ethernet, UplinkCommand::SetFlightMode(M::Ignite));
    links.push_wired(WiredLink::Ethernet, UplinkCommand::RequestCanForwarding);
    links.push_lora(9, UplinkCommand::SetFlightMode(M::Ignite));
    assert!(matches!(
        links.try_recv_command(),
        Received::Command(
            CommandToken::Lora(9),
            UplinkCommand::SetFlightMode(M::Ignite)
        )
    ));
    assert!(matches!(
        links.try_recv_command(),
        Received::Denied(WiredLink::Ethernet)
    ));
    assert!(matches!(
        links.try_recv_command(),
        Received::Command(
            CommandToken::Unanswered,
            UplinkCommand::RequestCanForwarding
        )
    ));
    // Over USB only flight modes can be commanded.
    assert!(matches!(
        links.try_recv_command(),
        Received::Command(
            CommandToken::Usb(MavCmd::DoSetMode),
            UplinkCommand::SetFlightMode(M::Vent)
        )
    ));
    assert!(matches!(links.try_recv_command(), Received::Nothing));
}

#[test]
fn the_radio_is_reported() {
    assert_eq!(
        radio_status(Some((-90, 10, single(0.255)))),
        RadioStatus {
            remrssi: 166,
            remnoise: 156,
            fixed: 25
        }
    );
    assert_eq!(
        radio_status(Some((-120, 20, single(0.0)))),
        RadioStatus {
            remrssi: 136,
            remnoise: 128,
            fixed: 0
        }
    );
    assert_eq!(
        radio_status(None),
        RadioStatus {
            remrssi: 0,
            remnoise: 0,
            fixed: 0
        }
    );
}

//! Handles commands from the ground and produces an acknowledgment for each of them.
//!
//! Commands that are understood, valid and will be executed are handed on, to be carried out by
//! other tasks and the main loop.

use vstd::prelude::*;
use vstd::utf8::{decode_utf8, encode_utf8, valid_utf8};

use crate::inventory::{InventoryId, ValveId, ValveTarget};
use crate::links::link_quality::{quality_of, with_received, LinkQuality, ReceptionLog};
use crate::links::uplink::{CommandAck, MavCmd, MavResult, UplinkCommand, MIN_GROUND_SYSTEM_ID};
use crate::modes::FlightMode;
use crate::single::Single;
use crate::text::{name_text, to_name, trim, trimmed, utf8_text, TuneName, TUNE_NAME_LEN};
use crate::valves::ValveCommand;

verus! {

/// The id of the message that lists the flight modes.
pub const AVAILABLE_MODES_ID: u32 = 435;

/// The id of the message that lists the tune formats.
pub const SUPPORTED_TUNES_ID: u32 = 401;

/// How many valves have a number besides those of the inventory.
pub const EXTRA_VALVES: u8 = 10;

/// The bit pattern of 0.99: beyond it a valve is commanded open.
pub const NEARLY_OPEN_BITS: u32 = 0x3f7d_70a4;

/// The bit pattern of 0.01: below it a valve is commanded closed.
pub const NEARLY_CLOSED_BITS: u32 = 0x3c23_d70a;

/// Where a frame comes from, and what it looks like on the wire.
#[derive(Copy, Clone, Debug, PartialEq, Eq, Structural)]
pub struct FrameHeader {
    pub system_id: u8,
    pub component_id: u8,
    pub sequence: u8,
    pub body_length: u16,
}

/// A command with its parameters.
#[derive(Copy, Clone, Debug, PartialEq, Eq, Structural)]
pub struct CommandLong {
    pub target_system: u8,
    pub target_component: u8,
    pub command: MavCmd,
    pub param1: Single,
    pub param2: Single,
    pub param3: Single,
}

/// A message from the ground, as far as commands are concerned.
#[derive(Copy, Clone, Debug, PartialEq, Eq)]
pub enum CommandMessage {
    Long(CommandLong),
    /// A command in the form that is not supported.
    Int { target_system: u8, target_component: u8, command: MavCmd },
    PlayTune { target_system: u8, target_component: u8, tune: [u8; 248] },
    /// Any other message.
    Other,
}

/// The formats of tunes.
#[derive(Copy, Clone, Debug, PartialEq, Eq, Structural)]
pub enum TuneFormat {
    Qbasic11,
    MmlModern,
}

/// The format that tunes are supported in.
pub const SUPPORTED_TUNE_FORMAT: TuneFormat = TuneFormat::Qbasic11;

/// Tells a ground station which format tunes are supported in.
#[derive(Copy, Clone, Debug, PartialEq, Eq, Structural)]
pub struct SupportedTunes {
    pub target_system: u8,
    pub target_component: u8,
    pub format: TuneFormat,
}

/// The answer to the one who asks which format tunes are supported in: it goes to the sender of the
/// frame.
pub fn supported_tunes(frame: &FrameHeader) -> (answer: SupportedTunes)
    ensures
        answer == (SupportedTunes {
            target_system: frame.system_id,
            target_component: frame.component_id,
            format: TuneFormat::Qbasic11,
        }),
{
    SupportedTunes {
        target_system: frame.system_id,
        target_component: frame.component_id,
        format: SUPPORTED_TUNE_FORMAT,
    }
}

/// What is to be done about a message.
#[derive(Debug, PartialEq)]
pub struct Response {
    /// Hand this command on.
    pub forward: Option<UplinkCommand>,
    /// Tell the sender which tune format is supported.
    pub supported_tunes: Option<SupportedTunes>,
    /// Acknowledge the command.
    pub ack: Option<CommandAck>,
    /// Reboot, once all of the above is done.
    pub reboot: bool,
}

/// What is to be done about a command, apart from the acknowledgment.
pub struct Outcome {
    pub forward: Option<UplinkCommand>,
    pub supported_tunes: bool,
    pub reboot: bool,
    pub result: MavResult,
}

/// Nothing is done about the command but this answer.
pub open spec fn just(result: MavResult) -> Outcome {
    Outcome { forward: None, supported_tunes: false, reboot: false, result }
}

/// The command is accepted and handed on.
pub open spec fn handed_on(command: UplinkCommand) -> Outcome {
    Outcome {
        forward: Some(command),
        supported_tunes: false,
        reboot: false,
        result: MavResult::Accepted,
    }
}

/// The parameter cast to a byte.
pub open spec fn as_byte(param: Single) -> int {
    param.cast_unsigned(u8::MAX as int)
}

/// The parameter cast to a word.
pub open spec fn as_word(param: Single) -> int {
    param.cast_unsigned(u32::MAX as int)
}

/// The position clamped to the range from zero to one.
pub open spec fn clamped(position: Single) -> Single {
    if position.below(Single { bits: 0 }) {
        Single { bits: 0 }
    } else if (Single { bits: crate::single::ONE_BITS }).below(position) {
        Single { bits: crate::single::ONE_BITS }
    } else {
        position
    }
}

/// The pulse has a duration: the seconds are a positive number that fits and does not round to
/// nothing.
pub open spec fn has_duration(seconds: Single) -> bool {
    &&& !seconds.nan()
    &&& !seconds.negative()
    &&& seconds.finite()
    &&& seconds.whole() <= u64::MAX
    &&& seconds.seconds_in_nanos() != 0
}

/// What the position and the duration ask of a valve: with a duration it can only be a pulse, and
/// only to a position that is as good as open.
pub open spec fn asked_of_valve(position: Single, seconds: Single, command: ValveCommand) -> bool {
    let target = clamped(position);
    let open = (Single { bits: NEARLY_OPEN_BITS }).below(target);
    &&& position.finite()
    &&& if has_duration(seconds) {
        &&& open
        &&& command matches ValveCommand::PulseOpen(span)
        &&& span.wf()
        &&& span.total_nanos() == seconds.seconds_in_nanos()
    } else if open {
        command is Open
    } else if target.below(Single { bits: NEARLY_CLOSED_BITS }) {
        command is Close
    } else {
        command == ValveCommand::Partial(target)
    }
}

/// The position and the duration ask nothing of a valve that it could do.
pub open spec fn asks_nothing_of_valve(position: Single, seconds: Single) -> bool {
    ||| !position.finite()
    ||| has_duration(seconds) && !(Single { bits: NEARLY_OPEN_BITS }).below(clamped(position))
}

/// What is to be done about a command addressed to us.
pub open spec fn is_outcome(cmd: CommandLong, outcome: Outcome) -> bool {
    match cmd.command {
        MavCmd::DoSetMode => if as_word(cmd.param1) == 1 && as_byte(cmd.param2)
            < crate::modes::MODE_COUNT {
            outcome == handed_on(
                UplinkCommand::SetFlightMode(FlightMode::ALL@[as_byte(cmd.param2)]),
            )
        } else {
            outcome == just(MavResult::Denied)
        },
        MavCmd::RequestMessage => if as_word(cmd.param1) == AVAILABLE_MODES_ID {
            outcome == handed_on(
                UplinkCommand::RequestAvailableModes(as_word(cmd.param2) as usize),
            )
        } else if as_word(cmd.param1) == SUPPORTED_TUNES_ID {
            outcome == (Outcome { supported_tunes: true, ..just(MavResult::Accepted) })
        } else {
            outcome == just(MavResult::Denied)
        },
        MavCmd::PreflightRebootShutdown => if as_word(cmd.param1) == 0 {
            outcome == just(MavResult::Accepted)
        } else if as_word(cmd.param1) == 1 {
            outcome == (Outcome { reboot: true, ..just(MavResult::Accepted) })
        } else {
            outcome == just(MavResult::Unsupported)
        },
        MavCmd::CanForward => outcome == handed_on(UplinkCommand::RequestCanForwarding),
        MavCmd::CommandValve => if numbered_valve(as_byte(cmd.param1)) is Some
            && !asks_nothing_of_valve(cmd.param2, cmd.param3) {
            &&& outcome.forward matches Some(UplinkCommand::CommandValve(valve, command))
            &&& Some(valve) == numbered_valve(as_byte(cmd.param1))
            &&& asked_of_valve(cmd.param2, cmd.param3, command)
            &&& outcome == handed_on(UplinkCommand::CommandValve(valve, command))
        } else {
            outcome == just(MavResult::Denied)
        },
        MavCmd::Other(_) => outcome == just(MavResult::Unsupported),
    }
}

/// Where the text in the field ends: at the first zero byte, or at the end of the field.
pub open spec fn text_end(bytes: Seq<u8>) -> int
    decreases bytes.len(),
{
    if bytes.len() == 0 || bytes[0] == 0 {
        0
    } else {
        1 + text_end(bytes.drop_first())
    }
}

/// `name` is the name in the field, if the field holds one: a text without white space at its
/// ends, and short enough.
pub open spec fn is_tune_name(tune: Seq<u8>, name: Option<TuneName>) -> bool {
    let bytes = tune.take(text_end(tune));
    let text = trimmed(decode_utf8(bytes));
    match name {
        Some(name) => valid_utf8(bytes) && name_text(name) == text && encode_utf8(text).len()
            <= TUNE_NAME_LEN,
        None => !valid_utf8(bytes) || encode_utf8(text).len() > TUNE_NAME_LEN,
    }
}

/// What is to be done about a message that came in with this frame.
pub open spec fn is_response(
    frame: FrameHeader,
    msg: CommandMessage,
    system_id: u8,
    component_id: u8,
    response: Response,
) -> bool {
    let answer = |command: MavCmd, result: MavResult|
        Some(
            CommandAck {
                command,
                result,
                target_system: frame.system_id,
                target_component: frame.component_id,
            },
        );
    match msg {
        CommandMessage::Long(cmd) if cmd.target_system == system_id && cmd.target_component
            == component_id => {
            exists|outcome: Outcome| #[trigger]
                is_outcome(cmd, outcome) && response == (Response {
                    forward: outcome.forward,
                    supported_tunes: if outcome.supported_tunes {
                        Some(
                            SupportedTunes {
                                target_system: frame.system_id,
                                target_component: frame.component_id,
                                format: TuneFormat::Qbasic11,
                            },
                        )
                    } else {
                        None
                    },
                    ack: answer(cmd.command, outcome.result),
                    reboot: outcome.reboot,
                })
        },
        CommandMessage::Int { target_system, target_component, command } if target_system
            == system_id && target_component == component_id => {
            response == (Response {
                forward: None,
                supported_tunes: None,
                ack: answer(command, MavResult::CommandLongOnly),
                reboot: false,
            })
        },
        CommandMessage::PlayTune { target_system, target_component, tune } if target_system
            == system_id && target_component == component_id => {
            &&& response.ack is None
            &&& response.supported_tunes is None
            &&& !response.reboot
            &&& match response.forward {
                Some(UplinkCommand::PlayTune(name)) => is_tune_name(tune@, Some(name)),
                Some(_) => false,
                None => is_tune_name(tune@, None),
            }
        },
        _ => response == (Response {
            forward: None,
            supported_tunes: None,
            ack: None,
            reboot: false,
        }),
    }
}

/// Read the zero-terminated tune out of the field.
///
/// `None` if it is not valid UTF-8 or is longer than a tune name can be, which means that it
/// cannot name one of the sounds.
pub fn tune_name(tune: &[u8; 248]) -> (name: Option<TuneName>)
    ensures
        is_tune_name(tune@, name),
{
    let mut end: usize = 0;
    assert(tune@.skip(0) =~= tune@);
    while end < 248 && tune[end] != 0
        invariant
            end <= 248,
            text_end(tune@) == end + text_end(tune@.skip(end as int)),
        decreases 248 - end,
    {
        assert(tune@.skip(end as int).drop_first() =~= tune@.skip(end + 1));
        end += 1;
    }
    let bytes = vstd::slice::slice_subrange(tune.as_slice(), 0, end);
    assert(bytes@ =~= tune@.take(end as int));
    match utf8_text(bytes) {
        Some(text) => to_name(trim(text)),
        None => None,
    }
}

/// The valve with this number: the numbers of the extra valves follow those of the inventory.
pub open spec fn numbered_valve(number: int) -> Option<ValveTarget> {
    if 0 <= number < 9 {
        Some(ValveTarget::Listed(ValveId::ALL@[number]))
    } else if 9 <= number < 9 + EXTRA_VALVES {
        Some(ValveTarget::Extra((number - 8) as u8))
    } else {
        None
    }
}

/// The valve with this number, if there is one.
pub fn valve_by_number(number: u8) -> (valve: Option<ValveTarget>)
    ensures
        valve == numbered_valve(number as int),
{
    if number < 9 {
        Some(ValveTarget::Listed(ValveId::ALL[number as usize]))
    } else if number < 9 + EXTRA_VALVES {
        Some(ValveTarget::Extra(number - 8))
    } else {
        None
    }
}

/// What the position and the duration ask of a valve.
pub fn valve_command(position: Single, seconds: Single) -> (command: Option<ValveCommand>)
    ensures
        match command {
            Some(command) => !asks_nothing_of_valve(position, seconds) && asked_of_valve(
                position,
                seconds,
                command,
            ),
            None => asks_nothing_of_valve(position, seconds),
        },
{
    if !position.is_finite() {
        return None;
    }
    let target = if position.is_below(Single::zero()) {
        Single::zero()
    } else if Single::one().is_below(position) {
        Single::one()
    } else {
        position
    };
    let open = (Single { bits: NEARLY_OPEN_BITS }).is_below(target);
    let duration = match seconds.to_time_span() {
        Some(span) => if span.is_zero() {
            None
        } else {
            Some(span)
        },
        None => None,
    };
    match duration {
        Some(span) => if open {
            Some(ValveCommand::PulseOpen(span))
        } else {
            None
        },
        None => if open {
            Some(ValveCommand::Open)
        } else if target.is_below(Single { bits: NEARLY_CLOSED_BITS }) {
            Some(ValveCommand::Close)
        } else {
            Some(ValveCommand::Partial(target))
        },
    }
}

fn accepted(forward: Option<UplinkCommand>) -> (outcome: Outcome)
    ensures
        outcome == (Outcome {
            forward,
            supported_tunes: false,
            reboot: false,
            result: MavResult::Accepted,
        }),
{
    Outcome { forward, supported_tunes: false, reboot: false, result: MavResult::Accepted }
}

fn refused(result: MavResult) -> (outcome: Outcome)
    ensures
        outcome == just(result),
{
    Outcome { forward: None, supported_tunes: false, reboot: false, result }
}

/// What is to be done about a command addressed to us.
pub fn execute(cmd: &CommandLong) -> (outcome: Outcome)
    ensures
        is_outcome(*cmd, outcome),
{
    match cmd.command {
        MavCmd::DoSetMode => {
            if cmd.param1.to_u32() != 1 {
                return refused(MavResult::Denied);
            }
            match FlightMode::from_number(cmd.param2.to_u8() as u32) {
                Some(mode) => accepted(Some(UplinkCommand::SetFlightMode(mode))),
                None => refused(MavResult::Denied),
            }
        },
        MavCmd::RequestMessage => {
            let id: u32 = cmd.param1.to_u32();
            if id == AVAILABLE_MODES_ID {
                let index: usize = cmd.param2.to_u32() as usize;
                accepted(Some(UplinkCommand::RequestAvailableModes(index)))
            } else if id == SUPPORTED_TUNES_ID {
                Outcome { supported_tunes: true, ..accepted(None) }
            } else {
                refused(MavResult::Denied)
            }
        },
        MavCmd::PreflightRebootShutdown => {
            let action: u32 = cmd.param1.to_u32();
            if action == 0 {
                accepted(None)
            } else if action == 1 {
                Outcome { reboot: true, ..accepted(None) }
            } else {
                refused(MavResult::Unsupported)
            }
        },
        MavCmd::CanForward => accepted(Some(UplinkCommand::RequestCanForwarding)),
        MavCmd::CommandValve => {
            let valve = valve_by_number(cmd.param1.to_u8());
            match (valve, valve_command(cmd.param2, cmd.param3)) {
                (Some(valve), Some(command)) => accepted(
                    Some(UplinkCommand::CommandValve(valve, command)),
                ),
                _ => refused(MavResult::Denied),
            }
        },
        MavCmd::Other(_) => refused(MavResult::Unsupported),
    }
}

/// What is to be done about a message that came in with this frame, for the component with these
/// ids.
pub fn respond(
    frame: &FrameHeader,
    msg: &CommandMessage,
    system_id: u8,
    component_id: u8,
) -> (response: Response)
    ensures
        is_response(*frame, *msg, system_id, component_id, response),
{
    let mut response = Response {
        forward: None,
        supported_tunes: None,
        ack: None,
        reboot: false,
    };
    match msg {
        CommandMessage::Long(cmd) if cmd.target_system == system_id && cmd.target_component
            == component_id => {
            let outcome = execute(cmd);
            response =
            Response {
                forward: outcome.forward,
                supported_tunes: if outcome.supported_tunes {
                    Some(supported_tunes(frame))
                } else {
                    None
                },
                ack: Some(
                    CommandAck {
                        command: cmd.command,
                        result: outcome.result,
                        target_system: frame.system_id,
                        target_component: frame.component_id,
                    },
                ),
                reboot: outcome.reboot,
            };
        },
        CommandMessage::Int { target_system, target_component, command } if *target_system
            == system_id && *target_component == component_id => {
            response.ack =
            Some(
                CommandAck {
                    command: *command,
                    result: MavResult::CommandLongOnly,
                    target_system: frame.system_id,
                    target_component: frame.component_id,
                },
            );
        },
        CommandMessage::PlayTune { target_system, target_component, tune } if *target_system
            == system_id && *target_component == component_id => {
            if let Some(name) = tune_name(tune) {
                response.forward = Some(UplinkCommand::PlayTune(name));
            }
        },
        _ => {},
    }
    response
}

/// Handles the frames of one link.
pub struct CommandHandler {
    system_id: u8,
    component_id: u8,
    log: ReceptionLog,
}

/// The frame is from a ground station.
pub open spec fn from_ground(frame: FrameHeader) -> bool {
    frame.system_id >= MIN_GROUND_SYSTEM_ID
}

/// Whether the frame is from a ground station. They tend to have high ids; one with a low id may be
/// from another flight computer on the same network.
pub fn is_from_ground(frame: &FrameHeader) -> (ground: bool)
    ensures
        ground == from_ground(*frame),
{
    frame.system_id >= MIN_GROUND_SYSTEM_ID
}

impl CommandHandler {
    /// The ids that commands have to be addressed to.
    pub closed spec fn ids(self) -> (u8, u8) {
        (self.system_id, self.component_id)
    }

    /// The frames that came in lately.
    pub closed spec fn frames(self) -> Seq<(u64, u8, u16)> {
        self.log@
    }

    pub fn new(system_id: u8, component_id: u8) -> (handler: Self)
        ensures
            handler.ids() == (system_id, component_id),
            handler.frames().len() == 0,
    {
        CommandHandler { system_id, component_id, log: ReceptionLog::new() }
    }

    /// Handles one frame that came in at `now` (in microseconds) with the message it carries, if
    /// that could be made sense of. Nothing is done about, and nothing is learned from, a frame
    /// that is not from a ground station or makes no sense.
    pub fn handle(&mut self, frame: &FrameHeader, msg: Option<CommandMessage>, now: u64) -> (result:
        Option<(Response, LinkQuality)>)
        ensures
            final(self).ids() == old(self).ids(),
            result is Some <==> from_ground(*frame) && msg is Some,
            match result {
                Some((response, quality)) => {
                    &&& is_response(
                        *frame,
                        msg->0,
                        old(self).ids().0,
                        old(self).ids().1,
                        response,
                    )
                    &&& final(self).frames() == with_received(
                        old(self).frames(),
                        now,
                        frame.sequence,
                        frame.body_length,
                    )
                    &&& quality_of(final(self).frames(), quality)
                },
                None => final(self).frames() == old(self).frames(),
            },
    {
        if !is_from_ground(frame) {
            return None;
        }
        match msg {
            Some(msg) => {
                let response = respond(frame, &msg, self.system_id, self.component_id);
                self.log.received(now, frame.sequence, frame.body_length);
                Some((response, self.log.quality()))
            },
            None => None,
        }
    }
}

/// Every command addressed to us is acknowledged to its sender, with the command it answers; no
/// other message is.
pub proof fn law_every_command_is_acknowledged(
    frame: FrameHeader,
    msg: CommandMessage,
    system_id: u8,
    component_id: u8,
    response: Response,
)
    requires
        is_response(frame, msg, system_id, component_id, response),
    ensures
        ({
            let addressed = match msg {
                CommandMessage::Long(cmd) => if cmd.target_system == system_id
                    && cmd.target_component == component_id {
                    Some(cmd.command)
                } else {
                    None
                },
                CommandMessage::Int { target_system, target_component, command } => if target_system
                    == system_id && target_component == component_id {
                    Some(command)
                } else {
                    None
                },
                _ => None,
            };
            match (addressed, response.ack) {
                (Some(command), Some(ack)) => ack.command == command && ack.target_system
                    == frame.system_id && ack.target_component == frame.component_id,
                (None, None) => true,
                _ => false,
            }
        }),
{
}

/// Nothing is handed on for a command that is not accepted.
pub proof fn law_only_accepted_commands_are_handed_on(
    frame: FrameHeader,
    msg: CommandMessage,
    system_id: u8,
    component_id: u8,
    response: Response,
)
    requires
        is_response(frame, msg, system_id, component_id, response),
        response.ack matches Some(ack) && !(ack.result is Accepted),
    ensures
        response.forward is None,
        !response.reboot,
        response.supported_tunes is None,
{
}

} // verus!

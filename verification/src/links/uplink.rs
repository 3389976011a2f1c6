//! What the ground can ask for, and how it is answered.

use vstd::prelude::*;

use crate::inventory::ValveTarget;
use crate::modes::FlightMode;
use crate::text::TuneName;
use crate::valves::ValveCommand;

verus! {

/// The MAVLink component the flight computer speaks as. Also its node number on the bus.
pub const SELF_COMPONENT_ID: u8 = 0x01;

/// Frames from system ids below this one are not meant for us: ground stations tend to have high
/// ids, other flight computers on the same network low ones.
pub const MIN_GROUND_SYSTEM_ID: u8 = 0x7f;

/// The commands of the MAVLink command protocol that are told apart.
#[derive(Copy, Clone, Debug, PartialEq, Eq, Structural)]
pub enum MavCmd {
    DoSetMode,
    RequestMessage,
    PreflightRebootShutdown,
    CanForward,
    CommandValve,
    /// Any other command, by its number.
    Other(u16),
}

/// How a command is answered.
#[derive(Copy, Clone, Debug, PartialEq, Eq, Structural)]
pub enum MavResult {
    Accepted,
    Denied,
    Unsupported,
    CommandLongOnly,
}

/// The answer to a command.
#[derive(Copy, Clone, Debug, PartialEq, Eq, Structural)]
pub struct CommandAck {
    pub command: MavCmd,
    pub result: MavResult,
    pub target_system: u8,
    pub target_component: u8,
}

/// A command that is understood, valid and will be executed.
#[derive(Debug, PartialEq)]
pub enum UplinkCommand {
    SetFlightMode(FlightMode),
    RequestAvailableModes(usize),
    RequestCanForwarding,
    CommandValve(ValveTarget, ValveCommand),
    SetParam { id: u16, raw: u32 },
    /// Asks for the value of every parameter index `first + i` whose bit `i` is set.
    RequestParams { first: u16, mask: u32 },
    PlayTune(TuneName),
}

/// The command whose final answer is left to the vehicle.
pub open spec fn answered_by_vehicle(command: UplinkCommand) -> Option<MavCmd> {
    match command {
        UplinkCommand::SetFlightMode(_) => Some(MavCmd::DoSetMode),
        UplinkCommand::CommandValve(_, _) => Some(MavCmd::CommandValve),
        _ => None,
    }
}

impl UplinkCommand {
    /// The command whose final answer is left to the vehicle.
    pub fn mav_cmd(&self) -> (command: Option<MavCmd>)
        ensures
            command == answered_by_vehicle(*self),
    {
        match self {
            UplinkCommand::SetFlightMode(_) => Some(MavCmd::DoSetMode),
            UplinkCommand::CommandValve(_, _) => Some(MavCmd::CommandValve),
            UplinkCommand::RequestAvailableModes(_)
            | UplinkCommand::RequestCanForwarding
            | UplinkCommand::SetParam { .. }
            | UplinkCommand::RequestParams { .. }
            | UplinkCommand::PlayTune(_) => None,
        }
    }
}

/// Whether any link heard from a ground station since it was last asked.
#[derive(Copy, Clone, Debug, PartialEq, Eq, Structural)]
pub struct UplinkActivity {
    pub heard: bool,
}

/// Reports ground station traffic, on any link.
pub fn note_uplink_activity(activity: &mut UplinkActivity)
    ensures
        final(activity).heard,
{
    activity.heard = true;
}

/// Whether any link heard from a ground station since the last call, clearing the flag.
pub fn take_uplink_activity(activity: &mut UplinkActivity) -> (heard: bool)
    ensures
        heard == old(activity).heard,
        !final(activity).heard,
{
    let heard = activity.heard;
    activity.heard = false;
    heard
}

/// The links a command can come in on.
#[derive(Copy, Clone, Debug, PartialEq, Eq, Structural)]
pub enum CommandToken {
    /// By the sequence number of the radio frame.
    Lora(u16),
    Ethernet(MavCmd),
    Usb(MavCmd),
    /// Answered by the protocol that received it.
    Unanswered,
}

/// A wired link.
#[derive(Copy, Clone, Debug, PartialEq, Eq, Structural)]
pub enum WiredLink {
    Ethernet,
    Usb,
}

/// Who is to be told of the outcome of a command that came in on a wired link.
pub open spec fn wired_token(link: WiredLink, command: UplinkCommand) -> CommandToken {
    match (answered_by_vehicle(command), link) {
        (None, _) => CommandToken::Unanswered,
        (Some(command), WiredLink::Ethernet) => CommandToken::Ethernet(command),
        (Some(command), WiredLink::Usb) => CommandToken::Usb(command),
    }
}

/// The command asks for ignition.
pub open spec fn asks_for_ignition(command: UplinkCommand) -> bool {
    command matches UplinkCommand::SetFlightMode(mode) && mode is Ignite
}

/// Filters a command received on a wired link. `None` means that it is denied: ignition is
/// reachable by radio only.
pub fn from_wired(link: WiredLink, command: UplinkCommand) -> (passed: Option<
    (CommandToken, UplinkCommand),
>)
    ensures
        asks_for_ignition(command) ==> passed is None,
        !asks_for_ignition(command) ==> passed == Some((wired_token(link, command), command)),
{
    let token = match command.mav_cmd() {
        None => CommandToken::Unanswered,
        Some(cmd) => match link {
            WiredLink::Ethernet => CommandToken::Ethernet(cmd),
            WiredLink::Usb => CommandToken::Usb(cmd),
        },
    };
    if let UplinkCommand::SetFlightMode(FlightMode::Ignite) = command {
        return None;
    }
    Some((token, command))
}

/// What to answer to a command that was denied on a wired link.
pub fn wired_denial() -> (ack: CommandAck)
    ensures
        ack.command is DoSetMode,
        ack.result is Denied,
        ack.target_system == 0,
        ack.target_component == 0,
{
    command_ack(MavCmd::DoSetMode, MavResult::Denied)
}

/// One message on its way out, plus the MAVLink component it speaks for.
///
/// Almost everything is the flight computer's own; the exception is the heartbeat per IO board,
/// which carries the id of the board so that ground software sees one component per board.
#[derive(Copy, Clone, Debug, PartialEq, Eq)]
pub struct Downlink<M> {
    pub component_id: u8,
    pub message: M,
}

impl<M> Downlink<M> {
    pub fn new(component_id: u8, message: M) -> (downlink: Self)
        ensures
            downlink.component_id == component_id,
            downlink.message == message,
    {
        Downlink { component_id, message }
    }

    /// A message of the flight computer itself.
    pub fn from_self(message: M) -> (downlink: Self)
        ensures
            downlink.component_id == SELF_COMPONENT_ID,
            downlink.message == message,
    {
        Downlink::new(SELF_COMPONENT_ID, message)
    }
}

/// The answer to a command, to nobody in particular.
pub fn command_ack(command: MavCmd, result: MavResult) -> (ack: CommandAck)
    ensures
        ack == (CommandAck { command, result, target_system: 0, target_component: 0 }),
{
    CommandAck { command, result, target_system: 0, target_component: 0 }
}

/// Which link the result of a command goes out on.
#[derive(Copy, Clone, Debug, PartialEq, Eq, Structural)]
pub enum ResultRoute {
    /// By radio, to the sender of the frame with this sequence number.
    Lora(u16, MavResult),
    Wired(WiredLink, CommandAck),
    Nowhere,
}

/// Where the result of a command goes.
pub open spec fn result_route(token: CommandToken, result: MavResult) -> ResultRoute {
    let ack = |command: MavCmd|
        CommandAck { command, result, target_system: 0, target_component: 0 };
    match token {
        CommandToken::Lora(seq) => ResultRoute::Lora(seq, result),
        CommandToken::Ethernet(command) => ResultRoute::Wired(WiredLink::Ethernet, ack(command)),
        CommandToken::Usb(command) => ResultRoute::Wired(WiredLink::Usb, ack(command)),
        CommandToken::Unanswered => ResultRoute::Nowhere,
    }
}

/// Where the result of a command goes.
pub fn note_command_result(token: CommandToken, result: MavResult) -> (route: ResultRoute)
    ensures
        route == result_route(token, result),
{
    match token {
        CommandToken::Lora(seq) => ResultRoute::Lora(seq, result),
        CommandToken::Ethernet(command) => ResultRoute::Wired(
            WiredLink::Ethernet,
            command_ack(command, result),
        ),
        CommandToken::Usb(command) => ResultRoute::Wired(
            WiredLink::Usb,
            command_ack(command, result),
        ),
        CommandToken::Unanswered => ResultRoute::Nowhere,
    }
}

/// No wired link ever passes on a command to ignite.
pub proof fn law_ignition_is_by_radio_only(
    link: WiredLink,
    command: UplinkCommand,
    passed: Option<(CommandToken, UplinkCommand)>,
)
    requires
        call_ensures(from_wired, (link, command), passed),
    ensures
        passed matches Some((_, through)) ==> !asks_for_ignition(through),
{
}

} // verus!

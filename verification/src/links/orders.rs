//! What commands from the ground come to, told by the numbers in them.

use vstd::arithmetic::power2::{lemma2_to64, lemma_pow2_pos};
use vstd::prelude::*;
use vstd::utf8::{decode_utf8, encode_utf8, valid_utf8};

use crate::inventory::{InventoryId, ValveId, ValveTarget};
use crate::links::commands::{
    execute, has_duration, is_from_ground, respond, text_end, tune_name, valve_by_number,
    valve_command, CommandLong, CommandMessage, FrameHeader, Outcome, Response, SupportedTunes,
    TuneFormat, NEARLY_CLOSED_BITS, NEARLY_OPEN_BITS,
};
use crate::links::uplink::{CommandAck, MavCmd, MavResult, UplinkCommand};
use crate::modes::FlightMode;
use crate::single::value::{
    is_about, is_number, law_seconds_are_the_nearest_nanoseconds, law_unsigned_casts_truncate,
    lemma_is_about, unit, value,
};
use crate::single::Single;
use crate::text::{is_white_space, name_text, trimmed, trimmed_end, trimmed_start, TuneName};
use crate::valves::ValveCommand;

verus! {

/// The bounds of what counts as open and as closed are 0.99 and 0.01.
pub proof fn law_nearly_open_and_closed()
    ensures
        is_about((Single { bits: NEARLY_OPEN_BITS }), 99, 100),
        is_about((Single { bits: NEARLY_CLOSED_BITS }), 1, 100),
{
    lemma2_to64();
    lemma_is_about(Single { bits: NEARLY_OPEN_BITS }, 126, 24, 0xfd_70a4, 99, 100);
    assert(vstd::arithmetic::power2::pow2(30) == 0x4000_0000);
    lemma_is_about(Single { bits: NEARLY_CLOSED_BITS }, 120, 30, 0xa3_d70a, 1, 100);
}

/// The seconds are no time at all: not above zero, no number, or without end.
pub open spec fn is_no_time(seconds: Single) -> bool {
    seconds.bits == 0 || seconds.bits >= 0x7f80_0000
}

/// The seconds are a proper time: a nanosecond at least, and less than `2^40` seconds.
pub open spec fn is_proper_time(seconds: Single) -> bool {
    &&& 0 < seconds.bits < 0x5380_0000
    &&& value(seconds) * 1_000_000_000 >= unit()
}

/// Without a duration a valve is told to go where the position says, as it is: a position from 0.01
/// to 0.99 is commanded as it is, above that the valve opens, and below that it closes. Bit patterns
/// of positive numbers are in the order of the numbers.
pub proof fn law_a_position_is_commanded_as_it_is(
    position: Single,
    seconds: Single,
    command: Option<ValveCommand>,
)
    requires
        call_ensures(valve_command, (position, seconds), command),
        is_no_time(seconds),
    ensures
        0x3c23_d70a <= position.bits <= 0x3f7d_70a4 <==> command == Some(
            ValveCommand::Partial(position),
        ),
        0x3f7d_70a4 < position.bits < 0x7f80_0000 <==> command == Some(ValveCommand::Open),
        position.bits < 0x3c23_d70a || 0x8000_0000 <= position.bits < 0xff80_0000 <==> command
            == Some(ValveCommand::Close),
        !(position.bits % 0x8000_0000 < 0x7f80_0000) <==> command is None,
{
    lemma_no_time(seconds);
}

proof fn lemma_no_time(seconds: Single)
    requires
        is_no_time(seconds),
    ensures
        !has_duration(seconds),
{
    if seconds.bits == 0 || seconds.bits == 0x8000_0000 {
        assert(seconds.significand() == 0);
        assert(seconds.scale() == -149);
        lemma_pow2_pos(149);
        let d = vstd::arithmetic::power2::pow2(149) as int;
        vstd::arithmetic::div_mod::lemma_div_basics(d);
        vstd::arithmetic::div_mod::lemma_small_mod(0, d as nat);
        assert(seconds.seconds_in_nanos() == 0);
    }
}

/// With a duration a valve can only be pulsed open, and only where the position is above 0.99. The
/// pulse lasts the seconds that were asked for, to the nanosecond.
pub proof fn law_a_pulse_lasts_the_seconds(
    position: Single,
    seconds: Single,
    command: Option<ValveCommand>,
)
    requires
        call_ensures(valve_command, (position, seconds), command),
        is_proper_time(seconds),
    ensures
        0x3f7d_70a4 < position.bits < 0x7f80_0000 ==> {
            &&& command matches Some(ValveCommand::PulseOpen(span))
            &&& span.nanos < 1_000_000_000
            &&& ({
                let nanos = span.secs * 1_000_000_000 + span.nanos;
                -unit() <= 2 * (value(seconds) * 1_000_000_000 - nanos * unit()) <= unit()
            })
        },
        !(0x3f7d_70a4 < position.bits < 0x7f80_0000) ==> command is None,
{
    law_seconds_are_the_nearest_nanoseconds(seconds);
    lemma_pow2_pos(149);
    let (u, n) = (unit(), seconds.seconds_in_nanos());
    assert(n != 0) by {
        assert(n == 0 ==> n * u == 0) by (nonlinear_arith);
    }
    // Less than `2^40` seconds fit the field.
    assert(seconds.whole() <= u64::MAX) by {
        lemma2_to64();
        vstd::arithmetic::power2::lemma2_to64_rest();
        let (m, k) = (seconds.significand(), seconds.scale());
        assert(k <= 17);
        if k >= 0 {
            if k < 17 {
                vstd::arithmetic::power2::lemma_pow2_strictly_increases(k as nat, 17);
            }
            let p = vstd::arithmetic::power2::pow2(k as nat) as int;
            assert(m * p <= 0x100_0000 * 0x2_0000) by (nonlinear_arith)
                requires
                    0 <= m <= 0x100_0000,
                    0 <= p <= 0x2_0000,
            ;
        } else {
            let p = vstd::arithmetic::power2::pow2((-k) as nat) as int;
            lemma_pow2_pos((-k) as nat);
            assert(m / p <= m) by (nonlinear_arith)
                requires
                    m >= 0,
                    p >= 1,
            ;
        }
    }
    assert(has_duration(seconds));
}

/// The parameter reads as this whole number: it is that number and a fraction, or is not above zero
/// where the number is.
pub open spec fn reads_as(param: Single, n: int) -> bool {
    ||| n == 0 && (!is_number(param) || value(param) <= 0)
    ||| is_number(param) && n * unit() <= value(param) < (n + 1) * unit()
}

proof fn lemma_reads_as(param: Single, n: int, max: int)
    requires
        0 <= n < max < 0x1_0000_0000,
    ensures
        reads_as(param, n) <==> param.cast_unsigned(max) == n,
{
    law_unsigned_casts_truncate(param, max);
    lemma_pow2_pos(149);
    let (u, c, v) = (unit(), param.cast_unsigned(max), value(param));
    assert(0 * u == 0 && 1 * u == u) by (nonlinear_arith);
    assert((n + 1) * u <= max * u && (max + 1) * u > max * u && n * u >= 0) by (nonlinear_arith)
        requires
            0 <= n < max,
            u > 0,
    ;
    if is_number(param) && 0 <= v < (max + 1) * u {
        assert(c == n <==> n * u <= v < (n + 1) * u) by (nonlinear_arith)
            requires
                c * u <= v < (c + 1) * u,
                u > 0,
        ;
        if n == 0 && v <= 0 {
            assert(c == 0);
        }
    }
}

/// The parameter reads as the number of the mode.
pub open spec fn names_mode(param: Single, mode: FlightMode) -> bool {
    reads_as(
        param,
        match mode {
            FlightMode::Idle => 0,
            FlightMode::FillPressurant => 1,
            FlightMode::FillOxidizer => 2,
            FlightMode::Vent => 3,
            FlightMode::Pressurize => 4,
            FlightMode::Hold => 5,
            FlightMode::DetectLaunch => 6,
            FlightMode::Ignite => 7,
            FlightMode::Burn => 8,
            FlightMode::Coast => 9,
            FlightMode::DeployDrogue => 10,
            FlightMode::DeployMain => 11,
            FlightMode::Landed => 12,
        },
    )
}

/// A mode is entered where the command names one, by its number, and says that it is one of our own;
/// nothing else is then done. It is denied otherwise.
pub proof fn law_setting_the_mode(cmd: &CommandLong, outcome: Outcome, mode: FlightMode)
    requires
        call_ensures(execute, (cmd,), outcome),
        cmd.command == MavCmd::DoSetMode,
    ensures
        outcome.forward == Some(UplinkCommand::SetFlightMode(mode)) <==> reads_as(cmd.param1, 1)
            && names_mode(cmd.param2, mode),
        outcome.forward is Some ==> outcome.forward matches Some(UplinkCommand::SetFlightMode(_)),
        outcome.result == if outcome.forward is Some {
            MavResult::Accepted
        } else {
            MavResult::Denied
        },
        !outcome.reboot,
        !outcome.supported_tunes,
{
    lemma_reads_as(cmd.param1, 1, 0xffff_ffff);
    lemma_reads_as(cmd.param2, mode.code(), 255);
    crate::modes::law_all_modes_by_number();
    assert(FlightMode::ALL@[mode.code()] == mode);
    let k = cmd.param2.cast_unsigned(255);
    if 0 <= k < 13 {
        assert(FlightMode::ALL@[k].code() == k);
    }
    law_unsigned_casts_truncate(cmd.param2, 255);
}

/// The parameter reads as the number of the valve.
pub open spec fn names_valve(param: Single, valve: ValveTarget) -> bool {
    match valve {
        ValveTarget::Listed(ValveId::PressurantVent) => reads_as(param, 0),
        ValveTarget::Listed(ValveId::Pressurization) => reads_as(param, 1),
        ValveTarget::Listed(ValveId::OxidizerVent) => reads_as(param, 2),
        ValveTarget::Listed(ValveId::OxidizerFill) => reads_as(param, 3),
        ValveTarget::Listed(ValveId::Main) => reads_as(param, 4),
        ValveTarget::Listed(ValveId::ExternalPressurantFill) => reads_as(param, 5),
        ValveTarget::Listed(ValveId::ExternalOxidizerFill) => reads_as(param, 6),
        ValveTarget::Listed(ValveId::ExternalPressurantVent) => reads_as(param, 7),
        ValveTarget::Listed(ValveId::ExternalOxidizerVent) => reads_as(param, 8),
        ValveTarget::Extra(k) => 1 <= k <= 10 && reads_as(param, 8 + k),
    }
}

/// A valve is commanded where the command names one, by its number, and asks something of it that it
/// can do; what is handed on is what the position and the duration ask. It is denied otherwise.
pub proof fn law_commanding_a_valve(
    cmd: &CommandLong,
    outcome: Outcome,
    valve: ValveTarget,
    asked: Option<ValveCommand>,
)
    requires
        call_ensures(execute, (cmd,), outcome),
        call_ensures(valve_command, (cmd.param2, cmd.param3), asked),
        cmd.command == MavCmd::CommandValve,
    ensures
        match outcome.forward {
            Some(UplinkCommand::CommandValve(target, command)) => {
                &&& target == valve <==> names_valve(cmd.param1, valve)
                &&& asked is Some
                &&& !(asked->0 is PulseOpen) ==> command == asked->0
                &&& asked->0 is PulseOpen <==> command is PulseOpen
                &&& outcome.result == MavResult::Accepted
            },
            Some(_) => false,
            None => {
                &&& names_valve(cmd.param1, valve) ==> asked is None
                &&& outcome.result == MavResult::Denied
            },
        },
        !outcome.reboot,
        !outcome.supported_tunes,
{
    let number = match valve {
        ValveTarget::Listed(id) => id.index_of(),
        ValveTarget::Extra(k) => 8 + k,
    };
    ValveId::law_all_is_in_index_order();
    if let ValveTarget::Listed(id) = valve {
        assert(0 <= id.index_of() < 9 && ValveId::ALL@[id.index_of()] == id);
    }
    let k = cmd.param1.cast_unsigned(255);
    if 0 <= k < 9 {
        assert(ValveId::ALL@[k].index_of() == k);
    }
    law_unsigned_casts_truncate(cmd.param1, 255);
    if number < 255 {
        lemma_reads_as(cmd.param1, number, 255);
    }
}

/// Each valve has its own number.
pub proof fn law_valves_by_number(number: u8, valve: Option<ValveTarget>)
    requires
        call_ensures(valve_by_number, (number,), valve),
    ensures
        number == 0 <==> valve == Some(ValveTarget::Listed(ValveId::PressurantVent)),
        number == 1 <==> valve == Some(ValveTarget::Listed(ValveId::Pressurization)),
        number == 2 <==> valve == Some(ValveTarget::Listed(ValveId::OxidizerVent)),
        number == 3 <==> valve == Some(ValveTarget::Listed(ValveId::OxidizerFill)),
        number == 4 <==> valve == Some(ValveTarget::Listed(ValveId::Main)),
        number == 5 <==> valve == Some(ValveTarget::Listed(ValveId::ExternalPressurantFill)),
        number == 6 <==> valve == Some(ValveTarget::Listed(ValveId::ExternalOxidizerFill)),
        number == 7 <==> valve == Some(ValveTarget::Listed(ValveId::ExternalPressurantVent)),
        number == 8 <==> valve == Some(ValveTarget::Listed(ValveId::ExternalOxidizerVent)),
        9 <= number <= 18 ==> valve == Some(ValveTarget::Extra((number - 8) as u8)),
        number > 18 <==> valve is None,
{
    ValveId::law_all_is_in_index_order();
    if number < 9 {
        assert(ValveId::ALL@[number as int].index_of() == number);
    }
}

/// The other commands: the list of modes is asked for by message 435 and an index, the tune formats
/// by message 401; one restarts, and zero restarts nothing; frames of the bus are forwarded on
/// request; and what is not known is not supported.
pub proof fn law_the_other_commands(cmd: &CommandLong, outcome: Outcome, index: int)
    requires
        call_ensures(execute, (cmd,), outcome),
        0 <= index < 0xffff_ffff,
    ensures
        cmd.command == MavCmd::RequestMessage ==> {
            &&& reads_as(cmd.param1, 435) && reads_as(cmd.param2, index) ==> outcome.forward
                == Some(UplinkCommand::RequestAvailableModes(index as usize))
            &&& outcome.forward is Some <==> reads_as(cmd.param1, 435)
            &&& outcome.supported_tunes <==> reads_as(cmd.param1, 401)
            &&& outcome.result == if reads_as(cmd.param1, 435) || reads_as(cmd.param1, 401) {
                MavResult::Accepted
            } else {
                MavResult::Denied
            }
            &&& !outcome.reboot
        },
        cmd.command == MavCmd::PreflightRebootShutdown ==> {
            &&& outcome.reboot <==> reads_as(cmd.param1, 1)
            &&& outcome.forward is None
            &&& !outcome.supported_tunes
            &&& outcome.result == if reads_as(cmd.param1, 0) || reads_as(cmd.param1, 1) {
                MavResult::Accepted
            } else {
                MavResult::Unsupported
            }
        },
        cmd.command == MavCmd::CanForward ==> {
            &&& outcome.forward == Some(UplinkCommand::RequestCanForwarding)
            &&& outcome.result == MavResult::Accepted
            &&& !outcome.reboot && !outcome.supported_tunes
        },
        cmd.command is Other ==> {
            &&& outcome.forward is None
            &&& outcome.result == MavResult::Unsupported
            &&& !outcome.reboot && !outcome.supported_tunes
        },
{
    lemma_reads_as(cmd.param1, 0, 0xffff_ffff);
    lemma_reads_as(cmd.param1, 1, 0xffff_ffff);
    lemma_reads_as(cmd.param1, 401, 0xffff_ffff);
    lemma_reads_as(cmd.param1, 435, 0xffff_ffff);
    lemma_reads_as(cmd.param2, index, 0xffff_ffff);
}

/// What comes of a command is what goes out in answer to it, to the one who sent it. A message that
/// is not addressed to us has no effect, and a command in the other form is answered by asking for
/// the long one.
pub proof fn law_commands_are_answered_to_their_sender(
    frame: &FrameHeader,
    msg: &CommandMessage,
    system_id: u8,
    component_id: u8,
    response: Response,
)
    requires
        call_ensures(respond, (frame, msg, system_id, component_id), response),
    ensures
        match *msg {
            CommandMessage::Long(cmd) => if cmd.target_system == system_id && cmd.target_component
                == component_id {
                &&& response.ack matches Some(ack) && ack.command == cmd.command
                    && ack.target_system == frame.system_id && ack.target_component
                    == frame.component_id
                &&& exists|outcome: Outcome| #[trigger]
                    crate::links::commands::is_outcome(cmd, outcome) && outcome.forward
                        == response.forward && outcome.reboot == response.reboot
                        && outcome.result == (response.ack->0).result && outcome.supported_tunes
                        == (response.supported_tunes is Some)
                &&& response.supported_tunes matches Some(tunes) ==> tunes == (SupportedTunes {
                    target_system: frame.system_id,
                    target_component: frame.component_id,
                    format: TuneFormat::Qbasic11,
                })
            } else {
                is_silent(response)
            },
            CommandMessage::Int { target_system, target_component, command } => if target_system
                == system_id && target_component == component_id {
                &&& response.ack == Some(
                    CommandAck {
                        command,
                        result: MavResult::CommandLongOnly,
                        target_system: frame.system_id,
                        target_component: frame.component_id,
                    },
                )
                &&& response.forward is None && response.supported_tunes is None
                    && !response.reboot
            } else {
                is_silent(response)
            },
            CommandMessage::PlayTune { target_system, target_component, .. } => {
                &&& response.ack is None && response.supported_tunes is None && !response.reboot
                &&& target_system != system_id || target_component != component_id
                    ==> response.forward is None
                &&& response.forward is Some ==> response.forward->0 is PlayTune
            },
            CommandMessage::Other => is_silent(response),
        },
{
}

/// Nothing is done.
pub open spec fn is_silent(response: Response) -> bool {
    response.ack is None && response.forward is None && response.supported_tunes is None
        && !response.reboot
}

/// Ground stations have ids from 127 on.
pub proof fn law_ground_stations_have_high_ids(frame: &FrameHeader, ground: bool)
    requires
        call_ensures(is_from_ground, (frame,), ground),
    ensures
        ground <==> frame.system_id >= 127,
{
}

/// The text in a field ends at its first zero, or with the field.
pub proof fn law_where_a_text_ends(bytes: Seq<u8>)
    ensures
        0 <= text_end(bytes) <= bytes.len(),
        forall|i: int| 0 <= i < text_end(bytes) ==> #[trigger] bytes[i] != 0,
        text_end(bytes) < bytes.len() ==> bytes[text_end(bytes)] == 0,
    decreases bytes.len(),
{
    if bytes.len() > 0 && bytes[0] != 0 {
        let rest = bytes.drop_first();
        law_where_a_text_ends(rest);
        assert forall|i: int| 0 <= i < text_end(bytes) implies #[trigger] bytes[i] != 0 by {
            if i > 0 {
                assert(rest[i - 1] == bytes[i]);
            }
        }
    }
}

/// A text is trimmed at both ends: what is left starts and ends with something else than white
/// space, and all that is gone is white space.
pub proof fn law_what_is_trimmed(text: Seq<char>) -> (range: (int, int))
    ensures
        0 <= range.0 <= range.1 <= text.len(),
        trimmed(text) == text.subrange(range.0, range.1),
        forall|i: int| 0 <= i < range.0 ==> is_white_space(#[trigger] text[i]),
        forall|i: int| range.1 <= i < text.len() ==> is_white_space(#[trigger] text[i]),
        range.0 < range.1 ==> !is_white_space(text[range.0]) && !is_white_space(text[range.1 - 1]),
{
    let start = lemma_trimmed_start(text);
    let rest = trimmed_start(text);
    let len = lemma_trimmed_end(rest);
    assert(trimmed(text) =~= text.subrange(start, start + len));
    assert forall|i: int| start + len <= i < text.len() implies is_white_space(
        #[trigger] text[i],
    ) by {
        assert(rest[i - start] == text[i]);
    }
    if len > 0 {
        assert(rest[0] == text[start]);
        assert(rest[len - 1] == text[start + len - 1]);
    }
    (start, start + len)
}

proof fn lemma_trimmed_start(text: Seq<char>) -> (start: int)
    ensures
        0 <= start <= text.len(),
        trimmed_start(text) == text.skip(start),
        forall|i: int| 0 <= i < start ==> is_white_space(#[trigger] text[i]),
        start < text.len() ==> !is_white_space(text[start]),
    decreases text.len(),
{
    if text.len() > 0 && is_white_space(text[0]) {
        let rest = text.drop_first();
        let start = lemma_trimmed_start(rest);
        assert(rest.skip(start) =~= text.skip(start + 1));
        assert forall|i: int| 0 <= i < start + 1 implies is_white_space(#[trigger] text[i]) by {
            if i > 0 {
                assert(rest[i - 1] == text[i]);
            }
        }
        if start < rest.len() {
            assert(rest[start] == text[start + 1]);
        }
        start + 1
    } else {
        assert(text.skip(0) =~= text);
        0
    }
}

proof fn lemma_trimmed_end(text: Seq<char>) -> (len: int)
    ensures
        0 <= len <= text.len(),
        trimmed_end(text) == text.take(len),
        forall|i: int| len <= i < text.len() ==> is_white_space(#[trigger] text[i]),
        len > 0 ==> !is_white_space(text[len - 1]),
    decreases text.len(),
{
    if text.len() > 0 && is_white_space(text.last()) {
        let rest = text.drop_last();
        let len = lemma_trimmed_end(rest);
        assert(rest.take(len) =~= text.take(len));
        assert forall|i: int| len <= i < text.len() implies is_white_space(#[trigger] text[i]) by {
            if i < rest.len() {
                assert(rest[i] == text[i]);
            }
        }
        len
    } else {
        assert(text.take(text.len() as int) =~= text);
        text.len() as int
    }
}

/// A tune is named by the text of its field, without white space at its ends, where that is proper
/// text of 32 bytes at most.
pub proof fn law_how_a_tune_is_named(tune: &[u8; 248], name: Option<TuneName>)
    requires
        call_ensures(tune_name, (tune,), name),
    ensures
        ({
            let bytes = tune@.take(text_end(tune@));
            &&& name is Some <==> valid_utf8(bytes) && encode_utf8(
                trimmed(decode_utf8(bytes)),
            ).len() <= 32
            &&& name matches Some(found) ==> name_text(found) == trimmed(decode_utf8(bytes))
        }),
{
}

} // verus!

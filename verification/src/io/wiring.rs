//! What is wired to the IO boards, board by board, and that messages go to and come from there.

use vstd::prelude::*;

use crate::bus::{BusInputImage, BusOutputImage, DataWithTime, ValveState};
use crate::inventory::{BinaryOutputId, InventoryId, PressSensId, TempSensId, ValveId};
use crate::io::handler::{
    ingested, last_pressure, last_temperature, may_be_process_data, sets_output, with_outputs,
    with_readings, with_valves, BusHandler, OutputState, ProcessData,
};
use crate::io::mapping::{output_place, press_place, temp_place, valve_place};
use crate::io::pdo_mapping::{
    bo_id_for, first_output_at, first_slot, first_valve_at, frame_readings, is_reading,
    output_is_at, output_states, sensor_slot_base, subindex_to_slot, valve_id_for, valve_is_at,
    valve_states, HcoOutput, SensorAddr, SensorReading, TpdoKind,
};
use crate::io::sdo::{can_msg_id, valve_sdo_frame, CanMessage, WireId};
use crate::single::value::{is_about, law_quotients_are_rounded};
use crate::single::Single;

verus! {

/// Board 4 drives the oxidizer vent. Board 5 drives the pressurization valve and the pressurant
/// vent. Board 6 drives the main valve and the oxidizer fill valve. The valves outside the vehicle
/// are on no board.
pub proof fn law_valves_by_board(valve: ValveId)
    ensures
        valve_place(valve) == (4u8, 1u8) <==> valve == ValveId::OxidizerVent,
        valve_place(valve) == (5u8, 1u8) <==> valve == ValveId::Pressurization,
        valve_place(valve) == (5u8, 2u8) <==> valve == ValveId::PressurantVent,
        valve_place(valve) == (6u8, 1u8) <==> valve == ValveId::Main,
        valve_place(valve) == (6u8, 2u8) <==> valve == ValveId::OxidizerFill,
        valve_place(valve) == (0xffu8, 0xffu8) <==> (valve == ValveId::ExternalPressurantFill
            || valve == ValveId::ExternalOxidizerFill || valve == ValveId::ExternalPressurantVent
            || valve == ValveId::ExternalOxidizerVent),
{
}

/// Board 7 drives the igniters, and board 2 the cameras, on the first and the third output.
pub proof fn law_outputs_by_board(output: BinaryOutputId)
    ensures
        output_place(output) == (7u8, 1u8) <==> output == BinaryOutputId::Igniter1,
        output_place(output) == (7u8, 3u8) <==> output == BinaryOutputId::Igniter2,
        output_place(output) == (2u8, 1u8) <==> output == BinaryOutputId::Camera1,
        output_place(output) == (2u8, 3u8) <==> output == BinaryOutputId::Camera2,
{
}

/// The sensors that each board reads, by the slots that they are reported in.
pub proof fn law_sensors_by_board(temp: TempSensId, press: PressSensId)
    ensures
        temp_place(temp) == (5u8, 0u8) <==> temp == TempSensId::OxTankUpper,
        temp_place(temp) == (6u8, 2u8) <==> temp == TempSensId::OxTankLower,
        press_place(press) == (2u8, 0u8) <==> press == PressSensId::Nosecone,
        press_place(press) == (5u8, 1u8) <==> press == PressSensId::PReg1,
        press_place(press) == (5u8, 2u8) <==> press == PressSensId::PReg2,
        press_place(press) == (5u8, 3u8) <==> press == PressSensId::OxTankUpper,
        press_place(press) == (5u8, 4u8) <==> press == PressSensId::PressurantTank,
        press_place(press) == (6u8, 0u8) <==> press == PressSensId::CombustionChamber,
        press_place(press) == (6u8, 1u8) <==> press == PressSensId::OxTankLower,
        press_place(press) == (8u8, 0u8) <==> (press == PressSensId::ExternalPressurant || press
            == PressSensId::ExternalOxidizer),
{
}

/// The place of a valve in the order in which outputs are sent: after the four binary outputs.
pub open spec fn valve_turn(valve: ValveId) -> int {
    match valve {
        ValveId::PressurantVent => 4,
        ValveId::Pressurization => 5,
        ValveId::OxidizerVent => 6,
        ValveId::OxidizerFill => 7,
        ValveId::Main => 8,
        ValveId::ExternalPressurantFill => 9,
        ValveId::ExternalOxidizerFill => 10,
        ValveId::ExternalPressurantVent => 11,
        ValveId::ExternalOxidizerVent => 12,
    }
}

/// A valve is moved by a message to its board that writes how far it is to open, in thousandths, to
/// its entry of the store at 0x2010: the lower byte first, and nothing after the two bytes.
pub proof fn law_a_valve_is_written_to_its_board(
    outputs: BusOutputImage,
    valve: ValveId,
    msg: CanMessage,
)
    requires
        sets_output(outputs, valve_turn(valve), msg),
    ensures
        ({
            let (board, entry) = match valve {
                ValveId::Pressurization => (5int, 1int),
                ValveId::PressurantVent => (5, 2),
                ValveId::OxidizerVent => (4, 1),
                ValveId::Main => (6, 1),
                ValveId::OxidizerFill => (6, 2),
                _ => (0xff, 0xff),
            };
            &&& msg.id == 0x600 + board
            &&& !msg.extended
            &&& !msg.rtr
            &&& msg.dlc == 8
            &&& msg.data[0] == 0x2b
            &&& msg.data[1] == 0x10
            &&& msg.data[2] == 0x20
            &&& msg.data[3] == entry
            &&& msg.data[4] + 256 * msg.data[5] == outputs.valve.at(valve)@
            &&& msg.data[6] == 0
            &&& msg.data[7] == 0
        }),
{
    broadcast use crate::inventory::law_map_has_one_value_per_component;

    ValveId::law_all_is_in_index_order();
    assert(ValveId::ALL@[valve.index_of()] == valve);
    assert(valve_turn(valve) == 4 + valve.index_of());
    assert(msg.data[0] == msg.data@[0]);
}

/// A binary output is switched by a message to its board that writes one byte, a one or a zero, to
/// its entry of the store at 0x2020.
pub proof fn law_an_output_is_written_to_its_board(
    outputs: BusOutputImage,
    output: BinaryOutputId,
    msg: CanMessage,
)
    requires
        sets_output(
            outputs,
            match output {
                BinaryOutputId::Igniter1 => 0,
                BinaryOutputId::Igniter2 => 1,
                BinaryOutputId::Camera1 => 2,
                BinaryOutputId::Camera2 => 3,
            },
            msg,
        ),
    ensures
        ({
            let (board, entry) = match output {
                BinaryOutputId::Igniter1 => (7int, 1int),
                BinaryOutputId::Igniter2 => (7, 3),
                BinaryOutputId::Camera1 => (2, 1),
                BinaryOutputId::Camera2 => (2, 3),
            };
            &&& msg.id == 0x600 + board
            &&& !msg.extended
            &&& !msg.rtr
            &&& msg.dlc == 8
            &&& msg.data[0] == 0x27
            &&& msg.data[1] == 0x20
            &&& msg.data[2] == 0x20
            &&& msg.data[3] == entry
            &&& msg.data[4] == if outputs.binary_output.at(output) {
                1int
            } else {
                0
            }
            &&& msg.data[5] == 0
            &&& msg.data[6] == 0
            &&& msg.data[7] == 0
        }),
{
    broadcast use crate::inventory::law_map_has_one_value_per_component;

    BinaryOutputId::law_all_is_in_index_order();
    assert(BinaryOutputId::ALL@[output.index_of()] == output);
}

/// A frame's positions reach the valves that are wired to its slots, and no others.
proof fn lemma_positions_reach_their_valves(
    image: BusInputImage,
    node_id: u8,
    positions: Seq<u16>,
    states: Seq<(ValveId, ValveState)>,
    time: u32,
    valve: ValveId,
)
    requires
        valve_states(node_id, positions, states),
        positions.len() <= 4,
    ensures
        with_valves(image, states, time).len() == image.valve_state@.len(),
        ({
            let (board, entry) = valve_place(valve);
            let known = with_valves(image, states, time)[valve.index_of()];
            if board == node_id && 1 <= entry <= positions.len() {
                &&& known is Some
                &&& known->0.time == time
                &&& known->0.data@ == if positions[entry - 1] > 1000 {
                    1000
                } else {
                    positions[entry - 1]
                }
            } else {
                known == image.valve_state@[valve.index_of()]
            }
        }),
    decreases positions.len(),
{
    broadcast use crate::inventory::law_map_has_one_value_per_component;

    ValveId::law_all_is_in_index_order();
    if positions.len() > 0 {
        let slot = positions.len() - 1;
        let rest = positions.drop_last();
        let (board, entry) = valve_place(valve);
        assert(1 <= entry <= rest.len() ==> rest[entry - 1] == positions[entry - 1]);
        if first_valve_at(node_id, slot, None) {
            lemma_positions_reach_their_valves(image, node_id, rest, states, time, valve);
            let at = |v: ValveId| valve_is_at(v, node_id, slot);
            assert(crate::io::pdo_mapping::is_first(at, None));
            assert(!at(valve));
        } else {
            lemma_positions_reach_their_valves(
                image,
                node_id,
                rest,
                states.drop_last(),
                time,
                valve,
            );
            let here = states.last().0;
            assert(valve_is_at(here, node_id, slot));
            if valve_is_at(valve, node_id, slot) {
                law_valves_by_board(valve);
                law_valves_by_board(here);
                assert(here == valve);
            } else {
                assert(here != valve);
                assert(here.index_of() != valve.index_of()) by {
                    assert(ValveId::ALL@[here.index_of()] == here);
                    assert(ValveId::ALL@[valve.index_of()] == valve);
                }
            }
        }
    }
}

/// A frame's outputs reach the binary outputs that are wired to its slots, and no others.
proof fn lemma_outputs_reach_their_places(
    image: BusInputImage,
    node_id: u8,
    outputs: Seq<HcoOutput>,
    states: Seq<(BinaryOutputId, bool)>,
    time: u32,
    output: BinaryOutputId,
)
    requires
        output_states(node_id, outputs, states),
        outputs.len() <= 4,
    ensures
        with_outputs(image, states, time).len() == image.binary_outputs@.len(),
        ({
            let (board, entry) = output_place(output);
            let known = with_outputs(image, states, time)[output.index_of()];
            if board == node_id && 1 <= entry <= outputs.len() {
                &&& known is Some
                &&& known->0.time == time
                &&& known->0.data == (outputs[entry - 1] != HcoOutput::DigitalOff)
            } else {
                known == image.binary_outputs@[output.index_of()]
            }
        }),
    decreases outputs.len(),
{
    broadcast use crate::inventory::law_map_has_one_value_per_component;

    BinaryOutputId::law_all_is_in_index_order();
    if outputs.len() > 0 {
        let slot = outputs.len() - 1;
        let rest = outputs.drop_last();
        let (board, entry) = output_place(output);
        assert(1 <= entry <= rest.len() ==> rest[entry - 1] == outputs[entry - 1]);
        if first_output_at(node_id, slot, None) {
            lemma_outputs_reach_their_places(image, node_id, rest, states, time, output);
            let at = |o: BinaryOutputId| output_is_at(o, node_id, slot);
            assert(crate::io::pdo_mapping::is_first(at, None));
            assert(!at(output));
        } else {
            lemma_outputs_reach_their_places(
                image,
                node_id,
                rest,
                states.drop_last(),
                time,
                output,
            );
            let here = states.last().0;
            assert(output_is_at(here, node_id, slot));
            if output_is_at(output, node_id, slot) {
                assert(here == output);
            } else {
                assert(here.index_of() != output.index_of()) by {
                    assert(BinaryOutputId::ALL@[here.index_of()] == here);
                    assert(BinaryOutputId::ALL@[output.index_of()] == output);
                }
            }
        }
    }
}

/// What a frame with valve positions says of a slot becomes the state of the valve that is wired
/// there, at most fully open, with the time. Every other reading stays.
pub proof fn law_valve_positions_come_from_their_boards(
    before: BusInputImage,
    node_id: u8,
    positions: [u16; 4],
    time: u32,
    after: BusInputImage,
    valve: ValveId,
)
    requires
        ingested(before, node_id, ProcessData::Valves(positions), time, after),
    ensures
        ({
            let slot = match valve {
                ValveId::Pressurization if node_id == 5 => Some(0int),
                ValveId::PressurantVent if node_id == 5 => Some(1int),
                ValveId::OxidizerVent if node_id == 4 => Some(0int),
                ValveId::Main if node_id == 6 => Some(0int),
                ValveId::OxidizerFill if node_id == 6 => Some(1int),
                _ => None,
            };
            match slot {
                Some(slot) => {
                    &&& after.valve_state.at(valve) is Some
                    &&& after.valve_state.at(valve)->0.time == time
                    &&& after.valve_state.at(valve)->0.data@ == if positions[slot] > 1000 {
                        1000
                    } else {
                        positions[slot]
                    }
                },
                None => after.valve_state.at(valve) == before.valve_state.at(valve),
            }
        }),
        after.binary_outputs@ == before.binary_outputs@,
        after.temp_sens@ == before.temp_sens@,
        after.press_sens@ == before.press_sens@,
        after.ox_tank_level == before.ox_tank_level,
{
    broadcast use crate::inventory::law_map_has_one_value_per_component;

    ValveId::law_all_is_in_index_order();
    let states = choose|states: Seq<(ValveId, ValveState)>|
        {
            &&& #[trigger] valve_states(node_id, positions@, states)
            &&& after.valve_state@ == with_valves(before, states, time)
        };
    lemma_positions_reach_their_valves(before, node_id, positions@, states, time, valve);
    assert(forall|i: int| 0 <= i < 4 ==> #[trigger] positions@[i] == positions[i]);
}

/// What a frame with high current outputs says of a slot becomes the state of the binary output
/// that is wired there: it is on unless it is digitally off.
pub proof fn law_outputs_come_from_their_boards(
    before: BusInputImage,
    node_id: u8,
    outputs: [HcoOutput; 4],
    time: u32,
    after: BusInputImage,
    output: BinaryOutputId,
)
    requires
        ingested(before, node_id, ProcessData::HighCurrentOutputs(outputs), time, after),
    ensures
        ({
            let slot = match output {
                BinaryOutputId::Igniter1 if node_id == 7 => Some(0int),
                BinaryOutputId::Igniter2 if node_id == 7 => Some(2int),
                BinaryOutputId::Camera1 if node_id == 2 => Some(0int),
                BinaryOutputId::Camera2 if node_id == 2 => Some(2int),
                _ => None,
            };
            match slot {
                Some(slot) => {
                    &&& after.binary_outputs.at(output) is Some
                    &&& after.binary_outputs.at(output)->0.time == time
                    &&& after.binary_outputs.at(output)->0.data == match outputs[slot] {
                        HcoOutput::DigitalOff => false,
                        HcoOutput::DigitalOn | HcoOutput::Pwm(_) => true,
                    }
                },
                None => after.binary_outputs.at(output) == before.binary_outputs.at(output),
            }
        }),
        after.valve_state@ == before.valve_state@,
        after.temp_sens@ == before.temp_sens@,
        after.press_sens@ == before.press_sens@,
        after.ox_tank_level == before.ox_tank_level,
{
    broadcast use crate::inventory::law_map_has_one_value_per_component;

    BinaryOutputId::law_all_is_in_index_order();
    let states = choose|states: Seq<(BinaryOutputId, bool)>|
        {
            &&& #[trigger] output_states(node_id, outputs@, states)
            &&& after.binary_outputs@ == with_outputs(before, states, time)
        };
    lemma_outputs_reach_their_places(before, node_id, outputs@, states, time, output);
    assert(forall|i: int| 0 <= i < 4 ==> #[trigger] outputs@[i] == outputs[i]);
}

/// The readings in a frame that are of this temperature sensor.
proof fn lemma_readings_reach_their_sensors(
    image: BusInputImage,
    node_id: u8,
    base: u8,
    values: Seq<i16>,
    readings: Seq<SensorReading>,
    time: u32,
    temp: TempSensId,
    press: PressSensId,
)
    requires
        frame_readings(node_id, base, values, readings),
        values.len() <= 4,
        base <= 8,
        press != PressSensId::ExternalOxidizer,
    ensures
        ({
            let (board, slot) = temp_place(temp);
            let known = last_temperature(readings, temp.index_of(), time, image);
            if board == node_id && base <= slot < base + values.len() && values[slot - base]
                != -32768 {
                &&& known is Some
                &&& known->0.time == time
                &&& known->0.data.is_quotient(values[slot - base] as int, 100)
            } else {
                known == image.temp_sens@[temp.index_of()]
            }
        }),
        ({
            let (board, slot) = press_place(press);
            let known = last_pressure(readings, press.index_of(), time, image);
            if board == node_id && base <= slot < base + values.len() && values[slot - base]
                != -32768 {
                &&& known is Some
                &&& known->0.time == time
                &&& known->0.data.is_quotient(values[slot - base] as int, 100)
            } else {
                known == image.press_sens@[press.index_of()]
            }
        }),
        last_pressure(readings, PressSensId::ExternalOxidizer.index_of(), time, image)
            == image.press_sens@[PressSensId::ExternalOxidizer.index_of()],
    decreases values.len(),
{
    if values.len() > 0 {
        let slot = (base + values.len() - 1) as u8;
        let rest = values.drop_last();
        let raw = values.last();
        let at_temp = |s: TempSensId| temp_place(s) == (node_id, slot);
        let at_press = |s: PressSensId| press_place(s) == (node_id, slot);
        assert(forall|k: int| 0 <= k < rest.len() ==> #[trigger] rest[k] == values[k]);
        assert(at_temp(temp) <==> temp_place(temp) == (node_id, slot));
        assert(at_press(press) <==> press_place(press) == (node_id, slot));
        crate::io::mapping::law_sensors_of_different_kinds_have_different_places(temp, press);
        if is_reading(node_id, slot, raw, None) && frame_readings(node_id, base, rest, readings) {
            lemma_readings_reach_their_sensors(
                image,
                node_id,
                base,
                rest,
                readings,
                time,
                temp,
                press,
            );
            if raw != -32768 {
                assert(crate::io::pdo_mapping::is_first(at_temp, None));
                assert(crate::io::pdo_mapping::is_first(at_press, None));
            }
        } else {
            lemma_readings_reach_their_sensors(
                image,
                node_id,
                base,
                rest,
                readings.drop_last(),
                time,
                temp,
                press,
            );
            match readings.last() {
                SensorReading::Temperature(id, _) => {
                    assert(crate::io::pdo_mapping::is_first(at_temp, Some(id)));
                    assert(at_temp(id));
                    crate::io::mapping::law_sensors_of_different_kinds_have_different_places(
                        id,
                        press,
                    );
                    law_sensors_by_board(id, press);
                    law_sensors_by_board(temp, press);
                },
                SensorReading::Pressure(id, _) => {
                    assert(crate::io::pdo_mapping::is_first(at_press, Some(id)));
                    assert(at_press(id));
                    assert(crate::io::pdo_mapping::is_first(at_temp, None));
                    law_sensors_by_board(temp, id);
                    law_sensors_by_board(temp, press);
                    assert(at_press(PressSensId::ExternalPressurant) <==> press_place(
                        PressSensId::ExternalPressurant,
                    ) == (node_id, slot));
                    assert(id != PressSensId::ExternalOxidizer);
                    PressSensId::law_all_is_in_index_order();
                    assert(PressSensId::ALL@[id.index_of()] == id);
                    assert(PressSensId::ALL@[press.index_of()] == press);
                },
            }
        }
    }
}

/// What a sensor frame says of a slot, in hundredths, becomes the reading of the temperature sensor
/// that is wired there. The frames carry the slots from 0, 4 and 8 on. The lowest count stands for
/// no reading and changes nothing.
pub proof fn law_temperatures_come_from_their_boards(
    before: BusInputImage,
    node_id: u8,
    kind: TpdoKind,
    values: [i16; 4],
    time: u32,
    after: BusInputImage,
    sensor: TempSensId,
)
    requires
        ingested(before, node_id, ProcessData::Sensors(kind, values), time, after),
    ensures
        ({
            let count = match sensor {
                TempSensId::OxTankUpper if node_id == 5 && kind == TpdoKind::Sensor0 => values[0] as int,
                TempSensId::OxTankLower if node_id == 6 && kind == TpdoKind::Sensor0 => values[2] as int,
                _ => -32768,
            };
            is_taken_in(count, time, before.temp_sens.at(sensor), after.temp_sens.at(sensor))
        }),
        after.valve_state@ == before.valve_state@,
        after.binary_outputs@ == before.binary_outputs@,
        after.ox_tank_level == before.ox_tank_level,
{
    lemma_sensors(before, node_id, kind, values, time, after, sensor, PressSensId::Nosecone);
}

/// A reading in hundredths, with the time; the one before stays where there is none.
pub open spec fn is_taken_in(
    count: int,
    time: u32,
    before: Option<DataWithTime<Single>>,
    after: Option<DataWithTime<Single>>,
) -> bool {
    if count == -32768 {
        after == before
    } else {
        &&& after is Some
        &&& after->0.time == time
        &&& count >= 0 ==> is_about(after->0.data, count, 100)
        &&& count <= 0 ==> is_about(after->0.data.negated(), -count, 100)
    }
}

/// What a sensor frame says of a slot, in hundredths, becomes the reading of the pressure sensor
/// that is wired there.
pub proof fn law_pressures_come_from_their_boards(
    before: BusInputImage,
    node_id: u8,
    kind: TpdoKind,
    values: [i16; 4],
    time: u32,
    after: BusInputImage,
    sensor: PressSensId,
)
    requires
        ingested(before, node_id, ProcessData::Sensors(kind, values), time, after),
    ensures
        ({
            let first = kind == TpdoKind::Sensor0;
            let second = kind == TpdoKind::Sensor1;
            let count = match sensor {
                PressSensId::Nosecone if node_id == 2 && first => values[0] as int,
                PressSensId::PReg1 if node_id == 5 && first => values[1] as int,
                PressSensId::PReg2 if node_id == 5 && first => values[2] as int,
                PressSensId::OxTankUpper if node_id == 5 && first => values[3] as int,
                PressSensId::PressurantTank if node_id == 5 && second => values[0] as int,
                PressSensId::CombustionChamber if node_id == 6 && first => values[0] as int,
                PressSensId::OxTankLower if node_id == 6 && first => values[1] as int,
                PressSensId::ExternalPressurant if node_id == 8 && first => values[0] as int,
                _ => -32768,
            };
            is_taken_in(count, time, before.press_sens.at(sensor), after.press_sens.at(sensor))
        }),
{
    lemma_sensors(before, node_id, kind, values, time, after, TempSensId::OxTankUpper, sensor);
}

proof fn lemma_sensors(
    before: BusInputImage,
    node_id: u8,
    kind: TpdoKind,
    values: [i16; 4],
    time: u32,
    after: BusInputImage,
    temp: TempSensId,
    press: PressSensId,
)
    requires
        ingested(before, node_id, ProcessData::Sensors(kind, values), time, after),
    ensures
        after.valve_state@ == before.valve_state@,
        after.binary_outputs@ == before.binary_outputs@,
        after.ox_tank_level == before.ox_tank_level,
        ({
            let (board, slot) = temp_place(temp);
            let offset = match kind {
                TpdoKind::Sensor0 => slot as int,
                TpdoKind::Sensor1 => slot - 4,
                TpdoKind::Sensor3 => slot - 8,
                _ => -1,
            };
            let count = if board == node_id && 0 <= offset < 4 {
                values[offset] as int
            } else {
                -32768
            };
            is_taken_in(count, time, before.temp_sens.at(temp), after.temp_sens.at(temp))
        }),
        ({
            let (board, slot) = press_place(press);
            let offset = match kind {
                TpdoKind::Sensor0 => slot as int,
                TpdoKind::Sensor1 => slot - 4,
                TpdoKind::Sensor3 => slot - 8,
                _ => -1,
            };
            let count = if press != PressSensId::ExternalOxidizer && board == node_id && 0 <= offset
                < 4 {
                values[offset] as int
            } else {
                -32768
            };
            is_taken_in(count, time, before.press_sens.at(press), after.press_sens.at(press))
        }),
{
    broadcast use crate::inventory::law_map_has_one_value_per_component;

    TempSensId::law_all_is_in_index_order();
    PressSensId::law_all_is_in_index_order();
    assert(0 <= temp.index_of() < 2);
    assert(0 <= press.index_of() < 9);
    assert(forall|i: int| 0 <= i < 4 ==> #[trigger] values@[i] == values[i]);
    if let Some(base) = first_slot(kind) {
        let readings = choose|readings: Seq<SensorReading>|
            {
                &&& #[trigger] frame_readings(node_id, base, values@, readings)
                &&& with_readings(before, readings, time, after)
            };
        let regular = if press == PressSensId::ExternalOxidizer {
            PressSensId::Nosecone
        } else {
            press
        };
        lemma_readings_reach_their_sensors(
            before,
            node_id,
            base,
            values@,
            readings,
            time,
            temp,
            regular,
        );
        let i = temp.index_of();
        let j = press.index_of();
        assert(after.temp_sens@[i] == last_temperature(readings, i, time, before));
        assert(after.press_sens@[j] == last_pressure(readings, j, time, before));
        let (_, slot) = temp_place(temp);
        if base <= slot < base + 4 && after.temp_sens@[i] is Some {
            let count = values[slot - base] as int;
            let data = after.temp_sens@[i]->0.data;
            if data.is_quotient(count, 100) {
                law_quotients_are_rounded(data, count, 100);
            }
        }
        let (_, slot) = press_place(press);
        if base <= slot < base + 4 && after.press_sens@[j] is Some {
            let count = values[slot - base] as int;
            let data = after.press_sens@[j]->0.data;
            if data.is_quotient(count, 100) {
                law_quotients_are_rounded(data, count, 100);
            }
        }
    }
}

/// The output does not change, and was not sent for more than half a second, if it ever was.
pub open spec fn is_waiting(
    state: OutputState,
    outputs: BusOutputImage,
    now: u64,
    k: int,
) -> bool {
    &&& k < 4 ==> outputs.binary_output@[k] == state.binary[k]
    &&& k >= 4 ==> outputs.valve@[k - 4] == state.valves[k - 4]
    &&& state.sent_at[k] matches Some(t) ==> now - t > 500_000
}

/// An output is sent at once where it changes. One that does not is only sent again where it was
/// never sent, or not for more than half a second, and then nothing before it in the order is.
pub proof fn law_when_an_output_is_sent(
    state: OutputState,
    outputs: BusOutputImage,
    now: u64,
    k: int,
)
    requires
        0 <= k < 13,
    ensures
        k < 4 && outputs.binary_output@[k] != state.binary[k] ==> state.sends(outputs, now, k),
        k >= 4 && outputs.valve@[k - 4] != state.valves[k - 4] ==> state.sends(outputs, now, k),
        state.sends(outputs, now, k) ==> {
            ||| k < 4 && outputs.binary_output@[k] != state.binary[k]
            ||| k >= 4 && outputs.valve@[k - 4] != state.valves[k - 4]
            ||| state.sent_at[k] is None
            ||| now - state.sent_at[k]->0 > 500_000
        },
        // It is, where nothing before it in the order is waiting for its turn.
        is_waiting(state, outputs, now, k) && (forall|j: int|
            0 <= j < k ==> !#[trigger] is_waiting(state, outputs, now, j)) ==> state.sends(
            outputs,
            now,
            k,
        ),
        // What is remembered afterwards is what was asked for, and when it was sent.
        state.after(outputs, now).binary == outputs.binary_output@,
        state.after(outputs, now).valves == outputs.valve@,
        state.after(outputs, now).sent_at[k] == if state.sends(outputs, now, k) {
            Some(now)
        } else {
            state.sent_at[k]
        },
{
    if is_waiting(state, outputs, now, k) && (forall|j: int|
        0 <= j < k ==> !#[trigger] is_waiting(state, outputs, now, j)) {
        assert forall|j: int| 0 <= j < k implies !#[trigger] state.wants_refresh(
            outputs,
            now,
            j,
        ) by {
            assert(!is_waiting(state, outputs, now, j));
        }
    }
}

/// The outputs that are sent each have their message.
proof fn lemma_sent_outputs_have_messages(
    state: OutputState,
    outputs: BusOutputImage,
    now: u64,
    n: int,
    messages: Seq<CanMessage>,
    k: int,
)
    requires
        state.messages_below(outputs, now, n, messages),
        0 <= k < n,
        state.sends(outputs, now, k),
    ensures
        exists|i: int|
            0 <= i < messages.len() && sets_output(outputs, k, #[trigger] messages[i]),
    decreases n,
{
    if state.sends(outputs, now, n - 1) {
        let rest = messages.drop_last();
        if k == n - 1 {
            assert(sets_output(outputs, k, messages[messages.len() - 1]));
        } else {
            lemma_sent_outputs_have_messages(state, outputs, now, n - 1, rest, k);
            let i = choose|i: int|
                0 <= i < rest.len() && sets_output(outputs, k, #[trigger] rest[i]);
            assert(messages[i] == rest[i]);
        }
    } else {
        lemma_sent_outputs_have_messages(state, outputs, now, n - 1, messages, k);
    }
}

/// A valve whose state is to change is moved at once: among the messages is one to its board that
/// writes the new state to its entry.
pub proof fn law_a_changed_valve_is_moved_at_once(
    handler: &mut BusHandler,
    outputs: BusOutputImage,
    now: u64,
    messages: Vec<CanMessage>,
    valve: ValveId,
)
    requires
        call_ensures(BusHandler::set_output_image, (handler, outputs, now), messages),
        outputs.valve@[valve_turn(valve) - 4] != (*old(handler)).outputs().valves[valve_turn(valve)
            - 4],
    ensures
        exists|i: int|
            {
                &&& 0 <= i < messages.len()
                &&& (#[trigger] messages@[i]).id == 0x600 + match valve {
                    ValveId::Pressurization | ValveId::PressurantVent => 5int,
                    ValveId::OxidizerVent => 4,
                    ValveId::Main | ValveId::OxidizerFill => 6,
                    _ => 0xff,
                }
                &&& messages@[i].data[1] == 0x10 && messages@[i].data[2] == 0x20
                &&& messages@[i].data[3] == match valve {
                    ValveId::Pressurization | ValveId::OxidizerVent | ValveId::Main => 1int,
                    ValveId::PressurantVent | ValveId::OxidizerFill => 2,
                    _ => 0xff,
                }
                &&& messages@[i].data[4] + 256 * messages@[i].data[5] == outputs.valve.at(valve)@
            },
        (*final(handler)).outputs().valves == outputs.valve@,
{
    let k = valve_turn(valve);
    let state = (*old(handler)).outputs();
    law_when_an_output_is_sent(state, outputs, now, k);
    lemma_sent_outputs_have_messages(state, outputs, now, 13, messages@, k);
    let i = choose|i: int|
        0 <= i < messages@.len() && sets_output(outputs, k, #[trigger] messages@[i]);
    law_a_valve_is_written_to_its_board(outputs, valve, messages@[i]);
}

/// A binary output whose state is to change is switched at once.
pub proof fn law_a_changed_output_is_switched_at_once(
    handler: &mut BusHandler,
    outputs: BusOutputImage,
    now: u64,
    messages: Vec<CanMessage>,
    output: BinaryOutputId,
)
    requires
        call_ensures(BusHandler::set_output_image, (handler, outputs, now), messages),
        outputs.binary_output@[output.index_of()] != (*old(handler)).outputs().binary[
        output.index_of()],
    ensures
        exists|i: int|
            {
                &&& 0 <= i < messages.len()
                &&& (#[trigger] messages@[i]).id == 0x600 + match output {
                    BinaryOutputId::Igniter1 | BinaryOutputId::Igniter2 => 7int,
                    BinaryOutputId::Camera1 | BinaryOutputId::Camera2 => 2,
                }
                &&& messages@[i].data[1] == 0x20 && messages@[i].data[2] == 0x20
                &&& messages@[i].data[3] == match output {
                    BinaryOutputId::Igniter1 | BinaryOutputId::Camera1 => 1int,
                    BinaryOutputId::Igniter2 | BinaryOutputId::Camera2 => 3,
                }
                &&& messages@[i].data[4] == if outputs.binary_output.at(output) {
                    1int
                } else {
                    0
                }
            },
{
    let k = output.index_of();
    let state = (*old(handler)).outputs();
    law_when_an_output_is_sent(state, outputs, now, k);
    lemma_sent_outputs_have_messages(state, outputs, now, 13, messages@, k);
    let i = choose|i: int|
        0 <= i < messages@.len() && sets_output(outputs, k, #[trigger] messages@[i]);
    law_an_output_is_written_to_its_board(outputs, output, messages@[i]);
}

/// The message that moves a valve on the ground is the same.
pub proof fn law_a_valve_is_moved_by_one_message(
    valve: ValveId,
    state: ValveState,
    msg: CanMessage,
)
    requires
        call_ensures(valve_sdo_frame, (valve, state), msg),
    ensures
        ({
            let (board, entry) = match valve {
                ValveId::Pressurization => (5int, 1int),
                ValveId::PressurantVent => (5, 2),
                ValveId::OxidizerVent => (4, 1),
                ValveId::Main => (6, 1),
                ValveId::OxidizerFill => (6, 2),
                _ => (0xff, 0xff),
            };
            &&& msg.id == 0x600 + board
            &&& msg.data[0] == 0x2b && msg.data[1] == 0x10 && msg.data[2] == 0x20
            &&& msg.data[3] == entry
            &&& msg.data[4] + 256 * msg.data[5] == state@
        }),
{
}

/// What comes off the bus goes into the image, and does not touch what is sent.
pub proof fn law_what_comes_in_goes_into_the_image(
    handler: &mut BusHandler,
    node_id: u8,
    data: ProcessData,
    time: u32,
)
    requires
        call_ensures(BusHandler::ingest, (handler, node_id, data, time), ()),
    ensures
        ingested((*old(handler)).image(), node_id, data, time, (*final(handler)).image()),
        (*final(handler)).outputs() == (*old(handler)).outputs(),
{
}

/// Sub-indices count from one and slots from zero; the sensor frames start at slots 0, 4 and 8.
pub proof fn law_slots_count_from_zero(
    subindex: u8,
    slot: Option<usize>,
    kind: TpdoKind,
    base: Option<u8>,
)
    requires
        call_ensures(subindex_to_slot, (subindex,), slot),
        call_ensures(sensor_slot_base, (kind,), base),
    ensures
        subindex == 0 <==> slot is None,
        slot matches Some(s) ==> s + 1 == subindex,
        base == Some(0u8) <==> kind == TpdoKind::Sensor0,
        base == Some(4u8) <==> kind == TpdoKind::Sensor1,
        base == Some(8u8) <==> kind == TpdoKind::Sensor3,
        base is None <==> kind == TpdoKind::Valves || kind == TpdoKind::HighCurrentOutputs || kind
            == TpdoKind::Other,
{
}

/// A sensor has one of sixteen boards and one of twelve slots.
pub proof fn law_sensor_addresses(node_id: u8, index: usize, addr: Option<SensorAddr>)
    requires
        call_ensures(SensorAddr::from_sensor_idx, (node_id, index), addr),
    ensures
        addr is Some <==> node_id < 16 && index < 12,
        addr matches Some(a) ==> a.node_id == node_id && a.slot == index,
{
}

/// Process data has a standard identifier and eight bytes.
pub proof fn law_what_may_be_process_data(extended: bool, len: usize, may: bool)
    requires
        call_ensures(may_be_process_data, (extended, len), may),
    ensures
        may <==> !extended && len == 8,
{
}

/// A message keeps its identifier on the wire, where that has 11 or 29 bits at most.
pub proof fn law_identifiers_on_the_wire(msg: &CanMessage, id: Option<WireId>)
    requires
        call_ensures(can_msg_id, (msg,), id),
    ensures
        msg.extended && msg.id < 0x2000_0000 ==> id == Some(WireId::Extended(msg.id)),
        !msg.extended && msg.id < 0x800 ==> id == Some(WireId::Standard(msg.id as u16)),
        msg.extended && msg.id >= 0x2000_0000 ==> id is None,
        !msg.extended && msg.id >= 0x800 ==> id is None,
{
}

/// What is found at a slot of a board.
pub proof fn law_what_is_found_at_a_slot(
    node_id: u8,
    slot: usize,
    valve: Option<ValveId>,
    output: Option<BinaryOutputId>,
)
    requires
        slot < 4,
        call_ensures(valve_id_for, (node_id, slot), valve),
        call_ensures(bo_id_for, (node_id, slot), output),
    ensures
        valve == Some(ValveId::OxidizerVent) <==> node_id == 4 && slot == 0,
        valve == Some(ValveId::Pressurization) <==> node_id == 5 && slot == 0,
        valve == Some(ValveId::PressurantVent) <==> node_id == 5 && slot == 1,
        valve == Some(ValveId::Main) <==> node_id == 6 && slot == 0,
        valve == Some(ValveId::OxidizerFill) <==> node_id == 6 && slot == 1,
        output == Some(BinaryOutputId::Igniter1) <==> node_id == 7 && slot == 0,
        output == Some(BinaryOutputId::Igniter2) <==> node_id == 7 && slot == 2,
        output == Some(BinaryOutputId::Camera1) <==> node_id == 2 && slot == 0,
        output == Some(BinaryOutputId::Camera2) <==> node_id == 2 && slot == 2,
{
    let at = |v: ValveId| valve_is_at(v, node_id, slot as int);
    let out = |o: BinaryOutputId| output_is_at(o, node_id, slot as int);
    assert(crate::io::pdo_mapping::is_first(at, valve));
    assert(crate::io::pdo_mapping::is_first(out, output));
    if let Some(v) = valve {
        assert(at(v));
    }
    if let Some(o) = output {
        assert(out(o));
    }
    assert(at(ValveId::OxidizerVent) <==> node_id == 4 && slot == 0);
    assert(at(ValveId::Pressurization) <==> node_id == 5 && slot == 0);
    assert(at(ValveId::PressurantVent) <==> node_id == 5 && slot == 1);
    assert(at(ValveId::Main) <==> node_id == 6 && slot == 0);
    assert(at(ValveId::OxidizerFill) <==> node_id == 6 && slot == 1);
    assert(out(BinaryOutputId::Igniter1) <==> node_id == 7 && slot == 0);
    assert(out(BinaryOutputId::Igniter2) <==> node_id == 7 && slot == 2);
    assert(out(BinaryOutputId::Camera1) <==> node_id == 2 && slot == 0);
    assert(out(BinaryOutputId::Camera2) <==> node_id == 2 && slot == 2);
}

/// Any other frame changes nothing.
pub proof fn law_other_frames_change_nothing(
    before: BusInputImage,
    node_id: u8,
    kind: TpdoKind,
    values: [i16; 4],
    time: u32,
    after: BusInputImage,
)
    ensures
        ingested(before, node_id, ProcessData::Other, time, after) <==> after == before,
        kind != TpdoKind::Sensor0 && kind != TpdoKind::Sensor1 && kind != TpdoKind::Sensor3 ==> (
        ingested(before, node_id, ProcessData::Sensors(kind, values), time, after) <==> after
            == before),
{
}

} // verus!

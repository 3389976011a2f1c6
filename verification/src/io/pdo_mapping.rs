//! What a frame with process data of an IO board says about this vehicle's components.

use vstd::prelude::*;

use crate::bounded::{
    new_outputs, new_readings, new_valves, output_list, push_output, push_reading, push_valve,
    reading_list, valve_list,
};
use crate::bus::ValveState;
use crate::inventory::{
    law_map_has_one_value_per_component, BinaryOutputId, InventoryId, PressSensId, TempSensId,
    ValveId,
};
use crate::io::mapping::{
    binary_output_id_map, output_place, press_place, press_sensor_id_map, temp_place,
    temp_sensor_id_map, valve_id_map, valve_place,
};
use crate::single::Single;

verus! {

broadcast use law_map_has_one_value_per_component;

/// How many sensor slots a board has.
pub const NUM_PROTOCOL_SENSOR_SLOTS: usize = 12;

/// The count that stands for no reading.
pub const SENSOR_INVALID: i16 = -32768;

/// Where a single reading lives on the bus: which node, and which of its sensor slots, counted
/// from zero.
#[derive(Copy, Clone, PartialEq, Eq, Debug, Structural)]
pub struct SensorAddr {
    pub node_id: u8,
    pub slot: u8,
}

/// The kinds of frames with process data.
#[derive(Copy, Clone, PartialEq, Eq, Debug, Structural)]
pub enum TpdoKind {
    Valves,
    HighCurrentOutputs,
    Sensor0,
    Sensor1,
    Sensor3,
    /// Any other kind.
    Other,
}

/// The state of a high current output.
#[derive(Copy, Clone, PartialEq, Eq, Debug, Structural)]
pub enum HcoOutput {
    DigitalOff,
    DigitalOn,
    /// The pulse width \[us\]
    Pwm(u16),
}

/// A reading of a sensor.
#[derive(Copy, Clone, PartialEq, Eq, Debug, Structural)]
pub enum SensorReading {
    Temperature(TempSensId, Single),
    Pressure(PressSensId, Single),
}

impl SensorAddr {
    /// The address of this slot of this node, if there is such a node and such a slot.
    pub fn from_sensor_idx(node_id: u8, sensor_idx: usize) -> (addr: Option<Self>)
        ensures
            match addr {
                Some(addr) => node_id < 16 && sensor_idx < NUM_PROTOCOL_SENSOR_SLOTS && addr.node_id
                    == node_id && addr.slot == sensor_idx,
                None => node_id >= 16 || sensor_idx >= NUM_PROTOCOL_SENSOR_SLOTS,
            },
    {
        if sensor_idx >= NUM_PROTOCOL_SENSOR_SLOTS {
            return None;
        }
        if node_id >= 16 {
            return None;
        }
        Some(SensorAddr { node_id, slot: sensor_idx as u8 })
    }
}

/// The slot that a sub-index names. Sub-index zero is the number of entries and names none.
pub open spec fn slot_of(subindex: u8) -> Option<int> {
    if subindex == 0 {
        None
    } else {
        Some(subindex - 1)
    }
}

/// Convert a sub-index, counted from one, to a slot, counted from zero.
pub fn subindex_to_slot(subindex: u8) -> (slot: Option<usize>)
    ensures
        match slot {
            Some(slot) => slot_of(subindex) == Some(slot as int),
            None => slot_of(subindex) is None,
        },
{
    if subindex == 0 {
        None
    } else {
        Some((subindex - 1) as usize)
    }
}

/// The slot of the first value in a sensor frame, or `None` for a kind that carries none.
pub open spec fn first_slot(kind: TpdoKind) -> Option<u8> {
    match kind {
        TpdoKind::Sensor0 => Some(0),
        TpdoKind::Sensor1 => Some(4),
        TpdoKind::Sensor3 => Some(8),
        _ => None,
    }
}

/// The slot of the first value in a sensor frame, or `None` for a kind that carries none.
pub fn sensor_slot_base(kind: TpdoKind) -> (base: Option<u8>)
    ensures
        base == first_slot(kind),
{
    match kind {
        TpdoKind::Sensor0 => Some(0),
        TpdoKind::Sensor1 => Some(4),
        TpdoKind::Sensor3 => Some(8),
        TpdoKind::Valves | TpdoKind::HighCurrentOutputs | TpdoKind::Other => None,
    }
}

/// The valve is the one at this slot of this node.
pub open spec fn valve_is_at(valve: ValveId, node_id: u8, slot: int) -> bool {
    valve_place(valve).0 == node_id && slot_of(valve_place(valve).1) == Some(slot)
}

/// The output is the one at this slot of this node.
pub open spec fn output_is_at(output: BinaryOutputId, node_id: u8, slot: int) -> bool {
    output_place(output).0 == node_id && slot_of(output_place(output).1) == Some(slot)
}

/// `found` is the first component, in index order, of which `at` holds.
pub open spec fn is_first<I: InventoryId<N>, const N: usize>(
    at: spec_fn(I) -> bool,
    found: Option<I>,
) -> bool {
    match found {
        Some(id) => at(id) && forall|other: I|
            #[trigger] at(other) ==> id.index_of() <= other.index_of(),
        None => forall|other: I| !#[trigger] at(other),
    }
}

/// `found` is the valve at this slot of this node: the first, where there are several.
pub open spec fn first_valve_at(node_id: u8, slot: int, found: Option<ValveId>) -> bool {
    is_first(|v: ValveId| valve_is_at(v, node_id, slot), found)
}

/// `found` is the binary output at this slot of this node: the first, where there are several.
pub open spec fn first_output_at(node_id: u8, slot: int, found: Option<BinaryOutputId>) -> bool {
    is_first(|o: BinaryOutputId| output_is_at(o, node_id, slot), found)
}

/// `found` is the temperature sensor at this slot of this node: the first, where there are several.
pub open spec fn first_temp_at(node_id: u8, slot: u8, found: Option<TempSensId>) -> bool {
    is_first(|s: TempSensId| temp_place(s) == (node_id, slot), found)
}

/// `found` is the pressure sensor at this slot of this node: the first, where there are several.
pub open spec fn first_press_at(node_id: u8, slot: u8, found: Option<PressSensId>) -> bool {
    is_first(|s: PressSensId| press_place(s) == (node_id, slot), found)
}

/// The valve at this slot of this node.
pub fn valve_id_for(node_id: u8, slot: usize) -> (valve: Option<ValveId>)
    ensures
        first_valve_at(node_id, slot as int, valve),
{
    let map = valve_id_map();
    proof {
        ValveId::law_all_is_in_index_order();
    }
    let mut i: usize = 0;
    while i < 9
        invariant
            i <= 9,
            forall|j: int| 0 <= j < 9 ==> (#[trigger] ValveId::ALL@[j]).index_of() == j,
            forall|v: ValveId|
                0 <= #[trigger] v.index_of() < 9 && ValveId::ALL@[v.index_of()] == v,
            forall|v: ValveId| #[trigger] map.at(v).node_id == valve_place(v).0,
            forall|v: ValveId| #[trigger] map.at(v).subindex == valve_place(v).1,
            forall|v: ValveId|
                #[trigger] valve_is_at(v, node_id, slot as int) ==> v.index_of() >= i,
        decreases 9 - i,
    {
        let valve = ValveId::ALL[i];
        let addr = map.get(valve);
        assert(map.at(valve).node_id == valve_place(valve).0);
        assert(map.at(valve).subindex == valve_place(valve).1);
        if addr.node_id == node_id && subindex_to_slot(addr.subindex) == Some(slot) {
            assert(valve_is_at(valve, node_id, slot as int));
            return Some(valve);
        }
        assert(!valve_is_at(valve, node_id, slot as int));
        i += 1;
    }
    None
}

/// The binary output at this slot of this node.
pub fn bo_id_for(node_id: u8, slot: usize) -> (output: Option<BinaryOutputId>)
    ensures
        first_output_at(node_id, slot as int, output),
{
    let map = binary_output_id_map();
    proof {
        BinaryOutputId::law_all_is_in_index_order();
    }
    let mut i: usize = 0;
    while i < 4
        invariant
            i <= 4,
            forall|j: int| 0 <= j < 4 ==> (#[trigger] BinaryOutputId::ALL@[j]).index_of() == j,
            forall|o: BinaryOutputId|
                0 <= #[trigger] o.index_of() < 4 && BinaryOutputId::ALL@[o.index_of()] == o,
            forall|o: BinaryOutputId| #[trigger] map.at(o).node_id == output_place(o).0,
            forall|o: BinaryOutputId| #[trigger] map.at(o).subindex == output_place(o).1,
            forall|o: BinaryOutputId|
                #[trigger] output_is_at(o, node_id, slot as int) ==> o.index_of() >= i,
        decreases 4 - i,
    {
        let output = BinaryOutputId::ALL[i];
        let addr = map.get(output);
        assert(map.at(output).node_id == output_place(output).0);
        assert(map.at(output).subindex == output_place(output).1);
        if addr.node_id == node_id && subindex_to_slot(addr.subindex) == Some(slot) {
            assert(output_is_at(output, node_id, slot as int));
            return Some(output);
        }
        assert(!output_is_at(output, node_id, slot as int));
        i += 1;
    }
    None
}

/// The temperature sensor at this slot of this node.
pub fn temp_sensor_id_for(node_id: u8, slot: u8) -> (sensor: Option<TempSensId>)
    ensures
        first_temp_at(node_id, slot, sensor),
{
    let map = temp_sensor_id_map();
    let upper = map.get(TempSensId::OxTankUpper);
    if upper.node_id == node_id && upper.slot == slot {
        return Some(TempSensId::OxTankUpper);
    }
    let lower = map.get(TempSensId::OxTankLower);
    if lower.node_id == node_id && lower.slot == slot {
        return Some(TempSensId::OxTankLower);
    }
    None
}

/// The pressure sensor at this slot of this node.
pub fn press_sensor_id_for(node_id: u8, slot: u8) -> (sensor: Option<PressSensId>)
    ensures
        first_press_at(node_id, slot, sensor),
{
    let map = press_sensor_id_map();
    proof {
        PressSensId::law_all_is_in_index_order();
    }
    let mut i: usize = 0;
    while i < 9
        invariant
            i <= 9,
            forall|j: int| 0 <= j < 9 ==> (#[trigger] PressSensId::ALL@[j]).index_of() == j,
            forall|s: PressSensId|
                0 <= #[trigger] s.index_of() < 9 && PressSensId::ALL@[s.index_of()] == s,
            forall|s: PressSensId| #[trigger]
                map.at(s) == (SensorAddr { node_id: press_place(s).0, slot: press_place(s).1 }),
            forall|s: PressSensId|
                #[trigger] press_place(s) == (node_id, slot) ==> s.index_of() >= i,
        decreases 9 - i,
    {
        let sensor = PressSensId::ALL[i];
        let addr = map.get(sensor);
        if addr.node_id == node_id && addr.slot == slot {
            return Some(sensor);
        }
        i += 1;
    }
    None
}

/// The states in a frame with valve positions, in the order of its slots: those of the slots that
/// have a valve.
pub open spec fn valve_states(
    node_id: u8,
    positions: Seq<u16>,
    states: Seq<(ValveId, ValveState)>,
) -> bool
    decreases positions.len(),
{
    if positions.len() == 0 {
        states.len() == 0
    } else {
        let slot = positions.len() - 1;
        if first_valve_at(node_id, slot, None) {
            valve_states(node_id, positions.drop_last(), states)
        } else {
            &&& states.len() > 0
            &&& first_valve_at(node_id, slot, Some(states.last().0))
            &&& states.last().1@ == if positions.last() > 1000 {
                1000
            } else {
                positions.last()
            }
            &&& valve_states(node_id, positions.drop_last(), states.drop_last())
        }
    }
}

/// Valve positions in promille, in the frame's slot order.
pub fn valve_msg_to_valve(node_id: u8, positions: [u16; 4]) -> (states: heapless::Vec<
    (ValveId, ValveState),
    4,
>)
    ensures
        valve_states(node_id, positions@, valve_list(states)),
{
    let mut out = new_valves();
    let mut slot: usize = 0;
    assert(positions@.take(0) =~= Seq::<u16>::empty());
    while slot < 4
        invariant
            slot <= 4,
            valve_list(out).len() <= slot,
            valve_states(node_id, positions@.take(slot as int), valve_list(out)),
        decreases 4 - slot,
    {
        let ghost before = valve_list(out);
        assert(positions@.take(slot + 1).drop_last() =~= positions@.take(slot as int));
        if let Some(id) = valve_id_for(node_id, slot) {
            let _ = push_valve(&mut out, (id, ValveState::from_promille_clamped(positions[slot])));
            proof {
                assert(valve_is_at(id, node_id, slot as int));
                assert(!first_valve_at(node_id, slot as int, None));
                assert(valve_list(out).drop_last() =~= before);
            }
        }
        slot += 1;
    }
    assert(positions@.take(4) =~= positions@);
    out
}

/// The states in a frame with high current outputs, in the order of its slots: those of the slots
/// that have a binary output.
pub open spec fn output_states(
    node_id: u8,
    outputs: Seq<HcoOutput>,
    states: Seq<(BinaryOutputId, bool)>,
) -> bool
    decreases outputs.len(),
{
    if outputs.len() == 0 {
        states.len() == 0
    } else {
        let slot = outputs.len() - 1;
        if first_output_at(node_id, slot, None) {
            output_states(node_id, outputs.drop_last(), states)
        } else {
            &&& states.len() > 0
            &&& first_output_at(node_id, slot, Some(states.last().0))
            &&& states.last().1 == !(outputs.last() is DigitalOff)
            &&& output_states(node_id, outputs.drop_last(), states.drop_last())
        }
    }
}

/// The high current outputs, in the frame's slot order. Digital and pulse width outputs share one
/// frame, so an output that is driven as a binary output is energised unless it is off.
pub fn hco_msg_to_binary_outputs(node_id: u8, outputs: [HcoOutput; 4]) -> (states: heapless::Vec<
    (BinaryOutputId, bool),
    4,
>)
    ensures
        output_states(node_id, outputs@, output_list(states)),
{
    let mut out = new_outputs();
    let mut slot: usize = 0;
    assert(outputs@.take(0) =~= Seq::<HcoOutput>::empty());
    while slot < 4
        invariant
            slot <= 4,
            output_list(out).len() <= slot,
            output_states(node_id, outputs@.take(slot as int), output_list(out)),
        decreases 4 - slot,
    {
        let ghost before = output_list(out);
        assert(outputs@.take(slot + 1).drop_last() =~= outputs@.take(slot as int));
        if let Some(id) = bo_id_for(node_id, slot) {
            let _ = push_output(&mut out, (id, outputs[slot] != HcoOutput::DigitalOff));
            proof {
                assert(output_is_at(id, node_id, slot as int));
                assert(!first_output_at(node_id, slot as int, None));
                assert(output_list(out).drop_last() =~= before);
            }
        }
        slot += 1;
    }
    assert(outputs@.take(4) =~= outputs@);
    out
}

/// The reading of a count at this slot of this node, if a sensor is there: a temperature sensor
/// before a pressure sensor. The count is in hundredths.
pub open spec fn is_reading(node_id: u8, slot: u8, raw: i16, reading: Option<SensorReading>) -> bool {
    match reading {
        Some(SensorReading::Temperature(id, value)) => raw != SENSOR_INVALID && first_temp_at(
            node_id,
            slot,
            Some(id),
        ) && value.is_quotient(raw as int, 100),
        Some(SensorReading::Pressure(id, value)) => raw != SENSOR_INVALID && first_temp_at(
            node_id,
            slot,
            None,
        ) && first_press_at(node_id, slot, Some(id)) && value.is_quotient(raw as int, 100),
        None => raw == SENSOR_INVALID || (first_temp_at(node_id, slot, None) && first_press_at(
            node_id,
            slot,
            None,
        )),
    }
}

/// The readings in a sensor frame whose first value is that of slot `base`, in the order of its
/// slots.
pub open spec fn frame_readings(
    node_id: u8,
    base: u8,
    values: Seq<i16>,
    readings: Seq<SensorReading>,
) -> bool
    decreases values.len(),
{
    if values.len() == 0 {
        readings.len() == 0
    } else {
        let slot = (base + values.len() - 1) as u8;
        ||| is_reading(node_id, slot, values.last(), None) && frame_readings(
            node_id,
            base,
            values.drop_last(),
            readings,
        )
        ||| readings.len() > 0 && is_reading(node_id, slot, values.last(), Some(readings.last()))
            && frame_readings(node_id, base, values.drop_last(), readings.drop_last())
    }
}

/// The reading of a count at this slot of this node.
fn reading_at(node_id: u8, slot: u8, raw: i16) -> (reading: Option<SensorReading>)
    ensures
        is_reading(node_id, slot, raw, reading),
{
    if raw == SENSOR_INVALID {
        return None;
    }
    let value = Single::quotient(raw as i32, 100);
    match temp_sensor_id_for(node_id, slot) {
        Some(id) => Some(SensorReading::Temperature(id, value)),
        None => match press_sensor_id_for(node_id, slot) {
            Some(id) => Some(SensorReading::Pressure(id, value)),
            None => None,
        },
    }
}

/// Calibrated sensor values, in the frame's slot order. Both temperature and pressure are signed
/// counts of a hundredth of their unit.
pub fn sensor_msg_to_readings(node_id: u8, kind: TpdoKind, values: [i16; 4]) -> (readings:
    heapless::Vec<SensorReading, 4>)
    ensures
        match first_slot(kind) {
            Some(base) => frame_readings(node_id, base, values@, reading_list(readings)),
            None => reading_list(readings).len() == 0,
        },
{
    let mut out = new_readings();
    let base: u8 = match sensor_slot_base(kind) {
        Some(base) => base,
        None => return out,
    };
    let mut offset: usize = 0;
    assert(values@.take(0) =~= Seq::<i16>::empty());
    while offset < 4
        invariant
            offset <= 4,
            base <= 8,
            reading_list(out).len() <= offset,
            frame_readings(node_id, base, values@.take(offset as int), reading_list(out)),
        decreases 4 - offset,
    {
        let ghost before = reading_list(out);
        assert(values@.take(offset + 1).drop_last() =~= values@.take(offset as int));
        let slot: u8 = base + offset as u8;
        if let Some(reading) = reading_at(node_id, slot, values[offset]) {
            let _ = push_reading(&mut out, reading);
            assert(reading_list(out).drop_last() =~= before);
        }
        offset += 1;
    }
    assert(values@.take(4) =~= values@);
    out
}

} // verus!

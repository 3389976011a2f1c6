//! Which board everything is connected to.
//!
//! The sub-indices of outputs are those of the boards' stores, which count from one: sub-index
//! zero of an array is its length. The frames with process data carry the same elements counted
//! from zero, so decoding converts. The slots of sensors count from zero, since readings only ever
//! arrive in such frames.

use vstd::prelude::*;

use crate::bus::IoAddr;
use crate::inventory::{
    BinaryOutputId, BinaryOutputMap, InventoryId, PressSensId, PressureSensorMap, TempSensId,
    TemperatureSensorMap, ValveId, ValveMap,
};
use crate::io::pdo_mapping::SensorAddr;

verus! {

/// "valve commanded state, position word", promille per valve.
pub const VALVE_STORE_IDX: u16 = 0x2010;

/// "high current outputs, digital level", one byte per output.
pub const HC_OUTPUT_STORE_IDX: u16 = 0x2020;

/// The node of a board that is not there.
pub const NO_NODE: u8 = 0xff;

/// Where a valve is connected: board and sub-index.
pub open spec fn valve_place(valve: ValveId) -> (u8, u8) {
    match valve {
        ValveId::PressurantVent => (5, 2),
        ValveId::Pressurization => (5, 1),
        ValveId::OxidizerVent => (4, 1),
        ValveId::OxidizerFill => (6, 2),
        ValveId::Main => (6, 1),
        ValveId::ExternalPressurantFill
        | ValveId::ExternalOxidizerFill
        | ValveId::ExternalPressurantVent
        | ValveId::ExternalOxidizerVent => (NO_NODE, 0xff),
    }
}

/// Where a binary output is connected: board and sub-index.
pub open spec fn output_place(output: BinaryOutputId) -> (u8, u8) {
    match output {
        BinaryOutputId::Igniter1 => (7, 1),
        BinaryOutputId::Igniter2 => (7, 3),
        BinaryOutputId::Camera1 => (2, 1),
        BinaryOutputId::Camera2 => (2, 3),
    }
}

/// Where a temperature sensor is connected: board and slot.
pub open spec fn temp_place(sensor: TempSensId) -> (u8, u8) {
    match sensor {
        TempSensId::OxTankUpper => (5, 0),
        TempSensId::OxTankLower => (6, 2),
    }
}

/// Where a pressure sensor is connected: board and slot.
pub open spec fn press_place(sensor: PressSensId) -> (u8, u8) {
    match sensor {
        PressSensId::Nosecone => (2, 0),
        PressSensId::PressurantTank => (5, 4),
        PressSensId::PReg1 => (5, 1),
        PressSensId::PReg2 => (5, 2),
        PressSensId::OxTankUpper => (5, 3),
        PressSensId::OxTankLower => (6, 1),
        PressSensId::CombustionChamber => (6, 0),
        PressSensId::ExternalPressurant => (8, 0),
        PressSensId::ExternalOxidizer => (8, 0),
    }
}

/// The store address of every valve.
pub fn valve_id_map() -> (map: ValveMap<IoAddr>)
    ensures
        forall|valve: ValveId| #[trigger]
            map.at(valve) == (IoAddr {
                node_id: valve_place(valve).0,
                index: VALVE_STORE_IDX,
                subindex: valve_place(valve).1,
            }),
        map.at(ValveId::PressurantVent) == (IoAddr { node_id: 5, index: 0x2010, subindex: 2 }),
        map.at(ValveId::Pressurization) == (IoAddr { node_id: 5, index: 0x2010, subindex: 1 }),
        map.at(ValveId::OxidizerVent) == (IoAddr { node_id: 4, index: 0x2010, subindex: 1 }),
        map.at(ValveId::OxidizerFill) == (IoAddr { node_id: 6, index: 0x2010, subindex: 2 }),
        map.at(ValveId::Main) == (IoAddr { node_id: 6, index: 0x2010, subindex: 1 }),
{
    ValveMap::new(
        [
            IoAddr::new(5, VALVE_STORE_IDX, 2),
            IoAddr::new(5, VALVE_STORE_IDX, 1),
            IoAddr::new(4, VALVE_STORE_IDX, 1),
            IoAddr::new(6, VALVE_STORE_IDX, 2),
            IoAddr::new(6, VALVE_STORE_IDX, 1),
            IoAddr::new(NO_NODE, VALVE_STORE_IDX, 0xff),
            IoAddr::new(NO_NODE, VALVE_STORE_IDX, 0xff),
            IoAddr::new(NO_NODE, VALVE_STORE_IDX, 0xff),
            IoAddr::new(NO_NODE, VALVE_STORE_IDX, 0xff),
        ],
    )
}

/// The store address of every binary output.
pub fn binary_output_id_map() -> (map: BinaryOutputMap<IoAddr>)
    ensures
        forall|output: BinaryOutputId| #[trigger]
            map.at(output) == (IoAddr {
                node_id: output_place(output).0,
                index: HC_OUTPUT_STORE_IDX,
                subindex: output_place(output).1,
            }),
        map.at(BinaryOutputId::Igniter1) == (IoAddr { node_id: 7, index: 0x2020, subindex: 1 }),
        map.at(BinaryOutputId::Igniter2) == (IoAddr { node_id: 7, index: 0x2020, subindex: 3 }),
        map.at(BinaryOutputId::Camera1) == (IoAddr { node_id: 2, index: 0x2020, subindex: 1 }),
        map.at(BinaryOutputId::Camera2) == (IoAddr { node_id: 2, index: 0x2020, subindex: 3 }),
{
    BinaryOutputMap::new(
        [
            IoAddr::new(7, HC_OUTPUT_STORE_IDX, 1),
            IoAddr::new(7, HC_OUTPUT_STORE_IDX, 3),
            IoAddr::new(2, HC_OUTPUT_STORE_IDX, 1),
            IoAddr::new(2, HC_OUTPUT_STORE_IDX, 3),
        ],
    )
}

/// The slot of every temperature sensor.
pub fn temp_sensor_id_map() -> (map: TemperatureSensorMap<SensorAddr>)
    ensures
        forall|sensor: TempSensId| #[trigger]
            map.at(sensor) == (SensorAddr {
                node_id: temp_place(sensor).0,
                slot: temp_place(sensor).1,
            }),
        map.at(TempSensId::OxTankUpper) == (SensorAddr { node_id: 5, slot: 0 }),
        map.at(TempSensId::OxTankLower) == (SensorAddr { node_id: 6, slot: 2 }),
{
    TemperatureSensorMap::new(
        [SensorAddr { node_id: 5, slot: 0 }, SensorAddr { node_id: 6, slot: 2 }],
    )
}

/// The slot of every pressure sensor.
pub fn press_sensor_id_map() -> (map: PressureSensorMap<SensorAddr>)
    ensures
        forall|sensor: PressSensId| #[trigger]
            map.at(sensor) == (SensorAddr {
                node_id: press_place(sensor).0,
                slot: press_place(sensor).1,
            }),
        map.at(PressSensId::Nosecone) == (SensorAddr { node_id: 2, slot: 0 }),
        map.at(PressSensId::PressurantTank) == (SensorAddr { node_id: 5, slot: 4 }),
        map.at(PressSensId::PReg1) == (SensorAddr { node_id: 5, slot: 1 }),
        map.at(PressSensId::PReg2) == (SensorAddr { node_id: 5, slot: 2 }),
        map.at(PressSensId::OxTankUpper) == (SensorAddr { node_id: 5, slot: 3 }),
        map.at(PressSensId::OxTankLower) == (SensorAddr { node_id: 6, slot: 1 }),
        map.at(PressSensId::CombustionChamber) == (SensorAddr { node_id: 6, slot: 0 }),
        map.at(PressSensId::ExternalPressurant) == (SensorAddr { node_id: 8, slot: 0 }),
        map.at(PressSensId::ExternalOxidizer) == (SensorAddr { node_id: 8, slot: 0 }),
{
    PressureSensorMap::new(
        [
            SensorAddr { node_id: 2, slot: 0 },
            SensorAddr { node_id: 5, slot: 4 },
            SensorAddr { node_id: 5, slot: 1 },
            SensorAddr { node_id: 5, slot: 2 },
            SensorAddr { node_id: 5, slot: 3 },
            SensorAddr { node_id: 6, slot: 1 },
            SensorAddr { node_id: 6, slot: 0 },
            SensorAddr { node_id: 8, slot: 0 },
            SensorAddr { node_id: 8, slot: 0 },
        ],
    )
}

/// No two valves of the vehicle share a place, nor do two binary outputs.
pub proof fn law_outputs_have_their_own_places(
    valve: ValveId,
    other_valve: ValveId,
    output: BinaryOutputId,
    other_output: BinaryOutputId,
)
    ensures
        valve_place(valve) == valve_place(other_valve) && valve_place(valve).0 != NO_NODE
            ==> valve == other_valve,
        output_place(output) == output_place(other_output) ==> output == other_output,
{
}

/// No place carries both a temperature and a pressure sensor, so that it does not matter which of
/// them is looked for first.
pub proof fn law_sensors_of_different_kinds_have_different_places(
    temp: TempSensId,
    press: PressSensId,
)
    ensures
        temp_place(temp) != press_place(press),
{
}

} // verus!

//! The tanks, sensors, outputs and valves of the propulsion system.

use vstd::prelude::*;

use crate::foreign_io::{DataWithTime, ForeignInputImage};
use crate::single::Single;

verus! {

#[derive(Copy, Clone, Debug, PartialEq, Eq, Structural)]
pub enum TankId {
    Pressurant,
    Oxidizer,
    CombustionChamber,
}

/// Every foreign temperature sensor.
#[derive(Copy, Clone, Debug, PartialEq, Eq, Structural)]
pub enum TempSensId {
    OxTankUpper,
    OxTankLower,
}

/// Every foreign pressure sensor.
#[derive(Copy, Clone, Debug, PartialEq, Eq, Structural)]
pub enum PressSensId {
    Nosecone,
    PressurantTank,
    PReg1,
    PReg2,
    OxTankUpper,
    OxTankLower,
    CombustionChamber,
    ExternalPressurant,
    ExternalOxidizer,
}

#[derive(Copy, Clone, Debug, PartialEq, Eq, Structural)]
pub enum BinaryOutputId {
    Igniter1,
    Igniter2,
    Camera1,
    Camera2,
}

/// The valves of the engine, numbered from one.
#[derive(Copy, Clone, Debug, PartialEq, Eq, Structural)]
pub enum ValveId {
    PressurantVent,
    Pressurization,
    OxidizerVent,
    OxidizerFill,
    Main,
}

impl ValveId {
    /// The valve's place among the valves.
    pub open spec fn place(self) -> int {
        self as int
    }

    /// The valve's number; the first valve has number one.
    pub fn number(self) -> (number: usize)
        ensures
            number == self.place() + 1,
            1 <= number <= 5,
    {
        self as usize + 1
    }
}

impl BinaryOutputId {
    /// The output's place among the outputs.
    pub open spec fn place(self) -> int {
        self as int
    }

    pub fn index(self) -> (index: usize)
        ensures
            index == self.place(),
            index < 4,
    {
        self as usize
    }
}

impl PressSensId {
    /// The sensor's place among the pressure sensors.
    pub open spec fn place(self) -> int {
        self as int
    }

    pub fn index(self) -> (index: usize)
        ensures
            index == self.place(),
            index < 9,
    {
        self as usize
    }
}

impl TempSensId {
    /// The sensor's place among the temperature sensors.
    pub open spec fn place(self) -> int {
        self as int
    }

    pub fn index(self) -> (index: usize)
        ensures
            index == self.place(),
            index < 2,
    {
        self as usize
    }
}

pub type TempSensArray = [TempSensId; 2];

pub const ALL_TEMP_SENS: TempSensArray = [TempSensId::OxTankUpper, TempSensId::OxTankLower];

pub type PressSensArray = [PressSensId; 9];

pub const ALL_PRESS_SENS: PressSensArray = [
    PressSensId::Nosecone,
    PressSensId::PressurantTank,
    PressSensId::PReg1,
    PressSensId::PReg2,
    PressSensId::OxTankUpper,
    PressSensId::OxTankLower,
    PressSensId::CombustionChamber,
    PressSensId::ExternalPressurant,
    PressSensId::ExternalOxidizer,
];

pub const ALL_BINARY_OUTPUTS: [BinaryOutputId; 4] = [
    BinaryOutputId::Igniter1,
    BinaryOutputId::Igniter2,
    BinaryOutputId::Camera1,
    BinaryOutputId::Camera2,
];

pub const ALL_TANKS: [TankId; 3] = [
    TankId::Pressurant,
    TankId::Oxidizer,
    TankId::CombustionChamber,
];

pub type ValveArray = [ValveId; 5];

pub const ALL_VALVES: ValveArray = [
    ValveId::PressurantVent,
    ValveId::Pressurization,
    ValveId::OxidizerVent,
    ValveId::OxidizerFill,
    ValveId::Main,
];

/// Every component is listed, once, at its place.
pub proof fn law_all_components_are_listed()
    ensures
        forall|id: TempSensId| ALL_TEMP_SENS@[#[trigger] id.place()] == id,
        forall|id: PressSensId| ALL_PRESS_SENS@[#[trigger] id.place()] == id,
        forall|id: BinaryOutputId| ALL_BINARY_OUTPUTS@[#[trigger] id.place()] == id,
        forall|id: ValveId| ALL_VALVES@[#[trigger] id.place()] == id,
        forall|i: int| 0 <= i < 2 ==> (#[trigger] ALL_TEMP_SENS@[i]).place() == i,
        forall|i: int| 0 <= i < 9 ==> (#[trigger] ALL_PRESS_SENS@[i]).place() == i,
        forall|i: int| 0 <= i < 4 ==> (#[trigger] ALL_BINARY_OUTPUTS@[i]).place() == i,
        forall|i: int| 0 <= i < 5 ==> (#[trigger] ALL_VALVES@[i]).place() == i,
{
}

/// What is known of a tank.
#[derive(Copy, Clone, Debug, PartialEq, Eq)]
pub struct TankReading {
    pub pressure1: Option<Single>,
    pub pressure2: Option<Single>,
    pub temperature1: Option<Single>,
    pub temperature2: Option<Single>,
    pub level: Option<Single>,
}

#[derive(Copy, Clone, Debug, PartialEq, Eq, Structural)]
pub enum PropulsionError {
    NotPermittedInMode,
    Inhibited,
    TransportFailed,
}

/// The value of a reading.
pub open spec fn value(reading: Option<DataWithTime<Single>>) -> Option<Single> {
    match reading {
        Some(reading) => Some(reading.data),
        None => None,
    }
}

fn data(reading: Option<DataWithTime<Single>>) -> (data: Option<Single>)
    ensures
        data == value(reading),
{
    match reading {
        Some(reading) => Some(reading.data),
        None => None,
    }
}

/// The value of a pressure sensor.
pub open spec fn pressure(readings: ForeignInputImage, id: PressSensId) -> Option<Single> {
    value(readings.press_sens[id.place()])
}

/// The value of a temperature sensor.
pub open spec fn temperature(readings: ForeignInputImage, id: TempSensId) -> Option<Single> {
    value(readings.temp_sens[id.place()])
}

/// What the sensors tell of a tank. Only the oxidizer tank has two pressure sensors, and only that
/// has temperature sensors.
pub fn tank_reading(tank: TankId, readings: &ForeignInputImage) -> (reading: TankReading)
    ensures
        reading.pressure1 == pressure(
            *readings,
            match tank {
                TankId::Pressurant => PressSensId::PressurantTank,
                TankId::Oxidizer => PressSensId::OxTankUpper,
                TankId::CombustionChamber => PressSensId::CombustionChamber,
            },
        ),
        reading.pressure2 == pressure(
            *readings,
            match tank {
                TankId::Pressurant => PressSensId::PressurantTank,
                TankId::Oxidizer => PressSensId::OxTankLower,
                TankId::CombustionChamber => PressSensId::CombustionChamber,
            },
        ),
        reading.temperature1 == if tank is Oxidizer {
            temperature(*readings, TempSensId::OxTankUpper)
        } else {
            None
        },
        reading.temperature2 == if tank is Oxidizer {
            temperature(*readings, TempSensId::OxTankLower)
        } else {
            None
        },
        reading.level is None,
{
    match tank {
        TankId::Oxidizer => TankReading {
            pressure1: data(readings.press_sens[PressSensId::OxTankUpper.index()]),
            pressure2: data(readings.press_sens[PressSensId::OxTankLower.index()]),
            temperature1: data(readings.temp_sens[TempSensId::OxTankUpper.index()]),
            temperature2: data(readings.temp_sens[TempSensId::OxTankLower.index()]),
            level: None,
        },
        TankId::Pressurant => TankReading {
            pressure1: data(readings.press_sens[PressSensId::PressurantTank.index()]),
            pressure2: data(readings.press_sens[PressSensId::PressurantTank.index()]),
            temperature1: None,
            temperature2: None,
            level: None,
        },
        TankId::CombustionChamber => TankReading {
            pressure1: data(readings.press_sens[PressSensId::CombustionChamber.index()]),
            pressure2: data(readings.press_sens[PressSensId::CombustionChamber.index()]),
            temperature1: None,
            temperature2: None,
            level: None,
        },
    }
}

} // verus!

//! The vehicle bus: what the IO boards report, and what they are told to do.

use vstd::prelude::*;

use crate::inventory::{BinaryOutputMap, PressureSensorMap, TemperatureSensorMap, ValveMap};
use crate::single::{Single, THOUSAND_BITS};

pub mod units;

verus! {

/// Something that IO boards are attached to.
pub trait Bus {
    fn get_input_image(&mut self) -> BusInputImage;

    fn set_output_image(&mut self, outputs: BusOutputImage);
}

/// A `Bus` with nothing attached: inputs stay unknown, outputs go nowhere.
/// Stand-in for builds without IO boards.
#[derive(Copy, Clone, Debug, PartialEq, Eq, Structural)]
pub struct NoBus;

impl Bus for NoBus {
    fn get_input_image(&mut self) -> (image: BusInputImage)
        ensures
            image.is_unknown(),
    {
        BusInputImage::default()
    }

    fn set_output_image(&mut self, _outputs: BusOutputImage)
        ensures
            *final(self) == *old(self),
    {
    }
}

/// A reading and the vehicle time at which it came in.
pub struct DataWithTime<T> {
    pub data: T,
    pub time: u32,
}

impl<T: Copy> Copy for DataWithTime<T> {

}

impl<T: Copy> Clone for DataWithTime<T> {
    fn clone(&self) -> (copy: Self)
        ensures
            copy == *self,
    {
        *self
    }
}

/// The last known reading of everything on the bus.
#[derive(Copy, Clone)]
pub struct BusInputImage {
    pub temp_sens: TemperatureSensorMap<Option<DataWithTime<Single>>>,
    pub press_sens: PressureSensorMap<Option<DataWithTime<Single>>>,
    pub valve_state: ValveMap<Option<DataWithTime<ValveState>>>,
    pub binary_outputs: BinaryOutputMap<Option<DataWithTime<bool>>>,
    pub ox_tank_level: Option<DataWithTime<Single>>,
}

/// What everything on the bus should be doing.
#[derive(Copy, Clone)]
pub struct BusOutputImage {
    pub valve: ValveMap<ValveState>,
    pub binary_output: BinaryOutputMap<bool>,
    /// What the flight computer reports about itself. Nothing acts on it, but it leaves through
    /// the same path as the outputs.
    pub temperature: FcTemperature,
}

/// The flight computer's own temperatures, in millidegrees Celsius.
#[derive(Copy, Clone, PartialEq, Eq, Debug, Structural)]
pub struct FcTemperature {
    /// Ambient, taken from a barometer's own die sensor.
    pub baro_milli_c: Option<i32>,
    /// The die sensor of the microcontroller.
    pub mcu_milli_c: Option<i32>,
}

impl Default for FcTemperature {
    fn default() -> (temperature: Self)
        ensures
            temperature.baro_milli_c is None,
            temperature.mcu_milli_c is None,
    {
        FcTemperature { baro_milli_c: None, mcu_milli_c: None }
    }
}

/// Degrees Celsius to the millidegrees the bus carries.
///
/// Saturating rather than wrapping: a barometer that reports a nonsense temperature should pin the
/// reading, not wrap it around to the other end of the scale where it looks plausible again.
pub fn celsius_to_milli_c(celsius: Single) -> (milli: i32)
    ensures
        milli == celsius.cast_scaled(
            Single { bits: THOUSAND_BITS },
            i32::MIN as int,
            i32::MAX as int,
        ),
{
    celsius.scaled(Single { bits: THOUSAND_BITS }, i32::MIN as i64, i32::MAX as i64) as i32
}

/// How far a valve is open.
#[derive(Copy, Clone, PartialEq, Eq, Debug, Structural)]
pub struct ValveState {
    /// 0 = fully closed, 1000 = fully open
    promille: u16,
}

/// Address for CANopen service data requests.
#[derive(Copy, Clone, PartialEq, Eq, Debug, Structural)]
pub struct IoAddr {
    /// id of the io board
    pub node_id: u8,
    /// index into the CANopen store
    pub index: u16,
    /// subindex for array objects in the store
    pub subindex: u8,
}

/// Why a message on the bus could not be made sense of.
#[derive(Copy, Clone, PartialEq, Eq, Debug, Structural)]
pub enum BusDataError {
    UnexpectedFormat,
    IoAddrNotMapped,
    OutOfRange,
}

impl<T: Copy> DataWithTime<T> {
    pub fn new(data: T, time: u32) -> (reading: Self)
        ensures
            reading.data == data,
            reading.time == time,
    {
        DataWithTime { data, time }
    }

    pub fn injest(&mut self, data: T, time: u32)
        ensures
            final(self).data == data,
            final(self).time == time,
    {
        self.data = data;
        self.time = time;
    }
}

impl BusInputImage {
    /// Nothing was ever read.
    pub open spec fn is_unknown(self) -> bool {
        &&& forall|i: int| 0 <= i < 2 ==> #[trigger] self.temp_sens@[i] is None
        &&& forall|i: int| 0 <= i < 9 ==> #[trigger] self.press_sens@[i] is None
        &&& forall|i: int| 0 <= i < 9 ==> #[trigger] self.valve_state@[i] is None
        &&& forall|i: int| 0 <= i < 4 ==> #[trigger] self.binary_outputs@[i] is None
        &&& self.ox_tank_level is None
    }

    pub fn default() -> (image: Self)
        ensures
            image.is_unknown(),
    {
        BusInputImage {
            temp_sens: TemperatureSensorMap::splat(None),
            press_sens: PressureSensorMap::splat(None),
            valve_state: ValveMap::splat(None),
            binary_outputs: BinaryOutputMap::splat(None),
            ox_tank_level: None,
        }
    }
}

impl BusOutputImage {
    pub fn default() -> (image: Self)
        ensures
            forall|i: int| 0 <= i < 9 ==> (#[trigger] image.valve@[i])@ == 0,
            forall|i: int| 0 <= i < 4 ==> !#[trigger] image.binary_output@[i],
            image.temperature.baro_milli_c is None,
            image.temperature.mcu_milli_c is None,
    {
        BusOutputImage {
            valve: ValveMap::splat(ValveState::fully_closed()),
            binary_output: BinaryOutputMap::splat(false),
            temperature: FcTemperature { baro_milli_c: None, mcu_milli_c: None },
        }
    }
}

impl View for ValveState {
    type V = u16;

    /// How far the valve is open, in thousandths.
    closed spec fn view(&self) -> u16 {
        self.promille
    }
}

/// The state of a valve is nothing but how far it is open.
pub broadcast proof fn law_valve_state_is_its_promille(a: ValveState, b: ValveState)
    ensures
        (#[trigger] a@ == #[trigger] b@) <==> a == b,
{
}

impl ValveState {
    #[verifier::type_invariant]
    spec fn inv(self) -> bool {
        self.promille <= 1000
    }

    /// 0 = fully closed, 100 = fully open
    pub fn from_percent_open(value: u16) -> (state: Self)
        ensures
            state@ == 10 * (if value > 100 {
                100
            } else {
                value as int
            }),
    {
        let value: u16 = if value > 100 {
            100
        } else {
            value
        };
        ValveState { promille: value * 10 }
    }

    pub fn fully_open() -> (state: Self)
        ensures
            state@ == 1000,
    {
        ValveState { promille: 1000 }
    }

    pub fn fully_closed() -> (state: Self)
        ensures
            state@ == 0,
    {
        ValveState { promille: 0 }
    }

    pub fn set_fully_open(&mut self)
        ensures
            final(self)@ == 1000,
    {
        self.promille = 1000;
    }

    pub fn set_fully_closed(&mut self)
        ensures
            final(self)@ == 0,
    {
        self.promille = 0;
    }

    pub fn from_promille_clamped(promille: u16) -> (state: Self)
        ensures
            state@ == (if promille > 1000 {
                1000
            } else {
                promille
            }),
    {
        let promille: u16 = if promille > 1000 {
            1000
        } else {
            promille
        };
        ValveState { promille }
    }

    /// 0 = fully closed, 1000 = fully open
    pub fn promille(&self) -> (promille: u16)
        ensures
            promille == self@,
            promille <= 1000,
    {
        proof {
            use_type_invariant(self);
        }
        self.promille
    }
}

impl IoAddr {
    pub fn new(board_id: u8, index: u16, subindex: u8) -> (addr: Self)
        ensures
            addr == (IoAddr { node_id: board_id, index, subindex }),
    {
        IoAddr { node_id: board_id, index, subindex }
    }
}

} // verus!

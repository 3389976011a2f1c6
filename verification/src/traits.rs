//! What the vehicle reads from its board and what it drives on it.

use vstd::prelude::*;

use crate::params::RecoveryParams;
use crate::single::Single;

verus! {

/// What the power monitor measures.
#[derive(Copy, Clone, Debug, PartialEq, Eq, Structural)]
pub struct AdcData {
    /// Voltage of the main bus \[mV\]
    pub bus_main_voltage: u16,
    /// Voltage of the supply \[mV\]
    pub bus_supply_voltage: u16,
    /// Current into the flight computer \[mA\]
    pub fc_current: i32,
    /// Voltage of the recovery bus \[mV\]
    pub recovery_voltage: u16,
    /// Current into the recovery bus \[mA\]
    pub recovery_current: i32,
    /// Temperature of the microcontroller
    pub temperature: i32,
}

impl Default for AdcData {
    fn default() -> (data: Self)
        ensures
            data == (AdcData {
                bus_main_voltage: 0,
                bus_supply_voltage: 0,
                fc_current: 0,
                recovery_voltage: 0,
                recovery_current: 0,
                temperature: 0,
            }),
    {
        AdcData {
            bus_main_voltage: 0,
            bus_supply_voltage: 0,
            fc_current: 0,
            recovery_voltage: 0,
            recovery_current: 0,
            temperature: 0,
        }
    }
}

/// A vector in space.
#[derive(Copy, Clone, Debug, PartialEq, Eq, Structural)]
pub struct Vector {
    pub x: Single,
    pub y: Single,
    pub z: Single,
}

/// What a barometer measures.
#[derive(Copy, Clone, Debug, PartialEq, Eq, Structural)]
pub struct BaroReading {
    pub pressure: Option<Single>,
    pub temperature: Option<Single>,
    pub altitude: Option<Single>,
}

/// What the satellite receiver reports.
#[derive(Copy, Clone, Debug, PartialEq, Eq, Structural)]
pub struct GpsDatum {
    pub latitude: Option<Single>,
    pub longitude: Option<Single>,
    pub altitude: Option<Single>,
    pub hdop: u16,
    pub num_satellites: u8,
}

/// The last readings of all sensors on the board; `None` where there is none.
#[derive(Copy, Clone, Debug, PartialEq, Eq, Structural)]
pub struct SensorReadings {
    /// IMU1 angular rate \[deg/s\]
    pub imu1_gyro: Option<Vector>,
    /// IMU1 acceleration \[m/s^2\]
    pub imu1_accel: Option<Vector>,
    /// IMU2 angular rate \[deg/s\]
    pub imu2_gyro: Option<Vector>,
    /// IMU2 acceleration \[m/s^2\]
    pub imu2_accel: Option<Vector>,
    /// IMU3 angular rate \[deg/s\]
    pub imu3_gyro: Option<Vector>,
    /// IMU3 acceleration \[m/s^2\]
    pub imu3_accel: Option<Vector>,
    /// High-G acceleration \[m/s^2\]
    pub highg_accel: Option<Vector>,
    /// Magnetometer reading \[uT\]
    pub mag: Option<Vector>,
    /// Barometer 1 reading
    pub baro1: BaroReading,
    /// Barometer 2 reading
    pub baro2: BaroReading,
    /// Barometer 3 reading
    pub baro3: BaroReading,
    /// Power data
    pub power: Option<AdcData>,
    /// GPS reading
    pub gps: Option<GpsDatum>,
}

impl SensorReadings {
    /// No sensor has a reading.
    pub open spec fn is_empty(self) -> bool {
        &&& self.imu1_gyro is None && self.imu2_gyro is None && self.imu3_gyro is None
        &&& self.imu1_accel is None && self.imu2_accel is None && self.imu3_accel is None
        &&& self.highg_accel is None && self.mag is None
        &&& forall|baro: BaroReading|
            baro == self.baro1 || baro == self.baro2 || baro == self.baro3
                ==> #[trigger] baro.pressure is None && baro.temperature is None
                && baro.altitude is None
        &&& self.power is None && self.gps is None
    }
}

impl Default for SensorReadings {
    fn default() -> (readings: Self)
        ensures
            readings.is_empty(),
    {
        let baro = BaroReading { pressure: None, temperature: None, altitude: None };
        SensorReadings {
            imu1_gyro: None,
            imu1_accel: None,
            imu2_gyro: None,
            imu2_accel: None,
            imu3_gyro: None,
            imu3_accel: None,
            highg_accel: None,
            mag: None,
            baro1: baro,
            baro2: baro,
            baro3: baro,
            power: None,
            gps: None,
        }
    }
}

/// The outputs that drive the recovery system.
pub trait Outputs {
    fn set_recovery_armed(&mut self, armed: bool);

    fn set_drogue(&mut self, high: bool);

    fn set_main(&mut self, high: bool);
}

/// Something that keeps settings while the power is off.
pub trait Storage {
    fn read_settings(&mut self) -> Option<RecoveryParams>;

    fn write_settings(&mut self, settings: &RecoveryParams);
}

/// A `Storage` that keeps nothing.
#[derive(Copy, Clone, Debug, PartialEq, Eq, Structural)]
pub struct NoStorage;

impl Default for NoStorage {
    fn default() -> (storage: Self)
        ensures
            storage == NoStorage,
    {
        NoStorage
    }
}

impl Storage for NoStorage {
    fn read_settings(&mut self) -> (settings: Option<RecoveryParams>)
        ensures
            settings is None,
    {
        None
    }

    fn write_settings(&mut self, _settings: &RecoveryParams)
        ensures
            *final(self) == *old(self),
    {
    }
}

} // verus!

//! The vehicle's state at one tick, and the telemetry messages built from it.

use vstd::prelude::*;

use crate::bus::{BusInputImage, BusOutputImage};
use crate::inventory::{
    law_map_has_one_value_per_component, FluidType, InventoryId, PressSensId, PressureVesselFlag,
    TankId, TempSensId, ValveId,
};
use crate::modes::FlightMode;
use crate::schedule::{
    all_divide_cycle, allocate, cycle_ms, is_allocation, law_at_most_one_message_per_tick,
    law_coarse_intervals_always_fit, placed, schedulable, Slot,
};
use crate::single::{Single, HUNDRED_BITS, TEN_BITS, TEN_THOUSAND_BITS, THOUSAND_BITS};
use crate::traits::{BaroReading, SensorReadings, Vector};

pub mod downlink;

verus! {

broadcast use law_map_has_one_value_per_component;

/// The voltage above which the recovery system counts as armed \[mV\].
pub const RECOVERY_ARMED_THRESHOLD_MV: u16 = 6000;

/// The bit pattern of 101.972: metres per second squared to thousandths of gravity.
pub const MILLI_G_BITS: u32 = 0x42cb_f1aa;

/// The bit pattern of 17.45329: degrees per second to thousandths of radians per second.
pub const MILLI_RAD_BITS: u32 = 0x418b_a057;

/// What the state estimator knows, as far as telemetry reports it.
#[derive(Copy, Clone, Debug, PartialEq, Eq, Structural)]
pub struct EstimatorView {
    /// An orientation was found.
    pub has_orientation: bool,
    /// The last satellite reading is good enough to fly with.
    pub gps_reliable: bool,
    pub position: Vector,
    pub velocity: Vector,
    pub altitude_agl: Single,
    pub altitude_asl: Single,
    pub latitude: Option<Single>,
    pub longitude: Option<Single>,
}

/// Everything the vehicle exposes about one tick.
pub struct VehicleSnapshot<'a> {
    pub time: u32,
    pub mode: FlightMode,
    pub readings: &'a SensorReadings,
    pub estimator: &'a EstimatorView,
    pub input_image: &'a BusInputImage,
    pub output_image: &'a BusOutputImage,
}

/// The messages that are sent unprompted.
#[derive(Copy, Clone, Debug, PartialEq, Eq, Structural)]
pub enum TelemetryMessage {
    Attitude,
    VfrHud,
    ScaledImu,
    ScaledImu2,
    ScaledImu3,
    BatteryStatus,
    LocalPositionNed,
    ScaledPressure,
    ScaledPressure2,
    ScaledPressure3,
    Heartbeat,
    SysStatus,
    GlobalPositionInt,
    GpsRawInt,
    RocketInfo,
    AutopilotVersion,
    PressureVessel(TankId),
    Valve(ValveId),
}

/// How many messages are sent unprompted.
pub const MESSAGE_COUNT: usize = 31;

/// Every message with the interval at which it is sent.
pub open spec fn flight_schedule() -> Seq<(TelemetryMessage, u32)> {
    let at = |messages: Seq<TelemetryMessage>, interval: u32|
        messages.map_values(|m: TelemetryMessage| (m, interval));
    at(
        seq![
            TelemetryMessage::Attitude,
            TelemetryMessage::VfrHud,
            TelemetryMessage::ScaledImu,
            TelemetryMessage::ScaledImu2,
            TelemetryMessage::ScaledImu3,
        ],
        100,
    ) + at(
        seq![
            TelemetryMessage::BatteryStatus,
            TelemetryMessage::LocalPositionNed,
            TelemetryMessage::ScaledPressure,
            TelemetryMessage::ScaledPressure2,
            TelemetryMessage::ScaledPressure3,
        ],
        200,
    ) + at(
        seq![
            TelemetryMessage::Heartbeat,
            TelemetryMessage::SysStatus,
            TelemetryMessage::GlobalPositionInt,
            TelemetryMessage::GpsRawInt,
        ],
        500,
    ) + at(seq![TelemetryMessage::RocketInfo, TelemetryMessage::AutopilotVersion], 2000) + at(
        TankId::ALL@.map_values(|tank: TankId| TelemetryMessage::PressureVessel(tank)),
        200,
    ) + at(ValveId::ALL@.map_values(|valve: ValveId| TelemetryMessage::Valve(valve)), 200)
}

/// The intervals of all messages.
pub open spec fn flight_intervals() -> Seq<u32> {
    flight_schedule().map_values(|entry: (TelemetryMessage, u32)| entry.1)
}

/// The pattern in which telemetry goes out on all links but the radio: at most one message per
/// tick.
pub struct DownlinkSchedule {
    slots: [Slot; 31],
}

/// The intervals, in the order of the messages.
fn interval_list() -> (intervals: [u32; 31])
    ensures
        intervals@ == flight_intervals(),
{
    let intervals: [u32; 31] = [
        100,
        100,
        100,
        100,
        100,
        200,
        200,
        200,
        200,
        200,
        500,
        500,
        500,
        500,
        2000,
        2000,
        200,
        200,
        200,
        200,
        200,
        200,
        200,
        200,
        200,
        200,
        200,
        200,
        200,
        200,
        200,
    ];
    assert(intervals@ =~= flight_intervals());
    intervals
}

/// The message at this place of the schedule.
fn message_at(i: usize) -> (message: TelemetryMessage)
    requires
        i < MESSAGE_COUNT,
    ensures
        message == flight_schedule()[i as int].0,
{
    let fixed: [TelemetryMessage; 16] = [
        TelemetryMessage::Attitude,
        TelemetryMessage::VfrHud,
        TelemetryMessage::ScaledImu,
        TelemetryMessage::ScaledImu2,
        TelemetryMessage::ScaledImu3,
        TelemetryMessage::BatteryStatus,
        TelemetryMessage::LocalPositionNed,
        TelemetryMessage::ScaledPressure,
        TelemetryMessage::ScaledPressure2,
        TelemetryMessage::ScaledPressure3,
        TelemetryMessage::Heartbeat,
        TelemetryMessage::SysStatus,
        TelemetryMessage::GlobalPositionInt,
        TelemetryMessage::GpsRawInt,
        TelemetryMessage::RocketInfo,
        TelemetryMessage::AutopilotVersion,
    ];
    if i < 16 {
        fixed[i]
    } else if i < 22 {
        TelemetryMessage::PressureVessel(TankId::ALL[i - 16])
    } else {
        TelemetryMessage::Valve(ValveId::ALL[i - 22])
    }
}

proof fn lemma_flight_intervals_are_coarse()
    ensures
        flight_intervals().len() == MESSAGE_COUNT,
        flight_schedule().len() == MESSAGE_COUNT,
        forall|i: int|
            0 <= i < MESSAGE_COUNT ==> {
                let interval = #[trigger] flight_intervals()[i];
                interval == 100 || interval == 200 || interval == 500 || interval == 2000
            },
        flight_intervals()[14] == 2000,
{
}

/// The flight schedule fits: its messages can be spread out over the ticks.
pub proof fn law_the_flight_schedule_fits()
    ensures
        schedulable(flight_intervals()),
        cycle_ms(flight_intervals()) == 2000,
{
    lemma_flight_intervals_are_coarse();
    let all = flight_intervals();
    crate::schedule::lemma_cycle_bounds(all);
    assert(cycle_ms(all) == 2000) by {
        let i = choose|i: int| 0 <= i < all.len() && #[trigger] all[i] == cycle_ms(all);
        assert(all[14] <= cycle_ms(all));
    }
    assert forall|i: int| 0 <= i < all.len() implies 2000int % (#[trigger] all[i] as int) == 0
        && all[i] as int % 100 == 0 by {
    }
    assert(all_divide_cycle(all));
    law_coarse_intervals_always_fit(all, 100);
}

/// The message is the one, and the only one, whose slot is due at the time; there is none where no
/// slot is.
pub open spec fn is_due_message(
    slots: Seq<Slot>,
    time: u32,
    message: Option<TelemetryMessage>,
) -> bool {
    match message {
        Some(message) => exists|i: int|
            0 <= i < MESSAGE_COUNT && (#[trigger] slots[i]).due_at(time as int)
                && flight_schedule()[i].0 == message && forall|j: int|
                0 <= j < MESSAGE_COUNT && (#[trigger] slots[j]).due_at(time as int) ==> j == i,
        None => forall|i: int|
            0 <= i < MESSAGE_COUNT ==> !(#[trigger] slots[i]).due_at(time as int),
    }
}

impl DownlinkSchedule {
    /// When each message goes out.
    pub closed spec fn slots(self) -> Seq<Slot> {
        self.slots@
    }

    /// The slots are those of the flight schedule.
    pub open spec fn wf(self) -> bool {
        is_allocation(flight_intervals(), self.slots())
    }

    pub fn new() -> (schedule: Self)
        ensures
            schedule.wf(),
    {
        proof {
            law_the_flight_schedule_fits();
        }
        DownlinkSchedule { slots: allocate(interval_list()) }
    }

    /// The message that goes out at this time, if one does.
    pub fn due(&self, time: u32) -> (message: Option<TelemetryMessage>)
        requires
            self.wf(),
        ensures
            is_due_message(self.slots(), time, message),
    {
        proof {
            lemma_flight_intervals_are_coarse();
        }
        let mut i: usize = 0;
        while i < MESSAGE_COUNT
            invariant
                i <= MESSAGE_COUNT,
                self.wf(),
                flight_intervals().len() == MESSAGE_COUNT,
                forall|j: int|
                    0 <= j < MESSAGE_COUNT ==> #[trigger] flight_intervals()[j] >= 100,
                forall|j: int| 0 <= j < i ==> !(#[trigger] self.slots()[j]).due_at(time as int),
            decreases MESSAGE_COUNT - i,
        {
            assert(placed(flight_intervals(), self.slots(), i as int));
            assert(flight_intervals()[i as int] >= 100);
            if self.slots[i].is_due(time) {
                proof {
                    assert(self.slots()[i as int].due_at(time as int));
                    assert forall|j: int|
                        0 <= j < MESSAGE_COUNT && (#[trigger] self.slots()[j]).due_at(
                            time as int,
                        ) implies j == i by {
                        law_at_most_one_message_per_tick(
                            flight_intervals(),
                            self.slots(),
                            time as int,
                            i as int,
                            j,
                        );
                    }
                }
                return Some(message_at(i));
            }
            i += 1;
        }
        None
    }
}

/// The number, truncated towards zero to tenths and limited to the range of the field.
pub open spec fn tenth(value: i32) -> int {
    let tenth = if value >= 0 {
        value as int / 10
    } else {
        -((-value) / 10)
    };
    if tenth > i16::MAX {
        i16::MAX as int
    } else if tenth < i16::MIN {
        i16::MIN as int
    } else {
        tenth
    }
}

fn clamped_tenth(value: i32) -> (clamped: i16)
    ensures
        clamped == tenth(value),
{
    let tenth: i64 = if value >= 0 {
        value as i64 / 10
    } else {
        -((-(value as i64)) / 10)
    };
    if tenth > i16::MAX as i64 {
        i16::MAX
    } else if tenth < i16::MIN as i64 {
        i16::MIN
    } else {
        tenth as i16
    }
}

/// The arming switch is thrown: the recovery bus is live.
pub open spec fn physically_armed(readings: SensorReadings) -> bool {
    readings.power matches Some(power) && power.recovery_voltage > RECOVERY_ARMED_THRESHOLD_MV
}

impl<'a> VehicleSnapshot<'a> {
    /// Whether the vehicle is *physically* armed, i.e. the arming pins are pulled. This is
    /// orthogonal to the flight mode.
    pub fn is_physically_armed(&self) -> (armed: bool)
        ensures
            armed == physically_armed(*self.readings),
    {
        match &self.readings.power {
            Some(power) => power.recovery_voltage > RECOVERY_ARMED_THRESHOLD_MV,
            None => false,
        }
    }
}

/// The sign of life of the flight computer.
#[derive(Copy, Clone, Debug, PartialEq, Eq, Structural)]
pub struct Heartbeat {
    /// Bit 0: the custom mode counts. Bit 7: the vehicle is armed.
    pub base_mode: u8,
    pub custom_mode: u32,
    pub mavlink_version: u8,
}

/// The heartbeat of the vehicle.
pub fn heartbeat(snap: &VehicleSnapshot<'_>) -> (msg: Heartbeat)
    ensures
        msg.base_mode == (if physically_armed(*snap.readings) {
            129u8
        } else {
            1u8
        }),
        msg.custom_mode == snap.mode.code(),
        msg.mavlink_version == 2,
{
    Heartbeat {
        base_mode: if snap.is_physically_armed() {
            129
        } else {
            1
        },
        custom_mode: snap.mode.number() as u32,
        mavlink_version: 2,
    }
}

/// The throttle percentage that is reported in a flight mode.
pub fn throttle_percent(mode: FlightMode) -> (percent: u16)
    ensures
        percent == (if mode is Burn {
            100u16
        } else {
            0u16
        }),
{
    if mode == FlightMode::Burn {
        100
    } else {
        0
    }
}

/// The sensors and subsystems of the board.
#[derive(Copy, Clone, Debug, PartialEq, Eq, Structural)]
pub struct SensorSet {
    pub gyro: bool,
    pub accel: bool,
    pub mag: bool,
    pub absolute_pressure: bool,
    pub gps: bool,
    pub motor_outputs: bool,
    pub ahrs: bool,
    pub logging: bool,
    pub battery: bool,
    pub prearm_check: bool,
    pub propulsion: bool,
    pub extension_used: bool,
}

/// `weight` if the flag is set.
#[verifier::opaque]
pub open spec fn weight(flag: bool, weight: int) -> int {
    if flag {
        weight
    } else {
        0
    }
}

impl SensorSet {
    /// The bit mask of the set: each sensor has its bit.
    pub open spec fn mask(self) -> int {
        weight(self.gyro, 1) + weight(self.accel, 2) + weight(self.mag, 4) + weight(
            self.absolute_pressure,
            8,
        ) + weight(self.gps, 32) + weight(self.motor_outputs, 0x8000) + weight(self.ahrs, 0x20_0000)
            + weight(self.logging, 0x100_0000) + weight(self.battery, 0x200_0000) + weight(
            self.prearm_check,
            0x1000_0000,
        ) + weight(self.propulsion, 0x4000_0000) + weight(self.extension_used, 0x8000_0000)
    }

    /// The bit mask of the set.
    pub fn bits(&self) -> (bits: u32)
        ensures
            bits == self.mask(),
    {
        let low: u32 = flag_weight(self.gyro, 1) + flag_weight(self.accel, 2) + flag_weight(
            self.mag,
            4,
        ) + flag_weight(self.absolute_pressure, 8) + flag_weight(self.gps, 32);
        let middle: u32 = flag_weight(self.motor_outputs, 0x8000) + flag_weight(
            self.ahrs,
            0x20_0000,
        ) + flag_weight(self.logging, 0x100_0000) + flag_weight(self.battery, 0x200_0000);
        let high: u32 = flag_weight(self.prearm_check, 0x1000_0000) + flag_weight(
            self.propulsion,
            0x4000_0000,
        ) + flag_weight(self.extension_used, 0x8000_0000);
        low + middle + high
    }
}

fn flag_weight(flag: bool, bit: u32) -> (value: u32)
    ensures
        value == weight(flag, bit as int),
        value <= bit,
{
    reveal(weight);
    if flag {
        bit
    } else {
        0
    }
}

/// Which sensors and subsystems there are, are switched on and work.
#[derive(Copy, Clone, Debug, PartialEq, Eq, Structural)]
pub struct SysStatus {
    pub present: SensorSet,
    pub enabled: SensorSet,
    pub health: SensorSet,
    /// Voltage of the battery \[mV\]
    pub voltage_battery: u16,
    /// Current from the battery \[cA\]
    pub current_battery: i16,
    /// Unknown.
    pub battery_remaining: i8,
    /// The recovery system, which is always there.
    pub recovery_present: bool,
    pub recovery_enabled: bool,
    pub recovery_health: bool,
}

/// What is reported of the sensors and subsystems.
pub open spec fn sys_status_of(snap: VehicleSnapshot<'_>) -> SysStatus {
    let r = *snap.readings;
    let hw_armed = physically_armed(r);
    let armed = !snap.mode.is_ground();
    let all = SensorSet {
        gyro: true,
        accel: true,
        mag: true,
        absolute_pressure: true,
        gps: true,
        motor_outputs: true,
        ahrs: true,
        logging: true,
        battery: true,
        prearm_check: true,
        propulsion: true,
        extension_used: true,
    };
    SysStatus {
        present: all,
        enabled: SensorSet {
            logging: armed,
            motor_outputs: hw_armed,
            propulsion: snap.mode is Burn || snap.mode is Ignite,
            ..all
        },
        health: SensorSet {
            gyro: r.imu1_gyro is Some && r.imu2_gyro is Some && r.imu3_gyro is Some,
            accel: r.imu1_accel is Some && r.imu2_accel is Some && r.imu3_accel is Some,
            mag: r.mag is Some,
            absolute_pressure: r.baro1.pressure is Some,
            gps: r.gps is Some,
            motor_outputs: hw_armed,
            ahrs: snap.estimator.has_orientation,
            logging: armed,
            battery: r.power is Some,
            prearm_check: hw_armed && r.gps is Some && snap.estimator.gps_reliable,
            propulsion: false,
            extension_used: true,
        },
        voltage_battery: match r.power {
            Some(power) => power.bus_main_voltage,
            None => u16::MAX,
        },
        current_battery: match r.power {
            Some(power) => tenth(power.fc_current) as i16,
            None => -1i16,
        },
        battery_remaining: -1i8,
        recovery_present: true,
        recovery_enabled: armed,
        recovery_health: armed,
    }
}

/// What is reported of the sensors and subsystems.
pub fn sys_status(snap: &VehicleSnapshot<'_>) -> (msg: SysStatus)
    ensures
        msg == sys_status_of(*snap),
{
    let r = snap.readings;
    let hw_armed = snap.is_physically_armed();
    let armed = !snap.mode.is_before(FlightMode::DetectLaunch);

    // All sensors and subsystems physically present on the board.
    let present = SensorSet {
        gyro: true,
        accel: true,
        mag: true,
        absolute_pressure: true,
        gps: true,
        motor_outputs: true,
        ahrs: true,
        logging: true,
        battery: true,
        prearm_check: true,
        propulsion: true,
        extension_used: true,
    };

    let mut enabled = present;
    if !armed {
        enabled.logging = false;
    }
    if !hw_armed {
        enabled.motor_outputs = false;
    }
    if snap.mode != FlightMode::Burn && snap.mode != FlightMode::Ignite {
        enabled.propulsion = false;
    }
    let health = SensorSet {
        gyro: r.imu1_gyro.is_some() && r.imu2_gyro.is_some() && r.imu3_gyro.is_some(),
        accel: r.imu1_accel.is_some() && r.imu2_accel.is_some() && r.imu3_accel.is_some(),
        mag: r.mag.is_some(),
        absolute_pressure: r.baro1.pressure.is_some(),
        gps: r.gps.is_some(),
        motor_outputs: hw_armed,
        ahrs: snap.estimator.has_orientation,
        logging: armed,
        battery: r.power.is_some(),
        prearm_check: hw_armed && r.gps.is_some() && snap.estimator.gps_reliable,
        propulsion: false,
        extension_used: true,
    };

    SysStatus {
        present,
        enabled,
        health,
        voltage_battery: match &r.power {
            Some(power) => power.bus_main_voltage,
            None => u16::MAX,
        },
        current_battery: match &r.power {
            Some(power) => clamped_tenth(power.fc_current),
            None => -1,
        },
        battery_remaining: -1,
        recovery_present: true,
        recovery_enabled: armed,
        recovery_health: armed,
    }
}

impl SensorSet {
    /// Every flag that is set is also set in the other.
    pub open spec fn within(self, other: Self) -> bool {
        &&& self.gyro ==> other.gyro
        &&& self.accel ==> other.accel
        &&& self.mag ==> other.mag
        &&& self.absolute_pressure ==> other.absolute_pressure
        &&& self.gps ==> other.gps
        &&& self.motor_outputs ==> other.motor_outputs
        &&& self.ahrs ==> other.ahrs
        &&& self.logging ==> other.logging
        &&& self.battery ==> other.battery
        &&& self.prearm_check ==> other.prearm_check
        &&& self.propulsion ==> other.propulsion
        &&& self.extension_used ==> other.extension_used
    }
}

/// What is enabled or healthy is present, flag by flag.
pub proof fn law_only_what_is_present_is_reported(snap: VehicleSnapshot<'_>)
    ensures
        ({
            let status = sys_status_of(snap);
            &&& status.present.mask() == 0xd320_802f
            &&& status.enabled.within(status.present)
            &&& status.health.within(status.present)
            &&& status.recovery_enabled ==> status.recovery_present
            &&& status.recovery_health ==> status.recovery_present
        }),
{
    reveal(weight);
}

/// The charge of the avionics battery.
#[derive(Copy, Clone, Debug, PartialEq, Eq)]
pub struct BatteryStatus {
    pub id: u8,
    /// Unknown.
    pub temperature: i16,
    /// The voltage of the pack \[mV\], and nothing for the single cells.
    pub voltages: [u16; 10],
    /// Current \[cA\]
    pub current_battery: i16,
    /// Charge \[%\], or -1 where it is unknown
    pub battery_remaining: i8,
}

/// The charge of a pack of three cells at this voltage, in percent: empty at 3.3 V per cell, full
/// at 4.2 V.
pub open spec fn charge_percent(pack_mv: u16) -> int {
    let above = pack_mv as int / 3 - 3300;
    if above <= 0 {
        0
    } else if above * 100 / 900 > 100 {
        100
    } else {
        above * 100 / 900
    }
}

/// What is reported of the battery.
pub fn battery_status(snap: &VehicleSnapshot<'_>) -> (msg: BatteryStatus)
    ensures
        msg.id == 1,
        msg.temperature == i16::MAX,
        forall|i: int| 1 <= i < 10 ==> #[trigger] msg.voltages[i] == u16::MAX,
        match snap.readings.power {
            Some(power) => {
                &&& msg.voltages[0] == power.bus_main_voltage
                &&& msg.current_battery == tenth(power.fc_current)
                &&& msg.battery_remaining == charge_percent(power.bus_main_voltage)
            },
            None => {
                &&& msg.voltages[0] == u16::MAX
                &&& msg.current_battery == -1
                &&& msg.battery_remaining == -1
            },
        },
{
    let mut voltages: [u16; 10] = [u16::MAX;10];
    let mut current_battery: i16 = -1;
    let mut battery_remaining: i8 = -1;
    if let Some(power) = &snap.readings.power {
        voltages[0] = power.bus_main_voltage;
        current_battery = clamped_tenth(power.fc_current);
        let cell_mv: i32 = (power.bus_main_voltage / 3) as i32;
        battery_remaining =
        if cell_mv <= 3300 {
            0
        } else {
            let percent: i32 = (cell_mv - 3300) * 100 / 900;
            if percent > 100 {
                100
            } else {
                percent as i8
            }
        };
    }
    BatteryStatus { id: 0x01, temperature: i16::MAX, voltages, current_battery, battery_remaining }
}

/// How good the satellite fix is.
#[derive(Copy, Clone, Debug, PartialEq, Eq, Structural)]
pub enum GpsFixType {
    NoGps,
    NoFix,
    Fix3d,
}

/// What the satellite receiver reports.
#[derive(Copy, Clone, Debug, PartialEq, Eq, Structural)]
pub struct GpsRawInt {
    pub time_usec: u64,
    pub fix_type: GpsFixType,
    /// Latitude \[1e-7 deg\]
    pub lat: i32,
    /// Longitude \[1e-7 deg\]
    pub lon: i32,
    /// Altitude \[mm\]
    pub alt: i32,
    pub eph: u16,
    pub epv: u16,
    pub vel: u16,
    pub cog: u16,
    pub satellites_visible: u8,
}

/// Degrees in units of ten millionths, or the largest number where there is none.
pub open spec fn degrees_e7(value: Option<Single>) -> int {
    match value {
        Some(v) => v.cast_times(10_000_000, i32::MIN as int, i32::MAX as int),
        None => i32::MAX as int,
    }
}

fn to_degrees_e7(value: Option<Single>) -> (units: i32)
    ensures
        units == degrees_e7(value),
{
    match value {
        Some(v) => v.times_ten_million(i32::MIN as i64, i32::MAX as i64) as i32,
        None => i32::MAX,
    }
}

/// What is reported of the satellite receiver.
pub fn gps_raw_int(snap: &VehicleSnapshot<'_>) -> (msg: GpsRawInt)
    ensures
        msg.time_usec == snap.time * 1000,
        msg.epv == u16::MAX,
        msg.vel == u16::MAX,
        msg.cog == u16::MAX,
        match snap.readings.gps {
            Some(gps) => {
                &&& msg.fix_type == (if gps.latitude is Some && gps.longitude is Some
                    && gps.altitude is Some {
                    GpsFixType::Fix3d
                } else {
                    GpsFixType::NoFix
                })
                &&& msg.lat == degrees_e7(gps.latitude)
                &&& msg.lon == degrees_e7(gps.longitude)
                &&& msg.alt == match gps.altitude {
                    Some(v) => v.cast_scaled(
                        Single { bits: THOUSAND_BITS },
                        i32::MIN as int,
                        i32::MAX as int,
                    ),
                    None => i32::MAX as int,
                }
                &&& msg.eph == gps.hdop
                &&& msg.satellites_visible == gps.num_satellites
            },
            None => {
                &&& msg.fix_type is NoGps
                &&& msg.lat == i32::MAX
                &&& msg.lon == i32::MAX
                &&& msg.alt == i32::MAX
                &&& msg.eph == u16::MAX
                &&& msg.satellites_visible == u8::MAX
            },
        },
{
    let mut msg = GpsRawInt {
        time_usec: snap.time as u64 * 1000,
        fix_type: GpsFixType::NoGps,
        lat: i32::MAX,
        lon: i32::MAX,
        alt: i32::MAX,
        eph: u16::MAX,
        epv: u16::MAX,
        vel: u16::MAX,
        cog: u16::MAX,
        satellites_visible: u8::MAX,
    };
    if let Some(gps) = &snap.readings.gps {
        msg.fix_type =
        if gps.latitude.is_some() && gps.longitude.is_some() && gps.altitude.is_some() {
            GpsFixType::Fix3d
        } else {
            GpsFixType::NoFix
        };
        msg.lat = to_degrees_e7(gps.latitude);
        msg.lon = to_degrees_e7(gps.longitude);
        msg.alt =
        match gps.altitude {
            Some(v) => v.scaled(
                Single { bits: THOUSAND_BITS },
                i32::MIN as i64,
                i32::MAX as i64,
            ) as i32,
            None => i32::MAX,
        };
        msg.eph = gps.hdop;
        msg.satellites_visible = gps.num_satellites;
    }
    msg
}

/// The readings of one inertial unit and the magnetometer.
#[derive(Copy, Clone, Debug, PartialEq, Eq)]
pub struct ScaledImu {
    pub time_boot_ms: u32,
    /// Acceleration \[mG\]
    pub acc: (i16, i16, i16),
    /// Angular rate \[mrad/s\]
    pub gyro: (i16, i16, i16),
    /// Magnetic field
    pub mag: (i16, i16, i16),
}

/// The components of the vector times the factor, as they fit the fields; zero where there is no
/// vector.
pub open spec fn scaled_vector(value: Option<Vector>, factor_bits: u32) -> (int, int, int) {
    let cast = |v: Single|
        v.cast_scaled(Single { bits: factor_bits }, i16::MIN as int, i16::MAX as int);
    match value {
        Some(v) => (cast(v.x), cast(v.y), cast(v.z)),
        None => (0, 0, 0),
    }
}

fn scale_vector(value: Option<Vector>, factor_bits: u32) -> (scaled: (i16, i16, i16))
    requires
        (Single { bits: factor_bits }).is_factor(),
    ensures
        (scaled.0 as int, scaled.1 as int, scaled.2 as int) == scaled_vector(value, factor_bits),
{
    let factor = Single { bits: factor_bits };
    match value {
        Some(v) => (
            v.x.scaled(factor, i16::MIN as i64, i16::MAX as i64) as i16,
            v.y.scaled(factor, i16::MIN as i64, i16::MAX as i64) as i16,
            v.z.scaled(factor, i16::MIN as i64, i16::MAX as i64) as i16,
        ),
        None => (0, 0, 0),
    }
}

/// The three inertial units.
#[derive(Copy, Clone, Debug, PartialEq, Eq, Structural)]
pub enum ImuId {
    Imu1,
    Imu2,
    Imu3,
}

/// The readings of the unit: acceleration, angular rate, and the magnetometer with the first.
pub open spec fn imu_readings(readings: SensorReadings, imu: ImuId) -> (
    Option<Vector>,
    Option<Vector>,
    Option<Vector>,
) {
    match imu {
        ImuId::Imu1 => (readings.imu1_accel, readings.imu1_gyro, readings.mag),
        ImuId::Imu2 => (readings.imu2_accel, readings.imu2_gyro, None),
        ImuId::Imu3 => (readings.imu3_accel, readings.imu3_gyro, None),
    }
}

/// What is reported of an inertial unit.
pub fn scaled_imu(snap: &VehicleSnapshot<'_>, imu: ImuId) -> (msg: ScaledImu)
    ensures
        msg.time_boot_ms == snap.time,
        ({
            let (acc, gyro, mag) = imu_readings(*snap.readings, imu);
            &&& (msg.acc.0 as int, msg.acc.1 as int, msg.acc.2 as int) == scaled_vector(
                acc,
                MILLI_G_BITS,
            )
            &&& (msg.gyro.0 as int, msg.gyro.1 as int, msg.gyro.2 as int) == scaled_vector(
                gyro,
                MILLI_RAD_BITS,
            )
            &&& (msg.mag.0 as int, msg.mag.1 as int, msg.mag.2 as int) == scaled_vector(
                mag,
                TEN_BITS,
            )
        }),
{
    let r = snap.readings;
    let (acc, gyro, mag) = match imu {
        ImuId::Imu1 => (r.imu1_accel, r.imu1_gyro, r.mag),
        ImuId::Imu2 => (r.imu2_accel, r.imu2_gyro, None),
        ImuId::Imu3 => (r.imu3_accel, r.imu3_gyro, None),
    };
    ScaledImu {
        time_boot_ms: snap.time,
        acc: scale_vector(acc, MILLI_G_BITS),
        gyro: scale_vector(gyro, MILLI_RAD_BITS),
        mag: scale_vector(mag, TEN_BITS),
    }
}

/// The readings of one barometer.
#[derive(Copy, Clone, Debug, PartialEq, Eq, Structural)]
pub struct ScaledPressure {
    pub time_boot_ms: u32,
    pub press_abs: Single,
    pub temperature: i16,
}

/// The three barometers.
#[derive(Copy, Clone, Debug, PartialEq, Eq, Structural)]
pub enum BaroId {
    Baro1,
    Baro2,
    Baro3,
}

/// The reading of the barometer.
pub open spec fn baro_reading(readings: SensorReadings, baro: BaroId) -> BaroReading {
    match baro {
        BaroId::Baro1 => readings.baro1,
        BaroId::Baro2 => readings.baro2,
        BaroId::Baro3 => readings.baro3,
    }
}

/// The value, or zero where there is none.
pub open spec fn or_zero(value: Option<Single>) -> Single {
    match value {
        Some(value) => value,
        None => Single { bits: 0 },
    }
}

fn value_or_zero(value: Option<Single>) -> (filled: Single)
    ensures
        filled == or_zero(value),
{
    match value {
        Some(value) => value,
        None => Single::zero(),
    }
}

/// What is reported of a barometer.
pub fn scaled_pressure(snap: &VehicleSnapshot<'_>, baro: BaroId) -> (msg: ScaledPressure)
    ensures
        msg.time_boot_ms == snap.time,
        msg.press_abs == or_zero(baro_reading(*snap.readings, baro).pressure),
        msg.temperature == or_zero(baro_reading(*snap.readings, baro).temperature).cast_scaled(
            Single { bits: TEN_BITS },
            i16::MIN as int,
            i16::MAX as int,
        ),
{
    let reading = match baro {
        BaroId::Baro1 => snap.readings.baro1,
        BaroId::Baro2 => snap.readings.baro2,
        BaroId::Baro3 => snap.readings.baro3,
    };
    ScaledPressure {
        time_boot_ms: snap.time,
        press_abs: value_or_zero(reading.pressure),
        temperature: value_or_zero(reading.temperature).scaled(
            Single { bits: TEN_BITS },
            i16::MIN as i64,
            i16::MAX as i64,
        ) as i16,
    }
}

/// The position and velocity of the vehicle, north, east and down.
#[derive(Copy, Clone, Debug, PartialEq, Eq, Structural)]
pub struct LocalPositionNed {
    pub time_boot_ms: u32,
    pub x: Single,
    pub y: Single,
    pub z: Single,
    pub vx: Single,
    pub vy: Single,
    pub vz: Single,
}

/// What is reported of the position. The estimator reports east, north and up.
pub fn local_position_ned(snap: &VehicleSnapshot<'_>) -> (msg: LocalPositionNed)
    ensures
        msg == (LocalPositionNed {
            time_boot_ms: snap.time,
            x: snap.estimator.position.y,
            y: snap.estimator.position.x,
            z: snap.estimator.altitude_agl.negated(),
            vx: snap.estimator.velocity.y,
            vy: snap.estimator.velocity.x,
            vz: snap.estimator.velocity.z.negated(),
        }),
{
    LocalPositionNed {
        time_boot_ms: snap.time,
        x: snap.estimator.position.y,
        y: snap.estimator.position.x,
        z: snap.estimator.altitude_agl.neg(),
        vx: snap.estimator.velocity.y,
        vy: snap.estimator.velocity.x,
        vz: snap.estimator.velocity.z.neg(),
    }
}

/// Where the vehicle is on the globe.
#[derive(Copy, Clone, Debug, PartialEq, Eq, Structural)]
pub struct GlobalPositionInt {
    pub time_boot_ms: u32,
    /// Latitude and longitude \[1e-7 deg\]
    pub lat: i32,
    pub lon: i32,
    /// Altitude above sea level and above ground \[mm\]
    pub alt: i32,
    pub relative_alt: i32,
    /// Velocity north, east and down \[cm/s\]
    pub vx: i16,
    pub vy: i16,
    pub vz: i16,
    /// Compass heading \[cdeg\]
    pub hdg: u16,
}

/// The length in millimetres, as it fits the field.
pub open spec fn millimetres(length: Single) -> int {
    length.cast_scaled(Single { bits: THOUSAND_BITS }, i32::MIN as int, i32::MAX as int)
}

/// The speed in centimetres per second, as it fits the field.
pub open spec fn centimetres(speed: Single) -> int {
    speed.cast_scaled(Single { bits: HUNDRED_BITS }, i16::MIN as int, i16::MAX as int)
}

fn to_millimetres(length: Single) -> (mm: i32)
    ensures
        mm == millimetres(length),
{
    length.scaled(Single { bits: THOUSAND_BITS }, i32::MIN as i64, i32::MAX as i64) as i32
}

fn to_centimetres(speed: Single) -> (cm: i16)
    ensures
        cm == centimetres(speed),
{
    speed.scaled(Single { bits: HUNDRED_BITS }, i16::MIN as i64, i16::MAX as i64) as i16
}

/// What is reported of the place on the globe, with this heading. The estimator reports east, north
/// and up.
pub fn global_position_int(snap: &VehicleSnapshot<'_>, hdg: u16) -> (msg: GlobalPositionInt)
    ensures
        msg.time_boot_ms == snap.time,
        msg.lat == degrees_e7(Some(or_zero(snap.estimator.latitude))),
        msg.lon == degrees_e7(Some(or_zero(snap.estimator.longitude))),
        msg.alt == millimetres(snap.estimator.altitude_asl),
        msg.relative_alt == millimetres(snap.estimator.altitude_agl),
        msg.vx == centimetres(snap.estimator.velocity.y),
        msg.vy == centimetres(snap.estimator.velocity.x),
        msg.vz == centimetres(snap.estimator.velocity.z.negated()),
        msg.hdg == hdg,
{
    GlobalPositionInt {
        time_boot_ms: snap.time,
        lat: to_degrees_e7(Some(value_or_zero(snap.estimator.latitude))),
        lon: to_degrees_e7(Some(value_or_zero(snap.estimator.longitude))),
        alt: to_millimetres(snap.estimator.altitude_asl),
        relative_alt: to_millimetres(snap.estimator.altitude_agl),
        vx: to_centimetres(snap.estimator.velocity.y),
        vy: to_centimetres(snap.estimator.velocity.x),
        vz: to_centimetres(snap.estimator.velocity.z.neg()),
        hdg,
    }
}

/// What a pilot would look at.
#[derive(Copy, Clone, Debug, PartialEq, Eq, Structural)]
pub struct VfrHud {
    /// No number: there is no sensor for it.
    pub airspeed: Single,
    pub groundspeed: Single,
    /// Compass heading \[deg\]
    pub heading: i16,
    /// \[%\]
    pub throttle: u16,
    /// Altitude above sea level
    pub alt: Single,
    pub climb: Single,
}

/// What a pilot would look at, with this speed over ground and this heading.
pub fn vfr_hud(snap: &VehicleSnapshot<'_>, groundspeed: Single, heading: i16) -> (msg: VfrHud)
    ensures
        msg == (VfrHud {
            airspeed: Single { bits: NAN_BITS },
            groundspeed,
            heading,
            throttle: if snap.mode is Burn {
                100
            } else {
                0
            },
            alt: snap.estimator.altitude_asl,
            climb: snap.estimator.velocity.z,
        }),
{
    VfrHud {
        airspeed: Single { bits: NAN_BITS },
        groundspeed,
        heading,
        throttle: throttle_percent(snap.mode),
        alt: snap.estimator.altitude_asl,
        climb: snap.estimator.velocity.z,
    }
}

/// The capability bits of the flight computer: parameters are encoded bytewise.
pub const CAPABILITIES: u64 = 16;

/// How a rocket is propelled.
#[derive(Copy, Clone, Debug, PartialEq, Eq, Structural)]
pub enum PropulsionType {
    Hybrid,
}

/// What kind of rocket this is.
#[derive(Copy, Clone, Debug, PartialEq, Eq, Structural)]
pub struct RocketInfo {
    pub propulsion_type: PropulsionType,
    /// No bit is set: no capability is claimed.
    pub capability_flags: u32,
}

/// What kind of rocket this is: a hybrid, with no capability claimed.
pub fn rocket_info() -> (msg: RocketInfo)
    ensures
        msg == (RocketInfo { propulsion_type: PropulsionType::Hybrid, capability_flags: 0 }),
{
    RocketInfo { propulsion_type: PropulsionType::Hybrid, capability_flags: 0 }
}

/// What is reported of a pressure vessel.
#[derive(Copy, Clone, Debug, PartialEq, Eq, Structural)]
pub struct PressureVessel {
    pub id: u8,
    pub flags: PressureVesselFlag,
    pub fluid: FluidType,
    /// Pressures \[cbar\]
    pub pressure1: u16,
    pub pressure2: u16,
    pub rated_pressure: u16,
    /// Temperatures \[cdegC\]
    pub temperature1: i16,
    pub temperature2: i16,
    /// Volume \[ml\]
    pub volume: u16,
    /// Level \[1e-4\]
    pub level: u16,
}

/// The reading of the sensor times one hundred, as it fits the field; the largest number where
/// there is no sensor or no reading.
pub open spec fn pressure_field(inputs: BusInputImage, sensor: Option<PressSensId>) -> int {
    match sensor {
        Some(id) => match inputs.press_sens.at(id) {
            Some(reading) => reading.data.cast_scaled(
                Single { bits: HUNDRED_BITS },
                0,
                u16::MAX as int,
            ),
            None => u16::MAX as int,
        },
        None => u16::MAX as int,
    }
}

/// The reading of the sensor times one hundred, as it fits the field; the largest number where
/// there is no sensor or no reading.
pub open spec fn temperature_field(inputs: BusInputImage, sensor: Option<TempSensId>) -> int {
    match sensor {
        Some(id) => match inputs.temp_sens.at(id) {
            Some(reading) => reading.data.cast_scaled(
                Single { bits: HUNDRED_BITS },
                i16::MIN as int,
                i16::MAX as int,
            ),
            None => i16::MAX as int,
        },
        None => i16::MAX as int,
    }
}

fn pressure_value(inputs: &BusInputImage, sensor: Option<PressSensId>) -> (field: u16)
    ensures
        field == pressure_field(*inputs, sensor),
{
    match sensor {
        Some(id) => match inputs.press_sens.get(id) {
            Some(reading) => reading.data.scaled(
                Single { bits: HUNDRED_BITS },
                0,
                u16::MAX as i64,
            ) as u16,
            None => u16::MAX,
        },
        None => u16::MAX,
    }
}

fn temperature_value(inputs: &BusInputImage, sensor: Option<TempSensId>) -> (field: i16)
    ensures
        field == temperature_field(*inputs, sensor),
{
    match sensor {
        Some(id) => match inputs.temp_sens.get(id) {
            Some(reading) => reading.data.scaled(
                Single { bits: HUNDRED_BITS },
                i16::MIN as i64,
                i16::MAX as i64,
            ) as i16,
            None => i16::MAX,
        },
        None => i16::MAX,
    }
}

impl PressureVessel {
    pub fn build(snap: &VehicleSnapshot<'_>, tank: TankId) -> (msg: Self)
        ensures
            msg.id == tank.index_of(),
            msg.flags.external == tank.is_external(),
            msg.fluid == tank.content(),
            msg.pressure1 == pressure_field(*snap.input_image, tank.pressure_sensor_pair().0),
            msg.pressure2 == pressure_field(*snap.input_image, tank.pressure_sensor_pair().1),
            msg.rated_pressure == tank.pressure_rating() * 100,
            msg.temperature1 == temperature_field(
                *snap.input_image,
                tank.temperature_sensor_pair().0,
            ),
            msg.temperature2 == temperature_field(
                *snap.input_image,
                tank.temperature_sensor_pair().1,
            ),
            msg.volume == tank.volume() * 1000,
            msg.level == match snap.input_image.ox_tank_level {
                Some(level) if tank is Oxidizer => level.data.cast_scaled(
                    Single { bits: TEN_THOUSAND_BITS },
                    0,
                    u16::MAX as int,
                ),
                _ => u16::MAX as int,
            },
    {
        let p_ids = tank.pressure_sensors();
        let t_ids = tank.temperature_sensors();
        let level: u16 = match &snap.input_image.ox_tank_level {
            Some(level) => if tank == TankId::Oxidizer {
                level.data.scaled(Single { bits: TEN_THOUSAND_BITS }, 0, u16::MAX as i64) as u16
            } else {
                u16::MAX
            },
            None => u16::MAX,
        };
        PressureVessel {
            id: tank.idx() as u8,
            flags: tank.flags(),
            fluid: tank.fluid(),
            pressure1: pressure_value(snap.input_image, p_ids[0]),
            pressure2: pressure_value(snap.input_image, p_ids[1]),
            rated_pressure: tank.pressure_rating_bar() * 100,
            temperature1: temperature_value(snap.input_image, t_ids[0]),
            temperature2: temperature_value(snap.input_image, t_ids[1]),
            volume: tank.volume_l() * 1000,
            level,
        }
    }
}

/// What is reported of a valve: 0.0 is fully closed, 1.0 is fully open.
#[derive(Copy, Clone, Debug, PartialEq, Eq, Structural)]
pub struct Valve {
    pub id: ValveId,
    /// Where the valve is; no number where that is not known.
    pub state: Single,
    /// Where it should be.
    pub commanded: Single,
}

/// The bit pattern of a value that is no number.
pub const NAN_BITS: u32 = 0x7fc0_0000;

impl Valve {
    pub fn build(snap: &VehicleSnapshot<'_>, valve: ValveId) -> (msg: Self)
        ensures
            msg.id == valve,
            match snap.input_image.valve_state.at(valve) {
                Some(state) => msg.state.is_quotient(state.data@ as int, 1000),
                None => msg.state.bits == NAN_BITS,
            },
            msg.commanded.is_quotient(snap.output_image.valve.at(valve)@ as int, 1000),
    {
        let state = match snap.input_image.valve_state.get(valve) {
            Some(state) => Single::quotient(state.data.promille() as i32, 1000),
            None => Single { bits: NAN_BITS },
        };
        let commanded = snap.output_image.valve.get(valve).promille();
        Valve { id: valve, state, commanded: Single::quotient(commanded as i32, 1000) }
    }
}

} // verus!

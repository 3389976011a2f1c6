//! What goes down to the ground and how often, told by what was measured.

use vstd::prelude::*;

use crate::inventory::{
    law_map_has_one_value_per_component, FluidType, InventoryId, PressSensId, TankId, TempSensId,
    ValveId,
};
use crate::mavlink::{
    battery_status, flight_intervals, flight_schedule, global_position_int, gps_raw_int, heartbeat,
    is_due_message, local_position_ned, rocket_info, scaled_imu, scaled_pressure, sys_status,
    throttle_percent, vfr_hud, weight, BaroId, BatteryStatus, DownlinkSchedule, GlobalPositionInt,
    GpsFixType, GpsRawInt, Heartbeat, ImuId, LocalPositionNed, PressureVessel, PropulsionType,
    RocketInfo, ScaledImu, ScaledPressure, SensorSet, SysStatus, TelemetryMessage, Valve,
    VehicleSnapshot, VfrHud, CAPABILITIES, MESSAGE_COUNT, MILLI_G_BITS, MILLI_RAD_BITS,
};
use crate::modes::FlightMode;
use crate::schedule::placed;
use crate::single::value::{
    is_about, is_number, is_scaled, law_casts_of_multiples_truncate,
    law_constants_have_their_values, law_fields_are_scaled, law_negation_is_by_value,
    law_quotients_are_rounded, lemma_is_about, unit, value,
};
use crate::single::{Single, HUNDRED_BITS, TEN_BITS, TEN_THOUSAND_BITS, THOUSAND_BITS};
use crate::telemetry::{BATTERY_INTERVAL_MS, HEARTBEAT_INTERVAL_MS, SENSOR_INTERVAL_MS};
use crate::traits::Vector;

verus! {

broadcast use law_map_has_one_value_per_component;

/// How often each message is to go out \[ms\].
pub open spec fn interval_of(message: TelemetryMessage) -> int {
    match message {
        TelemetryMessage::Attitude
        | TelemetryMessage::VfrHud
        | TelemetryMessage::ScaledImu
        | TelemetryMessage::ScaledImu2
        | TelemetryMessage::ScaledImu3 => 100,
        TelemetryMessage::BatteryStatus
        | TelemetryMessage::LocalPositionNed
        | TelemetryMessage::ScaledPressure
        | TelemetryMessage::ScaledPressure2
        | TelemetryMessage::ScaledPressure3
        | TelemetryMessage::PressureVessel(_)
        | TelemetryMessage::Valve(_) => 200,
        TelemetryMessage::Heartbeat
        | TelemetryMessage::SysStatus
        | TelemetryMessage::GlobalPositionInt
        | TelemetryMessage::GpsRawInt => 500,
        TelemetryMessage::RocketInfo | TelemetryMessage::AutopilotVersion => 2000,
    }
}

/// Where each message stands in the schedule.
spec fn place_of(message: TelemetryMessage) -> int {
    match message {
        TelemetryMessage::Attitude => 0,
        TelemetryMessage::VfrHud => 1,
        TelemetryMessage::ScaledImu => 2,
        TelemetryMessage::ScaledImu2 => 3,
        TelemetryMessage::ScaledImu3 => 4,
        TelemetryMessage::BatteryStatus => 5,
        TelemetryMessage::LocalPositionNed => 6,
        TelemetryMessage::ScaledPressure => 7,
        TelemetryMessage::ScaledPressure2 => 8,
        TelemetryMessage::ScaledPressure3 => 9,
        TelemetryMessage::Heartbeat => 10,
        TelemetryMessage::SysStatus => 11,
        TelemetryMessage::GlobalPositionInt => 12,
        TelemetryMessage::GpsRawInt => 13,
        TelemetryMessage::RocketInfo => 14,
        TelemetryMessage::AutopilotVersion => 15,
        TelemetryMessage::PressureVessel(tank) => 16 + tank.index_of(),
        TelemetryMessage::Valve(valve) => 22 + valve.index_of(),
    }
}

proof fn lemma_place(i: int)
    requires
        0 <= i < 31,
    ensures
        flight_schedule().len() == 31,
        place_of(flight_schedule()[i].0) == i,
        flight_schedule()[i].1 == interval_of(flight_schedule()[i].0),
{
    TankId::law_all_is_in_index_order();
    ValveId::law_all_is_in_index_order();
    if 16 <= i < 22 {
        assert(TankId::ALL@[i - 16].index_of() == i - 16);
    } else if 22 <= i {
        assert(ValveId::ALL@[i - 22].index_of() == i - 22);
    }
}

/// Every message has exactly one place in the schedule, with its own interval.
pub proof fn law_every_message_has_one_place(message: TelemetryMessage) -> (place: int)
    ensures
        0 <= place < flight_schedule().len(),
        flight_schedule().len() == 31,
        flight_schedule()[place].0 == message,
        flight_schedule()[place].1 == interval_of(message),
        forall|j: int|
            0 <= j < flight_schedule().len() && (#[trigger] flight_schedule()[j]).0 == message
                ==> j == place,
{
    TankId::law_all_is_in_index_order();
    ValveId::law_all_is_in_index_order();
    let place = place_of(message);
    match message {
        TelemetryMessage::PressureVessel(tank) => {
            assert(0 <= tank.index_of() < 6 && TankId::ALL@[tank.index_of()] == tank);
        },
        TelemetryMessage::Valve(valve) => {
            assert(0 <= valve.index_of() < 9 && ValveId::ALL@[valve.index_of()] == valve);
        },
        _ => {},
    }
    lemma_place(place);
    assert(flight_schedule()[place].0 == message);
    assert forall|j: int|
        0 <= j < flight_schedule().len() && (#[trigger] flight_schedule()[j]).0
            == message implies j == place by {
        lemma_place(j);
    }
    place
}

proof fn lemma_due(
    schedule: DownlinkSchedule,
    time: u32,
    due: Option<TelemetryMessage>,
    message: TelemetryMessage,
    place: int,
)
    requires
        schedule.wf(),
        call_ensures(DownlinkSchedule::due, (&schedule, time), due),
        0 <= place < 31,
        flight_schedule().len() == 31,
        flight_schedule()[place].0 == message,
        forall|j: int|
            0 <= j < flight_schedule().len() && (#[trigger] flight_schedule()[j]).0 == message
                ==> j == place,
    ensures
        due == Some(message) <==> schedule.slots()[place].due_at(time as int),
{
    let slots = schedule.slots();
    assert(is_due_message(slots, time, due));
    if slots[place].due_at(time as int) {
        assert(due is Some);
    }
    if let Some(sent) = due {
        let i = choose|i: int|
            0 <= i < MESSAGE_COUNT && (#[trigger] slots[i]).due_at(time as int)
                && flight_schedule()[i].0 == sent && forall|j: int|
                0 <= j < MESSAGE_COUNT && (#[trigger] slots[j]).due_at(time as int) ==> j == i;
        assert(flight_schedule()[i].0 == sent);
    }
}

/// Every message goes out once in each of its intervals: there is one tick of the interval on which
/// it does, and on no other.
pub proof fn law_every_message_goes_out_in_each_interval(
    schedule: DownlinkSchedule,
    message: TelemetryMessage,
) -> (phase: int)
    requires
        schedule.wf(),
    ensures
        0 <= phase < interval_of(message),
        forall|time: u32, due: Option<TelemetryMessage>| #[trigger]
            call_ensures(DownlinkSchedule::due, (&schedule, time), due) ==> (due == Some(message)
                <==> time as int % interval_of(message) == phase),
{
    let place = law_every_message_has_one_place(message);
    assert(flight_intervals().len() == 31);
    assert(placed(flight_intervals(), schedule.slots(), place));
    let slot = schedule.slots()[place];
    assert(slot.interval_ms == interval_of(message));
    assert forall|time: u32, due: Option<TelemetryMessage>| #[trigger]
        call_ensures(DownlinkSchedule::due, (&schedule, time), due) implies (due == Some(message)
        <==> time as int % interval_of(message) == slot.phase_ms) by {
        lemma_due(schedule, time, due, message, place);
    }
    slot.phase_ms as int
}

/// The heartbeat says in which mode the vehicle is, by the mode's number, and by its highest bit
/// whether the recovery bus has more than six volts.
pub proof fn law_the_heartbeat_tells_mode_and_arming(snap: &VehicleSnapshot<'_>, msg: Heartbeat)
    requires
        call_ensures(heartbeat, (snap,), msg),
    ensures
        msg.custom_mode == match snap.mode {
            FlightMode::Idle => 0int,
            FlightMode::FillPressurant => 1,
            FlightMode::FillOxidizer => 2,
            FlightMode::Vent => 3,
            FlightMode::Pressurize => 4,
            FlightMode::Hold => 5,
            FlightMode::DetectLaunch => 6,
            FlightMode::Ignite => 7,
            FlightMode::Burn => 8,
            FlightMode::Coast => 9,
            FlightMode::DeployDrogue => 10,
            FlightMode::DeployMain => 11,
            FlightMode::Landed => 12,
        },
        msg.base_mode >= 128 <==> (snap.readings.power matches Some(power)
            && power.recovery_voltage > 6000),
        // Of the other bits, the one that says that the mode is the vehicle's own is set.
        msg.base_mode % 128 == 1,
        msg.mavlink_version == 2,
{
}

/// Full throttle is reported while the engine burns, and none otherwise.
pub proof fn law_the_throttle_is_open_while_burning(mode: FlightMode, percent: u16)
    requires
        call_ensures(throttle_percent, (mode,), percent),
    ensures
        percent == 100 <==> mode == FlightMode::Burn,
        percent == 0 <==> mode != FlightMode::Burn,
{
}

/// Each sensor and subsystem has its own bit in the mask.
pub proof fn law_each_sensor_has_its_bit(set: SensorSet, bits: u32)
    requires
        call_ensures(SensorSet::bits, (&set,), bits),
    ensures
        bits as int % 2 == 1 <==> set.gyro,
        bits as int / 2 % 2 == 1 <==> set.accel,
        bits as int / 4 % 2 == 1 <==> set.mag,
        bits as int / 8 % 2 == 1 <==> set.absolute_pressure,
        bits as int / 32 % 2 == 1 <==> set.gps,
        bits as int / 0x8000 % 2 == 1 <==> set.motor_outputs,
        bits as int / 0x20_0000 % 2 == 1 <==> set.ahrs,
        bits as int / 0x100_0000 % 2 == 1 <==> set.logging,
        bits as int / 0x200_0000 % 2 == 1 <==> set.battery,
        bits as int / 0x1000_0000 % 2 == 1 <==> set.prearm_check,
        bits as int / 0x4000_0000 % 2 == 1 <==> set.propulsion,
        bits as int / 0x8000_0000 % 2 == 1 <==> set.extension_used,
{
    reveal(weight);
}

/// The vehicle counts as armed from `DetectLaunch` on. Everything is present. What can be switched
/// on is: logging once armed, the motor outputs with the recovery bus live, the propulsion while it
/// ignites and burns. A sensor is healthy where it has a reading, all three of them where there are
/// three.
pub proof fn law_the_status_tells_what_works(snap: &VehicleSnapshot<'_>, msg: SysStatus)
    requires
        call_ensures(sys_status, (snap,), msg),
    ensures
        ({
            let r = snap.readings;
            let armed = snap.mode == FlightMode::DetectLaunch || snap.mode == FlightMode::Ignite
                || snap.mode == FlightMode::Burn || snap.mode == FlightMode::Coast || snap.mode
                == FlightMode::DeployDrogue || snap.mode == FlightMode::DeployMain || snap.mode
                == FlightMode::Landed;
            let live = r.power matches Some(power) && power.recovery_voltage > 6000;
            &&& msg.health.gyro <==> r.imu1_gyro is Some && r.imu2_gyro is Some && r.imu3_gyro
                is Some
            &&& msg.health.accel <==> r.imu1_accel is Some && r.imu2_accel is Some && r.imu3_accel
                is Some
            &&& msg.health.mag <==> r.mag is Some
            &&& msg.health.absolute_pressure <==> r.baro1.pressure is Some
            &&& msg.health.gps <==> r.gps is Some
            &&& msg.health.battery <==> r.power is Some
            &&& msg.health.ahrs <==> snap.estimator.has_orientation
            &&& msg.health.motor_outputs <==> live
            &&& msg.health.prearm_check <==> live && r.gps is Some && snap.estimator.gps_reliable
            &&& msg.health.logging <==> armed
            &&& !msg.health.propulsion
            &&& msg.health.extension_used
            &&& msg.enabled.logging <==> armed
            &&& msg.enabled.motor_outputs <==> live
            &&& msg.enabled.propulsion <==> snap.mode == FlightMode::Ignite || snap.mode
                == FlightMode::Burn
            &&& msg.enabled.gyro && msg.enabled.accel && msg.enabled.mag && msg.enabled.gps
            &&& msg.enabled.absolute_pressure && msg.enabled.ahrs && msg.enabled.battery
            &&& msg.enabled.prearm_check && msg.enabled.extension_used
            &&& msg.present.gyro && msg.present.accel && msg.present.mag && msg.present.gps
            &&& msg.present.absolute_pressure && msg.present.ahrs && msg.present.battery
            &&& msg.present.prearm_check && msg.present.extension_used && msg.present.logging
            &&& msg.present.motor_outputs && msg.present.propulsion
            &&& msg.recovery_present
            &&& msg.recovery_enabled <==> armed
            &&& msg.recovery_health <==> armed
            &&& msg.battery_remaining == -1
            &&& match r.power {
                Some(power) => {
                    &&& msg.voltage_battery == power.bus_main_voltage
                    &&& is_tenth(power.fc_current as int, msg.current_battery as int)
                },
                None => msg.voltage_battery == 65535 && msg.current_battery == -1,
            }
        }),
{
}

/// A tenth of the number, with its sign and without its fraction, or the end of the range of 16
/// bits.
pub open spec fn is_tenth(n: int, tenth: int) -> bool {
    &&& n >= 0 ==> 0 <= tenth && tenth * 10 <= n && (tenth < 32767 ==> n < tenth * 10 + 10)
    &&& n <= 0 ==> tenth <= 0 && n <= tenth * 10 && (tenth > -32768 ==> tenth * 10 - 10 < n)
    &&& -32768 <= tenth <= 32767
}

/// The battery is reported as it was measured. Its charge goes in even steps from empty at 3.3
/// volts to full at 4.2 volts per cell of three.
pub proof fn law_the_battery_is_reported(snap: &VehicleSnapshot<'_>, msg: BatteryStatus)
    requires
        call_ensures(battery_status, (snap,), msg),
    ensures
        msg.id == 1,
        match snap.readings.power {
            Some(power) => {
                let cell = power.bus_main_voltage as int / 3;
                let percent = msg.battery_remaining as int;
                &&& msg.voltages[0] == power.bus_main_voltage
                &&& is_tenth(power.fc_current as int, msg.current_battery as int)
                &&& 0 <= percent <= 100
                &&& cell <= 3300 ==> percent == 0
                &&& cell >= 4200 ==> percent == 100
                &&& 3300 <= cell <= 4200 ==> 9 * percent <= cell - 3300 < 9 * (percent + 1)
            },
            None => msg.voltages[0] == 65535 && msg.current_battery == -1 && msg.battery_remaining
                == -1,
        },
        forall|i: int| 1 <= i < 10 ==> #[trigger] msg.voltages[i] == 65535,
        msg.temperature == 32767,
{
}

/// Degrees in ten millionths, without the fraction of these, where they fit the field.
pub open spec fn is_degrees(x: Single, field: int) -> bool {
    &&& !is_number(x) ==> field == 0
    &&& x.finite() && -0x8000_0000 < field < 0x7fff_ffff ==> {
        &&& value(x) >= 0 ==> field * unit() <= value(x) * 10_000_000 < (field + 1) * unit()
        &&& value(x) <= 0 ==> (field - 1) * unit() < value(x) * 10_000_000 <= field * unit()
    }
    &&& x.finite() && field == 0x7fff_ffff ==> value(x) * 10_000_000 >= 0x7fff_ffff * unit()
    &&& x.finite() && field == -0x8000_0000 ==> value(x) * 10_000_000 <= -0x8000_0000 * unit()
}

/// What the satellite receiver says goes down as it is; a fix is one with all three coordinates.
pub proof fn law_the_receiver_is_reported(snap: &VehicleSnapshot<'_>, msg: GpsRawInt)
    requires
        call_ensures(gps_raw_int, (snap,), msg),
    ensures
        msg.time_usec == snap.time * 1000,
        match snap.readings.gps {
            Some(gps) => {
                &&& msg.fix_type == GpsFixType::Fix3d <==> gps.latitude is Some && gps.longitude
                    is Some && gps.altitude is Some
                &&& msg.fix_type == GpsFixType::Fix3d || msg.fix_type == GpsFixType::NoFix
                &&& match gps.latitude {
                    Some(x) => is_degrees(x, msg.lat as int),
                    None => msg.lat == 0x7fff_ffff,
                }
                &&& match gps.longitude {
                    Some(x) => is_degrees(x, msg.lon as int),
                    None => msg.lon == 0x7fff_ffff,
                }
                &&& match gps.altitude {
                    Some(x) => is_scaled(msg.alt as int, x, 1000, 1, -0x8000_0000, 0x7fff_ffff),
                    None => msg.alt == 0x7fff_ffff,
                }
                &&& msg.eph == gps.hdop
                &&& msg.satellites_visible == gps.num_satellites
            },
            None => {
                &&& msg.fix_type == GpsFixType::NoGps
                &&& msg.lat == 0x7fff_ffff && msg.lon == 0x7fff_ffff && msg.alt == 0x7fff_ffff
                &&& msg.eph == 65535 && msg.satellites_visible == 255
            },
        },
        msg.epv == 65535,
        msg.vel == 65535,
        msg.cog == 65535,
{
    lemma_factors();
    if let Some(gps) = snap.readings.gps {
        if let Some(x) = gps.latitude {
            law_casts_of_multiples_truncate(x, 10_000_000, -0x8000_0000, 0x7fff_ffff);
        }
        if let Some(x) = gps.longitude {
            law_casts_of_multiples_truncate(x, 10_000_000, -0x8000_0000, 0x7fff_ffff);
        }
        if let Some(x) = gps.altitude {
            law_fields_are_scaled(
                x,
                Single { bits: THOUSAND_BITS },
                1000,
                1,
                -0x8000_0000,
                0x7fff_ffff,
            );
        }
    }
}

/// What the factors stand for.
proof fn lemma_factors()
    ensures
        is_about((Single { bits: TEN_BITS }), 10, 1),
        is_about((Single { bits: HUNDRED_BITS }), 100, 1),
        is_about((Single { bits: THOUSAND_BITS }), 1000, 1),
        is_about((Single { bits: TEN_THOUSAND_BITS }), 10_000, 1),
        is_about((Single { bits: MILLI_G_BITS }), 101_972, 1000),
        is_about((Single { bits: MILLI_RAD_BITS }), 1_745_329, 100_000),
{
    law_constants_have_their_values();
    vstd::arithmetic::power2::lemma_pow2_pos(149);
    vstd::arithmetic::power2::lemma2_to64();
    lemma_is_about(Single { bits: MILLI_G_BITS }, 133, 17, 0xcb_f1aa, 101_972, 1000);
    lemma_is_about(Single { bits: MILLI_RAD_BITS }, 131, 19, 0x8b_a057, 1_745_329, 100_000);
}

/// The fields hold the components of the vector times `n / d`, or zeros where there is none.
pub open spec fn is_vector(
    fields: (i16, i16, i16),
    vector: Option<Vector>,
    n: int,
    d: int,
) -> bool {
    match vector {
        Some(v) => {
            &&& is_scaled(fields.0 as int, v.x, n, d, -32768, 32767)
            &&& is_scaled(fields.1 as int, v.y, n, d, -32768, 32767)
            &&& is_scaled(fields.2 as int, v.z, n, d, -32768, 32767)
        },
        None => fields.0 == 0 && fields.1 == 0 && fields.2 == 0,
    }
}

proof fn lemma_vector(vector: Option<Vector>, bits: u32, n: int, d: int)
    requires
        (Single { bits }).is_factor(),
        is_about((Single { bits }), n, d),
        n > 0,
        d > 0,
    ensures
        vector matches Some(v) ==> {
            let f = Single { bits };
            &&& is_scaled(v.x.cast_scaled(f, -32768, 32767), v.x, n, d, -32768, 32767)
            &&& is_scaled(v.y.cast_scaled(f, -32768, 32767), v.y, n, d, -32768, 32767)
            &&& is_scaled(v.z.cast_scaled(f, -32768, 32767), v.z, n, d, -32768, 32767)
        },
{
    if let Some(v) = vector {
        law_fields_are_scaled(v.x, Single { bits }, n, d, -32768, 32767);
        law_fields_are_scaled(v.y, Single { bits }, n, d, -32768, 32767);
        law_fields_are_scaled(v.z, Single { bits }, n, d, -32768, 32767);
    }
}

/// Each inertial unit reports its own acceleration, in thousandths of gravity, and its own rates, in
/// thousandths of a radian per second. The magnetometer goes with the first.
pub proof fn law_each_inertial_unit_reports_its_own(
    snap: &VehicleSnapshot<'_>,
    imu: ImuId,
    msg: ScaledImu,
)
    requires
        call_ensures(scaled_imu, (snap, imu), msg),
    ensures
        msg.time_boot_ms == snap.time,
        imu == ImuId::Imu1 ==> {
            &&& is_vector(msg.acc, snap.readings.imu1_accel, 101_972, 1000)
            &&& is_vector(msg.gyro, snap.readings.imu1_gyro, 1_745_329, 100_000)
            &&& is_vector(msg.mag, snap.readings.mag, 10, 1)
        },
        imu == ImuId::Imu2 ==> {
            &&& is_vector(msg.acc, snap.readings.imu2_accel, 101_972, 1000)
            &&& is_vector(msg.gyro, snap.readings.imu2_gyro, 1_745_329, 100_000)
            &&& msg.mag == (0i16, 0i16, 0i16)
        },
        imu == ImuId::Imu3 ==> {
            &&& is_vector(msg.acc, snap.readings.imu3_accel, 101_972, 1000)
            &&& is_vector(msg.gyro, snap.readings.imu3_gyro, 1_745_329, 100_000)
            &&& msg.mag == (0i16, 0i16, 0i16)
        },
{
    lemma_factors();
    let r = snap.readings;
    lemma_vector(r.imu1_accel, MILLI_G_BITS, 101_972, 1000);
    lemma_vector(r.imu2_accel, MILLI_G_BITS, 101_972, 1000);
    lemma_vector(r.imu3_accel, MILLI_G_BITS, 101_972, 1000);
    lemma_vector(r.imu1_gyro, MILLI_RAD_BITS, 1_745_329, 100_000);
    lemma_vector(r.imu2_gyro, MILLI_RAD_BITS, 1_745_329, 100_000);
    lemma_vector(r.imu3_gyro, MILLI_RAD_BITS, 1_745_329, 100_000);
    lemma_vector(r.mag, TEN_BITS, 10, 1);
}

/// Each barometer reports its own pressure as it is, and its own temperature in tenths.
pub proof fn law_each_barometer_reports_its_own(
    snap: &VehicleSnapshot<'_>,
    baro: BaroId,
    msg: ScaledPressure,
)
    requires
        call_ensures(scaled_pressure, (snap, baro), msg),
    ensures
        msg.time_boot_ms == snap.time,
        ({
            let reading = match baro {
                BaroId::Baro1 => snap.readings.baro1,
                BaroId::Baro2 => snap.readings.baro2,
                BaroId::Baro3 => snap.readings.baro3,
            };
            &&& match reading.pressure {
                Some(pressure) => msg.press_abs == pressure,
                None => msg.press_abs.bits == 0,
            }
            &&& match reading.temperature {
                Some(x) => is_scaled(msg.temperature as int, x, 10, 1, -32768, 32767),
                None => msg.temperature == 0,
            }
        }),
{
    lemma_factors();
    let reading = match baro {
        BaroId::Baro1 => snap.readings.baro1,
        BaroId::Baro2 => snap.readings.baro2,
        BaroId::Baro3 => snap.readings.baro3,
    };
    match reading.temperature {
        Some(x) => {
            law_fields_are_scaled(x, Single { bits: TEN_BITS }, 10, 1, -32768, 32767);
        },
        None => {
            law_fields_are_scaled(
                Single { bits: 0 },
                Single { bits: TEN_BITS },
                10,
                1,
                -32768,
                32767,
            );
        },
    }
}

/// North, east and down, from what the estimator has as east, north and up.
pub proof fn law_positions_are_north_east_down(snap: &VehicleSnapshot<'_>, msg: LocalPositionNed)
    requires
        call_ensures(local_position_ned, (snap,), msg),
    ensures
        ({
            let (position, velocity) = (snap.estimator.position, snap.estimator.velocity);
            let (east, north) = (position.x, position.y);
            let (to_east, to_north, up) = (velocity.x, velocity.y, velocity.z);
            &&& msg.x == north
            &&& msg.y == east
            &&& value(msg.z) == -value(snap.estimator.altitude_agl)
            &&& msg.vx == to_north
            &&& msg.vy == to_east
            &&& value(msg.vz) == -value(up)
            &&& msg.time_boot_ms == snap.time
        }),
{
    law_negation_is_by_value(snap.estimator.altitude_agl);
    law_negation_is_by_value(snap.estimator.velocity.z);
}

/// The place on the globe: degrees in ten millionths, heights in millimetres, and the velocity
/// north, east and down in centimetres per second.
pub proof fn law_the_place_on_the_globe(
    snap: &VehicleSnapshot<'_>,
    hdg: u16,
    msg: GlobalPositionInt,
)
    requires
        call_ensures(global_position_int, (snap, hdg), msg),
    ensures
        ({
            let e = snap.estimator;
            let down = e.velocity.z.negated();
            &&& msg.time_boot_ms == snap.time
            &&& msg.hdg == hdg
            &&& match e.latitude {
                Some(x) => is_degrees(x, msg.lat as int),
                None => msg.lat == 0,
            }
            &&& match e.longitude {
                Some(x) => is_degrees(x, msg.lon as int),
                None => msg.lon == 0,
            }
            &&& is_scaled(msg.alt as int, e.altitude_asl, 1000, 1, -0x8000_0000, 0x7fff_ffff)
            &&& is_scaled(
                msg.relative_alt as int,
                e.altitude_agl,
                1000,
                1,
                -0x8000_0000,
                0x7fff_ffff,
            )
            &&& is_scaled(msg.vx as int, e.velocity.y, 100, 1, -32768, 32767)
            &&& is_scaled(msg.vy as int, e.velocity.x, 100, 1, -32768, 32767)
            &&& is_scaled(msg.vz as int, down, 100, 1, -32768, 32767)
            &&& value(down) == -value(e.velocity.z)
        }),
{
    lemma_factors();
    let e = snap.estimator;
    law_negation_is_by_value(e.velocity.z);
    let (min, max) = (-0x8000_0000int, 0x7fff_ffffint);
    let (thousand, hundred) = (Single { bits: THOUSAND_BITS }, Single { bits: HUNDRED_BITS });
    law_fields_are_scaled(e.altitude_asl, thousand, 1000, 1, min, max);
    law_fields_are_scaled(e.altitude_agl, thousand, 1000, 1, min, max);
    law_fields_are_scaled(e.velocity.y, hundred, 100, 1, -32768, 32767);
    law_fields_are_scaled(e.velocity.x, hundred, 100, 1, -32768, 32767);
    law_fields_are_scaled(e.velocity.z.negated(), hundred, 100, 1, -32768, 32767);
    lemma_zero_degrees();
    if let Some(x) = e.latitude {
        law_casts_of_multiples_truncate(x, 10_000_000, min, max);
    }
    if let Some(x) = e.longitude {
        law_casts_of_multiples_truncate(x, 10_000_000, min, max);
    }
}

proof fn lemma_zero_degrees()
    ensures
        (Single { bits: 0 }).cast_times(10_000_000, i32::MIN as int, i32::MAX as int) == 0,
{
    vstd::arithmetic::power2::lemma_pow2_pos(149);
    assert((Single { bits: 0 }).significand() == 0);
    assert((Single { bits: 0 }).scale() == -149);
    assert(0int / (vstd::arithmetic::power2::pow2(149) as int) == 0) by {
        vstd::arithmetic::div_mod::lemma_div_basics(vstd::arithmetic::power2::pow2(149) as int);
    }
}

/// What a pilot looks at: the height above the sea and the speed upwards, as they were estimated,
/// with what was worked out outside, and no air speed.
pub proof fn law_what_a_pilot_looks_at(
    snap: &VehicleSnapshot<'_>,
    groundspeed: Single,
    heading: i16,
    msg: VfrHud,
)
    requires
        call_ensures(vfr_hud, (snap, groundspeed, heading), msg),
    ensures
        !is_number(msg.airspeed),
        msg.groundspeed == groundspeed,
        msg.heading == heading,
        msg.throttle == 100 <==> snap.mode == FlightMode::Burn,
        msg.throttle == 100 || msg.throttle == 0,
        msg.alt == snap.estimator.altitude_asl,
        msg.climb == snap.estimator.velocity.z,
{
}

/// The field holds the reading of the sensor in hundredths, or the largest number where there is
/// none.
pub open spec fn is_pressure(
    snap: &VehicleSnapshot<'_>,
    sensor: Option<PressSensId>,
    field: u16,
) -> bool {
    match sensor {
        Some(id) => match snap.input_image.press_sens.at(id) {
            Some(reading) => is_scaled(field as int, reading.data, 100, 1, 0, 65535),
            None => field == 65535,
        },
        None => field == 65535,
    }
}

/// The field holds the reading of the sensor in hundredths, or the largest number where there is
/// none.
pub open spec fn is_temperature(
    snap: &VehicleSnapshot<'_>,
    sensor: Option<TempSensId>,
    field: i16,
) -> bool {
    match sensor {
        Some(id) => match snap.input_image.temp_sens.at(id) {
            Some(reading) => is_scaled(field as int, reading.data, 100, 1, -32768, 32767),
            None => field == 32767,
        },
        None => field == 32767,
    }
}

/// Each vessel is reported with its own sensors, its own content, and what it is made for.
pub proof fn law_each_vessel_is_reported_by_its_own_sensors(
    snap: &VehicleSnapshot<'_>,
    tank: TankId,
    msg: PressureVessel,
)
    requires
        call_ensures(PressureVessel::build, (snap, tank), msg),
    ensures
        ({
            let (id, external, fluid, bar, litres) = match tank {
                TankId::Pressurant => (0int, false, FluidType::Nitrogen, 300int, 2int),
                TankId::Oxidizer => (1, false, FluidType::NitrousOxide, 55, 8),
                TankId::CombustionChamber => (2, false, FluidType::Combustion, 55, 0),
                TankId::RegulatedPressurant => (3, false, FluidType::Nitrogen, 60, 0),
                TankId::ExternalPressurant => (4, true, FluidType::Nitrogen, 300, 50),
                TankId::ExternalOxidizer => (5, true, FluidType::NitrousOxide, 55, 40),
            };
            let (first, second) = match tank {
                TankId::Pressurant => (PressSensId::PressurantTank, None),
                TankId::Oxidizer => (PressSensId::OxTankUpper, Some(PressSensId::OxTankLower)),
                TankId::CombustionChamber => (PressSensId::CombustionChamber, None),
                TankId::RegulatedPressurant => (PressSensId::PReg1, Some(PressSensId::PReg2)),
                TankId::ExternalPressurant => (PressSensId::ExternalPressurant, None),
                TankId::ExternalOxidizer => (PressSensId::ExternalOxidizer, None),
            };
            let oxidizer = tank == TankId::Oxidizer;
            &&& msg.id == id
            &&& msg.flags.external == external
            &&& msg.fluid == fluid
            &&& msg.rated_pressure == bar * 100
            &&& msg.volume == litres * 1000
            &&& is_pressure(snap, Some(first), msg.pressure1)
            &&& is_pressure(snap, second, msg.pressure2)
            &&& is_temperature(
                snap,
                if oxidizer {
                    Some(TempSensId::OxTankUpper)
                } else {
                    None
                },
                msg.temperature1,
            )
            &&& is_temperature(
                snap,
                if oxidizer {
                    Some(TempSensId::OxTankLower)
                } else {
                    None
                },
                msg.temperature2,
            )
            &&& match snap.input_image.ox_tank_level {
                Some(level) if oxidizer => is_scaled(
                    msg.level as int,
                    level.data,
                    10_000,
                    1,
                    0,
                    65535,
                ),
                _ => msg.level == 65535,
            }
        }),
{
    lemma_factors();
    let image = snap.input_image;
    let hundred = Single { bits: HUNDRED_BITS };
    let (first, second) = tank.pressure_sensor_pair();
    if let Some(id) = first {
        if let Some(reading) = image.press_sens.at(id) {
            law_fields_are_scaled(reading.data, hundred, 100, 1, 0, 65535);
        }
    }
    if let Some(id) = second {
        if let Some(reading) = image.press_sens.at(id) {
            law_fields_are_scaled(reading.data, hundred, 100, 1, 0, 65535);
        }
    }
    if let Some(reading) = image.temp_sens.at(TempSensId::OxTankUpper) {
        law_fields_are_scaled(reading.data, hundred, 100, 1, -32768, 32767);
    }
    if let Some(reading) = image.temp_sens.at(TempSensId::OxTankLower) {
        law_fields_are_scaled(reading.data, hundred, 100, 1, -32768, 32767);
    }
    if let Some(level) = image.ox_tank_level {
        law_fields_are_scaled(
            level.data,
            Single { bits: TEN_THOUSAND_BITS },
            10_000,
            1,
            0,
            65535,
        );
    }
}

/// A valve is reported as the part by which it is open and by which it should be, and as no number
/// where it is not known how far it is.
pub proof fn law_valves_are_reported_by_their_part(
    snap: &VehicleSnapshot<'_>,
    valve: ValveId,
    msg: Valve,
)
    requires
        call_ensures(Valve::build, (snap, valve), msg),
    ensures
        msg.id == valve,
        is_about(msg.commanded, snap.output_image.valve.at(valve)@ as int, 1000),
        match snap.input_image.valve_state.at(valve) {
            Some(state) => is_about(msg.state, state.data@ as int, 1000),
            None => !is_number(msg.state),
        },
{
    law_quotients_are_rounded(
        msg.commanded,
        snap.output_image.valve.at(valve)@ as int,
        1000,
    );
    if let Some(state) = snap.input_image.valve_state.at(valve) {
        law_quotients_are_rounded(msg.state, state.data@ as int, 1000);
    }
}

/// The rocket is a hybrid that claims nothing, and its computer claims, by bit four, that parameters
/// are encoded bytewise, and nothing else.
pub proof fn law_what_is_claimed(info: RocketInfo)
    requires
        call_ensures(rocket_info, (), info),
    ensures
        info.propulsion_type == PropulsionType::Hybrid,
        info.capability_flags == 0,
        CAPABILITIES == 16,
        HEARTBEAT_INTERVAL_MS == 500,
        SENSOR_INTERVAL_MS == 100,
        BATTERY_INTERVAL_MS == 200,
{
}

/// The vehicle is armed where its recovery bus has more than six volts, whatever its mode.
pub proof fn law_arming_is_by_the_recovery_bus(snap: &VehicleSnapshot<'_>, armed: bool)
    requires
        call_ensures(VehicleSnapshot::is_physically_armed, (snap,), armed),
    ensures
        armed <==> (snap.readings.power matches Some(power) && power.recovery_voltage > 6000),
{
}

} // verus!

use zenith::bus::{BusInputImage, BusOutputImage, DataWithTime, FcTemperature, ValveState};
use zenith::flight_logic::{Acceleration, Estimate, GravityLimits};
use zenith::inventory::{
    BinaryOutputId, PressSensId, TankId, TempSensId, ValveId, ValveTarget,
};
use zenith::links::params::{answer, ParamRequest};
use zenith::links::uplink::{MavResult, UplinkCommand};
use zenith::mavlink::{
    battery_status, global_position_int, gps_raw_int, heartbeat, local_position_ned, rocket_info,
    scaled_imu, scaled_pressure, sys_status, throttle_percent, vfr_hud, BaroId, DownlinkSchedule,
    EstimatorView, GpsFixType, ImuId, PressureVessel, PropulsionType, RocketInfo, TelemetryMessage,
    Valve, VehicleSnapshot,
};
use zenith::modes::FlightMode as M;
use zenith::param_group::{expand_group, ParamValue};
use zenith::params::{FailsafeParams, MavParamType, Params, PropulsionParams, SharedParams};
use zenith::single::Single;
use zenith::traits::{AdcData, GpsDatum, SensorReadings, Vector};
use zenith::valves::{ValveCommand, ValveError};
use zenith::vehicle::Vehicle;

fn single(value: f32) -> Single {
    Single::from_bits(value.to_bits())
}

fn vector(x: f32, y: f32, z: f32) -> Vector {
    Vector {
        x: single(x),
        y: single(y),
        z: single(z),
    }
}

fn estimate(accel: f32) -> Estimate {
    Estimate {
        acceleration: Some(Acceleration {
            z: single(accel),
            magnitude: single(accel.abs()),
        }),
        vertical_speed: single(0.0),
        altitude_agl: single(0.0),
        gravity: GravityLimits::of(single(9.80665)),
    }
}

fn vehicle() -> Vehicle {
    let params = Params::new(expand_group(&b"SE".to_vec(), &vec![]).unwrap()).unwrap();
    assert!(params.is_registry());
    Vehicle::new_with_params(
        params,
        PropulsionParams {
            igniter_on_time: 5,
        },
        FailsafeParams {
            uplink_idle_timeout: 0,
            uplink_vent_timeout: 0,
        },
    )
}

#[test]
fn the_igniters_are_energized_for_their_time() {
    let mut vehicle = vehicle();
    vehicle.tick(&estimate(9.8));
    vehicle.set_mode(M::Ignite);
    let mut lit = 0;
    for _ in 0..20 {
        let outputs = vehicle.tick(&estimate(9.8));
        assert_eq!(
            outputs.bus.binary_output[BinaryOutputId::Igniter1],
            outputs.bus.binary_output[BinaryOutputId::Igniter2]
        );
        if outputs.bus.binary_output[BinaryOutputId::Igniter1] {
            lit += 1;
        }
    }
    assert_eq!(lit, 5);
}

#[test]
fn the_cameras_stay_on() {
    let mut vehicle = vehicle();
    let outputs = vehicle.tick(&estimate(9.8));
    assert!(!outputs.bus.binary_output[BinaryOutputId::Camera1]);
    vehicle.set_mode(M::DetectLaunch);
    let outputs = vehicle.tick(&estimate(9.8));
    assert!(outputs.bus.binary_output[BinaryOutputId::Camera1]);
    assert!(outputs.recovery_armed);
    vehicle.set_mode(M::Idle);
    let outputs = vehicle.tick(&estimate(9.8));
    assert!(outputs.bus.binary_output[BinaryOutputId::Camera2]);
    assert!(!outputs.recovery_armed);
}

#[test]
fn the_recovery_outputs_follow_the_mode() {
    let mut vehicle = vehicle();
    vehicle.set_mode(M::DeployDrogue);
    let outputs = vehicle.tick(&estimate(0.0));
    assert!(outputs.drogue && !outputs.main);
    vehicle.set_mode(M::DeployMain);
    let outputs = vehicle.tick(&estimate(0.0));
    assert!(!outputs.drogue && outputs.main);
}

#[test]
fn thrust_takes_the_vehicle_to_burn() {
    let mut vehicle = vehicle();
    vehicle.set_mode(M::Ignite);
    for _ in 0..51 {
        vehicle.tick(&estimate(50.0));
        assert_eq!(vehicle.mode(), M::Ignite);
    }
    let outputs = vehicle.tick(&estimate(50.0));
    assert_eq!(vehicle.mode(), M::Burn);
    assert_eq!(vehicle.time(), 52);
    // The main valve opens in the same tick.
    assert_eq!(outputs.bus.valve[ValveId::Main].promille(), 1000);
}

#[test]
fn commands_are_executed_and_answered() {
    let mut vehicle = vehicle();
    assert_eq!(
        vehicle.execute(UplinkCommand::SetFlightMode(M::Hold)),
        (MavResult::Accepted, None)
    );
    assert_eq!(vehicle.mode(), M::Hold);
    assert_eq!(
        vehicle.execute(UplinkCommand::CommandValve(
            ValveTarget::Listed(ValveId::Main),
            ValveCommand::Open
        )),
        (MavResult::Accepted, None)
    );
    let outputs = vehicle.tick(&estimate(9.8));
    assert_eq!(outputs.bus.valve[ValveId::Main].promille(), 1000);
    assert_eq!(
        vehicle.execute(UplinkCommand::CommandValve(
            ValveTarget::Listed(ValveId::Main),
            ValveCommand::Partial(single(2.0))
        )),
        (MavResult::Denied, None)
    );
    assert_eq!(
        vehicle.execute(UplinkCommand::SetParam {
            id: 0x0201,
            raw: 1234
        }),
        (
            MavResult::Accepted,
            Some((0x0201, ParamValue::U32(1234)))
        )
    );
    assert_eq!(vehicle.params().recovery().min_time_to_drogue, 1234);
    assert_eq!(
        vehicle.execute(UplinkCommand::RequestCanForwarding),
        (MavResult::Unsupported, None)
    );
    assert_eq!(vehicle.set_param(0xffff, 1), None);
    vehicle.set_mode(M::Burn);
    assert_eq!(
        vehicle.try_command_valve(ValveId::Main, ValveCommand::Close),
        Err(ValveError::NotPermittedInMode)
    );
}

#[test]
fn commands_to_extra_valves_are_denied() {
    let mut vehicle = vehicle();
    let extra = |cmd| UplinkCommand::CommandValve(ValveTarget::Extra(1), cmd);
    assert_eq!(
        vehicle.execute(extra(ValveCommand::Open)),
        (MavResult::Denied, None)
    );
    vehicle.set_mode(M::Hold);
    assert_eq!(
        vehicle.execute(extra(ValveCommand::Partial(single(2.0)))),
        (MavResult::Denied, None)
    );
}

#[test]
fn mirror_and_vehicle_do_not_diverge() {
    let registry = || Params::new(expand_group(&b"SE".to_vec(), &vec![]).unwrap()).unwrap();
    let name_of = |id: u16| registry().by_id(id).unwrap().name;
    let mut vehicle = vehicle();
    let mut store = SharedParams::new(registry());
    store.init(registry());
    let write = |id: u16, bits: u32, ty: MavParamType| ParamRequest::SetValue {
        name: name_of(id),
        value: Single::from_bits(bits),
        ty,
    };
    let requests = [
        write(0x0201, 1500, MavParamType::Uint32),
        write(0x0200, 250.0f32.to_bits(), MavParamType::Real32),
        ParamRequest::List,
        // Refused: the wrong type, and no number.
        write(0x0202, 7, MavParamType::Real32),
        write(0x0200, f32::NAN.to_bits(), MavParamType::Real32),
        write(0x0201, 1600, MavParamType::Uint32),
    ];
    let mut forwarded = 0;
    for request in &requests {
        if let Some(command) = answer(request, &mut store).forward {
            forwarded += 1;
            assert_eq!(vehicle.execute(command).0, MavResult::Accepted);
        }
        for id in [0x0200, 0x0201, 0x0202] {
            let mirrored = store.by_name(&name_of(id)).unwrap().value.to_bits();
            assert_eq!(
                vehicle.params().get(id).unwrap().encode_raw(),
                mirrored
            );
        }
    }
    assert_eq!(forwarded, 3);
    assert_eq!(vehicle.params().get(0x0201), Some(ParamValue::U32(1600)));
    assert_eq!(
        vehicle.params().get(0x0200),
        Some(ParamValue::F32(single(250.0)))
    );
}

#[test]
fn the_rocket_is_a_hybrid() {
    assert_eq!(
        rocket_info(),
        RocketInfo {
            propulsion_type: PropulsionType::Hybrid,
            capability_flags: 0
        }
    );
}

#[test]
fn contact_keeps_the_mode() {
    let params = Params::new(expand_group(&b"SE".to_vec(), &vec![]).unwrap()).unwrap();
    let mut vehicle = Vehicle::new_with_params(
        params,
        PropulsionParams { igniter_on_time: 0 },
        FailsafeParams {
            uplink_idle_timeout: 10,
            uplink_vent_timeout: 0,
        },
    );
    vehicle.set_mode(M::Hold);
    for _ in 0..30 {
        vehicle.note_uplink();
        vehicle.tick(&estimate(9.8));
    }
    assert_eq!(vehicle.mode(), M::Hold);
    for _ in 0..12 {
        vehicle.tick(&estimate(9.8));
    }
    assert_eq!(vehicle.mode(), M::Idle);
}

#[test]
fn temperatures_go_out_on_the_bus() {
    let mut vehicle = vehicle();
    let temperature = FcTemperature {
        baro_milli_c: Some(21_000),
        mcu_milli_c: None,
    };
    vehicle.set_temperature(temperature);
    assert_eq!(vehicle.tick(&estimate(0.0)).bus.temperature, temperature);
}

fn view() -> EstimatorView {
    EstimatorView {
        has_orientation: true,
        gps_reliable: true,
        position: vector(1.0, 2.0, 3.0),
        velocity: vector(4.0, 5.0, 6.0),
        altitude_agl: single(7.0),
        altitude_asl: single(107.5),
        latitude: Some(single(49.5)),
        longitude: None,
    }
}

fn readings() -> SensorReadings {
    let mut readings = SensorReadings::default();
    readings.imu1_accel = Some(vector(9.81, -9.81, 1000.0));
    readings.imu1_gyro = Some(vector(1.0, 0.0, -1.0));
    readings.mag = Some(vector(0.25, 0.5, -0.5));
    readings.baro1.pressure = Some(single(1013.25));
    readings.baro1.temperature = Some(single(21.57));
    readings.power = Some(AdcData {
        bus_main_voltage: 11_700,
        bus_supply_voltage: 12_000,
        fc_current: -1_234,
        recovery_voltage: 8_000,
        recovery_current: 5,
        temperature: 0,
    });
    readings.gps = Some(GpsDatum {
        latitude: Some(single(49.5)),
        longitude: Some(single(-8.25)),
        altitude: Some(single(123.456)),
        hdop: 90,
        num_satellites: 11,
    });
    readings
}

#[test]
fn telemetry_is_made_from_a_snapshot() {
    let readings = readings();
    let view = view();
    let mut inputs = BusInputImage::default();
    let mut outputs = BusOutputImage::default();
    inputs.press_sens.set(
        PressSensId::OxTankUpper,
        Some(DataWithTime::new(single(55.55), 1)),
    );
    inputs.temp_sens.set(
        TempSensId::OxTankLower,
        Some(DataWithTime::new(single(-20.5), 1)),
    );
    inputs.ox_tank_level = Some(DataWithTime::new(single(0.625), 1));
    inputs.valve_state.set(
        ValveId::Main,
        Some(DataWithTime::new(ValveState::from_promille_clamped(333), 1)),
    );
    outputs.valve.set(ValveId::Main, ValveState::fully_open());
    let snap = VehicleSnapshot {
        time: 1234,
        mode: M::Burn,
        readings: &readings,
        estimator: &view,
        input_image: &inputs,
        output_image: &outputs,
    };

    assert_eq!(heartbeat(&snap).custom_mode, 8);
    assert_eq!(heartbeat(&snap).mavlink_version, 2);

    let imu = scaled_imu(&snap, ImuId::Imu1);
    assert_eq!(
        imu.acc,
        (
            (9.81f32 * 101.972) as i16,
            (-9.81f32 * 101.972) as i16,
            i16::MAX
        )
    );
    assert_eq!(imu.gyro.0, (1.0f32 * 17.45329) as i16);
    assert_eq!(imu.mag, (2, 5, -5));
    assert_eq!(scaled_imu(&snap, ImuId::Imu2).acc, (0, 0, 0));

    let baro = scaled_pressure(&snap, BaroId::Baro1);
    assert_eq!(baro.press_abs, single(1013.25));
    assert_eq!(baro.temperature, 215);

    let battery = battery_status(&snap);
    assert_eq!(battery.voltages[0], 11_700);
    assert_eq!(battery.current_battery, -123);
    assert_eq!(battery.battery_remaining, 66);

    let gps = gps_raw_int(&snap);
    assert_eq!(gps.fix_type, GpsFixType::Fix3d);
    assert_eq!((gps.lat, gps.lon), (495_000_000, -82_500_000));
    assert_eq!(gps.alt, (123.456f32 * 1000.0) as i32);
    assert_eq!(gps.time_usec, 1_234_000);

    let position = local_position_ned(&snap);
    assert_eq!((position.x, position.y), (single(2.0), single(1.0)));
    assert_eq!((position.z, position.vz), (single(-7.0), single(-6.0)));

    let global = global_position_int(&snap, 35_999);
    assert_eq!((global.lat, global.lon), (495_000_000, 0));
    assert_eq!((global.alt, global.relative_alt), (107_500, 7_000));
    assert_eq!((global.vx, global.vy, global.vz), (500, 400, -600));
    assert_eq!(global.hdg, 35_999);

    let hud = vfr_hud(&snap, single(6.5), 270);
    assert!(hud.airspeed.is_nan());
    assert_eq!((hud.groundspeed, hud.heading), (single(6.5), 270));
    assert_eq!(hud.throttle, 100);
    assert_eq!((hud.alt, hud.climb), (single(107.5), single(6.0)));

    let status = sys_status(&snap);
    assert_eq!(status.present.bits(), 0xd320_802f);
    assert!(!status.health.gyro, "only one unit reports");
    assert!(status.health.gps);
    assert!(status.recovery_enabled);
    assert_eq!(status.voltage_battery, 11_700);

    let tank = PressureVessel::build(&snap, TankId::Oxidizer);
    assert_eq!(tank.pressure1, 5_555);
    assert_eq!(tank.pressure2, u16::MAX);
    assert_eq!(tank.temperature1, i16::MAX);
    assert_eq!(tank.temperature2, -2_050);
    assert_eq!(tank.level, 6_250);
    assert_eq!(
        PressureVessel::build(&snap, TankId::Pressurant).level,
        u16::MAX
    );

    let valve = Valve::build(&snap, ValveId::Main);
    assert_eq!(f32::from_bits(valve.state.to_bits()), 0.333);
    assert_eq!(valve.commanded, single(1.0));
    let unknown = Valve::build(&snap, ValveId::OxidizerFill);
    assert!(unknown.state.is_nan());
}

#[test]
fn an_empty_snapshot_reports_nothing() {
    let readings = SensorReadings::default();
    let view = view();
    let inputs = BusInputImage::default();
    let outputs = BusOutputImage::default();
    let snap = VehicleSnapshot {
        time: 0,
        mode: M::Idle,
        readings: &readings,
        estimator: &view,
        input_image: &inputs,
        output_image: &outputs,
    };
    assert_eq!(battery_status(&snap).battery_remaining, -1);
    assert_eq!(gps_raw_int(&snap).fix_type, GpsFixType::NoGps);
    assert_eq!(sys_status(&snap).current_battery, -1);
    assert!(!snap.is_physically_armed());
    assert_eq!(throttle_percent(M::Idle), 0);
    assert_eq!(throttle_percent(M::Burn), 100);
}

#[test]
fn at_most_one_message_goes_out_per_tick() {
    let schedule = DownlinkSchedule::new();
    let mut heartbeats = 0;
    let mut attitudes = 0;
    for t in 0..2000 {
        match schedule.due(t) {
            Some(TelemetryMessage::Heartbeat) => heartbeats += 1,
            Some(TelemetryMessage::Attitude) => attitudes += 1,
            _ => {}
        }
    }
    assert_eq!(heartbeats, 4);
    assert_eq!(attitudes, 20);
}

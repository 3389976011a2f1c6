use zenith::bus::{
    celsius_to_milli_c, Bus, BusInputImage, BusOutputImage, DataWithTime, IoAddr, NoBus, ValveState,
};
use zenith::foreign::mapping::{foreign_binary_output_id_map, foreign_valve_id_map};
use zenith::foreign::servo::{valve_state_to_servo_us, CalibServoValve};
use zenith::foreign::{
    set_foreign_data_msg, try_injest_can_msg as injest_foreign, FIoHandler,
    ProcessData as ForeignData,
};
use zenith::foreign_io::{ForeignInputImage, ForeignIo, ForeignOutputImage};
use zenith::inventory::{BinaryOutputId, PressSensId, TempSensId, ValveId};
use zenith::io::handler::{may_be_process_data, BusHandler, ProcessData};
use zenith::io::mapping::{valve_id_map, VALVE_STORE_IDX};
use zenith::io::pdo_mapping::{
    bo_id_for, press_sensor_id_for, sensor_slot_base, subindex_to_slot, temp_sensor_id_for,
    valve_id_for, HcoOutput, SensorAddr, TpdoKind,
};
use zenith::io::sdo::{
    can_msg_id, set_boolean_msg, set_servo_pwm_msg, valve_sdo_frame, CanMessage, WireId,
};
use zenith::propulsion::{
    self, tank_reading, BinaryOutputId as ForeignOutput, TankId, ValveId as ForeignValve,
};
use zenith::single::Single;

fn single(value: f32) -> Single {
    Single::from_bits(value.to_bits())
}

#[test]
fn a_valve_is_moved_by_a_write_to_its_board() {
    let msg = valve_sdo_frame(ValveId::Main, ValveState::from_promille_clamped(0x0123));
    assert_eq!(msg.id, 0x606);
    assert!(!msg.extended);
    assert!(!msg.rtr);
    assert_eq!(msg.dlc, 8);
    // Two bytes of data, expedited, with their number given.
    assert_eq!(msg.data[0], 0x20 + 4 * 2 + 2 + 1);
    assert_eq!(msg.data[1..4], [0x10, 0x20, 1]);
    assert_eq!(msg.data[4..], [0x23, 0x01, 0, 0]);
    assert_eq!(can_msg_id(&msg), Some(WireId::Standard(0x606)));
}

#[test]
fn outputs_and_servos_are_written_too() {
    let addr = IoAddr::new(7, 0x2020, 3);
    let on = set_boolean_msg(true, &addr);
    assert_eq!(on.data, [0x27, 0x20, 0x20, 3, 1, 0, 0, 0]);
    let off = set_boolean_msg(false, &addr);
    assert_eq!(off.data, [0x27, 0x20, 0x20, 3, 0, 0, 0, 0]);
    let servo = set_servo_pwm_msg(1500, &addr);
    assert_eq!(servo.data, [0x2b, 0x20, 0x20, 3, 0xdc, 0x05, 0, 0]);
    let data: heapless::Vec<u8, 4> = heapless::Vec::from_slice(&[1, 2, 3]).unwrap();
    let raw = set_foreign_data_msg(&data, &addr);
    assert_eq!(raw.data, [0x2f, 0x20, 0x20, 3, 1, 2, 3, 0]);
}

#[test]
fn identifiers_have_to_fit() {
    let msg = |id, extended| CanMessage {
        id,
        extended,
        rtr: false,
        dlc: 0,
        data: [0; 8],
    };
    assert_eq!(can_msg_id(&msg(0x7ff, false)), Some(WireId::Standard(0x7ff)));
    assert_eq!(can_msg_id(&msg(0x800, false)), None);
    assert_eq!(can_msg_id(&msg(0x1_0000, false)), None);
    assert_eq!(
        can_msg_id(&msg(0x1fff_ffff, true)),
        Some(WireId::Extended(0x1fff_ffff))
    );
    assert_eq!(can_msg_id(&msg(0x2000_0000, true)), None);
}

#[test]
fn slots_lead_to_components() {
    assert_eq!(subindex_to_slot(0), None);
    assert_eq!(subindex_to_slot(3), Some(2));
    assert_eq!(sensor_slot_base(TpdoKind::Sensor1), Some(4));
    assert_eq!(sensor_slot_base(TpdoKind::Valves), None);
    assert_eq!(valve_id_for(6, 0), Some(ValveId::Main));
    assert_eq!(valve_id_for(6, 2), None);
    assert_eq!(bo_id_for(7, 2), Some(BinaryOutputId::Igniter2));
    assert_eq!(temp_sensor_id_for(6, 2), Some(TempSensId::OxTankLower));
    assert_eq!(press_sensor_id_for(5, 4), Some(PressSensId::PressurantTank));
    // Two external sensors share a slot: the first counts.
    assert_eq!(
        press_sensor_id_for(8, 0),
        Some(PressSensId::ExternalPressurant)
    );
    assert_eq!(
        SensorAddr::from_sensor_idx(3, 2),
        Some(SensorAddr {
            node_id: 3,
            slot: 2
        })
    );
    assert_eq!(SensorAddr::from_sensor_idx(16, 2), None);
    assert_eq!(SensorAddr::from_sensor_idx(3, 200), None);
    let map = valve_id_map();
    assert_eq!(
        map[ValveId::OxidizerVent],
        IoAddr::new(4, VALVE_STORE_IDX, 1)
    );
}

#[test]
fn readings_come_in_with_their_time() {
    let mut handler = BusHandler::new();
    handler.ingest(6, ProcessData::Valves([500, 1200, 7, 7]), 42);
    let image = handler.get_input_image();
    let main = image.valve_state[ValveId::Main].unwrap();
    assert_eq!((main.data.promille(), main.time), (500, 42));
    let fill = image.valve_state[ValveId::OxidizerFill].unwrap();
    assert_eq!(fill.data.promille(), 1000);
    assert!(image.valve_state[ValveId::OxidizerVent].is_none());

    handler.ingest(
        7,
        ProcessData::HighCurrentOutputs([
            HcoOutput::DigitalOn,
            HcoOutput::DigitalOff,
            HcoOutput::DigitalOff,
            HcoOutput::DigitalOff,
        ]),
        43,
    );
    let image = handler.get_input_image();
    assert!(image.binary_outputs[BinaryOutputId::Igniter1].unwrap().data);
    assert!(!image.binary_outputs[BinaryOutputId::Igniter2].unwrap().data);

    handler.ingest(5, ProcessData::Sensors(TpdoKind::Sensor0, [2150, 10, 20, 3050]), 44);
    let image = handler.get_input_image();
    let upper = image.temp_sens[TempSensId::OxTankUpper].unwrap();
    assert_eq!(f32::from_bits(upper.data.to_bits()), 21.5);
    let pressure = image.press_sens[PressSensId::OxTankUpper].unwrap();
    assert_eq!(f32::from_bits(pressure.data.to_bits()), 30.5);
    assert_eq!(pressure.time, 44);
}

#[test]
fn only_standard_frames_of_eight_bytes_are_process_data() {
    assert!(may_be_process_data(false, 8));
    assert!(!may_be_process_data(true, 8));
    assert!(!may_be_process_data(false, 7));
}

#[test]
fn changes_go_out_at_once_and_refreshes_one_per_tick() {
    let mut handler = BusHandler::new();
    let mut outputs = BusOutputImage::default();

    // Nothing was ever sent: one message per tick, until all that are connected have been told.
    let first = handler.set_output_image(outputs, 0);
    assert_eq!(first.len(), 1);
    let mut sent = 1;
    for tick in 1..20u64 {
        sent += handler.set_output_image(outputs, tick * 1000).len();
    }
    assert_eq!(sent, 13);

    // A change goes out at once.
    outputs.valve.set(ValveId::Main, ValveState::fully_open());
    outputs.binary_output.set(BinaryOutputId::Igniter1, true);
    let changed = handler.set_output_image(outputs, 30_000);
    assert_eq!(changed.len(), 2);
    assert_eq!(changed[0].id, 0x607);
    assert_eq!(changed[1].id, 0x606);
    assert_eq!(handler.set_output_image(outputs, 31_000).len(), 0);
    // Half a second later the refreshes start over.
    assert_eq!(handler.set_output_image(outputs, 600_000).len(), 1);
}

#[test]
fn a_missing_bus_knows_nothing() {
    let mut bus = NoBus;
    let image = bus.get_input_image();
    assert!(image.valve_state[ValveId::Main].is_none());
    bus.set_output_image(BusOutputImage::default());
    assert!(BusInputImage::default().ox_tank_level.is_none());
}

#[test]
fn temperatures_are_told_in_thousandths() {
    assert_eq!(celsius_to_milli_c(single(21.5)), 21_500);
    assert_eq!(celsius_to_milli_c(single(-3.25)), -3_250);
    assert_eq!(celsius_to_milli_c(single(f32::NAN)), 0);
}

#[test]
fn a_reading_is_replaced() {
    let mut reading = DataWithTime::new(1u8, 2);
    reading.injest(3, 4);
    assert_eq!((reading.data, reading.time), (3, 4));
}

#[test]
fn foreign_outputs_are_sent_when_they_change() {
    let mut handler = FIoHandler::new();
    assert!(handler.tick().is_empty());
    let mut outputs = ForeignOutputImage::default();
    outputs.set_valve(ForeignValve::OxidizerVent, ValveState::fully_open());
    outputs.set_binary_output(ForeignOutput::Igniter2, true);
    assert_eq!(outputs.get_valve(ForeignValve::OxidizerVent).promille(), 1000);
    assert_eq!(outputs.valves()[2].promille(), 1000);
    assert_eq!(outputs.binary_outpus(), &[false, true, false, false]);
    handler.set_output_image(outputs);
    let messages = handler.tick();
    assert_eq!(messages.len(), 2);
    assert_eq!(messages[0].id, 0x607);
    assert_eq!(messages[0].data, [0x27, 0x06, 0x20, 3, 1, 0, 0, 0]);
    assert_eq!(messages[1].id, 0x604);
    assert_eq!(messages[1].data, [0x2b, 0x05, 0x20, 1, 0xe8, 0x03, 0, 0]);
    assert!(handler.tick().is_empty());
}

#[test]
fn foreign_valves_are_numbered_from_one() {
    let map = foreign_valve_id_map();
    assert_eq!(
        *map.get_io_addr(ForeignValve::PressurantVent),
        IoAddr::new(5, 0x2005, 3)
    );
    assert_eq!(
        *map.get_io_addr(ForeignValve::Main),
        IoAddr::new(6, 0x2005, 1)
    );
    assert_eq!(
        foreign_binary_output_id_map().0[0],
        IoAddr::new(7, 0x2006, 2)
    );
}

#[test]
fn foreign_readings_come_in() {
    let mut image = ForeignInputImage::default();
    injest_foreign(
        &mut image,
        &ForeignData::Valves(vec![
            (
                ForeignValve::OxidizerFill,
                ValveState::from_percent_open(50),
            ),
            (ForeignValve::PressurantVent, ValveState::fully_open()),
        ]),
        9,
    );
    // A state is kept in the entry of the valve's number.
    assert_eq!(image.valve_state[4].unwrap().data.promille(), 500);
    assert_eq!(image.valve_state[1].unwrap().data.promille(), 1000);
    assert_eq!(image.valve_state[1].unwrap().time, 9);
    assert!(image.valve_state[0].is_none());
    assert!(image.valve_state(ForeignValve::PressurantVent).is_none());
    assert_eq!(
        image
            .valve_state(ForeignValve::Pressurization)
            .unwrap()
            .data
            .promille(),
        1000
    );
    injest_foreign(
        &mut image,
        &ForeignData::BinaryOutputs(vec![(ForeignOutput::Camera2, true)]),
        10,
    );
    assert!(image.binary_outputs[3].unwrap().data);
    injest_foreign(&mut image, &ForeignData::Other, 11);
    assert!(image.binary_outputs[0].is_none());
}

#[test]
fn tanks_are_read_by_their_sensors() {
    let mut image = ForeignInputImage::default();
    image.press_sens[propulsion::PressSensId::OxTankUpper.index()] =
        Some(DataWithTime::new(single(30.0), 1));
    image.press_sens[propulsion::PressSensId::PressurantTank.index()] =
        Some(DataWithTime::new(single(200.0), 1));
    image.temp_sens[propulsion::TempSensId::OxTankLower.index()] =
        Some(DataWithTime::new(single(-5.0), 1));
    let ox = tank_reading(TankId::Oxidizer, &image);
    assert_eq!(ox.pressure1, Some(single(30.0)));
    assert_eq!(ox.pressure2, None);
    assert_eq!(ox.temperature1, None);
    assert_eq!(ox.temperature2, Some(single(-5.0)));
    let pressurant = tank_reading(TankId::Pressurant, &image);
    assert_eq!(pressurant.pressure1, Some(single(200.0)));
    assert_eq!(pressurant.pressure2, Some(single(200.0)));
    assert_eq!(pressurant.temperature2, None);
    let chamber = tank_reading(TankId::CombustionChamber, &image);
    assert_eq!(chamber.pressure1, None);
}

#[test]
fn servos_follow_the_valves() {
    let us = |promille| {
        valve_state_to_servo_us(
            ValveState::from_promille_clamped(promille),
            ForeignValve::Main,
        )
    };
    assert_eq!(us(0), 1000);
    assert_eq!(us(450), 1500);
    assert_eq!(us(900), 2000);
    assert_eq!(us(1000), 2000);
    let reversed = CalibServoValve {
        closed_us: 2000,
        opened_us: 1200,
    };
    assert_eq!(reversed.us_range(), 800);
    assert_eq!(reversed.pwm_us(300), 1700);
    assert_eq!(reversed.pwm_us(900), 1200);
}

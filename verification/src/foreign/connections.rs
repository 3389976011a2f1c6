//! What is connected to the boards of the propulsion system, and what is sent to them.

use vstd::prelude::*;

use crate::foreign::mapping::{
    foreign_binary_output_id_map, foreign_valve_id_map, BinaryOutputIdMap, ValveIdMap,
};
use crate::foreign::servo::{valve_state_to_servo_us, CalibServoValve};
use crate::foreign::{changed, changes, sets, with_outputs, with_valves};
use crate::foreign_io::{DataWithTime, ForeignInputImage, ForeignOutputImage, IoAddr, ValveState};
use crate::io::sdo::CanMessage;
use crate::propulsion::{tank_reading, BinaryOutputId, TankId, TankReading, ValveId};
use crate::single::Single;

verus! {

/// Where each valve is, by its number, which counts from one.
pub proof fn law_valves_by_their_number(map: ValveIdMap)
    requires
        call_ensures(foreign_valve_id_map, (), map),
    ensures
        map.0[0] == (IoAddr { node_id: 0, index: 0, subindex: 0 }),
        // Both valves of the pressurant are given the same place.
        map.0[1] == (IoAddr { node_id: 5, index: 0x2005, subindex: 3 }),
        map.0[2] == (IoAddr { node_id: 5, index: 0x2005, subindex: 3 }),
        map.0[3] == (IoAddr { node_id: 4, index: 0x2005, subindex: 1 }),
        map.0[4] == (IoAddr { node_id: 6, index: 0x2005, subindex: 3 }),
        map.0[5] == (IoAddr { node_id: 6, index: 0x2005, subindex: 1 }),
{
    assert(ValveId::PressurantVent.place() == 0);
    assert(ValveId::Pressurization.place() == 1);
    assert(ValveId::OxidizerVent.place() == 2);
    assert(ValveId::OxidizerFill.place() == 3);
    assert(ValveId::Main.place() == 4);
}

/// Where each binary output is.
pub proof fn law_outputs_by_their_number(map: BinaryOutputIdMap)
    requires
        call_ensures(foreign_binary_output_id_map, (), map),
    ensures
        map.0[0] == (IoAddr { node_id: 7, index: 0x2006, subindex: 2 }),
        map.0[1] == (IoAddr { node_id: 7, index: 0x2006, subindex: 3 }),
        map.0[2] == (IoAddr { node_id: 2, index: 0x2006, subindex: 0 }),
        map.0[3] == (IoAddr { node_id: 2, index: 0x2006, subindex: 0 }),
{
}

/// The address of a valve is the one at its number.
pub proof fn law_a_valve_is_looked_up_by_its_number(
    map: ValveIdMap,
    valve: ValveId,
    addr: &IoAddr,
)
    requires
        call_ensures(ValveIdMap::get_io_addr, (&map, valve), addr),
    ensures
        *addr == map.0[match valve {
            ValveId::PressurantVent => 1,
            ValveId::Pressurization => 2,
            ValveId::OxidizerVent => 3,
            ValveId::OxidizerFill => 4,
            ValveId::Main => 5,
        }],
{
}

/// The message for each output: to its board, at its entry, with its state.
pub proof fn law_outputs_are_written_to_their_boards(
    msg: CanMessage,
    next: ForeignOutputImage,
    slot: int,
)
    requires
        0 <= slot < 9,
        sets(msg, next, slot),
    ensures
        ({
            let (board, entry) = if slot == 0 {
                (7int, 2int)
            } else if slot == 1 {
                (7, 3)
            } else if slot < 4 {
                (2, 0)
            } else if slot < 6 {
                (5, 3)
            } else if slot == 6 {
                (4, 1)
            } else if slot == 7 {
                (6, 3)
            } else {
                (6, 1)
            };
            &&& msg.id == 0x600 + board
            &&& !msg.extended && !msg.rtr && msg.dlc == 8
            &&& msg.data[1] == if slot < 4 {
                0x06int
            } else {
                0x05
            }
            &&& msg.data[2] == 0x20
            &&& msg.data[3] == entry
            &&& slot < 4 ==> msg.data[0] == 0x27 && msg.data[4] == (if next.binary_output[slot] {
                1int
            } else {
                0
            }) && msg.data[5] == 0
            &&& slot >= 4 ==> msg.data[0] == 0x2b && msg.data[4] + 256 * msg.data[5] == next.valve[
            slot - 4]@
            &&& msg.data[6] == 0 && msg.data[7] == 0
        }),
{
    crate::propulsion::law_all_components_are_listed();
    if slot >= 4 {
        assert(crate::propulsion::ALL_VALVES@[slot - 4].place() == slot - 4);
    }
}

/// What is sent is what differs from what was sent before: all of it, in order, and nothing else.
pub proof fn law_what_differs_is_sent(
    current: ForeignOutputImage,
    next: ForeignOutputImage,
    below: int,
    slot: int,
)
    requires
        0 <= below <= 9,
    ensures
        changed(current, next, below).contains(slot) <==> 0 <= slot < below && (if slot < 4 {
            current.binary_output[slot] != next.binary_output[slot]
        } else {
            current.valve[slot - 4]@ != next.valve[slot - 4]@
        }),
        forall|i: int, j: int|
            0 <= i < j < changed(current, next, below).len() ==> (#[trigger] changed(
                current,
                next,
                below,
            )[i]) < (#[trigger] changed(current, next, below)[j]),
        forall|i: int|
            0 <= i < changed(current, next, below).len() ==> 0 <= #[trigger] changed(
                current,
                next,
                below,
            )[i] < below,
    decreases below,
{
    if below > 0 {
        law_what_differs_is_sent(current, next, below - 1, slot);
        let before = changed(current, next, below - 1);
        let after = changed(current, next, below);
        if changes(current, next, below - 1) {
            assert(after[before.len() as int] == below - 1);
            if slot == below - 1 {
                assert(after.contains(slot));
            } else if before.contains(slot) {
                let k = choose|k: int| 0 <= k < before.len() && before[k] == slot;
                assert(after[k] == slot);
            }
            if after.contains(slot) && slot != below - 1 {
                let k = choose|k: int| 0 <= k < after.len() && after[k] == slot;
                assert(before[k] == slot);
            }
        }
    } else {
        assert(!changed(current, next, below).contains(slot));
    }
}

/// A state that comes in for a valve is kept at its number, with the time; one of an output at its
/// place.
pub proof fn law_states_are_kept_by_number(
    states: Seq<Option<DataWithTime<ValveState>>>,
    list: Seq<(ValveId, ValveState)>,
    valve: ValveId,
    state: ValveState,
    time: u32,
)
    ensures
        with_valves(states, list.push((valve, state)), time) == with_valves(
            states,
            list,
            time,
        ).update(
            match valve {
                ValveId::PressurantVent => 1,
                ValveId::Pressurization => 2,
                ValveId::OxidizerVent => 3,
                ValveId::OxidizerFill => 4,
                ValveId::Main => 5,
            },
            Some(DataWithTime { data: state, time }),
        ),
        with_valves(states, Seq::empty(), time) == states,
{
    assert(list.push((valve, state)).drop_last() =~= list);
}

/// The same of an output.
pub proof fn law_outputs_are_kept_by_place(
    states: Seq<Option<DataWithTime<bool>>>,
    list: Seq<(BinaryOutputId, bool)>,
    output: BinaryOutputId,
    state: bool,
    time: u32,
)
    ensures
        with_outputs(states, list.push((output, state)), time) == with_outputs(
            states,
            list,
            time,
        ).update(
            match output {
                BinaryOutputId::Igniter1 => 0,
                BinaryOutputId::Igniter2 => 1,
                BinaryOutputId::Camera1 => 2,
                BinaryOutputId::Camera2 => 3,
            },
            Some(DataWithTime { data: state, time }),
        ),
        with_outputs(states, Seq::empty(), time) == states,
{
    assert(list.push((output, state)).drop_last() =~= list);
}

/// A servo is driven by pulses from one to two milliseconds: three tenths of a degree for each
/// thousandth of the opening, out of 270 degrees.
pub proof fn law_how_far_a_servo_turns(state: ValveState, valve: ValveId, us: u16)
    requires
        call_ensures(valve_state_to_servo_us, (state, valve), us),
    ensures
        state@ == 0 ==> us == 1000,
        state@ >= 900 ==> us == 2000,
        state@ < 900 ==> (us - 1000) * 2700 <= 3000 * state@ < (us - 1000 + 1) * 2700,
{
}

/// A calibrated servo is moved from the closed end towards the opened one, whichever is the higher,
/// and not beyond it.
pub proof fn law_servos_stay_between_their_ends(servo: CalibServoValve, offset: u16, us: u16)
    requires
        call_ensures(CalibServoValve::pwm_us, (&servo, offset), us),
    ensures
        servo.closed_us <= servo.opened_us ==> servo.closed_us <= us <= servo.opened_us && (us
            == servo.opened_us || us == servo.closed_us + offset),
        servo.closed_us >= servo.opened_us ==> servo.opened_us <= us <= servo.closed_us && (us
            == servo.opened_us || us == servo.closed_us - offset),
        offset == 0 ==> us == servo.closed_us,
{
}

/// Each tank is read by its own sensors, counted from the nosecone up.
pub proof fn law_each_tank_is_read_by_its_own_sensors(
    tank: TankId,
    readings: &ForeignInputImage,
    reading: TankReading,
)
    requires
        call_ensures(tank_reading, (tank, readings), reading),
    ensures
        ({
            let (first, second) = match tank {
                TankId::Pressurant => (1int, 1int),
                TankId::Oxidizer => (4, 5),
                TankId::CombustionChamber => (6, 6),
            };
            &&& is_read(reading.pressure1, readings.press_sens[first])
            &&& is_read(reading.pressure2, readings.press_sens[second])
            &&& tank == TankId::Oxidizer ==> is_read(reading.temperature1, readings.temp_sens[0])
                && is_read(reading.temperature2, readings.temp_sens[1])
            &&& tank != TankId::Oxidizer ==> reading.temperature1 is None && reading.temperature2
                is None
            &&& reading.level is None
        }),
{
}

/// The value is that of the reading, where there is one.
pub open spec fn is_read(value: Option<Single>, reading: Option<DataWithTime<Single>>) -> bool {
    match reading {
        Some(reading) => value == Some(reading.data),
        None => value is None,
    }
}

/// What is asked of a valve or an output is asked of that one, and can be looked up again.
pub proof fn law_what_is_asked_can_be_looked_up(
    valves: &mut ForeignOutputImage,
    outputs: &mut ForeignOutputImage,
    valve: ValveId,
    state: ValveState,
    output: BinaryOutputId,
    on: bool,
    image: &ForeignOutputImage,
    found: ValveState,
    other: int,
)
    requires
        call_ensures(ForeignOutputImage::set_valve, (valves, valve, state), ()),
        call_ensures(ForeignOutputImage::set_binary_output, (outputs, output, on), ()),
        call_ensures(ForeignOutputImage::get_valve, (image, valve), found),
        0 <= other < 5,
    ensures
        ({
            let place = match valve {
                ValveId::PressurantVent => 0int,
                ValveId::Pressurization => 1,
                ValveId::OxidizerVent => 2,
                ValveId::OxidizerFill => 3,
                ValveId::Main => 4,
            };
            let at = match output {
                BinaryOutputId::Igniter1 => 0int,
                BinaryOutputId::Igniter2 => 1,
                BinaryOutputId::Camera1 => 2,
                BinaryOutputId::Camera2 => 3,
            };
            &&& (*final(valves)).valve@[place] == state
            &&& other != place ==> (*final(valves)).valve@[other] == (*old(valves)).valve@[other]
            &&& (*final(valves)).dirty
            &&& found == image.valve[place]
            &&& (*final(outputs)).binary_output@[at] == on
            &&& other < 4 && other != at ==> (*final(outputs)).binary_output@[other] == (*old(outputs)).binary_output@[other]
            &&& (*final(outputs)).dirty
        }),
{
}

/// The state of a valve is read from its place.
pub proof fn law_where_the_state_of_a_valve_is_read(
    image: &ForeignInputImage,
    valve: ValveId,
    state: &Option<DataWithTime<ValveState>>,
)
    requires
        call_ensures(ForeignInputImage::valve_state, (image, valve), state),
    ensures
        *state == image.valve_state[match valve {
            ValveId::PressurantVent => 0,
            ValveId::Pressurization => 1,
            ValveId::OxidizerVent => 2,
            ValveId::OxidizerFill => 3,
            ValveId::Main => 4,
        }],
{
}

} // verus!

//! The handler of the IO boards of the propulsion system.

use vstd::prelude::*;

use crate::foreign::mapping::{
    foreign_binary_output_id_map, foreign_output_place, foreign_valve_id_map, foreign_valve_place,
    HC_OUTPUT_IDX, VALVE_IDX,
};
use crate::foreign_io::{
    DataWithTime, ForeignInputImage, ForeignIo, ForeignOutputImage, IoAddr, ValveState,
};
use crate::bounded::payload_bytes;
use crate::io::sdo::{
    is_write, le_bytes, sdo_write_msg, set_boolean_msg, set_valve_msg, CanMessage,
};
use crate::propulsion::{
    law_all_components_are_listed, BinaryOutputId, ValveId, ALL_BINARY_OUTPUTS, ALL_VALVES,
};

pub mod connections;
pub mod mapping;
pub mod servo;

verus! {

/// What a message of an IO board says.
pub enum ProcessData {
    Valves(Vec<(ValveId, ValveState)>),
    BinaryOutputs(Vec<(BinaryOutputId, bool)>),
    /// Pulse widths, raw bus voltages and sensors, which are not taken in.
    Other,
}

/// The states of the valves once those that are listed have come in. Each is kept in the entry of
/// the valve's number, that is in the one after the valve's place.
pub open spec fn with_valves(
    states: Seq<Option<DataWithTime<ValveState>>>,
    list: Seq<(ValveId, ValveState)>,
    time: u32,
) -> Seq<Option<DataWithTime<ValveState>>>
    decreases list.len(),
{
    if list.len() == 0 {
        states
    } else {
        let (id, data) = list.last();
        with_valves(states, list.drop_last(), time).update(
            id.place() + 1,
            Some(DataWithTime { data, time }),
        )
    }
}

/// The states of the outputs once those that are listed have come in.
pub open spec fn with_outputs(
    states: Seq<Option<DataWithTime<bool>>>,
    list: Seq<(BinaryOutputId, bool)>,
    time: u32,
) -> Seq<Option<DataWithTime<bool>>>
    decreases list.len(),
{
    if list.len() == 0 {
        states
    } else {
        let (id, data) = list.last();
        with_outputs(states, list.drop_last(), time).update(
            id.place(),
            Some(DataWithTime { data, time }),
        )
    }
}

/// How many outputs there are, the binary ones and the valves.
pub const FOREIGN_OUTPUTS: usize = 9;

/// Whether an output is to change: first come the binary outputs, then the valves.
pub open spec fn changes(
    current: ForeignOutputImage,
    next: ForeignOutputImage,
    slot: int,
) -> bool {
    if slot < 4 {
        current.binary_output[slot] != next.binary_output[slot]
    } else {
        current.valve[slot - 4]@ != next.valve[slot - 4]@
    }
}

/// The first outputs that are to change, in order.
pub open spec fn changed(
    current: ForeignOutputImage,
    next: ForeignOutputImage,
    below: int,
) -> Seq<int>
    decreases below,
{
    if below <= 0 {
        Seq::empty()
    } else if changes(current, next, below - 1) {
        changed(current, next, below - 1).push(below - 1)
    } else {
        changed(current, next, below - 1)
    }
}

/// The message that sets an output.
pub open spec fn sets(msg: CanMessage, next: ForeignOutputImage, slot: int) -> bool {
    if slot < 4 {
        is_write(
            msg,
            seq![
                if next.binary_output[slot] {
                    1u8
                } else {
                    0u8
                },
            ],
            IoAddr {
                node_id: foreign_output_place(slot).0,
                index: HC_OUTPUT_IDX,
                subindex: foreign_output_place(slot).1,
            },
        )
    } else {
        is_write(
            msg,
            le_bytes(next.valve[slot - 4]@),
            IoAddr {
                node_id: foreign_valve_place(ALL_VALVES@[slot - 4]).0,
                index: VALVE_IDX,
                subindex: foreign_valve_place(ALL_VALVES@[slot - 4]).1,
            },
        )
    }
}

/// The messages set the outputs that are to change, each in its turn, and nothing else.
pub open spec fn sets_changed(
    messages: Seq<CanMessage>,
    current: ForeignOutputImage,
    next: ForeignOutputImage,
    below: int,
) -> bool {
    let slots = changed(current, next, below);
    &&& messages.len() == slots.len()
    &&& forall|k: int| 0 <= k < messages.len() ==> sets(#[trigger] messages[k], next, slots[k])
}

/// Keeps what came in last, and what was sent last.
pub struct FIoHandler {
    pub input: ForeignInputImage,
    pub output_current: ForeignOutputImage,
    pub output_next: ForeignOutputImage,
}

impl FIoHandler {
    /// Nothing came in; everything is closed and off.
    pub fn new() -> (handler: Self)
        ensures
            forall|i: int| 0 <= i < 5 ==> #[trigger] handler.input.valve_state[i] is None,
            forall|i: int| 0 <= i < 4 ==> #[trigger] handler.input.binary_outputs[i] is None,
            forall|i: int| 0 <= i < 5 ==> (#[trigger] handler.output_current.valve[i])@ == 0,
            forall|i: int| 0 <= i < 4 ==> !#[trigger] handler.output_current.binary_output[i],
            handler.output_next == handler.output_current,
    {
        let outputs = ForeignOutputImage::default();
        FIoHandler {
            input: ForeignInputImage::default(),
            output_current: outputs,
            output_next: outputs,
        }
    }
}

/// Whether a frame can be process data: it has a standard identifier and eight bytes.
pub fn may_be_process_data(standard_id: bool, len: usize) -> (may: bool)
    ensures
        may == (standard_id && len == 8),
{
    standard_id && len == 8
}

/// Every valve in the message has an entry for its number; there is none for the last valve.
pub open spec fn has_entries(data: ProcessData) -> bool {
    match data {
        ProcessData::Valves(list) => forall|k: int|
            0 <= k < list.len() ==> !((#[trigger] list[k]).0 is Main),
        _ => true,
    }
}

/// Takes in what a message says.
pub fn try_injest_can_msg(image: &mut ForeignInputImage, data: &ProcessData, time: u32)
    requires
        has_entries(*data),
    ensures
        final(image).temp_sens == old(image).temp_sens,
        final(image).press_sens == old(image).press_sens,
        final(image).ox_tank_level == old(image).ox_tank_level,
        final(image).valve_state@ == (match *data {
            ProcessData::Valves(list) => with_valves(old(image).valve_state@, list@, time),
            _ => old(image).valve_state@,
        }),
        final(image).binary_outputs@ == (match *data {
            ProcessData::BinaryOutputs(list) => with_outputs(
                old(image).binary_outputs@,
                list@,
                time,
            ),
            _ => old(image).binary_outputs@,
        }),
{
    match data {
        ProcessData::Valves(list) => {
            let mut k: usize = 0;
            while k < list.len()
                invariant
                    k <= list.len(),
                    forall|j: int| 0 <= j < list.len() ==> !((#[trigger] list[j]).0 is Main),
                    image.temp_sens == old(image).temp_sens,
                    image.press_sens == old(image).press_sens,
                    image.ox_tank_level == old(image).ox_tank_level,
                    image.binary_outputs == old(image).binary_outputs,
                    image.valve_state@ == with_valves(
                        old(image).valve_state@,
                        list@.take(k as int),
                        time,
                    ),
                decreases list.len() - k,
            {
                let (id, state) = list[k];
                assert(list@.take(k + 1).drop_last() =~= list@.take(k as int));
                image.valve_state[id.number()] = Some(DataWithTime::new(state, time));
                k += 1;
            }
            assert(list@.take(k as int) =~= list@);
        },
        ProcessData::BinaryOutputs(list) => {
            let mut k: usize = 0;
            while k < list.len()
                invariant
                    k <= list.len(),
                    image.temp_sens == old(image).temp_sens,
                    image.press_sens == old(image).press_sens,
                    image.ox_tank_level == old(image).ox_tank_level,
                    image.valve_state == old(image).valve_state,
                    image.binary_outputs@ == with_outputs(
                        old(image).binary_outputs@,
                        list@.take(k as int),
                        time,
                    ),
                decreases list.len() - k,
            {
                let (id, state) = list[k];
                assert(list@.take(k + 1).drop_last() =~= list@.take(k as int));
                image.binary_outputs[id.index()] = Some(DataWithTime::new(state, time));
                k += 1;
            }
            assert(list@.take(k as int) =~= list@);
        },
        ProcessData::Other => {},
    }
}

impl ForeignIo for FIoHandler {
    fn tick(&mut self) -> (messages: Vec<CanMessage>)
        ensures
            sets_changed(
                messages@,
                old(self).output_current,
                old(self).output_next,
                FOREIGN_OUTPUTS as int,
            ),
            final(self).input == old(self).input,
            final(self).output_next == old(self).output_next,
            final(self).output_current == old(self).output_next,
    {
        let outputs = foreign_binary_output_id_map();
        let valves = foreign_valve_id_map();
        let ghost current = self.output_current;
        let ghost next = self.output_next;
        let mut messages: Vec<CanMessage> = Vec::new();
        proof {
            law_all_components_are_listed();
        }
        let mut k: usize = 0;
        while k < 4
            invariant
                k <= 4,
                *self == *old(self),
                current == self.output_current,
                next == self.output_next,
                sets_changed(messages@, current, next, k as int),
                forall|i: int|
                    0 <= i < 4 ==> #[trigger] outputs.0[i] == (IoAddr {
                        node_id: foreign_output_place(i).0,
                        index: HC_OUTPUT_IDX,
                        subindex: foreign_output_place(i).1,
                    }),
            decreases 4 - k,
        {
            let output = ALL_BINARY_OUTPUTS[k];
            let target_state = self.output_next.binary_outpus()[output.index()];
            let has_changed = target_state
                != self.output_current.binary_outpus()[output.index()];
            if has_changed {
                messages.push(set_boolean_msg(target_state, &outputs.0[output.index()]));
            }
            k += 1;
        }
        k = 0;
        while k < 5
            invariant
                k <= 5,
                *self == *old(self),
                current == self.output_current,
                next == self.output_next,
                sets_changed(messages@, current, next, k + 4),
                forall|valve: ValveId|
                    valves.0[#[trigger] valve.place() + 1] == (IoAddr {
                        node_id: foreign_valve_place(valve).0,
                        index: VALVE_IDX,
                        subindex: foreign_valve_place(valve).1,
                    }),
            decreases 5 - k,
        {
            let valve_id = ALL_VALVES[k];
            let target_state = self.output_next.get_valve(valve_id);
            let has_changed = target_state.promille() != self.output_current.get_valve(
                valve_id,
            ).promille();
            if has_changed {
                messages.push(set_valve_msg(target_state, valves.get_io_addr(valve_id)));
            }
            k += 1;
        }
        self.output_current = self.output_next;
        messages
    }

    fn get_input_image(&mut self) -> (image: ForeignInputImage)
        ensures
            image == old(self).input,
            *final(self) == *old(self),
    {
        self.input
    }

    fn set_output_image(&mut self, outputs: ForeignOutputImage)
        ensures
            final(self).output_next == outputs,
            final(self).output_current == old(self).output_current,
            final(self).input == old(self).input,
    {
        self.output_next = outputs;
    }
}

/// Generate a message for writing data to an IO board.
pub fn set_foreign_data_msg(data: &heapless::Vec<u8, 4>, foreign: &IoAddr) -> (msg: CanMessage)
    ensures
        is_write(msg, payload_bytes(*data), *foreign),
{
    sdo_write_msg(data, foreign)
}

/// Once the outputs have been sent, nothing is left to send.
pub proof fn law_nothing_changes_twice(image: ForeignOutputImage, below: int)
    requires
        below <= FOREIGN_OUTPUTS,
    ensures
        changed(image, image, below) == Seq::<int>::empty(),
    decreases below,
{
    if below > 0 {
        law_nothing_changes_twice(image, below - 1);
    }
}

} // verus!

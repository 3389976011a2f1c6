//! Takes readings off the bus and puts outputs on it.

use vstd::prelude::*;

use crate::bounded::{output_slice, reading_slice, valve_slice};
use crate::bus::{
    law_valve_state_is_its_promille, BusInputImage, BusOutputImage, DataWithTime, ValveState,
};
use crate::inventory::{
    law_map_has_one_value_per_component, BinaryOutputId, BinaryOutputMap, InventoryId, ValveId,
    ValveMap,
};
use crate::io::mapping::{
    binary_output_id_map, output_place, valve_id_map, valve_place, HC_OUTPUT_STORE_IDX,
    VALVE_STORE_IDX,
};
use crate::io::pdo_mapping::{
    first_slot, frame_readings, hco_msg_to_binary_outputs, output_states, sensor_msg_to_readings,
    valve_msg_to_valve, valve_states, HcoOutput, SensorReading, TpdoKind,
};
use crate::io::sdo::{is_write, le_bytes, set_boolean_msg, set_valve_msg, CanMessage};

verus! {

broadcast use {law_map_has_one_value_per_component, law_valve_state_is_its_promille};

/// How often an output that does not change is sent again \[us\].
pub const MESSAGE_INTERVAL_US: u64 = 500_000;

/// How many outputs there are: the binary ones, then the valves.
pub const OUTPUT_COUNT: usize = 13;

/// A frame with process data.
#[derive(Copy, Clone, PartialEq, Eq, Debug)]
pub enum ProcessData {
    Valves([u16; 4]),
    HighCurrentOutputs([HcoOutput; 4]),
    /// Readings, and which of the sensor frames they are.
    Sensors(TpdoKind, [i16; 4]),
    /// Anything else. All processing of raw sensor values happens on the boards.
    Other,
}

/// The image with the states of the valves, in order.
pub open spec fn with_valves(
    image: BusInputImage,
    states: Seq<(ValveId, ValveState)>,
    time: u32,
) -> Seq<Option<DataWithTime<ValveState>>>
    decreases states.len(),
{
    if states.len() == 0 {
        image.valve_state@
    } else {
        with_valves(image, states.drop_last(), time).update(
            states.last().0.index_of(),
            Some(DataWithTime { data: states.last().1, time }),
        )
    }
}

/// The image with the states of the binary outputs, in order.
pub open spec fn with_outputs(
    image: BusInputImage,
    states: Seq<(BinaryOutputId, bool)>,
    time: u32,
) -> Seq<Option<DataWithTime<bool>>>
    decreases states.len(),
{
    if states.len() == 0 {
        image.binary_outputs@
    } else {
        with_outputs(image, states.drop_last(), time).update(
            states.last().0.index_of(),
            Some(DataWithTime { data: states.last().1, time }),
        )
    }
}

/// The image with the readings, in order: `after` holds them.
pub open spec fn with_readings(
    image: BusInputImage,
    readings: Seq<SensorReading>,
    time: u32,
    after: BusInputImage,
) -> bool
    decreases readings.len(),
{
    &&& after.valve_state@ == image.valve_state@
    &&& after.binary_outputs@ == image.binary_outputs@
    &&& after.ox_tank_level == image.ox_tank_level
    &&& forall|i: int|
        0 <= i < 2 ==> #[trigger] after.temp_sens@[i] == last_temperature(readings, i, time, image)
    &&& forall|i: int|
        0 <= i < 9 ==> #[trigger] after.press_sens@[i] == last_pressure(readings, i, time, image)
}

/// The last reading of the temperature sensor with this index.
pub open spec fn last_temperature(
    readings: Seq<SensorReading>,
    index: int,
    time: u32,
    image: BusInputImage,
) -> Option<DataWithTime<crate::single::Single>>
    decreases readings.len(),
{
    if readings.len() == 0 {
        image.temp_sens@[index]
    } else {
        match readings.last() {
            SensorReading::Temperature(id, value) if id.index_of() == index => Some(
                DataWithTime { data: value, time },
            ),
            _ => last_temperature(readings.drop_last(), index, time, image),
        }
    }
}

/// The last reading of the pressure sensor with this index.
pub open spec fn last_pressure(
    readings: Seq<SensorReading>,
    index: int,
    time: u32,
    image: BusInputImage,
) -> Option<DataWithTime<crate::single::Single>>
    decreases readings.len(),
{
    if readings.len() == 0 {
        image.press_sens@[index]
    } else {
        match readings.last() {
            SensorReading::Pressure(id, value) if id.index_of() == index => Some(
                DataWithTime { data: value, time },
            ),
            _ => last_pressure(readings.drop_last(), index, time, image),
        }
    }
}

/// The image after a frame with process data of this node came in.
pub open spec fn ingested(
    before: BusInputImage,
    node_id: u8,
    data: ProcessData,
    time: u32,
    after: BusInputImage,
) -> bool {
    match data {
        ProcessData::Valves(positions) => exists|states: Seq<(ValveId, ValveState)>|
            {
                &&& #[trigger] valve_states(node_id, positions@, states)
                &&& after.valve_state@ == with_valves(before, states, time)
                &&& after.temp_sens@ == before.temp_sens@
                &&& after.press_sens@ == before.press_sens@
                &&& after.binary_outputs@ == before.binary_outputs@
                &&& after.ox_tank_level == before.ox_tank_level
            },
        ProcessData::HighCurrentOutputs(outputs) => exists|states: Seq<(BinaryOutputId, bool)>|
            {
                &&& #[trigger] output_states(node_id, outputs@, states)
                &&& after.binary_outputs@ == with_outputs(before, states, time)
                &&& after.temp_sens@ == before.temp_sens@
                &&& after.press_sens@ == before.press_sens@
                &&& after.valve_state@ == before.valve_state@
                &&& after.ox_tank_level == before.ox_tank_level
            },
        ProcessData::Sensors(kind, values) => match first_slot(kind) {
            Some(base) => exists|readings: Seq<SensorReading>|
                {
                    &&& #[trigger] frame_readings(node_id, base, values@, readings)
                    &&& with_readings(before, readings, time, after)
                },
            None => after == before,
        },
        ProcessData::Other => after == before,
    }
}

/// Takes the readings in a frame with process data into the image.
pub fn try_injest_can_msg(
    image: &mut BusInputImage,
    node_id: u8,
    data: ProcessData,
    time: u32,
)
    ensures
        ingested(*old(image), node_id, data, time, *final(image)),
{
    match data {
        ProcessData::Valves(positions) => {
            let list = valve_msg_to_valve(node_id, positions);
            let states = valve_slice(&list);
            let mut i: usize = 0;
            assert(states@.take(0) =~= Seq::<(ValveId, ValveState)>::empty());
            while i < states.len()
                invariant
                    i <= states.len(),
                    image.valve_state@ == with_valves(*old(image), states@.take(i as int), time),
                    image.temp_sens == old(image).temp_sens,
                    image.press_sens == old(image).press_sens,
                    image.binary_outputs == old(image).binary_outputs,
                    image.ox_tank_level == old(image).ox_tank_level,
                decreases states.len() - i,
            {
                assert(states@.take(i + 1).drop_last() =~= states@.take(i as int));
                let (id, state) = states[i];
                image.valve_state.set(id, Some(DataWithTime::new(state, time)));
                i += 1;
            }
            assert(states@.take(i as int) =~= states@);
            assert(valve_states(node_id, positions@, states@));
        },
        ProcessData::HighCurrentOutputs(outputs) => {
            let list = hco_msg_to_binary_outputs(node_id, outputs);
            let states = output_slice(&list);
            let mut i: usize = 0;
            assert(states@.take(0) =~= Seq::<(BinaryOutputId, bool)>::empty());
            while i < states.len()
                invariant
                    i <= states.len(),
                    image.binary_outputs@ == with_outputs(*old(image), states@.take(i as int), time),
                    image.temp_sens == old(image).temp_sens,
                    image.press_sens == old(image).press_sens,
                    image.valve_state == old(image).valve_state,
                    image.ox_tank_level == old(image).ox_tank_level,
                decreases states.len() - i,
            {
                assert(states@.take(i + 1).drop_last() =~= states@.take(i as int));
                let (id, state) = states[i];
                image.binary_outputs.set(id, Some(DataWithTime::new(state, time)));
                i += 1;
            }
            assert(states@.take(i as int) =~= states@);
            assert(output_states(node_id, outputs@, states@));
        },
        ProcessData::Sensors(kind, values) => {
            let list = sensor_msg_to_readings(node_id, kind, values);
            let readings = reading_slice(&list);
            let mut i: usize = 0;
            assert(readings@.take(0) =~= Seq::<SensorReading>::empty());
            while i < readings.len()
                invariant
                    i <= readings.len(),
                    i == 0 ==> *image == *old(image),
                    with_readings(*old(image), readings@.take(i as int), time, *image),
                decreases readings.len() - i,
            {
                assert(readings@.take(i + 1).drop_last() =~= readings@.take(i as int));
                assert(readings@.take(i + 1).last() == readings@[i as int]);
                match readings[i] {
                    SensorReading::Temperature(id, value) => {
                        image.temp_sens.set(id, Some(DataWithTime::new(value, time)));
                    },
                    SensorReading::Pressure(id, value) => {
                        image.press_sens.set(id, Some(DataWithTime::new(value, time)));
                    },
                }
                i += 1;
            }
            assert(readings@.take(i as int) =~= readings@);
            if let Some(base) = crate::io::pdo_mapping::sensor_slot_base(kind) {
                assert(frame_readings(node_id, base, values@, readings@));
            }
        },
        ProcessData::Other => {},
    }
}

/// Whether a frame can carry process data: it has a standard identifier and eight bytes.
pub fn may_be_process_data(extended: bool, len: usize) -> (may: bool)
    ensures
        may == (!extended && len == 8),
{
    !extended && len == 8
}

/// What the handler remembers of the outputs.
#[verifier::ext_equal]
pub struct OutputState {
    /// The binary outputs and the valves as they were last asked for.
    pub binary: Seq<bool>,
    pub valves: Seq<ValveState>,
    /// When each output was last sent, if it ever was \[us\].
    pub sent_at: Seq<Option<u64>>,
}

impl OutputState {
    /// The state of the output with this number changes.
    pub open spec fn changes(self, outputs: BusOutputImage, k: int) -> bool {
        if k < 4 {
            outputs.binary_output@[k] != self.binary[k]
        } else {
            outputs.valve@[k - 4] != self.valves[k - 4]
        }
    }

    /// The output with this number was not sent for longer than the interval.
    pub open spec fn is_due(self, now: u64, k: int) -> bool {
        match self.sent_at[k] {
            Some(t) => now - t > MESSAGE_INTERVAL_US,
            None => true,
        }
    }

    /// The output with this number is merely due.
    pub open spec fn wants_refresh(self, outputs: BusOutputImage, now: u64, k: int) -> bool {
        !self.changes(outputs, k) && self.is_due(now, k)
    }

    /// The output with this number is sent: it changes, or it is the first that is merely due.
    pub open spec fn sends(self, outputs: BusOutputImage, now: u64, k: int) -> bool {
        ||| self.changes(outputs, k)
        ||| self.wants_refresh(outputs, now, k) && forall|j: int|
            0 <= j < k ==> !#[trigger] self.wants_refresh(outputs, now, j)
    }

    /// `messages` are those for the outputs with numbers below `n`, in order.
    pub open spec fn messages_below(
        self,
        outputs: BusOutputImage,
        now: u64,
        n: int,
        messages: Seq<CanMessage>,
    ) -> bool
        decreases n,
    {
        if n <= 0 {
            messages.len() == 0
        } else if self.sends(outputs, now, n - 1) {
            &&& messages.len() > 0
            &&& sets_output(outputs, n - 1, messages.last())
            &&& self.messages_below(outputs, now, n - 1, messages.drop_last())
        } else {
            self.messages_below(outputs, now, n - 1, messages)
        }
    }

    /// What is remembered once the outputs were sent.
    pub open spec fn after(self, outputs: BusOutputImage, now: u64) -> OutputState {
        OutputState {
            binary: outputs.binary_output@,
            valves: outputs.valve@,
            sent_at: Seq::new(
                OUTPUT_COUNT as nat,
                |k: int|
                    if self.sends(outputs, now, k) {
                        Some(now)
                    } else {
                        self.sent_at[k]
                    },
            ),
        }
    }
}

/// The message sets the output with this number.
pub open spec fn sets_output(outputs: BusOutputImage, k: int, msg: CanMessage) -> bool {
    if k < 4 {
        is_write(
            msg,
            seq![
                if outputs.binary_output@[k] {
                    1u8
                } else {
                    0u8
                },
            ],
            crate::bus::IoAddr {
                node_id: output_place(BinaryOutputId::ALL@[k]).0,
                index: HC_OUTPUT_STORE_IDX,
                subindex: output_place(BinaryOutputId::ALL@[k]).1,
            },
        )
    } else {
        is_write(
            msg,
            le_bytes(outputs.valve@[k - 4]@),
            crate::bus::IoAddr {
                node_id: valve_place(ValveId::ALL@[k - 4]).0,
                index: VALVE_STORE_IDX,
                subindex: valve_place(ValveId::ALL@[k - 4]).1,
            },
        )
    }
}

/// The bus as the vehicle sees it.
pub struct BusHandler {
    input: BusInputImage,
    outputs_last: BusOutputImage,
    last_binary_output_messages: BinaryOutputMap<Option<u64>>,
    last_valve_messages: ValveMap<Option<u64>>,
}

impl BusHandler {
    /// What was read.
    pub closed spec fn image(self) -> BusInputImage {
        self.input
    }

    /// What is remembered of the outputs.
    pub closed spec fn outputs(self) -> OutputState {
        OutputState {
            binary: self.outputs_last.binary_output@,
            valves: self.outputs_last.valve@,
            sent_at: self.last_binary_output_messages@ + self.last_valve_messages@,
        }
    }

    pub fn new() -> (handler: Self)
        ensures
            handler.image().is_unknown(),
            forall|i: int| 0 <= i < 4 ==> !#[trigger] handler.outputs().binary[i],
            forall|i: int| 0 <= i < 9 ==> (#[trigger] handler.outputs().valves[i])@ == 0,
            forall|k: int|
                0 <= k < OUTPUT_COUNT ==> #[trigger] handler.outputs().sent_at[k] is None,
    {
        BusHandler {
            input: BusInputImage::default(),
            outputs_last: BusOutputImage::default(),
            last_binary_output_messages: BinaryOutputMap::splat(None),
            last_valve_messages: ValveMap::splat(None),
        }
    }

    /// Takes the readings in a frame into the image.
    pub fn ingest(&mut self, node_id: u8, data: ProcessData, time: u32)
        ensures
            ingested(old(self).image(), node_id, data, time, final(self).image()),
            final(self).outputs() == old(self).outputs(),
    {
        try_injest_can_msg(&mut self.input, node_id, data, time);
    }

    /// The last known reading of everything.
    pub fn get_input_image(&self) -> (image: BusInputImage)
        ensures
            image == self.image(),
    {
        self.input
    }

    /// When the output was last sent.
    fn last_message(&self, k: usize) -> (time: Option<u64>)
        requires
            k < OUTPUT_COUNT,
        ensures
            time == self.outputs().sent_at[k as int],
    {
        proof {
            BinaryOutputId::law_all_is_in_index_order();
            ValveId::law_all_is_in_index_order();
        }
        if k < 4 {
            *self.last_binary_output_messages.get(BinaryOutputId::ALL[k])
        } else {
            *self.last_valve_messages.get(ValveId::ALL[k - 4])
        }
    }

    /// Whether the state of the output changes.
    fn has_changed(&self, outputs: &BusOutputImage, k: usize) -> (changed: bool)
        requires
            k < OUTPUT_COUNT,
        ensures
            changed == self.outputs().changes(*outputs, k as int),
    {
        proof {
            BinaryOutputId::law_all_is_in_index_order();
            ValveId::law_all_is_in_index_order();
        }
        if k < 4 {
            let id = BinaryOutputId::ALL[k];
            *outputs.binary_output.get(id) != *self.outputs_last.binary_output.get(id)
        } else {
            let id = ValveId::ALL[k - 4];
            *outputs.valve.get(id) != *self.outputs_last.valve.get(id)
        }
    }

    /// The messages that go out for these outputs. Each output gets a message when its state
    /// changes, and at times without; of those without a change, one at most per call, which
    /// spreads them out.
    pub fn set_output_image(&mut self, outputs: BusOutputImage, now: u64) -> (messages: Vec<
        CanMessage,
    >)
        ensures
            final(self).image() == old(self).image(),
            final(self).outputs() == old(self).outputs().after(outputs, now),
            old(self).outputs().messages_below(outputs, now, OUTPUT_COUNT as int, messages@),
    {
        let ghost before = self.outputs();
        let binary_map = binary_output_id_map();
        let valve_map = valve_id_map();
        proof {
            BinaryOutputId::law_all_is_in_index_order();
            ValveId::law_all_is_in_index_order();
        }
        let mut messages: Vec<CanMessage> = Vec::new();
        let mut binary_times = self.last_binary_output_messages;
        let mut valve_times = self.last_valve_messages;
        let mut may_refresh = true;
        let mut k: usize = 0;
        while k < OUTPUT_COUNT
            invariant
                k <= OUTPUT_COUNT,
                *self == *old(self),
                before == self.outputs(),
                forall|j: int| 0 <= j < 4 ==> (#[trigger] BinaryOutputId::ALL@[j]).index_of() == j,
                forall|j: int| 0 <= j < 9 ==> (#[trigger] ValveId::ALL@[j]).index_of() == j,
                forall|o: BinaryOutputId| #[trigger]
                    binary_map.at(o) == (crate::bus::IoAddr {
                        node_id: output_place(o).0,
                        index: HC_OUTPUT_STORE_IDX,
                        subindex: output_place(o).1,
                    }),
                forall|v: ValveId| #[trigger]
                    valve_map.at(v) == (crate::bus::IoAddr {
                        node_id: valve_place(v).0,
                        index: VALVE_STORE_IDX,
                        subindex: valve_place(v).1,
                    }),
                may_refresh == (forall|j: int|
                    0 <= j < k ==> !#[trigger] before.wants_refresh(outputs, now, j)),
                before.messages_below(outputs, now, k as int, messages@),
                forall|j: int|
                    0 <= j < OUTPUT_COUNT ==> #[trigger] (binary_times@ + valve_times@)[j] == if j < k
                        && before.sends(outputs, now, j) {
                        Some(now)
                    } else {
                        before.sent_at[j]
                    },
            decreases OUTPUT_COUNT - k,
        {
            let last = self.last_message(k);
            let is_due = match last {
                Some(t) => now.saturating_sub(t) > MESSAGE_INTERVAL_US,
                None => true,
            };
            let changed = self.has_changed(&outputs, k);
            assert(is_due == before.is_due(now, k as int));
            assert(changed == before.changes(outputs, k as int));
            let send = changed || (is_due && may_refresh);
            let ghost times = binary_times@ + valve_times@;
            let ghost sent = messages@;
            assert(send == before.sends(outputs, now, k as int));
            if send {
                let msg = if k < 4 {
                    let id = BinaryOutputId::ALL[k];
                    binary_times.set(id, Some(now));
                    set_boolean_msg(*outputs.binary_output.get(id), binary_map.get(id))
                } else {
                    let id = ValveId::ALL[k - 4];
                    valve_times.set(id, Some(now));
                    set_valve_msg(*outputs.valve.get(id), valve_map.get(id))
                };
                assert(sets_output(outputs, k as int, msg));
                messages.push(msg);
                assert(messages@.drop_last() =~= sent);
                assert(binary_times@ + valve_times@ =~= times.update(k as int, Some(now)));
            }
            if !changed && is_due {
                assert(before.wants_refresh(outputs, now, k as int));
                may_refresh = false;
            }
            assert(before.wants_refresh(outputs, now, k as int) == (!changed && is_due));
            k += 1;
        }
        self.last_binary_output_messages = binary_times;
        self.last_valve_messages = valve_times;
        self.outputs_last = outputs;
        assert(self.outputs().sent_at =~= before.after(outputs, now).sent_at);
        messages
    }
}

/// Every change goes out at once.
pub proof fn law_changes_go_out_at_once(
    state: OutputState,
    outputs: BusOutputImage,
    now: u64,
    k: int,
)
    requires
        state.changes(outputs, k),
    ensures
        state.sends(outputs, now, k),
{
}

/// At most one output without a change is sent per call.
pub proof fn law_one_refresh_per_call(
    state: OutputState,
    outputs: BusOutputImage,
    now: u64,
    j: int,
    k: int,
)
    requires
        0 <= j < OUTPUT_COUNT,
        0 <= k < OUTPUT_COUNT,
        state.sends(outputs, now, j) && !state.changes(outputs, j),
        state.sends(outputs, now, k) && !state.changes(outputs, k),
    ensures
        j == k,
{
    assert(state.wants_refresh(outputs, now, j) && state.wants_refresh(outputs, now, k));
}

/// The outputs take turns: one that is sent is not due again within the interval, and while any is
/// due one is sent.
pub proof fn law_refreshes_take_turns(
    state: OutputState,
    outputs: BusOutputImage,
    now: u64,
    later: u64,
    k: int,
) -> (sent: int)
    requires
        0 <= k < OUTPUT_COUNT,
        now <= later <= now + MESSAGE_INTERVAL_US,
        state.wants_refresh(outputs, now, k),
    ensures
        0 <= sent <= k,
        state.wants_refresh(outputs, now, sent),
        state.sends(outputs, now, sent),
        !state.after(outputs, now).is_due(later, sent),
    decreases k,
{
    if exists|j: int| 0 <= j < k && #[trigger] state.wants_refresh(outputs, now, j) {
        let j = choose|j: int| 0 <= j < k && #[trigger] state.wants_refresh(outputs, now, j);
        law_refreshes_take_turns(state, outputs, now, later, j)
    } else {
        k
    }
}

} // verus!

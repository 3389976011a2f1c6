//! What the IO boards of the propulsion system report and what they are told.

use vstd::prelude::*;

use crate::io::sdo::CanMessage;
use crate::propulsion::{BinaryOutputId, ValveId};
use crate::single::Single;

pub use crate::bus::{DataWithTime, IoAddr, ValveState};

verus! {

/// The last known reading of everything.
#[derive(Copy, Clone)]
pub struct ForeignInputImage {
    pub temp_sens: [Option<DataWithTime<Single>>; 2],
    pub press_sens: [Option<DataWithTime<Single>>; 9],
    pub valve_state: [Option<DataWithTime<ValveState>>; 5],
    pub binary_outputs: [Option<DataWithTime<bool>>; 4],
    pub ox_tank_level: Option<DataWithTime<Single>>,
}

impl ForeignInputImage {
    /// Nothing was ever read.
    pub fn default() -> (image: Self)
        ensures
            forall|i: int| 0 <= i < 2 ==> #[trigger] image.temp_sens[i] is None,
            forall|i: int| 0 <= i < 9 ==> #[trigger] image.press_sens[i] is None,
            forall|i: int| 0 <= i < 5 ==> #[trigger] image.valve_state[i] is None,
            forall|i: int| 0 <= i < 4 ==> #[trigger] image.binary_outputs[i] is None,
            image.ox_tank_level is None,
    {
        ForeignInputImage {
            temp_sens: [None, None],
            press_sens: [None, None, None, None, None, None, None, None, None],
            valve_state: [None, None, None, None, None],
            binary_outputs: [None, None, None, None],
            ox_tank_level: None,
        }
    }

    /// The state of a valve, where it is known.
    pub fn valve_state(&self, valve: ValveId) -> (state: &Option<DataWithTime<ValveState>>)
        ensures
            *state == self.valve_state[valve.place()],
    {
        &self.valve_state[valve.number() - 1]
    }
}

/// What the outputs are to be.
#[derive(Copy, Clone)]
pub struct ForeignOutputImage {
    pub dirty: bool,
    pub valve: [ValveState; 5],
    pub binary_output: [bool; 4],
}

impl ForeignOutputImage {
    /// Everything is closed and off.
    pub fn default() -> (image: Self)
        ensures
            image.dirty,
            forall|i: int| 0 <= i < 5 ==> (#[trigger] image.valve[i])@ == 0,
            forall|i: int| 0 <= i < 4 ==> !#[trigger] image.binary_output[i],
    {
        let closed = ValveState::fully_closed();
        ForeignOutputImage {
            dirty: true,
            valve: [closed, closed, closed, closed, closed],
            binary_output: [false, false, false, false],
        }
    }

    pub fn set_valve(&mut self, id: ValveId, state: ValveState)
        ensures
            final(self).dirty,
            final(self).valve@ == old(self).valve@.update(id.place(), state),
            final(self).binary_output == old(self).binary_output,
    {
        self.dirty = true;
        self.valve[id.number() - 1] = state;
    }

    pub fn get_valve(&self, id: ValveId) -> (state: ValveState)
        ensures
            state == self.valve[id.place()],
    {
        self.valve[id.number() - 1]
    }

    pub fn set_binary_output(&mut self, id: BinaryOutputId, state: bool)
        ensures
            final(self).dirty,
            final(self).valve == old(self).valve,
            final(self).binary_output@ == old(self).binary_output@.update(id.place(), state),
    {
        self.dirty = true;
        self.binary_output[id.index()] = state;
    }

    pub fn valves(&self) -> (valves: &[ValveState; 5])
        ensures
            *valves == self.valve,
    {
        &self.valve
    }

    pub fn binary_outpus(&self) -> (outputs: &[bool; 4])
        ensures
            *outputs == self.binary_output,
    {
        &self.binary_output
    }
}

/// A handler of the IO boards.
pub trait ForeignIo {
    /// The messages that bring the boards up to date.
    fn tick(&mut self) -> Vec<CanMessage>;

    fn get_input_image(&mut self) -> ForeignInputImage;

    fn set_output_image(&mut self, outputs: ForeignOutputImage);
}

/// Why a message could not be made sense of.
#[derive(Copy, Clone, Debug, PartialEq, Eq, Structural)]
pub enum ForeignDataError {
    UnexpectedFormat,
    IoAddrNotMapped,
    OutOfRange,
}

} // verus!

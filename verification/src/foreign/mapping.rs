//! Where the valves and outputs of the propulsion system are connected.

use vstd::prelude::*;

use crate::foreign_io::IoAddr;
use crate::propulsion::ValveId;

verus! {

/// The addresses of the valves, by their numbers. The valves are numbered from one, so that the
/// first entry belongs to none.
#[derive(Copy, Clone, Debug, PartialEq, Eq)]
pub struct ValveIdMap(pub [IoAddr; 6]);

/// The addresses of the pressure sensors.
#[derive(Copy, Clone, Debug, PartialEq, Eq)]
pub struct PressureSensIdMap(pub [IoAddr; 9]);

/// The addresses of the outputs.
#[derive(Copy, Clone, Debug, PartialEq, Eq)]
pub struct BinaryOutputIdMap(pub [IoAddr; 4]);

/// Index of the valves in the store of an IO board.
pub const VALVE_IDX: u16 = 0x2005;

/// Index of the high-current outputs in the store of an IO board.
pub const HC_OUTPUT_IDX: u16 = 0x2006;

/// The board and the subindex to which a valve is connected.
pub open spec fn foreign_valve_place(valve: ValveId) -> (u8, u8) {
    match valve {
        ValveId::PressurantVent => (5, 3),
        ValveId::Pressurization => (5, 3),
        ValveId::OxidizerVent => (4, 1),
        ValveId::OxidizerFill => (6, 3),
        ValveId::Main => (6, 1),
    }
}

/// The board and the subindex to which an output is connected.
pub open spec fn foreign_output_place(output: int) -> (u8, u8) {
    if output == 0 {
        (7, 2)
    } else if output == 1 {
        (7, 3)
    } else {
        (2, 0)
    }
}

/// Where the valves are connected.
pub fn foreign_valve_id_map() -> (map: ValveIdMap)
    ensures
        map.0[0] == (IoAddr { node_id: 0, index: 0, subindex: 0 }),
        forall|valve: ValveId|
            map.0[#[trigger] valve.place() + 1] == (IoAddr {
                node_id: foreign_valve_place(valve).0,
                index: VALVE_IDX,
                subindex: foreign_valve_place(valve).1,
            }),
{
    ValveIdMap(
        [
            IoAddr::new(0, 0, 0),
            // PressurantVent
            IoAddr::new(5, VALVE_IDX, 3),
            // Pressurization
            IoAddr::new(5, VALVE_IDX, 3),
            // OxidizerVent
            IoAddr::new(4, VALVE_IDX, 1),
            // OxidizerFill
            IoAddr::new(6, VALVE_IDX, 3),
            // Main
            IoAddr::new(6, VALVE_IDX, 1),
        ],
    )
}

impl ValveIdMap {
    pub fn get_io_addr(&self, valve_id: ValveId) -> (addr: &IoAddr)
        ensures
            *addr == self.0[valve_id.place() + 1],
    {
        &self.0[valve_id.number()]
    }
}

/// Where the outputs are connected.
pub fn foreign_binary_output_id_map() -> (map: BinaryOutputIdMap)
    ensures
        forall|i: int|
            0 <= i < 4 ==> #[trigger] map.0[i] == (IoAddr {
                node_id: foreign_output_place(i).0,
                index: HC_OUTPUT_IDX,
                subindex: foreign_output_place(i).1,
            }),
{
    BinaryOutputIdMap(
        [
            // Igniter1
            IoAddr::new(7, HC_OUTPUT_IDX, 2),
            // Igniter2
            IoAddr::new(7, HC_OUTPUT_IDX, 3),
            // Camera1
            IoAddr::new(2, HC_OUTPUT_IDX, 0),
            // Camera2
            IoAddr::new(2, HC_OUTPUT_IDX, 0),
        ],
    )
}

} // verus!

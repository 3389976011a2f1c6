//! What the LEDs show, one by one.

use vstd::prelude::*;

use crate::leds::{is_lit, LedState};
use crate::modes::FlightMode;

verus! {

/// Which slots of the cycle the masks in use light.
proof fn lemma_slots(slot: u32)
    requires
        slot < 8,
    ensures
        !is_lit(0, slot),
        is_lit(0xff, slot),
        is_lit(0x01, slot) <==> slot == 0,
        is_lit(0x04, slot) <==> slot == 2,
        is_lit(0x05, slot) <==> slot == 0 || slot == 2,
        is_lit(0x15, slot) <==> slot == 0 || slot == 2 || slot == 4,
{
    assert(0u8 & (1u8 << slot) == 0 && 0xffu8 & (1u8 << slot) != 0) by (bit_vector)
        requires
            slot < 8,
    ;
    assert((0x01u8 & (1u8 << slot) != 0 <==> slot == 0) && (0x04u8 & (1u8 << slot) != 0 <==> slot
        == 2)) by (bit_vector)
        requires
            slot < 8,
    ;
    assert((0x05u8 & (1u8 << slot) != 0 <==> slot == 0 || slot == 2) && (0x15u8 & (1u8 << slot) != 0
        <==> slot == 0 || slot == 2 || slot == 4)) by (bit_vector)
        requires
            slot < 8,
    ;
}

/// Green is on while the vehicle is safe, yellow while it is prepared, and red from `DetectLaunch`
/// to the main parachute. The other two flash in short slots of 150 milliseconds, out of eight.
pub proof fn law_what_each_led_shows(mode: FlightMode, time_ms: u32, state: LedState)
    requires
        call_ensures(LedState::for_mode, (mode, time_ms), state),
    ensures
        ({
            let slot = time_ms as int / 150 % 8;
            let (first, third, fifth) = (slot == 0, slot == 2, slot == 4);
            &&& state.green <==> match mode {
                FlightMode::Idle | FlightMode::Landed => true,
                FlightMode::FillPressurant
                | FlightMode::Vent
                | FlightMode::Hold
                | FlightMode::Coast
                | FlightMode::DeployMain => first,
                FlightMode::FillOxidizer | FlightMode::DeployDrogue => first || third,
                FlightMode::Burn => third,
                FlightMode::Pressurize | FlightMode::DetectLaunch | FlightMode::Ignite => false,
            }
            &&& state.yellow <==> match mode {
                FlightMode::FillPressurant
                | FlightMode::FillOxidizer
                | FlightMode::Vent
                | FlightMode::Pressurize
                | FlightMode::Hold => true,
                FlightMode::Idle
                | FlightMode::DetectLaunch
                | FlightMode::Burn
                | FlightMode::DeployMain => first,
                FlightMode::Ignite => first || third || fifth,
                FlightMode::Landed | FlightMode::Coast | FlightMode::DeployDrogue => false,
            }
            &&& state.red <==> match mode {
                FlightMode::DetectLaunch
                | FlightMode::Ignite
                | FlightMode::Burn
                | FlightMode::Coast
                | FlightMode::DeployDrogue
                | FlightMode::DeployMain => true,
                FlightMode::Pressurize | FlightMode::Hold | FlightMode::Landed => first,
                FlightMode::Vent => third,
                FlightMode::Idle | FlightMode::FillPressurant | FlightMode::FillOxidizer => false,
            }
        }),
{
    lemma_slots((time_ms as int / 150 % 8) as u32);
}

} // verus!

//! The status LEDs on the board.

use vstd::prelude::*;

use crate::modes::FlightMode;

pub mod patterns;

verus! {

/// Duration of a single slot of the repeating blink cycle, in milliseconds.
pub const SLOT_MS: u32 = 150;

/// Number of slots per blink cycle.
pub const SLOTS: u32 = 8;

/// State of the three on-board status LEDs.
#[derive(Copy, Clone, Debug, PartialEq, Eq, Structural)]
pub struct LedState {
    pub red: bool,
    pub yellow: bool,
    pub green: bool,
}

impl Default for LedState {
    fn default() -> (state: Self)
        ensures
            state == (LedState { red: false, yellow: false, green: false }),
    {
        LedState { red: false, yellow: false, green: false }
    }
}

/// The red, yellow and green blink masks of a mode, one bit per slot of the cycle, the first slot
/// in the lowest bit.
pub open spec fn blink_masks(mode: FlightMode) -> (u8, u8, u8) {
    match mode {
        FlightMode::Idle => (0, 0x01, 0xff),
        FlightMode::Landed => (0x01, 0, 0xff),
        FlightMode::FillPressurant => (0, 0xff, 0x01),
        FlightMode::FillOxidizer => (0, 0xff, 0x05),
        FlightMode::Vent => (0x04, 0xff, 0x01),
        FlightMode::Pressurize => (0x01, 0xff, 0),
        FlightMode::Hold => (0x01, 0xff, 0x01),
        FlightMode::DetectLaunch => (0xff, 0x01, 0),
        FlightMode::Ignite => (0xff, 0x15, 0),
        FlightMode::Burn => (0xff, 0x01, 0x04),
        FlightMode::Coast => (0xff, 0, 0x01),
        FlightMode::DeployDrogue => (0xff, 0, 0x05),
        FlightMode::DeployMain => (0xff, 0x01, 0x01),
    }
}

/// Whether a mask lights its LED in the slot.
pub open spec fn is_lit(mask: u8, slot: u32) -> bool {
    mask & (1u8 << slot) != 0
}

/// The slot of the blink cycle at this time.
pub open spec fn slot_at(time_ms: int) -> u32 {
    (time_ms / (SLOT_MS as int) % (SLOTS as int)) as u32
}

/// What the LEDs show in a mode at this time.
pub open spec fn shown(mode: FlightMode, time_ms: int) -> LedState {
    let (red, yellow, green) = blink_masks(mode);
    let slot = slot_at(time_ms);
    LedState { red: is_lit(red, slot), yellow: is_lit(yellow, slot), green: is_lit(green, slot) }
}

impl LedState {
    pub fn for_mode(mode: FlightMode, time_ms: u32) -> (state: Self)
        ensures
            state == shown(mode, time_ms as int),
    {
        let (red, yellow, green) = LedState::masks(mode);
        let slot: u32 = (time_ms / SLOT_MS) % SLOTS;
        let bit: u8 = 1u8 << slot;
        LedState { red: red & bit != 0, yellow: yellow & bit != 0, green: green & bit != 0 }
    }

    /// The red, yellow and green blink masks of a mode, one bit per slot of the cycle, the first
    /// slot in the lowest bit.
    pub fn masks(mode: FlightMode) -> (masks: (u8, u8, u8))
        ensures
            masks == blink_masks(mode),
    {
        match mode {
            FlightMode::Idle => (0, 0b0000_0001, 0xff),
            FlightMode::Landed => (0b0000_0001, 0, 0xff),
            FlightMode::FillPressurant => (0, 0xff, 0b0000_0001),
            FlightMode::FillOxidizer => (0, 0xff, 0b0000_0101),
            FlightMode::Vent => (0b0000_0100, 0xff, 0b0000_0001),
            FlightMode::Pressurize => (0b0000_0001, 0xff, 0),
            FlightMode::Hold => (0b0000_0001, 0xff, 0b0000_0001),
            FlightMode::DetectLaunch => (0xff, 0b0000_0001, 0),
            FlightMode::Ignite => (0xff, 0b0001_0101, 0),
            FlightMode::Burn => (0xff, 0b0000_0001, 0b0000_0100),
            FlightMode::Coast => (0xff, 0, 0b0000_0001),
            FlightMode::DeployDrogue => (0xff, 0, 0b0000_0101),
            FlightMode::DeployMain => (0xff, 0b0000_0001, 0b0000_0001),
        }
    }
}

/// A mask that lights its LED in every slot.
pub open spec fn is_solid(mask: u8) -> bool {
    forall|slot: u32| slot < SLOTS ==> #[trigger] is_lit(mask, slot)
}

/// A mask that lights its LED in some slots and not in others.
pub open spec fn is_flashing(mask: u8) -> bool {
    &&& exists|slot: u32| slot < SLOTS && #[trigger] is_lit(mask, slot)
    &&& exists|slot: u32| slot < SLOTS && !#[trigger] is_lit(mask, slot)
}

proof fn lemma_masks()
    ensures
        is_solid(0xff),
        forall|slot: u32| slot < SLOTS ==> !#[trigger] is_lit(0, slot),
        is_flashing(0x01),
        is_flashing(0x04),
        is_flashing(0x05),
        is_flashing(0x15),
{
    assert(forall|slot: u32| slot < 8 ==> 0xffu8 & (1u8 << slot) != 0) by (bit_vector);
    assert(forall|slot: u32| slot < 8 ==> 0u8 & (1u8 << slot) == 0) by (bit_vector);
    assert(0x01u8 & (1u8 << 0u32) != 0 && 0x05u8 & (1u8 << 0u32) != 0 && 0x15u8 & (1u8 << 0u32) != 0
        && 0x04u8 & (1u8 << 2u32) != 0 && 0x01u8 & (1u8 << 1u32) == 0 && 0x05u8 & (1u8 << 1u32) == 0
        && 0x15u8 & (1u8 << 1u32) == 0 && 0x04u8 & (1u8 << 1u32) == 0) by (bit_vector);
    assert(is_lit(0x01, 0) && is_lit(0x05, 0) && is_lit(0x15, 0) && is_lit(0x04, 2));
    assert(!is_lit(0x01, 1) && !is_lit(0x05, 1) && !is_lit(0x15, 1) && !is_lit(0x04, 1));
}

/// In every mode exactly one LED is lit continuously, and at least one flashes.
pub proof fn law_one_led_is_solid_and_one_flashes(mode: FlightMode)
    ensures
        ({
            let (red, yellow, green) = blink_masks(mode);
            &&& is_solid(red) || is_solid(yellow) || is_solid(green)
            &&& !(is_solid(red) && is_solid(yellow))
            &&& !(is_solid(red) && is_solid(green))
            &&& !(is_solid(yellow) && is_solid(green))
            &&& is_flashing(red) || is_flashing(yellow) || is_flashing(green)
        }),
{
    lemma_masks();
    assert(!is_lit(0, 0));
}

/// No two modes share a pattern: over a cycle, they can be told apart.
pub proof fn law_modes_are_distinguishable(a: FlightMode, b: FlightMode)
    requires
        a != b,
    ensures
        exists|time_ms: int|
            0 <= time_ms < SLOT_MS * SLOTS && #[trigger] shown(a, time_ms) != shown(b, time_ms),
{
    assert(0x01u8 & (1u8 << 0u32) != 0 && 0x05u8 & (1u8 << 0u32) != 0 && 0x15u8 & (1u8 << 0u32) != 0
        && 0x04u8 & (1u8 << 0u32) == 0 && 0xffu8 & (1u8 << 0u32) != 0 && 0u8 & (1u8 << 0u32) == 0)
        by (bit_vector);
    assert(0x01u8 & (1u8 << 2u32) == 0 && 0x05u8 & (1u8 << 2u32) != 0 && 0x15u8 & (1u8 << 2u32) != 0
        && 0x04u8 & (1u8 << 2u32) != 0 && 0xffu8 & (1u8 << 2u32) != 0 && 0u8 & (1u8 << 2u32) == 0)
        by (bit_vector);
    assert(0x01u8 & (1u8 << 4u32) == 0 && 0x05u8 & (1u8 << 4u32) == 0 && 0x15u8 & (1u8 << 4u32) != 0
        && 0x04u8 & (1u8 << 4u32) == 0 && 0xffu8 & (1u8 << 4u32) != 0 && 0u8 & (1u8 << 4u32) == 0)
        by (bit_vector);
    assert(slot_at(0) == 0 && slot_at(300) == 2 && slot_at(600) == 4);
    if shown(a, 0) == shown(b, 0) && shown(a, 300) == shown(b, 300) {
        assert(shown(a, 600) != shown(b, 600));
    }
}

/// The pattern repeats with every cycle.
pub proof fn law_the_pattern_repeats_every_cycle(mode: FlightMode, time_ms: int)
    requires
        time_ms >= 0,
    ensures
        shown(mode, time_ms + SLOT_MS * SLOTS) == shown(mode, time_ms),
{
    assert((time_ms + 1200) / 150 % 8 == time_ms / 150 % 8);
}

} // verus!

//! Lists the flight modes for the ground, which shows them for selection.

use vstd::prelude::*;

use crate::modes::FlightMode;

verus! {

/// The time between two modes of a list \[ms\].
pub const MODE_PAUSE_MS: u64 = 50;

/// What the ground is told of a mode.
#[derive(Copy, Clone, Debug, PartialEq, Eq, Structural)]
pub struct ModeProperties {
    pub advanced: bool,
    pub not_user_selectable: bool,
    pub auto_mode: bool,
}

impl ModeProperties {
    /// The properties as the flags of `MAV_MODE_PROPERTY`.
    pub fn bits(&self) -> (bits: u32)
        ensures
            bits == (if self.advanced {
                1int
            } else {
                0
            }) + (if self.not_user_selectable {
                2int
            } else {
                0
            }) + (if self.auto_mode {
                4int
            } else {
                0
            }),
    {
        let advanced: u32 = if self.advanced {
            1
        } else {
            0
        };
        let not_user_selectable: u32 = if self.not_user_selectable {
            2
        } else {
            0
        };
        let auto_mode: u32 = if self.auto_mode {
            4
        } else {
            0
        };
        advanced + not_user_selectable + auto_mode
    }
}

/// The modes of a hybrid engine: a solid motor is neither filled nor pressurized, and ignited from
/// outside.
pub open spec fn is_hybrid_only(mode: FlightMode) -> bool {
    match mode {
        FlightMode::FillPressurant
        | FlightMode::FillOxidizer
        | FlightMode::Vent
        | FlightMode::Pressurize
        | FlightMode::Hold
        | FlightMode::Ignite => true,
        _ => false,
    }
}

/// What the ground is told of a mode, on a vehicle with a hybrid engine or without.
pub open spec fn properties_of(mode: FlightMode, hybrid: bool) -> ModeProperties {
    ModeProperties {
        not_user_selectable: if hybrid {
            mode is DetectLaunch
        } else {
            is_hybrid_only(mode)
        },
        advanced: !(mode is Idle || mode is Landed),
        auto_mode: mode is Burn || mode is Coast || mode is DeployDrogue || mode is DeployMain,
    }
}

/// What the ground is told of a mode, on a vehicle with a hybrid engine or without.
pub fn mode_properties(mode: FlightMode, hybrid: bool) -> (properties: ModeProperties)
    ensures
        properties == properties_of(mode, hybrid),
{
    let not_user_selectable = match mode {
        FlightMode::DetectLaunch => hybrid,
        FlightMode::FillPressurant
        | FlightMode::FillOxidizer
        | FlightMode::Vent
        | FlightMode::Pressurize
        | FlightMode::Hold
        | FlightMode::Ignite => !hybrid,
        _ => false,
    };
    let advanced = match mode {
        FlightMode::Idle | FlightMode::Landed => false,
        _ => true,
    };
    let auto_mode = match mode {
        FlightMode::Burn
        | FlightMode::Coast
        | FlightMode::DeployDrogue
        | FlightMode::DeployMain => true,
        _ => false,
    };
    ModeProperties { advanced, not_user_selectable, auto_mode }
}

/// One entry of the list of modes.
#[derive(Copy, Clone, Debug, PartialEq, Eq, Structural)]
pub struct AvailableMode {
    pub number_modes: u8,
    /// The first mode has index one.
    pub mode_index: u8,
    pub custom_mode: u32,
    pub properties: ModeProperties,
    pub mode: FlightMode,
}

/// The entry with this index.
pub open spec fn entry(index: int, hybrid: bool) -> AvailableMode {
    AvailableMode {
        number_modes: 13,
        mode_index: index as u8,
        custom_mode: (index - 1) as u32,
        properties: properties_of(FlightMode::ALL@[index - 1], hybrid),
        mode: FlightMode::ALL@[index - 1],
    }
}

fn available_mode(index: usize, hybrid: bool) -> (available: AvailableMode)
    requires
        1 <= index <= 13,
    ensures
        available == entry(index as int, hybrid),
{
    let mode = FlightMode::ALL[index - 1];
    AvailableMode {
        number_modes: 13,
        mode_index: index as u8,
        custom_mode: mode.number() as u32,
        properties: mode_properties(mode, hybrid),
        mode,
    }
}

/// The entries to send when the mode with this index is requested: all of them for index zero, and
/// none for an index beyond the last.
pub fn available_modes(index: usize, hybrid: bool) -> (entries: Vec<AvailableMode>)
    ensures
        index == 0 ==> entries@ == Seq::new(13, |k: int| entry(k + 1, hybrid)),
        1 <= index <= 13 ==> entries@ == seq![entry(index as int, hybrid)],
        index > 13 ==> entries@ == Seq::<AvailableMode>::empty(),
{
    let mut entries: Vec<AvailableMode> = Vec::new();
    if index == 0 {
        let mut k: usize = 0;
        while k < 13
            invariant
                k <= 13,
                entries@ == Seq::new(k as nat, |j: int| entry(j + 1, hybrid)),
            decreases 13 - k,
        {
            entries.push(available_mode(k + 1, hybrid));
            k += 1;
            assert(entries@ =~= Seq::new(k as nat, |j: int| entry(j + 1, hybrid)));
        }
    } else if index <= 13 {
        entries.push(available_mode(index, hybrid));
        assert(entries@ =~= seq![entry(index as int, hybrid)]);
    }
    entries
}

/// How long to wait after each entry that is sent when the mode with this index is requested
/// \[ms\]: a list of all of them is paced.
pub fn mode_pause_ms(index: usize) -> (pause: u64)
    ensures
        pause == (if index == 0 {
            MODE_PAUSE_MS
        } else {
            0
        }),
{
    if index == 0 {
        MODE_PAUSE_MS
    } else {
        0
    }
}

/// Whatever the engine, the vehicle can be brought to rest and the end of a flight shown, and the
/// modes that the vehicle enters on its own are marked.
pub proof fn law_mode_properties(mode: FlightMode, hybrid: bool)
    ensures
        mode is Idle || mode is Landed ==> {
            &&& !properties_of(mode, hybrid).advanced
            &&& !properties_of(mode, hybrid).not_user_selectable
        },
        properties_of(mode, hybrid).auto_mode <==> mode.is_airborne() && !(mode is Landed),
{
}

} // verus!

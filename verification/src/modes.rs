//! The flight modes, in flight order.

use vstd::prelude::*;

verus! {

/// What the vehicle is doing. The modes before [`FlightMode::DetectLaunch`] are ground modes,
/// those from [`FlightMode::Burn`] on follow liftoff.
#[derive(Copy, Clone, Debug, PartialEq, Eq, Structural)]
pub enum FlightMode {
    Idle,
    FillPressurant,
    FillOxidizer,
    Vent,
    Pressurize,
    Hold,
    DetectLaunch,
    Ignite,
    Burn,
    Coast,
    DeployDrogue,
    DeployMain,
    Landed,
}

/// How many modes there are.
pub const MODE_COUNT: usize = 13;

impl FlightMode {
    /// All modes, by number.
    pub const ALL: [Self; 13] = [
        Self::Idle,
        Self::FillPressurant,
        Self::FillOxidizer,
        Self::Vent,
        Self::Pressurize,
        Self::Hold,
        Self::DetectLaunch,
        Self::Ignite,
        Self::Burn,
        Self::Coast,
        Self::DeployDrogue,
        Self::DeployMain,
        Self::Landed,
    ];

    /// The mode's number, on the wire and in the flight order.
    pub open spec fn code(self) -> int {
        self as int
    }

    /// `self` comes before `other` in flight order.
    pub open spec fn precedes(self, other: Self) -> bool {
        self.code() < other.code()
    }

    /// A mode in which the vehicle stands on the pad.
    pub open spec fn is_ground(self) -> bool {
        self.precedes(FlightMode::DetectLaunch)
    }

    /// A mode that follows liftoff.
    pub open spec fn is_airborne(self) -> bool {
        !self.precedes(FlightMode::Burn)
    }

    pub fn number(self) -> (number: u8)
        ensures
            number == self.code(),
            number < MODE_COUNT,
    {
        self as u8
    }

    /// The mode with this number.
    pub fn from_number(number: u32) -> (mode: Option<Self>)
        ensures
            match mode {
                Some(mode) => mode.code() == number,
                None => number >= MODE_COUNT,
            },
    {
        if (number as usize) < MODE_COUNT {
            Some(Self::ALL[number as usize])
        } else {
            None
        }
    }

    /// Whether `self` comes before `other` in flight order.
    pub fn is_before(self, other: Self) -> (before: bool)
        ensures
            before == self.precedes(other),
    {
        self.number() < other.number()
    }
}

/// The numbers are dense and [`FlightMode::ALL`] lists the modes by number.
pub proof fn law_all_modes_by_number()
    ensures
        forall|i: int| 0 <= i < MODE_COUNT ==> (#[trigger] FlightMode::ALL@[i]).code() == i,
        forall|mode: FlightMode|
            0 <= #[trigger] mode.code() < MODE_COUNT && FlightMode::ALL@[mode.code()] == mode,
{
}

} // verus!

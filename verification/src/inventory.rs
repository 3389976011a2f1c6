//! The inventory of off-board vehicle components addressed by the flight computer.
//!
//! Identifiers for every valve, sensor and output, and [`InventoryMap`] for storing one value per
//! component.

use core::marker::PhantomData;
use core::ops::Index;
use vstd::prelude::*;

verus! {

/// An identifier that can key an [`InventoryMap`]: `N` variants, each with its own dense index in
/// `0..N`.
pub trait InventoryId<const N: usize>: Copy {
    /// All variants, in index order (`ALL[i].idx() == i`).
    const ALL: [Self; N];

    /// The storage index.
    spec fn index_of(self) -> int;

    /// Dense storage index. Not necessarily the number on the wire.
    fn idx(self) -> (i: usize)
        ensures
            i == self.index_of(),
            i < N,
    ;

    /// The index is dense and [`Self::ALL`] lists the variants in its order.
    proof fn law_all_is_in_index_order()
        ensures
            forall|i: int| 0 <= i < N ==> (#[trigger] Self::ALL@[i]).index_of() == i,
            forall|id: Self| 0 <= #[trigger] id.index_of() < N && Self::ALL@[id.index_of()] == id,
    ;
}

/// A valve on the vehicle or on the ground support equipment.
#[derive(Copy, Clone, PartialEq, Eq, Debug, Structural)]
pub enum ValveId {
    PressurantVent,
    Pressurization,
    OxidizerVent,
    OxidizerFill,
    Main,
    ExternalPressurantFill,
    ExternalOxidizerFill,
    ExternalPressurantVent,
    ExternalOxidizerVent,
}

/// A valve as the ground names it: one of the inventory, or one of ten that the protocol has
/// numbers for and that no map of valves has a place for.
#[derive(Copy, Clone, PartialEq, Eq, Debug, Structural)]
pub enum ValveTarget {
    Listed(ValveId),
    /// Counted from one.
    Extra(u8),
}

/// A pressure vessel.
#[derive(Copy, Clone, PartialEq, Eq, Debug, Structural)]
pub enum TankId {
    Pressurant,
    Oxidizer,
    CombustionChamber,
    RegulatedPressurant,
    ExternalPressurant,
    ExternalOxidizer,
}

/// Every temperature sensor on the IO boards.
#[derive(Copy, Clone, PartialEq, Eq, Debug, Structural)]
pub enum TempSensId {
    OxTankUpper,
    OxTankLower,
}

/// Every pressure sensor on the IO boards.
#[derive(Copy, Clone, PartialEq, Eq, Debug, Structural)]
pub enum PressSensId {
    Nosecone,
    PressurantTank,
    PReg1,
    PReg2,
    OxTankUpper,
    OxTankLower,
    CombustionChamber,
    ExternalPressurant,
    ExternalOxidizer,
}

/// Every output that is only ever on or off.
#[derive(Copy, Clone, PartialEq, Eq, Debug, Structural)]
pub enum BinaryOutputId {
    Igniter1,
    Igniter2,
    Camera1,
    Camera2,
}

/// What a pressure vessel holds.
#[derive(Copy, Clone, PartialEq, Eq, Debug, Structural)]
pub enum FluidType {
    Nitrogen,
    NitrousOxide,
    Combustion,
}

impl InventoryId<9> for ValveId {
    const ALL: [Self; 9] = [
        Self::PressurantVent,
        Self::Pressurization,
        Self::OxidizerVent,
        Self::OxidizerFill,
        Self::Main,
        Self::ExternalPressurantFill,
        Self::ExternalOxidizerFill,
        Self::ExternalPressurantVent,
        Self::ExternalOxidizerVent,
    ];

    open spec fn index_of(self) -> int {
        self as int
    }

    fn idx(self) -> (i: usize) {
        self as usize
    }

    proof fn law_all_is_in_index_order() {
    }
}

impl InventoryId<2> for TempSensId {
    const ALL: [Self; 2] = [
        Self::OxTankUpper,
        Self::OxTankLower,
    ];

    open spec fn index_of(self) -> int {
        self as int
    }

    fn idx(self) -> (i: usize) {
        self as usize
    }

    proof fn law_all_is_in_index_order() {
    }
}

impl InventoryId<9> for PressSensId {
    const ALL: [Self; 9] = [
        Self::Nosecone,
        Self::PressurantTank,
        Self::PReg1,
        Self::PReg2,
        Self::OxTankUpper,
        Self::OxTankLower,
        Self::CombustionChamber,
        Self::ExternalPressurant,
        Self::ExternalOxidizer,
    ];

    open spec fn index_of(self) -> int {
        self as int
    }

    fn idx(self) -> (i: usize) {
        self as usize
    }

    proof fn law_all_is_in_index_order() {
    }
}

impl InventoryId<4> for BinaryOutputId {
    const ALL: [Self; 4] = [
        Self::Igniter1,
        Self::Igniter2,
        Self::Camera1,
        Self::Camera2,
    ];

    open spec fn index_of(self) -> int {
        self as int
    }

    fn idx(self) -> (i: usize) {
        self as usize
    }

    proof fn law_all_is_in_index_order() {
    }
}

impl InventoryId<6> for TankId {
    const ALL: [Self; 6] = [
        Self::Pressurant,
        Self::Oxidizer,
        Self::CombustionChamber,
        Self::RegulatedPressurant,
        Self::ExternalPressurant,
        Self::ExternalOxidizer,
    ];

    open spec fn index_of(self) -> int {
        self as int
    }

    fn idx(self) -> (i: usize) {
        self as usize
    }

    proof fn law_all_is_in_index_order() {
    }
}

/// Properties of a pressure vessel that are reported along with its readings.
#[derive(Copy, Clone, PartialEq, Eq, Debug, Structural)]
pub struct PressureVesselFlag {
    /// The vessel belongs to the ground support equipment.
    pub external: bool,
}

impl TankId {
    /// The vessel stands on the ground, not in the vehicle.
    pub open spec fn is_external(self) -> bool {
        self is ExternalPressurant || self is ExternalOxidizer
    }

    pub fn flags(&self) -> (flags: PressureVesselFlag)
        ensures
            flags.external == self.is_external(),
    {
        match self {
            TankId::ExternalPressurant | TankId::ExternalOxidizer => PressureVesselFlag {
                external: true,
            },
            TankId::Pressurant
            | TankId::Oxidizer
            | TankId::CombustionChamber
            | TankId::RegulatedPressurant => PressureVesselFlag { external: false },
        }
    }

    /// The volume in whole litres.
    pub open spec fn volume(self) -> u16 {
        match self {
            TankId::Pressurant => 2,
            TankId::Oxidizer => 8,
            TankId::CombustionChamber => 0,
            TankId::RegulatedPressurant => 0,
            TankId::ExternalPressurant => 50,
            TankId::ExternalOxidizer => 40,
        }
    }

    /// Volume in whole litres.
    pub fn volume_l(&self) -> (litres: u16)
        ensures
            litres == self.volume(),
    {
        match self {
            TankId::Pressurant => 2,
            TankId::Oxidizer => 8,
            TankId::CombustionChamber | TankId::RegulatedPressurant => 0,
            TankId::ExternalPressurant => 50,
            TankId::ExternalOxidizer => 40,
        }
    }

    /// What the vessel is filled with.
    pub open spec fn content(self) -> FluidType {
        match self {
            TankId::Pressurant => FluidType::Nitrogen,
            TankId::Oxidizer => FluidType::NitrousOxide,
            TankId::CombustionChamber => FluidType::Combustion,
            TankId::RegulatedPressurant => FluidType::Nitrogen,
            TankId::ExternalPressurant => FluidType::Nitrogen,
            TankId::ExternalOxidizer => FluidType::NitrousOxide,
        }
    }

    pub fn fluid(&self) -> (fluid: FluidType)
        ensures
            fluid == self.content(),
    {
        match self {
            TankId::Pressurant | TankId::RegulatedPressurant | TankId::ExternalPressurant => {
                FluidType::Nitrogen
            },
            TankId::Oxidizer | TankId::ExternalOxidizer => FluidType::NitrousOxide,
            TankId::CombustionChamber => FluidType::Combustion,
        }
    }

    /// The highest pressure the vessel is rated for, in whole bar.
    pub open spec fn pressure_rating(self) -> u16 {
        match self {
            TankId::Pressurant => 300,
            TankId::Oxidizer => 55,
            TankId::CombustionChamber => 55,
            TankId::RegulatedPressurant => 60,
            TankId::ExternalPressurant => 300,
            TankId::ExternalOxidizer => 55,
        }
    }

    /// Pressure rating in whole bar.
    pub fn pressure_rating_bar(&self) -> (bar: u16)
        ensures
            bar == self.pressure_rating(),
    {
        match self {
            TankId::Pressurant | TankId::ExternalPressurant => 300,
            TankId::RegulatedPressurant => 60,
            TankId::Oxidizer | TankId::CombustionChamber | TankId::ExternalOxidizer => 55,
        }
    }

    /// The pressure sensors that look into the vessel.
    pub open spec fn pressure_sensor_pair(self) -> (Option<PressSensId>, Option<PressSensId>) {
        match self {
            TankId::Pressurant => (Some(PressSensId::PressurantTank), None),
            TankId::Oxidizer => (Some(PressSensId::OxTankUpper), Some(PressSensId::OxTankLower)),
            TankId::CombustionChamber => (Some(PressSensId::CombustionChamber), None),
            TankId::RegulatedPressurant => (Some(PressSensId::PReg1), Some(PressSensId::PReg2)),
            TankId::ExternalPressurant => (Some(PressSensId::ExternalPressurant), None),
            TankId::ExternalOxidizer => (Some(PressSensId::ExternalOxidizer), None),
        }
    }

    pub fn pressure_sensors(&self) -> (sensors: [Option<PressSensId>; 2])
        ensures
            sensors[0] == self.pressure_sensor_pair().0,
            sensors[1] == self.pressure_sensor_pair().1,
    {
        match self {
            TankId::Pressurant => [Some(PressSensId::PressurantTank), None],
            TankId::Oxidizer => [Some(PressSensId::OxTankUpper), Some(PressSensId::OxTankLower)],
            TankId::CombustionChamber => [Some(PressSensId::CombustionChamber), None],
            TankId::RegulatedPressurant => [Some(PressSensId::PReg1), Some(PressSensId::PReg2)],
            TankId::ExternalPressurant => [Some(PressSensId::ExternalPressurant), None],
            TankId::ExternalOxidizer => [Some(PressSensId::ExternalOxidizer), None],
        }
    }

    /// The temperature sensors that look into the vessel.
    pub open spec fn temperature_sensor_pair(self) -> (Option<TempSensId>, Option<TempSensId>) {
        if self is Oxidizer {
            (Some(TempSensId::OxTankUpper), Some(TempSensId::OxTankLower))
        } else {
            (None, None)
        }
    }

    pub fn temperature_sensors(&self) -> (sensors: [Option<TempSensId>; 2])
        ensures
            sensors[0] == self.temperature_sensor_pair().0,
            sensors[1] == self.temperature_sensor_pair().1,
    {
        match self {
            TankId::Oxidizer => [Some(TempSensId::OxTankUpper), Some(TempSensId::OxTankLower)],
            TankId::Pressurant
            | TankId::CombustionChamber
            | TankId::RegulatedPressurant
            | TankId::ExternalPressurant
            | TankId::ExternalOxidizer => [None, None],
        }
    }
}

/// A fixed-size array indexed by an identifier.
pub struct InventoryMap<I, T, const N: usize> {
    values: [T; N],
    ids: PhantomData<I>,
}

pub type ValveMap<T> = InventoryMap<ValveId, T, 9>;

pub type TemperatureSensorMap<T> = InventoryMap<TempSensId, T, 2>;

pub type PressureSensorMap<T> = InventoryMap<PressSensId, T, 9>;

pub type BinaryOutputMap<T> = InventoryMap<BinaryOutputId, T, 4>;

pub type TankMap<T> = InventoryMap<TankId, T, 6>;

impl<I, T: Copy, const N: usize> Copy for InventoryMap<I, T, N> {

}

impl<I, T: Copy, const N: usize> Clone for InventoryMap<I, T, N> {
    fn clone(&self) -> (copy: Self)
        ensures
            copy == *self,
    {
        *self
    }
}

impl<I, T, const N: usize> View for InventoryMap<I, T, N> {
    type V = Seq<T>;

    closed spec fn view(&self) -> Seq<T> {
        self.values@
    }
}

/// A map holds one value per component.
pub broadcast proof fn law_map_has_one_value_per_component<I, T, const N: usize>(
    map: InventoryMap<I, T, N>,
)
    ensures
        #[trigger] map@.len() == N,
{
}

impl<I: InventoryId<N>, T, const N: usize> InventoryMap<I, T, N> {
    /// The value of component `id`.
    pub open spec fn at(self, id: I) -> T {
        self@[id.index_of()]
    }

    pub fn new(values: [T; N]) -> (map: Self)
        ensures
            map@ == values@,
    {
        InventoryMap { values, ids: PhantomData }
    }

    pub fn get(&self, id: I) -> (value: &T)
        ensures
            *value == self.at(id),
    {
        &self.values[id.idx()]
    }

    pub fn set(&mut self, id: I, value: T)
        ensures
            final(self)@ == old(self)@.update(id.index_of(), value),
    {
        let i: usize = id.idx();
        self.values[i] = value;
    }

    /// The map that holds `f(id)` for every `id`.
    pub fn from_fn<F: FnMut(I) -> T>(f: F) -> (map: Self)
        requires
            forall|id: I| call_requires(f, (id,)),
        ensures
            forall|id: I| call_ensures(f, (id,), #[trigger] map.at(id)),
    {
        proof {
            I::law_all_is_in_index_order();
        }
        let values: [T; N] = map_array(I::ALL, f);
        let map = Self::new(values);
        assert forall|id: I| call_ensures(f, (id,), #[trigger] map.at(id)) by {
            let i = id.index_of();
            assert(values@[i] == map.at(id));
            assert(I::ALL@[i] == id);
        }
        map
    }

    /// The entries with their identifiers, in index order.
    pub fn iter(&self) -> (entries: Vec<(I, &T)>)
        ensures
            entries.len() == N,
            forall|i: int|
                0 <= i < N ==> (#[trigger] entries[i]).0 == I::ALL@[i] && *entries[i].1 == self@[i],
    {
        let mut entries: Vec<(I, &T)> = Vec::new();
        let mut i: usize = 0;
        while i < N
            invariant
                i <= N,
                entries.len() == i,
                forall|j: int|
                    0 <= j < i ==> (#[trigger] entries[j]).0 == I::ALL@[j] && *entries[j].1
                        == self@[j],
            decreases N - i,
        {
            entries.push((I::ALL[i], &self.values[i]));
            i += 1;
        }
        entries
    }

    /// The values in index order.
    pub fn values(&self) -> (values: &[T; N])
        ensures
            values@ == self@,
    {
        &self.values
    }

    /// Visit every entry together with its identifier.
    pub fn update<F: FnMut(I, &mut T)>(&mut self, mut f: F)
        requires
            forall|id: I, value: &mut T| call_requires(f, (id, value)),
        ensures
            forall|id: I|
                0 <= #[trigger] id.index_of() < N ==> exists|value: &mut T|
                    *value == old(self).at(id) && *final(value) == final(self).at(id)
                        && #[trigger] call_ensures(f, (id, value), ()),
    {
        proof {
            I::law_all_is_in_index_order();
        }
        let ghost given = f;
        let mut i: usize = 0;
        while i < N
            invariant
                i <= N,
                f == given,
                forall|id: I, value: &mut T| call_requires(f, (id, value)),
                forall|j: int| 0 <= j < N ==> (#[trigger] I::ALL@[j]).index_of() == j,
                forall|id: I| 0 <= #[trigger] id.index_of() < N && I::ALL@[id.index_of()] == id,
                forall|j: int| i <= j < N ==> self@[j] == old(self)@[j],
                forall|id: I|
                    0 <= #[trigger] id.index_of() < i ==> exists|value: &mut T|
                        *value == old(self).at(id) && *final(value) == self.at(id)
                            && #[trigger] call_ensures(f, (id, value), ()),
            decreases N - i,
        {
            let ghost before = self@;
            f(I::ALL[i], &mut self.values[i]);
            assert(forall|j: int| 0 <= j < N && j != i ==> self@[j] == before[j]);
            i += 1;
        }
    }
}

impl<I: InventoryId<N>, T: Copy, const N: usize> InventoryMap<I, T, N> {
    /// The same value for every component.
    pub fn splat(value: T) -> (map: Self)
        ensures
            forall|i: int| 0 <= i < N ==> #[trigger] map@[i] == value,
    {
        Self::new([value;N])
    }
}

/// The standard library's `map` on arrays: each element of the result is what `f` gives for the
/// element of `array` at the same place.
#[verifier::external_body]
fn map_array<T, U, F: FnMut(T) -> U, const N: usize>(array: [T; N], f: F) -> (mapped: [U; N])
    requires
        forall|i: int| 0 <= i < N ==> call_requires(f, (#[trigger] array@[i],)),
    ensures
        forall|i: int| 0 <= i < N ==> call_ensures(f, (array@[i],), #[trigger] mapped@[i]),
{
    array.map(f)
}

impl<I: InventoryId<N>, T, const N: usize> Index<I> for InventoryMap<I, T, N> {
    type Output = T;

    fn index(&self, id: I) -> (value: &T)
        ensures
            *value == self.at(id),
    {
        self.get(id)
    }
}

} // verus!

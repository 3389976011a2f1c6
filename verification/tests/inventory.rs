use zenith::inventory::{
    BinaryOutputId, FluidType, InventoryId, InventoryMap, PressSensId, TankId, TempSensId, ValveId,
};
use zenith::propulsion::{ALL_BINARY_OUTPUTS, ALL_PRESS_SENS, ALL_TANKS, ALL_TEMP_SENS, ALL_VALVES};

// InventoryMap storage relies on the ALL lists being in index order
#[test]
fn id_lists_are_in_index_order() {
    fn check<I: InventoryId<N>, const N: usize>() {
        for (i, id) in I::ALL.into_iter().enumerate() {
            assert_eq!(id.idx(), i);
        }
    }
    check::<ValveId, 9>();
    check::<TempSensId, 2>();
    check::<PressSensId, 9>();
    check::<BinaryOutputId, 4>();
    check::<TankId, 6>();
}

#[test]
fn a_map_holds_one_value_per_component() {
    let mut map: InventoryMap<ValveId, u32, 9> = InventoryMap::from_fn(|id: ValveId| 10 * id.idx() as u32);
    assert_eq!(map[ValveId::Main], 40);
    map.set(ValveId::Main, 7);
    assert_eq!(*map.get(ValveId::Main), 7);
    assert_eq!(map[ValveId::OxidizerFill], 30);
    map.update(|id: ValveId, value: &mut u32| *value += id.idx() as u32);
    assert_eq!(map[ValveId::Main], 11);
    assert_eq!(map[ValveId::OxidizerFill], 33);
    let mut seen = Vec::new();
    map.update(|id: ValveId, _value: &mut u32| seen.push(id));
    assert_eq!(seen, ValveId::ALL.to_vec());
    let entries = map.iter();
    assert_eq!(entries.len(), 9);
    assert_eq!(entries[4], (ValveId::Main, &11));
}

#[test]
fn tanks_know_what_they_hold() {
    assert_eq!(TankId::Oxidizer.fluid(), FluidType::NitrousOxide);
    assert_eq!(TankId::Pressurant.fluid(), FluidType::Nitrogen);
    assert_eq!(TankId::CombustionChamber.fluid(), FluidType::Combustion);
    assert!(TankId::ExternalOxidizer.flags().external);
    assert!(!TankId::Oxidizer.flags().external);
}

#[test]
fn the_propulsion_system_lists_its_components() {
    assert_eq!(ALL_TEMP_SENS.len(), 2);
    assert_eq!(ALL_PRESS_SENS.len(), 9);
    assert_eq!(ALL_BINARY_OUTPUTS.len(), 4);
    assert_eq!(ALL_TANKS.len(), 3);
    for (i, valve) in ALL_VALVES.iter().enumerate() {
        assert_eq!(valve.number(), i + 1);
    }
}

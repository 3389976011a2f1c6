use zenith::leds::{LedState, SLOTS, SLOT_MS};
use zenith::modes::FlightMode;

#[test]
fn every_mode_has_one_solid_and_something_flashing() {
    for mode in FlightMode::ALL {
        let (red, yellow, green) = LedState::masks(mode);

        let solid = [red, yellow, green].iter().filter(|m| **m == 0xff).count();
        assert_eq!(solid, 1, "{mode:?} must light exactly one LED continuously");

        let flashing = [red, yellow, green]
            .iter()
            .filter(|m| **m != 0xff && **m != 0)
            .count();
        assert!(flashing > 0, "{mode:?} must flash at least one LED");
    }
}

#[test]
fn modes_are_distinguishable() {
    for (i, a) in FlightMode::ALL.iter().enumerate() {
        for b in &FlightMode::ALL[i + 1..] {
            assert_ne!(
                LedState::masks(*a),
                LedState::masks(*b),
                "{a:?} and {b:?} share a LED pattern"
            );
        }
    }
}

#[test]
fn pattern_repeats_every_cycle() {
    let cycle = SLOT_MS * SLOTS;
    for mode in FlightMode::ALL {
        for t in 0..cycle {
            assert_eq!(
                LedState::for_mode(mode, t),
                LedState::for_mode(mode, t + cycle)
            );
        }
    }
}

#[test]
fn the_lowest_bit_is_the_first_slot() {
    // Ignite: red is solid, yellow flashes in every other of the first six slots.
    let lit: Vec<bool> = (0..8)
        .map(|slot| LedState::for_mode(FlightMode::Ignite, slot * SLOT_MS + 149).yellow)
        .collect();
    assert_eq!(
        lit,
        vec![true, false, true, false, true, false, false, false]
    );
    assert_eq!(
        LedState::for_mode(FlightMode::Vent, 300),
        LedState {
            red: true,
            yellow: true,
            green: false
        }
    );
    assert_eq!(
        LedState::default(),
        LedState {
            red: false,
            yellow: false,
            green: false
        }
    );
}

use zenith::schedule::{allocate, try_allocate, ScheduleError, Slot};

/// Both guarantees, re-derived the expensive and obvious way: walk every tick of the cycle and
/// count, rather than trusting the occupancy map that produced the slots.
fn check(intervals: &[u32], slots: &[Slot]) {
    let cycle = intervals.iter().copied().max().unwrap_or(0);

    for tick in 0..cycle {
        let due = slots
            .iter()
            .filter(|s| tick % s.interval_ms == s.phase_ms)
            .count();
        assert!(due <= 1, "tick {tick} of {cycle} has {due} messages due");
        assert_eq!(slots.iter().filter(|s| s.is_due(tick)).count(), due);
    }

    for (interval, slot) in intervals.iter().zip(slots) {
        assert_eq!(
            slot.interval_ms, *interval,
            "slots came back out of declaration order"
        );
        let sends = (0..cycle)
            .filter(|t| t % slot.interval_ms == slot.phase_ms)
            .count();
        assert_eq!(
            sends as u32,
            cycle / interval,
            "{interval} ms message sent {sends} times per {cycle} ms"
        );
    }
}

#[test]
fn the_flight_schedule_fits() {
    // 2 at 10 ms, 7 sensor, 1 battery, 4 at 500, 2 at 1000, 6 tanks and 9 valves at 200.
    let intervals = [
        10, 10, 100, 100, 100, 100, 100, 100, 100, 200, 500, 500, 500, 500, 1000, 1000, 200, 200,
        200, 200, 200, 200, 200, 200, 200, 200, 200, 200, 200, 200, 200, 200,
    ];
    check(&intervals, &allocate(intervals));
}

#[test]
fn phases_do_not_depend_on_declaration_order() {
    let mut a = allocate([1000, 100, 200, 100, 500, 100]).map(|s| (s.interval_ms, s.phase_ms));
    let mut b = allocate([100, 100, 100, 200, 500, 1000]).map(|s| (s.interval_ms, s.phase_ms));
    a.sort_unstable();
    b.sort_unstable();
    assert_eq!(a, b);
}

#[test]
fn a_permutation_of_what_fits_fits() {
    let perms: [[u32; 4]; 4] = [
        [20, 10, 40, 20],
        [40, 20, 20, 10],
        [10, 20, 40, 20],
        [20, 40, 10, 20],
    ];
    for intervals in perms {
        let slots = try_allocate(&intervals).unwrap();
        check(&intervals, &slots);
        let mut phases: Vec<(u32, u32)> =
            slots.iter().map(|s| (s.interval_ms, s.phase_ms)).collect();
        phases.sort_unstable();
        assert_eq!(phases, [(10, 0), (20, 1), (20, 2), (40, 3)]);
    }
    assert!(try_allocate(&[1, 2]).is_err());
    assert!(try_allocate(&[2, 1]).is_err());
}

/// Insertion sort rather than selection sort: equal intervals keep the order they came in.
#[test]
fn equal_intervals_keep_declaration_order() {
    let slots = allocate([1000, 100, 100, 100]);
    assert!(slots[1].phase_ms < slots[2].phase_ms);
    assert!(slots[2].phase_ms < slots[3].phase_ms);
}

#[test]
fn an_oversubscribed_schedule_is_rejected() {
    assert_eq!(try_allocate(&[1, 2]), Err(ScheduleError::NoTickLeft));
}

#[test]
fn an_interval_that_does_not_divide_the_slowest_is_rejected() {
    assert_eq!(
        try_allocate(&[300, 1000]),
        Err(ScheduleError::DoesNotDivideSlowest)
    );
}

#[test]
fn other_bad_intervals_are_rejected() {
    assert_eq!(try_allocate(&[0, 100]), Err(ScheduleError::ZeroInterval));
    assert_eq!(
        try_allocate(&[u32::MAX]),
        Err(ScheduleError::SlowerThanMaxCycle)
    );
    assert_eq!(try_allocate(&[]), Ok(vec![]));
}

#[test]
fn phases_are_the_first_that_are_free() {
    let slots = try_allocate(&[4, 2, 4]).unwrap();
    assert_eq!(
        slots,
        vec![
            Slot {
                interval_ms: 4,
                phase_ms: 1
            },
            Slot {
                interval_ms: 2,
                phase_ms: 0
            },
            Slot {
                interval_ms: 4,
                phase_ms: 3
            },
        ]
    );
}

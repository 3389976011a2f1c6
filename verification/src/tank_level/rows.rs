//! Which readings count for the level, and what they come to.

use vstd::prelude::*;

use crate::bus::DataWithTime;
use crate::single::value::{is_number, law_comparisons_are_by_value, lemma_is_about, unit, value};
use crate::single::Single;
use crate::tank_level::{
    coldest_of, higher, lower, readings_below, recent_value, survey, warmest_of, Row, Survey,
    MIN_PRESSURE_BITS,
};

verus! {

/// A reading counts for four seconds.
pub proof fn law_readings_count_for_four_seconds(
    reading: Option<DataWithTime<Single>>,
    time: u32,
)
    ensures
        match reading {
            Some(r) => recent_value(reading, time) == if (time - r.time) % 0x1_0000_0000 <= 4000 {
                Some(r.data)
            } else {
                None
            },
            None => recent_value(reading, time) is None,
        },
{
}

/// The row holds what each probe reads that counts, under its number, from the bottom up, and
/// nothing else.
pub proof fn law_the_row_holds_what_counts(
    probes: Seq<Option<DataWithTime<Single>>>,
    time: u32,
    below: int,
    k: usize,
    reading: Single,
)
    requires
        0 <= below <= probes.len() <= 10,
    ensures
        readings_below(probes, time, below).contains((k, reading)) <==> k < below && recent_value(
            probes[k as int],
            time,
        ) == Some(reading),
        readings_below(probes, time, below).len() <= below,
        forall|i: int, j: int|
            0 <= i < j < readings_below(probes, time, below).len() ==> (#[trigger] readings_below(
                probes,
                time,
                below,
            )[i]).0 < (#[trigger] readings_below(probes, time, below)[j]).0,
        forall|i: int|
            0 <= i < readings_below(probes, time, below).len() ==> (#[trigger] readings_below(
                probes,
                time,
                below,
            )[i]).0 < below,
    decreases below,
{
    if below > 0 {
        law_the_row_holds_what_counts(probes, time, below - 1, k, reading);
        let before = readings_below(probes, time, below - 1);
        let after = readings_below(probes, time, below);
        if let Some(value) = recent_value(probes[below - 1], time) {
            let item = ((below - 1) as usize, value);
            assert(after == before.push(item));
            assert(after[before.len() as int] == item);
            if before.contains((k, reading)) {
                let i = choose|i: int| 0 <= i < before.len() && before[i] == (k, reading);
                assert(after[i] == (k, reading));
            }
            if after.contains((k, reading)) && k != below - 1 {
                let i = choose|i: int| 0 <= i < after.len() && after[i] == (k, reading);
                assert(before[i] == (k, reading));
            }
            if after.contains((k, reading)) && k == below - 1 {
                let i = choose|i: int| 0 <= i < after.len() && after[i] == (k, reading);
                if i < before.len() {
                    assert(before[i].0 < below - 1);
                }
            }
            if k == below - 1 && Some(reading) == Some(value) {
                assert(after.contains((k, reading)));
            }
        } else {
            if before.contains((k, reading)) {
                assert(k < below - 1);
            }
        }
    } else {
        assert(!readings_below(probes, time, below).contains((k, reading)));
    }
}

/// The lower and the higher of two numbers; what is no number gives way to the other.
pub proof fn law_lower_and_higher(a: Single, b: Single)
    ensures
        is_number(a) && is_number(b) ==> {
            &&& value(lower(a, b)) <= value(a) && value(lower(a, b)) <= value(b)
            &&& value(higher(a, b)) >= value(a) && value(higher(a, b)) >= value(b)
        },
        lower(a, b) == a || lower(a, b) == b,
        higher(a, b) == a || higher(a, b) == b,
        is_number(a) && !is_number(b) ==> lower(a, b) == a && higher(a, b) == a,
        !is_number(a) && is_number(b) ==> lower(a, b) == b && higher(a, b) == b,
{
    law_comparisons_are_by_value(a, b);
    law_comparisons_are_by_value(b, a);
}

/// The coldest and the warmest reading are among the readings, where there is a finite one, or mark
/// that there is none.
pub proof fn law_coldest_and_warmest_are_readings(readings: Seq<(usize, Single)>)
    ensures
        coldest_of(readings).bits == 0x7f7f_ffff || exists|k: int|
            0 <= k < readings.len() && coldest_of(readings) == (#[trigger] readings[k]).1,
        warmest_of(readings).bits == 0xff7f_ffff || exists|k: int|
            0 <= k < readings.len() && warmest_of(readings) == (#[trigger] readings[k]).1,
    decreases readings.len(),
{
    if readings.len() > 0 {
        let rest = readings.drop_last();
        let n = rest.len() as int;
        law_coldest_and_warmest_are_readings(rest);
        assert(readings[n] == readings.last());
        if coldest_of(readings) == coldest_of(rest) && coldest_of(rest).bits != 0x7f7f_ffff {
            let k = choose|k: int|
                0 <= k < rest.len() && coldest_of(rest) == (#[trigger] rest[k]).1;
            assert(readings[k] == rest[k]);
        }
        if warmest_of(readings) == warmest_of(rest) && warmest_of(rest).bits != 0xff7f_ffff {
            let k = choose|k: int|
                0 <= k < rest.len() && warmest_of(rest) == (#[trigger] rest[k]).1;
            assert(readings[k] == rest[k]);
        }
    }
}

/// Two probes are needed to tell a level. With fewer than five bar the tank is empty; the higher of
/// the two pressures counts, or the one that is known.
pub proof fn law_when_the_tank_is_empty(
    time: u32,
    probes: &[Option<DataWithTime<Single>>; 10],
    ox_upper: &Option<DataWithTime<Single>>,
    ox_lower: &Option<DataWithTime<Single>>,
    found: Survey,
)
    requires
        call_ensures(survey, (time, probes, ox_upper, ox_lower), found),
    ensures
        ({
            let readings = readings_below(probes@, time, 10);
            let upper = recent_value(*ox_upper, time);
            let below = |pressure: Option<Single>|
                pressure matches Some(bar) && is_number(bar) && value(bar) < 5 * unit();
            let lower_known = recent_value(*ox_lower, time);
            &&& found is Unknown <==> readings.len() < 2
            &&& found is Empty ==> below(upper) || below(lower_known)
            // Neither pressure is at five bar or more.
            &&& found is Empty ==> {
                &&& upper matches Some(bar) ==> is_number(bar) ==> value(bar) < 5 * unit()
                &&& lower_known matches Some(bar) ==> is_number(bar) ==> value(bar) < 5 * unit()
            }
            &&& readings.len() >= 2 && below(upper) && below(lower_known) ==> found is Empty
            &&& readings.len() >= 2 && below(upper) && lower_known is None ==> found is Empty
            &&& readings.len() >= 2 && upper is None && below(lower_known) ==> found is Empty
            &&& found matches Survey::Row(row) ==> row.readings@ == readings && row.pressurised == (
            upper is Some || lower_known is Some)
        }),
{
    vstd::arithmetic::power2::lemma2_to64();
    let limit = Single { bits: MIN_PRESSURE_BITS };
    lemma_is_about(limit, 129, 21, 0xa0_0000, 5, 1);
    let upper = recent_value(*ox_upper, time);
    let lower_known = recent_value(*ox_lower, time);
    if let Some(a) = upper {
        law_comparisons_are_by_value(a, limit);
        if let Some(b) = lower_known {
            law_lower_and_higher(a, b);
            law_comparisons_are_by_value(higher(a, b), limit);
        }
    }
    if let Some(b) = lower_known {
        law_comparisons_are_by_value(b, limit);
    }
}

} // verus!

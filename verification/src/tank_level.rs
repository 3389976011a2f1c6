//! What the row of temperature probes up the wall of the oxidizer tank tells of its fill level.
//!
//! The wall is colder where it is wetted. Only recent readings count. The tank reads empty while
//! its pressure is below [`MIN_PRESSURE_BITS`], and no level can be told from fewer than two
//! probes. Everything else follows from how far the readings lie above the coldest of them.

use vstd::prelude::*;

use crate::bus::DataWithTime;
use crate::single::Single;

pub mod rows;

verus! {

/// The bit pattern of 5 bar, the higher of the two pressure sensors counting. Ignored while neither
/// reports.
pub const MIN_PRESSURE_BITS: u32 = 0x40a0_0000;

/// Milliseconds after which a reading is ignored.
pub const STALE: u32 = 4000;

/// How many probes there are, from the bottom up.
pub const PROBES: usize = 10;

/// The bit pattern of the largest finite number.
pub const LARGEST_BITS: u32 = 0x7f7f_ffff;

/// The bit pattern of the smallest finite number.
pub const SMALLEST_BITS: u32 = 0xff7f_ffff;

/// The value of a reading that is recent.
pub open spec fn recent_value(reading: Option<DataWithTime<Single>>, time: u32) -> Option<Single> {
    match reading {
        Some(reading) => if (time - reading.time) % 0x1_0000_0000 <= STALE {
            Some(reading.data)
        } else {
            None
        },
        None => None,
    }
}

/// The recent readings among the first probes, each with the number of its probe.
pub open spec fn readings_below(
    probes: Seq<Option<DataWithTime<Single>>>,
    time: u32,
    below: int,
) -> Seq<(usize, Single)>
    decreases below,
{
    if below <= 0 {
        Seq::empty()
    } else {
        match recent_value(probes[below - 1], time) {
            Some(value) => readings_below(probes, time, below - 1).push(
                ((below - 1) as usize, value),
            ),
            None => readings_below(probes, time, below - 1),
        }
    }
}

/// The lower of two values; what is no number is ignored.
pub open spec fn lower(a: Single, b: Single) -> Single {
    if b.nan() || (!a.nan() && a.at_most(b)) {
        a
    } else {
        b
    }
}

/// The higher of two values; what is no number is ignored.
pub open spec fn higher(a: Single, b: Single) -> Single {
    if b.nan() || (!a.nan() && b.at_most(a)) {
        a
    } else {
        b
    }
}

/// The lowest of the readings.
pub open spec fn coldest_of(readings: Seq<(usize, Single)>) -> Single
    decreases readings.len(),
{
    if readings.len() == 0 {
        Single { bits: LARGEST_BITS }
    } else {
        lower(coldest_of(readings.drop_last()), readings.last().1)
    }
}

/// The highest of the readings.
pub open spec fn warmest_of(readings: Seq<(usize, Single)>) -> Single
    decreases readings.len(),
{
    if readings.len() == 0 {
        Single { bits: SMALLEST_BITS }
    } else {
        higher(warmest_of(readings.drop_last()), readings.last().1)
    }
}

/// The pressure in the tank, where it is known.
pub open spec fn tank_pressure(upper: Option<Single>, lower: Option<Single>) -> Option<Single> {
    match (upper, lower) {
        (Some(a), Some(b)) => Some(higher(a, b)),
        (Some(a), None) => Some(a),
        (None, b) => b,
    }
}

/// A row of readings from which a level can be told.
#[derive(Debug)]
pub struct Row {
    /// The number of each probe that reports, from the bottom up, and what it reads.
    pub readings: Vec<(usize, Single)>,
    pub coldest: Single,
    pub warmest: Single,
    /// Whether the pressure is known, and not too low.
    pub pressurised: bool,
}

/// What is known of the level.
#[derive(Debug)]
pub enum Survey {
    /// Too few probes report.
    Unknown,
    /// The tank is not pressurised.
    Empty,
    Row(Row),
}

fn recent(reading: &Option<DataWithTime<Single>>, time: u32) -> (value: Option<Single>)
    ensures
        value == recent_value(*reading, time),
{
    match reading {
        Some(reading) => if time.wrapping_sub(reading.time) <= STALE {
            Some(reading.data)
        } else {
            None
        },
        None => None,
    }
}

fn min(a: Single, b: Single) -> (least: Single)
    ensures
        least == lower(a, b),
{
    if b.is_nan() || (!a.is_nan() && a.is_at_most(b)) {
        a
    } else {
        b
    }
}

fn max(a: Single, b: Single) -> (most: Single)
    ensures
        most == higher(a, b),
{
    if b.is_nan() || (!a.is_nan() && b.is_at_most(a)) {
        a
    } else {
        b
    }
}

/// What the probes and the two pressure sensors tell at this time.
pub fn survey(
    time: u32,
    probes: &[Option<DataWithTime<Single>>; 10],
    ox_upper: &Option<DataWithTime<Single>>,
    ox_lower: &Option<DataWithTime<Single>>,
) -> (survey: Survey)
    ensures
        ({
            let readings = readings_below(probes@, time, PROBES as int);
            let pressure = tank_pressure(
                recent_value(*ox_upper, time),
                recent_value(*ox_lower, time),
            );
            let too_low = pressure is Some && (pressure->0).below(
                Single { bits: MIN_PRESSURE_BITS },
            );
            match survey {
                Survey::Unknown => readings.len() < 2,
                Survey::Empty => readings.len() >= 2 && too_low,
                Survey::Row(row) => {
                    &&& readings.len() >= 2
                    &&& !too_low
                    &&& row.readings@ == readings
                    &&& row.coldest == coldest_of(readings)
                    &&& row.warmest == warmest_of(readings)
                    &&& row.pressurised == (pressure is Some)
                },
            }
        }),
{
    let mut readings: Vec<(usize, Single)> = Vec::new();
    let mut coldest = Single { bits: LARGEST_BITS };
    let mut warmest = Single { bits: SMALLEST_BITS };
    let mut k: usize = 0;
    while k < PROBES
        invariant
            k <= PROBES,
            readings@ == readings_below(probes@, time, k as int),
            coldest == coldest_of(readings@),
            warmest == warmest_of(readings@),
        decreases PROBES - k,
    {
        if let Some(value) = recent(&probes[k], time) {
            let ghost before = readings@;
            readings.push((k, value));
            assert(readings@.drop_last() =~= before);
            coldest = min(coldest, value);
            warmest = max(warmest, value);
        }
        k += 1;
    }
    if readings.len() < 2 {
        return Survey::Unknown;
    }
    let pressure = match (recent(ox_upper, time), recent(ox_lower, time)) {
        (Some(a), Some(b)) => Some(max(a, b)),
        (Some(a), None) => Some(a),
        (None, b) => b,
    };
    if let Some(bar) = pressure {
        if bar.is_below(Single { bits: MIN_PRESSURE_BITS }) {
            return Survey::Empty;
        }
    }
    Survey::Row(Row { readings, coldest, warmest, pressurised: pressure.is_some() })
}

/// Every reading lies between the coldest and the warmest.
pub proof fn law_readings_lie_between_coldest_and_warmest(readings: Seq<(usize, Single)>, k: int)
    requires
        0 <= k < readings.len(),
        readings[k].1.finite(),
    ensures
        coldest_of(readings).at_most(readings[k].1),
        readings[k].1.at_most(warmest_of(readings)),
    decreases readings.len(),
{
    lemma_coldest_is_a_number(readings.drop_last());
    if k < readings.len() - 1 {
        assert(readings.drop_last()[k] == readings[k]);
        law_readings_lie_between_coldest_and_warmest(readings.drop_last(), k);
    }
}

proof fn lemma_coldest_is_a_number(readings: Seq<(usize, Single)>)
    ensures
        !coldest_of(readings).nan(),
        !warmest_of(readings).nan(),
    decreases readings.len(),
{
    if readings.len() > 0 {
        lemma_coldest_is_a_number(readings.drop_last());
    }
}

/// A stale reading counts as none.
pub proof fn law_stale_readings_are_ignored(
    probes: Seq<Option<DataWithTime<Single>>>,
    time: u32,
    stale: int,
    below: int,
)
    requires
        0 <= stale < probes.len(),
        0 <= below <= probes.len(),
        probes[stale] is Some,
        (time - (probes[stale]->0).time) % 0x1_0000_0000 > STALE,
    ensures
        readings_below(probes, time, below) == readings_below(
            probes.update(stale, None),
            time,
            below,
        ),
    decreases below,
{
    if below > 0 {
        law_stale_readings_are_ignored(probes, time, stale, below - 1);
    }
}

} // verus!

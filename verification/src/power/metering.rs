//! What the readings of the power monitor stand for.

use vstd::prelude::*;

use crate::bounded::POWER_READINGS;
use crate::power::{
    average, average_readings, averaged, calibrated, convert, corrected, current, die_temperature,
    fc_currents, law_the_average_is_within_bounds, main_voltages, quotient, recovery_currents,
    recovery_voltages, supply_voltages, temperatures, total, voltage, CalibrationWords,
    PowerMonitor, PowerReading,
};

verus! {

/// A count of a 16 bit converter, of a full scale of 3.3 volts behind a divider by eleven, in whole
/// millivolts.
pub open spec fn is_millivolts(raw: u16, mv: int) -> bool {
    mv * 65536 <= raw * 3300 * 11 < (mv + 1) * 65536
}

/// A count of a 16 bit converter whose full scale is 33 amperes, in whole milliamperes.
pub open spec fn is_milliamperes(raw: u16, ma: int) -> bool {
    ma * 65536 <= raw * 33_000 < (ma + 1) * 65536
}

/// Each channel of a sweep goes to its own field: reference voltage, die temperature, main and
/// supply voltage, main current, recovery voltage and recovery current.
pub proof fn law_each_channel_has_its_field(
    raw: [u16; 7],
    words: CalibrationWords,
    reading: PowerReading,
)
    requires
        call_ensures(convert, (raw, words), reading),
    ensures
        is_millivolts(raw[2], reading.bus_main_voltage as int),
        is_millivolts(raw[3], reading.bus_supply_voltage as int),
        is_milliamperes(raw[4], reading.fc_current as int),
        is_millivolts(raw[5], reading.recovery_voltage as int),
        is_milliamperes(raw[6], reading.recovery_current as int),
        reading.temperature_milli_c == die_temperature(raw[1], raw[0], words),
{
    lemma_channels(raw[2]);
    lemma_channels(raw[3]);
    lemma_channels(raw[4]);
    lemma_channels(raw[5]);
    lemma_channels(raw[6]);
}

proof fn lemma_channels(raw: u16)
    ensures
        is_millivolts(raw, voltage(raw) as int),
        is_milliamperes(raw, current(raw) as int),
{
    let n = 36_300 * raw;
    assert(11 * 3300 * raw == n);
    assert(raw * 3300 * 11 == n);
    assert(0 <= n / 65536 <= 36_300);
    assert(voltage(raw) == n / 65536);
}

/// The temperature lies on the line through 30 degrees at the first word and 110 degrees at the
/// second, to the millidegree, once the reading is scaled to the supply of the calibration. Nothing
/// is reported below -60 or above 200 degrees, nor where a word is not programmed.
pub proof fn law_the_die_is_on_the_line(raw: u16, vrefint: u16, words: CalibrationWords)
    ensures
        match die_temperature(raw, vrefint, words) {
            Some(t) => {
                let scaled = corrected(raw, vrefint, words);
                let span = words.cal2 - words.cal1;
                &&& span > 0
                &&& scaled * vrefint <= raw * words.vref_cal < (scaled + 1) * vrefint
                &&& -60_000 <= t <= 200_000
                &&& -span < (t - 30_000) * span - 80_000 * (scaled - words.cal1) < span
            },
            None => {
                ||| words.cal1 >= words.cal2
                ||| words.cal2 == 0xffff
                ||| words.vref_cal == 0xffff
                ||| words.vref_cal == 0
                ||| vrefint == 0
                ||| calibrated(raw, vrefint, words) < -60_000
                ||| calibrated(raw, vrefint, words) > 200_000
            },
        },
{
    if words.is_programmed() && vrefint > 0 {
        let product = raw * words.vref_cal;
        let v = vrefint as int;
        vstd::arithmetic::div_mod::lemma_fundamental_div_mod(product, v);
        let scaled = corrected(raw, vrefint, words);
        assert(scaled * v == v * scaled && (scaled + 1) * v == v * scaled + v) by (nonlinear_arith);
        law_quotients_round_towards_zero(
            80_000 * (scaled - words.cal1),
            words.cal2 - words.cal1,
        );
        let q = quotient(80_000 * (scaled - words.cal1), words.cal2 - words.cal1);
        assert(calibrated(raw, vrefint, words) == 30_000 + q);
    }
}

/// A quotient is off by less than one, towards zero.
pub proof fn law_quotients_round_towards_zero(n: int, d: int)
    requires
        d > 0,
    ensures
        n >= 0 ==> 0 <= n - quotient(n, d) * d < d && quotient(n, d) >= 0,
        n <= 0 ==> 0 <= quotient(n, d) * d - n < d && quotient(n, d) <= 0,
{
    if n >= 0 {
        vstd::arithmetic::div_mod::lemma_fundamental_div_mod(n, d);
        vstd::arithmetic::div_mod::lemma_div_pos_is_pos(n, d);
        assert((n / d) * d == d * (n / d)) by (nonlinear_arith);
    }
    if n <= 0 {
        vstd::arithmetic::div_mod::lemma_fundamental_div_mod(-n, d);
        vstd::arithmetic::div_mod::lemma_div_pos_is_pos(-n, d);
        let q = (-n) / d;
        assert((-q) * d == -(d * q)) by (nonlinear_arith);
        if n == 0 {
            vstd::arithmetic::div_mod::lemma_div_basics(d);
        }
    }
}

/// The sum is one of all values.
pub proof fn law_the_sum_is_of_all(values: Seq<int>, value: int)
    ensures
        total(values.push(value)) == total(values) + value,
        total(Seq::empty()) == 0,
{
    assert(values.push(value).drop_last() =~= values);
}

/// Each field is averaged by itself: it lies between the least and the greatest that was read of it,
/// and, times the number of readings, is off the sum by less than that number.
pub proof fn law_each_field_is_averaged_by_itself(
    readings: &[PowerReading],
    reading: PowerReading,
    low: int,
    high: int,
)
    requires
        0 < readings@.len() <= 20,
        call_ensures(average_readings, (readings,), reading),
    ensures
        (forall|k: int|
            0 <= k < readings@.len() ==> low <= (#[trigger] readings@[k]).bus_main_voltage <= high)
            ==> low <= reading.bus_main_voltage <= high,
        (forall|k: int|
            0 <= k < readings@.len() ==> low <= (#[trigger] readings@[k]).bus_supply_voltage
                <= high) ==> low <= reading.bus_supply_voltage <= high,
        (forall|k: int|
            0 <= k < readings@.len() ==> low <= (#[trigger] readings@[k]).fc_current <= high)
            ==> low <= reading.fc_current <= high,
        (forall|k: int|
            0 <= k < readings@.len() ==> low <= (#[trigger] readings@[k]).recovery_voltage <= high)
            ==> low <= reading.recovery_voltage <= high,
        (forall|k: int|
            0 <= k < readings@.len() ==> low <= (#[trigger] readings@[k]).recovery_current <= high)
            ==> low <= reading.recovery_current <= high,
        (forall|k: int|
            0 <= k < readings@.len() ==> (#[trigger] readings@[k]).temperature_milli_c is None)
            <==> reading.temperature_milli_c is None,
{
    let all = readings@;
    let n = all.len() as int;
    lemma_in_range(main_voltages(all), 0, 65535, low, high);
    lemma_in_range(supply_voltages(all), 0, 65535, low, high);
    lemma_in_range(recovery_voltages(all), 0, 65535, low, high);
    lemma_in_range(fc_currents(all), -0x8000_0000, 0x7fff_ffff, low, high);
    lemma_in_range(recovery_currents(all), -0x8000_0000, 0x7fff_ffff, low, high);
    lemma_which_have_one(all);
}

proof fn lemma_in_range(values: Seq<int>, min: int, max: int, low: int, high: int)
    requires
        values.len() > 0,
        forall|k: int| 0 <= k < values.len() ==> min <= #[trigger] values[k] <= max,
    ensures
        min <= average(values) <= max,
        (forall|k: int| 0 <= k < values.len() ==> low <= #[trigger] values[k] <= high) ==> low
            <= average(values) <= high,
{
    law_the_average_is_within_bounds(values, min, max);
    if forall|k: int| 0 <= k < values.len() ==> low <= #[trigger] values[k] <= high {
        law_the_average_is_within_bounds(values, low, high);
    }
}

proof fn lemma_which_have_one(readings: Seq<PowerReading>)
    ensures
        (forall|k: int|
            0 <= k < readings.len() ==> (#[trigger] readings[k]).temperature_milli_c is None)
            <==> temperatures(readings).len() == 0,
    decreases readings.len(),
{
    if readings.len() > 0 {
        let rest = readings.drop_last();
        lemma_which_have_one(rest);
        let n = rest.len() as int;
        if forall|k: int|
            0 <= k < readings.len() ==> (#[trigger] readings[k]).temperature_milli_c is None {
            assert forall|k: int| 0 <= k < rest.len() implies (
            #[trigger] rest[k]).temperature_milli_c is None by {
                assert(rest[k] == readings[k]);
            }
            assert(readings[n].temperature_milli_c is None);
        } else {
            let k = choose|k: int|
                0 <= k < readings.len() && (#[trigger] readings[k]).temperature_milli_c is Some;
            if k < n {
                assert(rest[k].temperature_milli_c is Some);
            }
        }
    }
}

/// The average is that of the last twenty readings.
pub proof fn law_twenty_readings_are_averaged()
    ensures
        POWER_READINGS == 20,
{
}

/// A reading goes behind the others, of which the oldest goes once there are twenty; without a
/// reading nothing changes. What is reported is the average of what is there.
pub proof fn law_the_window_moves_on(monitor: &mut PowerMonitor, reading: Option<PowerReading>)
    requires
        (*old(monitor)).wf(),
        call_ensures(PowerMonitor::tick, (monitor, reading), ()),
    ensures
        ({
            let (before, after) = ((*old(monitor)).window(), (*final(monitor)).window());
            &&& reading is None ==> after == before
            &&& reading matches Some(data) ==> after.len() > 0 && after.last() == data && after.len()
                <= 20
            &&& reading is Some && before.len() < 20 ==> after.drop_last() == before
            &&& reading is Some && before.len() == 20 ==> after.drop_last() == before.drop_first()
            &&& after.len() > 0 ==> (*final(monitor)).reported() == averaged(after)
        }),
{
    let (before, after) = ((*old(monitor)).window(), (*final(monitor)).window());
    if let Some(data) = reading {
        assert(before.push(data).drop_last() =~= before);
        if before.len() == 20 {
            assert(before.drop_first().push(data).drop_last() =~= before.drop_first());
        }
    }
}

} // verus!

//! The power monitor: what the ADC reads, converted and averaged.

use heapless::Deque;
use vstd::prelude::*;

use crate::bounded::{
    len_power_readings, list_power_readings, new_power_readings, pop_power_reading, power_readings,
    push_power_reading, POWER_READINGS,
};

pub mod metering;

verus! {

/// The voltages are measured behind a divider of 100 and 10 kOhm.
pub const VSENSE_DIVIDER: u64 = 11;

/// The temperatures of the two points of the factory calibration.
pub const TS_CAL1_TEMP_C: i64 = 30;

pub const TS_CAL2_TEMP_C: i64 = 110;

/// What the power monitor measures.
#[derive(Copy, Clone, Debug, PartialEq, Eq, Structural)]
pub struct PowerReading {
    /// Voltage of the main bus \[mV\]
    pub bus_main_voltage: u16,
    /// Voltage of the supply \[mV\]
    pub bus_supply_voltage: u16,
    /// Current into the flight computer \[mA\]
    pub fc_current: i32,
    /// Voltage of the recovery bus \[mV\]
    pub recovery_voltage: u16,
    /// Current into the recovery bus \[mA\]
    pub recovery_current: i32,
    /// Temperature of the microcontroller \[m°C\], where its sensor is calibrated
    pub temperature_milli_c: Option<i32>,
}

/// The quotient, rounded towards zero.
pub open spec fn quotient(n: int, d: int) -> int
    recommends
        d > 0,
{
    if n >= 0 {
        n / d
    } else {
        -((-n) / d)
    }
}

fn divide(n: i64, d: i64) -> (q: i64)
    requires
        d > 0,
        n > i64::MIN,
    ensures
        q == quotient(n as int, d as int),
{
    assert(n >= 0 ==> 0 <= n as int / d as int <= n) by (nonlinear_arith)
        requires
            d > 0,
    ;
    assert(n < 0 ==> 0 <= (-n) as int / d as int <= -n) by (nonlinear_arith)
        requires
            d > 0,
    ;
    if n >= 0 {
        (n as u64 / d as u64) as i64
    } else {
        -(((-n) as u64 / d as u64) as i64)
    }
}

/// The three words of the factory calibration: the readings of the die sensor at the two
/// temperatures, and the reading of the reference voltage taken with them.
#[derive(Copy, Clone, Debug, PartialEq, Eq, Structural)]
pub struct CalibrationWords {
    pub cal1: u16,
    pub cal2: u16,
    pub vref_cal: u16,
}

impl CalibrationWords {
    /// Whether the words look programmed. An erased word reads `0xFFFF`, and the output of the
    /// sensor rises with the temperature.
    pub open spec fn is_programmed(self) -> bool {
        &&& self.cal1 < self.cal2 < 0xffff
        &&& 0 < self.vref_cal < 0xffff
    }

    /// The calibration, unless its words do not look programmed.
    pub fn ts_cal(self) -> (cal: Option<(i64, i64, i64)>)
        ensures
            cal == (if self.is_programmed() {
                Some((self.cal1 as i64, self.cal2 as i64, self.vref_cal as i64))
            } else {
                None
            }),
    {
        if self.cal1 == 0xFFFF || self.cal2 == 0xFFFF || self.vref_cal == 0xFFFF || self.cal2
            <= self.cal1 || self.vref_cal == 0 {
            return None;
        }
        Some((self.cal1 as i64, self.cal2 as i64, self.vref_cal as i64))
    }
}

/// The raw reading on the scale of the calibration, which was taken at another supply voltage.
pub open spec fn corrected(raw: u16, vrefint: u16, words: CalibrationWords) -> int {
    (raw * words.vref_cal) / (vrefint as int)
}

/// The temperature on the line through the two points of the calibration, in thousandths of a
/// degree.
pub open spec fn calibrated(raw: u16, vrefint: u16, words: CalibrationWords) -> int {
    30_000 + quotient(
        80_000 * (corrected(raw, vrefint, words) - words.cal1),
        words.cal2 - words.cal1,
    )
}

/// The temperature that is reported, in thousandths of a degree: none without a calibration, and
/// none far outside of the rated range of the part.
pub open spec fn die_temperature(raw: u16, vrefint: u16, words: CalibrationWords) -> Option<i32> {
    if words.is_programmed() && vrefint > 0 && -60_000 <= calibrated(raw, vrefint, words)
        <= 200_000 {
        Some(calibrated(raw, vrefint, words) as i32)
    } else {
        None
    }
}

/// Die temperature in millidegrees Celsius from this tick's raw sensor and reference voltage
/// readings.
///
/// The calibration was taken at a supply of 3.3 V. A reading is a ratio against the supply, so
/// scaling it by the two readings of the reference puts it back on the scale of the calibration.
pub fn die_temperature_milli_c(raw: u16, vrefint: u16, words: CalibrationWords) -> (temperature:
    Option<i32>)
    ensures
        temperature == die_temperature(raw, vrefint, words),
{
    let (cal1, cal2, vref_cal) = match words.ts_cal() {
        Some(cal) => cal,
        None => {
            return None;
        },
    };
    if vrefint == 0 {
        return None;
    }
    assert(0 <= raw * words.vref_cal <= 65535 * 65535) by (nonlinear_arith)
        requires
            0 <= raw <= 65535,
            0 <= words.vref_cal <= 65535,
    ;
    let product: i64 = raw as i64 * vref_cal;
    assert(0 <= product as int / vrefint as int <= product) by (nonlinear_arith)
        requires
            product >= 0,
            vrefint > 0,
    ;
    let scaled: i64 = (product as u64 / vrefint as u64) as i64;
    let span_milli_c: i64 = (TS_CAL2_TEMP_C - TS_CAL1_TEMP_C) * 1000;
    let slope: i64 = divide(span_milli_c * (scaled - cal1), cal2 - cal1);
    proof {
        lemma_quotient_bounds(80_000 * (scaled - cal1), cal2 - cal1);
    }
    let milli_c: i64 = TS_CAL1_TEMP_C * 1000 + slope;
    if -60_000 <= milli_c && milli_c <= 200_000 {
        Some(milli_c as i32)
    } else {
        None
    }
}

proof fn lemma_quotient_bounds(n: int, d: int)
    requires
        d > 0,
    ensures
        n >= 0 ==> 0 <= quotient(n, d) <= n,
        n < 0 ==> n <= quotient(n, d) <= 0,
{
    assert(n >= 0 ==> 0 <= n / d <= n) by (nonlinear_arith)
        requires
            d > 0,
    ;
    assert(n < 0 ==> 0 <= (-n) / d <= -n) by (nonlinear_arith)
        requires
            d > 0,
    ;
}

/// What a voltage channel reads \[mV\].
pub open spec fn voltage(raw: u16) -> u16 {
    (11 * 3300 * raw / 65536) as u16
}

/// What a current channel reads \[mA\].
pub open spec fn current(raw: u16) -> i32 {
    (33000 * raw / 65536) as i32
}

/// Converts one sweep over the channels: the reference voltage, the die temperature, the main and
/// supply voltages, the main current, and the recovery voltage and current.
pub fn convert(raw: [u16; 7], words: CalibrationWords) -> (reading: PowerReading)
    ensures
        reading == (PowerReading {
            bus_main_voltage: voltage(raw[2]),
            bus_supply_voltage: voltage(raw[3]),
            fc_current: current(raw[4]),
            recovery_voltage: voltage(raw[5]),
            recovery_current: current(raw[6]),
            temperature_milli_c: die_temperature(raw[1], raw[0], words),
        }),
{
    let temperature_milli_c = die_temperature_milli_c(raw[1], raw[0], words);
    let bus_main_voltage: u64 = VSENSE_DIVIDER * 3300 * (raw[2] as u64) / 65536;
    let bus_supply_voltage: u64 = VSENSE_DIVIDER * 3300 * (raw[3] as u64) / 65536;
    let fc_current: u64 = (33000 * (raw[4] as u64)) / 65536;
    let recovery_voltage: u64 = VSENSE_DIVIDER * 3300 * (raw[5] as u64) / 65536;
    let recovery_current: u64 = (33000 * (raw[6] as u64)) / 65536;
    PowerReading {
        bus_main_voltage: bus_main_voltage as u16,
        bus_supply_voltage: bus_supply_voltage as u16,
        fc_current: fc_current as i32,
        recovery_voltage: recovery_voltage as u16,
        recovery_current: recovery_current as i32,
        temperature_milli_c,
    }
}

/// The sum of the values.
pub open spec fn total(values: Seq<int>) -> int
    decreases values.len(),
{
    if values.len() == 0 {
        0
    } else {
        total(values.drop_last()) + values.last()
    }
}

/// The average of the values, rounded towards zero.
pub open spec fn average(values: Seq<int>) -> int {
    quotient(total(values), values.len() as int)
}

/// The temperatures of those readings that have one.
pub open spec fn temperatures(readings: Seq<PowerReading>) -> Seq<int>
    decreases readings.len(),
{
    if readings.len() == 0 {
        Seq::empty()
    } else {
        match readings.last().temperature_milli_c {
            Some(t) => temperatures(readings.drop_last()).push(t as int),
            None => temperatures(readings.drop_last()),
        }
    }
}

pub open spec fn main_voltages(readings: Seq<PowerReading>) -> Seq<int> {
    Seq::new(readings.len(), |k: int| readings[k].bus_main_voltage as int)
}

pub open spec fn supply_voltages(readings: Seq<PowerReading>) -> Seq<int> {
    Seq::new(readings.len(), |k: int| readings[k].bus_supply_voltage as int)
}

pub open spec fn fc_currents(readings: Seq<PowerReading>) -> Seq<int> {
    Seq::new(readings.len(), |k: int| readings[k].fc_current as int)
}

pub open spec fn recovery_voltages(readings: Seq<PowerReading>) -> Seq<int> {
    Seq::new(readings.len(), |k: int| readings[k].recovery_voltage as int)
}

pub open spec fn recovery_currents(readings: Seq<PowerReading>) -> Seq<int> {
    Seq::new(readings.len(), |k: int| readings[k].recovery_current as int)
}

/// The average over the readings. The temperature is averaged over those readings that have one:
/// counting the others as zero would report a board at the freezing point.
pub open spec fn averaged(readings: Seq<PowerReading>) -> PowerReading {
    PowerReading {
        bus_main_voltage: average(main_voltages(readings)) as u16,
        bus_supply_voltage: average(supply_voltages(readings)) as u16,
        fc_current: average(fc_currents(readings)) as i32,
        recovery_voltage: average(recovery_voltages(readings)) as u16,
        recovery_current: average(recovery_currents(readings)) as i32,
        temperature_milli_c: if temperatures(readings).len() > 0 {
            Some(average(temperatures(readings)) as i32)
        } else {
            None
        },
    }
}

/// The average lies within the bounds of what it was taken over.
pub proof fn law_the_average_is_within_bounds(values: Seq<int>, low: int, high: int)
    requires
        values.len() > 0,
        forall|k: int| 0 <= k < values.len() ==> low <= #[trigger] values[k] <= high,
    ensures
        low <= average(values) <= high,
{
    let n = values.len() as int;
    let sum = total(values);
    lemma_total_bounds(values, low, high);
    if sum >= 0 {
        assert(low <= sum / n <= high) by (nonlinear_arith)
            requires
                n > 0,
                n * low <= sum <= n * high,
        ;
    } else {
        assert(low <= -((-sum) / n) <= high) by (nonlinear_arith)
            requires
                n > 0,
                n * low <= sum <= n * high,
                sum < 0,
        ;
    }
}

proof fn lemma_total_bounds(values: Seq<int>, low: int, high: int)
    requires
        forall|k: int| 0 <= k < values.len() ==> low <= #[trigger] values[k] <= high,
    ensures
        values.len() * low <= total(values) <= values.len() * high,
    decreases values.len(),
{
    if values.len() > 0 {
        let rest = values.drop_last();
        assert forall|k: int| 0 <= k < rest.len() implies low <= #[trigger] rest[k] <= high by {
            assert(rest[k] == values[k]);
        }
        lemma_total_bounds(rest, low, high);
        let n = values.len() as int;
        assert(n * low == (n - 1) * low + low) by (nonlinear_arith);
        assert(n * high == (n - 1) * high + high) by (nonlinear_arith);
        assert(low <= values[n - 1] <= high);
    }
}

proof fn lemma_one_more(readings: Seq<PowerReading>, k: int)
    requires
        0 <= k < readings.len(),
    ensures
        total(main_voltages(readings.take(k + 1))) == total(main_voltages(readings.take(k)))
            + readings[k].bus_main_voltage,
        total(supply_voltages(readings.take(k + 1))) == total(supply_voltages(readings.take(k)))
            + readings[k].bus_supply_voltage,
        total(fc_currents(readings.take(k + 1))) == total(fc_currents(readings.take(k)))
            + readings[k].fc_current,
        total(recovery_voltages(readings.take(k + 1))) == total(recovery_voltages(readings.take(k)))
            + readings[k].recovery_voltage,
        total(recovery_currents(readings.take(k + 1))) == total(recovery_currents(readings.take(k)))
            + readings[k].recovery_current,
        readings.take(k + 1).drop_last() == readings.take(k),
        readings.take(k + 1).last() == readings[k],
{
    let one = readings.take(k + 1);
    let before = readings.take(k);
    assert(one.drop_last() =~= before);
    assert(main_voltages(one).drop_last() =~= main_voltages(before));
    assert(supply_voltages(one).drop_last() =~= supply_voltages(before));
    assert(fc_currents(one).drop_last() =~= fc_currents(before));
    assert(recovery_voltages(one).drop_last() =~= recovery_voltages(before));
    assert(recovery_currents(one).drop_last() =~= recovery_currents(before));
}

proof fn lemma_temperatures(readings: Seq<PowerReading>)
    ensures
        temperatures(readings).len() <= readings.len(),
        forall|k: int|
            0 <= k < temperatures(readings).len() ==> i32::MIN <= #[trigger] temperatures(
                readings,
            )[k] <= i32::MAX,
    decreases readings.len(),
{
    if readings.len() > 0 {
        lemma_temperatures(readings.drop_last());
    }
}

/// The average of the readings.
pub fn average_readings(readings: &[PowerReading]) -> (reading: PowerReading)
    requires
        0 < readings@.len() <= POWER_READINGS,
    ensures
        reading == averaged(readings@),
{
    let mut bus_main_voltage: u64 = 0;
    let mut bus_supply_voltage: u64 = 0;
    let mut fc_current: i64 = 0;
    let mut recovery_voltage: u64 = 0;
    let mut recovery_current: i64 = 0;
    let mut temperature_sum: i64 = 0;
    let mut temperature_count: i64 = 0;
    let mut k: usize = 0;
    proof {
        assert(readings@.take(0) =~= Seq::<PowerReading>::empty());
    }
    while k < readings.len()
        invariant
            k <= readings@.len() <= POWER_READINGS,
            bus_main_voltage == total(main_voltages(readings@.take(k as int))),
            bus_supply_voltage == total(supply_voltages(readings@.take(k as int))),
            fc_current == total(fc_currents(readings@.take(k as int))),
            recovery_voltage == total(recovery_voltages(readings@.take(k as int))),
            recovery_current == total(recovery_currents(readings@.take(k as int))),
            temperature_sum == total(temperatures(readings@.take(k as int))),
            temperature_count == temperatures(readings@.take(k as int)).len(),
            bus_main_voltage <= k * u16::MAX,
            bus_supply_voltage <= k * u16::MAX,
            recovery_voltage <= k * u16::MAX,
            k * i32::MIN <= fc_current <= k * i32::MAX,
            k * i32::MIN <= recovery_current <= k * i32::MAX,
            k * i32::MIN <= temperature_sum <= k * i32::MAX,
            0 <= temperature_count <= k,
        decreases readings@.len() - k,
    {
        let data = readings[k];
        proof {
            lemma_one_more(readings@, k as int);
            if data.temperature_milli_c is Some {
                let before = temperatures(readings@.take(k as int));
                let t = data.temperature_milli_c->0 as int;
                assert(before.push(t).drop_last() =~= before);
            }
        }
        bus_main_voltage = bus_main_voltage + data.bus_main_voltage as u64;
        bus_supply_voltage = bus_supply_voltage + data.bus_supply_voltage as u64;
        fc_current = fc_current + data.fc_current as i64;
        recovery_voltage = recovery_voltage + data.recovery_voltage as u64;
        recovery_current = recovery_current + data.recovery_current as i64;
        if let Some(t) = data.temperature_milli_c {
            temperature_sum = temperature_sum + t as i64;
            temperature_count = temperature_count + 1;
        }
        k += 1;
    }
    proof {
        assert(readings@.take(k as int) =~= readings@);
        lemma_temperatures(readings@);
        law_the_average_is_within_bounds(main_voltages(readings@), 0, u16::MAX as int);
        law_the_average_is_within_bounds(supply_voltages(readings@), 0, u16::MAX as int);
        law_the_average_is_within_bounds(
            fc_currents(readings@),
            i32::MIN as int,
            i32::MAX as int,
        );
        law_the_average_is_within_bounds(recovery_voltages(readings@), 0, u16::MAX as int);
        law_the_average_is_within_bounds(
            recovery_currents(readings@),
            i32::MIN as int,
            i32::MAX as int,
        );
        if temperatures(readings@).len() > 0 {
            law_the_average_is_within_bounds(
                temperatures(readings@),
                i32::MIN as int,
                i32::MAX as int,
            );
        }
    }
    let len: u64 = readings.len() as u64;
    PowerReading {
        bus_main_voltage: (bus_main_voltage / len) as u16,
        bus_supply_voltage: (bus_supply_voltage / len) as u16,
        fc_current: divide(fc_current, len as i64) as i32,
        recovery_voltage: (recovery_voltage / len) as u16,
        recovery_current: divide(recovery_current, len as i64) as i32,
        temperature_milli_c: if temperature_count > 0 {
            Some(divide(temperature_sum, temperature_count) as i32)
        } else {
            None
        },
    }
}

/// The last readings and their average.
pub struct PowerMonitor {
    history: Deque<PowerReading, 20>,
    filtered: PowerReading,
}

impl PowerMonitor {
    /// The readings that are averaged, oldest first.
    pub closed spec fn window(self) -> Seq<PowerReading> {
        power_readings(self.history)
    }

    /// What the monitor reports.
    pub closed spec fn reported(self) -> PowerReading {
        self.filtered
    }

    /// The window holds no more readings than it can.
    pub open spec fn wf(self) -> bool {
        self.window().len() <= POWER_READINGS
    }

    /// Takes the next reading, where there is one. The oldest makes room for it.
    pub fn tick(&mut self, reading: Option<PowerReading>)
        requires
            old(self).wf(),
        ensures
            final(self).wf(),
            final(self).window() == (match reading {
                Some(data) => if old(self).window().len() == POWER_READINGS {
                    old(self).window().drop_first().push(data)
                } else {
                    old(self).window().push(data)
                },
                None => old(self).window(),
            }),
            final(self).reported() == if final(self).window().len() == 0 {
                old(self).reported()
            } else {
                averaged(final(self).window())
            },
    {
        if let Some(data) = reading {
            if len_power_readings(&self.history) == POWER_READINGS {
                let _ = pop_power_reading(&mut self.history);
            }
            let _ = push_power_reading(&mut self.history, data);
        } else if len_power_readings(&self.history) == 0 {
            return ;
        }
        let readings = list_power_readings(&self.history);
        self.filtered = average_readings(readings.as_slice());
    }

    pub fn adc(&self) -> (reading: Option<PowerReading>)
        ensures
            reading == Some(self.reported()),
    {
        Some(self.filtered)
    }
}

impl Default for PowerMonitor {
    fn default() -> (monitor: Self)
        ensures
            monitor.wf(),
            monitor.window().len() == 0,
            monitor.reported() == (PowerReading {
                bus_main_voltage: 0,
                bus_supply_voltage: 0,
                fc_current: 0,
                recovery_voltage: 0,
                recovery_current: 0,
                temperature_milli_c: None,
            }),
    {
        PowerMonitor {
            history: new_power_readings(),
            filtered: PowerReading {
                bus_main_voltage: 0,
                bus_supply_voltage: 0,
                fc_current: 0,
                recovery_voltage: 0,
                recovery_current: 0,
                temperature_milli_c: None,
            },
        }
    }
}

/// At the two points of the calibration, taken at the same supply voltage, the temperature is that
/// of the calibration.
pub proof fn law_the_calibration_points_are_met(words: CalibrationWords)
    requires
        words.is_programmed(),
    ensures
        die_temperature(words.cal1, words.vref_cal, words) == Some(30_000i32),
        die_temperature(words.cal2, words.vref_cal, words) == Some(110_000i32),
{
    let v = words.vref_cal as int;
    let d = words.cal2 - words.cal1;
    let a = words.cal1 as int;
    let b = words.cal2 as int;
    assert((a * v) / v == a) by (nonlinear_arith)
        requires
            v > 0,
    ;
    assert((b * v) / v == b) by (nonlinear_arith)
        requires
            v > 0,
    ;
    assert((80_000 * d) / d == 80_000) by (nonlinear_arith)
        requires
            d > 0,
    ;
    assert(0int / d == 0) by (nonlinear_arith)
        requires
            d > 0,
    ;
}

} // verus!

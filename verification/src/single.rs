//! Single-precision numbers by their bit patterns.
//!
//! Sensor values, parameters and commanded fractions travel as IEEE 754 binary32 values. The
//! flight rules compare them and turn a few of them into whole numbers. Comparing needs no
//! arithmetic: within one sign the bit patterns are ordered as the numbers are. Turning one into
//! a whole number is a shift of its significand.

use vstd::arithmetic::power2::{
    lemma2_to64, lemma2_to64_rest, lemma_pow2_pos, lemma_pow2_strictly_increases, pow2,
};
use vstd::bits::{lemma_u64_shl_is_mul, lemma_u64_shr_is_div};
use vstd::prelude::*;

pub mod value;

verus! {

/// An IEEE 754 binary32 value, held as its bit pattern.
#[derive(Copy, Clone, Debug, PartialEq, Eq, Structural)]
pub struct Single {
    pub bits: u32,
}

/// The bit pattern of positive infinity; above it (sign aside) are the values that are no number.
pub const INFINITY_BITS: u32 = 0x7f80_0000;

/// The bit pattern of one.
pub const ONE_BITS: u32 = 0x3f80_0000;

/// The bit pattern of ten.
pub const TEN_BITS: u32 = 0x4120_0000;

/// The bit pattern of one hundred.
pub const HUNDRED_BITS: u32 = 0x42c8_0000;

/// The bit pattern of one thousand.
pub const THOUSAND_BITS: u32 = 0x447a_0000;

/// The bit pattern of ten thousand.
pub const TEN_THOUSAND_BITS: u32 = 0x461c_4000;

/// The bit pattern of three.
pub const THREE_BITS: u32 = 0x4040_0000;

/// The bit pattern of 0.9.
pub const NINE_TENTHS_BITS: u32 = 0x3f66_6666;

/// The bit pattern of 1.1.
pub const ELEVEN_TENTHS_BITS: u32 = 0x3f8c_cccd;

/// The lowest bit pattern with the sign set.
pub const SIGN_BIT: u32 = 0x8000_0000;

/// One above the largest fraction field.
pub const FRACTION_RANGE: u32 = 0x80_0000;

/// `m * 2^k`, without what falls below one.
pub open spec fn shifted(m: int, k: int) -> int {
    if k >= 0 {
        m * pow2(k as nat)
    } else {
        m / (pow2((-k) as nat) as int)
    }
}

/// `n / d`, rounded to the nearest whole number, and halfway cases to the even one.
pub open spec fn half_even(n: int, d: int) -> int {
    let (q, r) = (n / d, n % d);
    if 2 * r < d || (2 * r == d && q % 2 == 0) {
        q
    } else {
        q + 1
    }
}

/// The magnitude with the sign of the value, saturated at both ends of the range; zero for a value
/// that is no number.
pub open spec fn saturated(value: Single, magnitude: int, min: int, max: int) -> int {
    if value.nan() {
        0
    } else if value.negative() {
        if !value.finite() || magnitude > -min {
            min
        } else {
            -magnitude
        }
    } else if !value.finite() || magnitude > max {
        max
    } else {
        magnitude
    }
}

/// A length of time, as whole seconds and the nanoseconds beyond them.
#[derive(Copy, Clone, Debug, PartialEq, Eq, Structural)]
pub struct TimeSpan {
    pub secs: u64,
    pub nanos: u32,
}

/// The nanoseconds of one second.
pub const NANOS_PER_SEC: u32 = 1_000_000_000;

impl TimeSpan {
    /// The nanoseconds beyond the whole seconds are less than a second.
    pub open spec fn wf(self) -> bool {
        self.nanos < NANOS_PER_SEC
    }

    /// The length in nanoseconds.
    pub open spec fn total_nanos(self) -> int {
        self.secs * NANOS_PER_SEC + self.nanos
    }

    /// The length in whole milliseconds.
    pub open spec fn total_millis(self) -> int {
        self.total_nanos() / 1_000_000
    }

    pub fn from_millis(millis: u64) -> (span: Self)
        ensures
            span.wf(),
            span.total_nanos() == millis * 1_000_000,
            span.total_millis() == millis,
    {
        TimeSpan { secs: millis / 1000, nanos: (millis % 1000) as u32 * 1_000_000 }
    }

    pub fn is_zero(&self) -> (zero: bool)
        ensures
            zero == (self.total_nanos() == 0),
    {
        self.secs == 0 && self.nanos == 0
    }

    /// `self <= other`.
    pub fn is_at_most(&self, other: Self) -> (at_most: bool)
        requires
            self.wf(),
            other.wf(),
        ensures
            at_most == (self.total_nanos() <= other.total_nanos()),
    {
        self.secs < other.secs || (self.secs == other.secs && self.nanos <= other.nanos)
    }

    /// The length in whole milliseconds, where it is at most `u32::MAX` seconds.
    pub fn as_millis(&self) -> (millis: u64)
        requires
            self.wf(),
            self.secs <= u32::MAX,
        ensures
            millis == self.total_millis(),
    {
        self.secs * 1000 + (self.nanos / 1_000_000) as u64
    }
}

/// `shifted(m, k)`, or any number from `2^32` on where it is that large.
fn shift(m: u64, k: i32) -> (value: u64)
    requires
        m < 0x2_0000_0000_0000,
        -400 <= k <= 400,
    ensures
        value < 0x1_0000_0000 || shifted(m as int, k as int) < 0x1_0000_0000 ==> value == shifted(
            m as int,
            k as int,
        ),
{
    proof {
        lemma2_to64();
        lemma2_to64_rest();
    }
    if k >= 0 {
        if m == 0 {
            return 0;
        }
        if k > 32 || m >= 0x1_0000_0000 {
            proof {
                let d = pow2(k as nat);
                lemma_pow2_pos(k as nat);
                if k > 32 {
                    lemma_pow2_strictly_increases(32, k as nat);
                }
                assert(m * d >= d && m * d >= m) by (nonlinear_arith)
                    requires
                        m >= 1,
                        d >= 1,
                ;
            }
            return 0x1_0000_0000;
        }
        proof {
            if k < 32 {
                lemma_pow2_strictly_increases(k as nat, 32);
            }
            assert(m * pow2(k as nat) <= 0xffff_ffff * 0x1_0000_0000) by (nonlinear_arith)
                requires
                    m <= 0xffff_ffff,
                    pow2(k as nat) <= 0x1_0000_0000,
            ;
            lemma_u64_shl_is_mul(m, k as u64);
        }
        m << (k as u64)
    } else if k > -64 {
        proof {
            lemma_u64_shr_is_div(m, (-k) as u64);
        }
        m >> ((-k) as u64)
    } else {
        proof {
            lemma_pow2_strictly_increases(60, (-k) as nat);
            assert(shifted(m as int, k as int) == 0) by {
                vstd::arithmetic::div_mod::lemma_basic_div(m as int, pow2((-k) as nat) as int);
            }
        }
        0
    }
}

/// `half_even(n, 2^k)`.
fn round_shift(n: u64, k: u64) -> (value: u64)
    requires
        n < 0x100_0000_0000_0000,
        1 <= k <= 60,
    ensures
        value == half_even(n as int, pow2(k as nat) as int),
{
    proof {
        lemma2_to64_rest();
        if k < 60 {
            lemma_pow2_strictly_increases(k as nat, 60);
        }
        lemma_pow2_pos(k as nat);
        assert(1 * pow2(k as nat) == pow2(k as nat)) by (nonlinear_arith);
        lemma_u64_shl_is_mul(1, k);
    }
    let d: u64 = 1u64 << k;
    let q: u64 = n / d;
    let r: u64 = n % d;
    if 2 * r < d || (2 * r == d && q % 2 == 0) {
        q
    } else {
        assert(q <= n) by (nonlinear_arith)
            requires
                q == n / d,
                d >= 1,
        ;
        q + 1
    }
}

impl Single {
    /// The exponent field.
    pub open spec fn exponent(self) -> int {
        self.magnitude() / FRACTION_RANGE as int
    }

    /// The value is a number and not infinite.
    pub open spec fn finite(self) -> bool {
        self.magnitude() < INFINITY_BITS
    }

    /// The value is below zero.
    pub open spec fn negative(self) -> bool {
        self.rank() < 0
    }

    /// The significand: a finite value is `significand * 2^scale`, with its sign.
    pub open spec fn significand(self) -> int {
        if self.exponent() == 0 {
            self.magnitude()
        } else {
            FRACTION_RANGE + self.magnitude() % FRACTION_RANGE as int
        }
    }

    /// The power of two that goes with the significand.
    pub open spec fn scale(self) -> int {
        if self.exponent() == 0 {
            -149
        } else {
            self.exponent() - 150
        }
    }

    /// The value without its sign, truncated to a whole number.
    pub open spec fn whole(self) -> int {
        shifted(self.significand(), self.scale())
    }

    /// What the cast of the value to an unsigned integer with this largest value gives: the whole
    /// part, saturated at both ends, and zero where the value is no number.
    pub open spec fn cast_unsigned(self, max: int) -> int {
        if self.nan() || self.negative() {
            0
        } else if !self.finite() || self.whole() > max {
            max
        } else {
            self.whole()
        }
    }

    /// A factor that values are scaled by: neither zero nor tiny nor huge.
    pub open spec fn is_factor(self) -> bool {
        self.bits < SIGN_BIT && 1 <= self.exponent() <= 200
    }

    /// The product of the value and the factor, rounded to single precision, without its sign and
    /// truncated to a whole number.
    pub open spec fn product_whole(self, factor: Self) -> int {
        let exact = self.significand() * factor.significand();
        // A product of 47 or 48 bits keeps its upper 24.
        let dropped = if exact < 0x8000_0000_0000 {
            23int
        } else {
            24int
        };
        if self.exponent() == 0 {
            0
        } else {
            shifted(
                half_even(exact, pow2(dropped as nat) as int),
                self.scale() + factor.scale() + dropped,
            )
        }
    }

    /// The product of two factors, rounded to single precision, where that is neither tiny nor
    /// huge.
    pub open spec fn product(self, factor: Self) -> Self {
        let exact = self.significand() * factor.significand();
        // A product of 47 or 48 bits keeps its upper 24.
        let dropped = if exact < 0x8000_0000_0000 {
            23int
        } else {
            24int
        };
        let kept = half_even(exact, pow2(dropped as nat) as int);
        let exponent = self.scale() + factor.scale() + dropped + 150;
        // Where the rounding makes the significand one bit longer, it carries into the exponent.
        Single { bits: (exponent * FRACTION_RANGE + (kept - FRACTION_RANGE)) as u32 }
    }

    /// What the cast of the value times the factor to an integer with this range gives: the whole
    /// part, saturated at both ends, and zero where the value is no number.
    pub open spec fn cast_scaled(self, factor: Self, min: int, max: int) -> int {
        saturated(self, self.product_whole(factor), min, max)
    }

    /// What the cast of the value times the whole number, in double precision, to an integer with
    /// this range gives.
    pub open spec fn cast_times(self, count: int, min: int, max: int) -> int {
        saturated(self, shifted(self.significand() * count, self.scale()), min, max)
    }

    /// The value in seconds as nanoseconds, rounded to the nearest one and halfway cases to the
    /// even one.
    pub open spec fn seconds_in_nanos(self) -> int {
        if self.scale() >= 0 {
            self.whole() * NANOS_PER_SEC
        } else {
            half_even(self.significand() * NANOS_PER_SEC, pow2((-self.scale()) as nat) as int)
        }
    }

    pub fn is_finite(&self) -> (finite: bool)
        ensures
            finite == self.finite(),
    {
        if self.bits < SIGN_BIT {
            self.bits < INFINITY_BITS
        } else {
            self.bits - SIGN_BIT < INFINITY_BITS
        }
    }

    fn is_negative(&self) -> (negative: bool)
        ensures
            negative == self.negative(),
    {
        self.bits > SIGN_BIT
    }

    /// The significand and the power of two that goes with it.
    fn parts(&self) -> (parts: (u64, i32))
        ensures
            parts.0 == self.significand(),
            parts.1 == self.scale(),
            parts.0 < 0x100_0000,
            -149 <= parts.1 <= 105,
            self.exponent() == 0 || parts.0 >= FRACTION_RANGE,
            self.exponent() == 0 ==> parts.1 == -149,
    {
        let magnitude: u32 = if self.bits < SIGN_BIT {
            self.bits
        } else {
            self.bits - SIGN_BIT
        };
        let exponent: u32 = magnitude / FRACTION_RANGE;
        if exponent == 0 {
            (magnitude as u64, -149)
        } else {
            ((FRACTION_RANGE + magnitude % FRACTION_RANGE) as u64, exponent as i32 - 150)
        }
    }

    /// The value is the one nearest to `n / d`, and the even one of two that are as near.
    pub open spec fn is_quotient(self, n: int, d: int) -> bool {
        if n == 0 {
            self.bits == 0
        } else {
            &&& self.finite()
            &&& self.exponent() > 0
            &&& self.negative() == (n < 0)
            &&& self.scale() < 0
            &&& self.significand() == half_even(
                (if n < 0 {
                    -n
                } else {
                    n
                }) * pow2((-self.scale()) as nat),
                d,
            )
        }
    }

    /// `n / d` in single precision.
    pub fn quotient(n: i32, d: u32) -> (value: Self)
        requires
            1 <= d <= 1000,
            -(d * 512) < n < d * 512,
        ensures
            value.is_quotient(n as int, d as int),
    {
        if n == 0 {
            return Single { bits: 0 };
        }
        let magnitude: u64 = if n < 0 {
            (-(n as i64)) as u64
        } else {
            n as u64
        };
        let by: u64 = d as u64;
        // The numerator is doubled until the quotient has 24 bits.
        let mut scaled: u64 = magnitude * 32768;
        let mut places: u32 = 15;
        proof {
            lemma2_to64();
        }
        while scaled < by * 0x80_0000
            invariant
                1 <= magnitude,
                1 <= by <= 1000,
                15 <= places,
                scaled >= magnitude * 32768 && scaled >= pow2(places as nat),
                scaled % 32768 == 0,
                scaled == magnitude * pow2(places as nat),
                scaled < by * 0x100_0000,
                places <= 50,
            decreases by * 0x100_0000 - scaled,
        {
            proof {
                vstd::arithmetic::power2::lemma_pow2_unfold((places + 1) as nat);
                let p = pow2(places as nat);
                assert(magnitude * (2 * p) == 2 * (magnitude * p)) by (nonlinear_arith);
                lemma2_to64();
                lemma2_to64_rest();
                if places >= 40 {
                    if places > 40 {
                        lemma_pow2_strictly_increases(40, places as nat);
                    }
                }
            }
            scaled = scaled * 2;
            places = places + 1;
        }
        let q: u64 = scaled / by;
        let r: u64 = scaled % by;
        let significand: u64 = if 2 * r < by || (2 * r == by && q % 2 == 0) {
            q
        } else {
            q + 1
        };
        proof {
            vstd::arithmetic::div_mod::lemma_fundamental_div_mod(scaled as int, by as int);
            assert(scaled <= by * 0x100_0000 - 32768) by {
                assert((by * 0x100_0000) % 32768 == 0);
            }
            assert(0x80_0000 <= q) by (nonlinear_arith)
                requires
                    scaled == by * q + r,
                    r < by,
                    scaled >= by * 0x80_0000,
            ;
            assert(q + 1 < 0x100_0000) by (nonlinear_arith)
                requires
                    scaled == by * q + r,
                    0 <= r,
                    1 <= by <= 1000,
                    scaled <= by * 0x100_0000 - 32768,
            ;
        }
        let exponent: u32 = 150 - places;
        let magnitude_bits: u32 = exponent * FRACTION_RANGE + (significand as u32 - FRACTION_RANGE);
        let value = if n < 0 {
            Single { bits: SIGN_BIT + magnitude_bits }
        } else {
            Single { bits: magnitude_bits }
        };
        assert(value.magnitude() == magnitude_bits);
        assert(value.exponent() == exponent);
        value
    }

    /// The value with the other sign.
    pub open spec fn negated(self) -> Self {
        if self.bits < SIGN_BIT {
            Single { bits: (self.bits + SIGN_BIT) as u32 }
        } else {
            Single { bits: (self.bits - SIGN_BIT) as u32 }
        }
    }

    /// The value with the other sign.
    pub fn neg(&self) -> (value: Self)
        ensures
            value == self.negated(),
    {
        if self.bits < SIGN_BIT {
            Single { bits: self.bits + SIGN_BIT }
        } else {
            Single { bits: self.bits - SIGN_BIT }
        }
    }

    /// The value without its sign.
    pub fn abs(&self) -> (value: Self)
        ensures
            value.bits == self.magnitude(),
    {
        if self.bits < SIGN_BIT {
            *self
        } else {
            Single { bits: self.bits - SIGN_BIT }
        }
    }

    /// The value cast to `u32`.
    pub fn to_u32(&self) -> (value: u32)
        ensures
            value == self.cast_unsigned(u32::MAX as int),
    {
        if self.is_nan() || self.is_negative() {
            return 0;
        }
        if !self.is_finite() {
            return u32::MAX;
        }
        let (significand, scale) = self.parts();
        let whole: u64 = shift(significand, scale);
        if whole > u32::MAX as u64 {
            u32::MAX
        } else {
            whole as u32
        }
    }

    /// The value cast to `u8`.
    pub fn to_u8(&self) -> (value: u8)
        ensures
            value == self.cast_unsigned(u8::MAX as int),
    {
        let wide: u32 = self.to_u32();
        if wide > u8::MAX as u32 {
            u8::MAX
        } else {
            wide as u8
        }
    }

    /// The magnitude of the value times the factor, in single precision, truncated; any number
    /// from `2^32` on where it is that large.
    fn times_whole(&self, factor: Single) -> (value: u64)
        requires
            factor.is_factor(),
        ensures
            value < 0x1_0000_0000 || self.product_whole(factor) < 0x1_0000_0000 ==> value
                == self.product_whole(factor),
    {
        let (significand, scale) = self.parts();
        if significand < FRACTION_RANGE as u64 {
            return 0;
        }
        let (by, by_scale) = factor.parts();
        assert(0x4000_0000_0000 <= significand * by < 0x1_0000_0000_0000) by (nonlinear_arith)
            requires
                0x80_0000 <= significand < 0x100_0000,
                0x80_0000 <= by < 0x100_0000,
        ;
        let exact: u64 = significand * by;
        let dropped: u64 = if exact < 0x8000_0000_0000 {
            23
        } else {
            24
        };
        proof {
            lemma2_to64();
        }
        let kept: u64 = round_shift(exact, dropped);
        assert(kept <= 0x200_0000) by {
            if dropped == 23 {
                assert(kept == half_even(exact as int, 0x80_0000));
            } else {
                assert(kept == half_even(exact as int, 0x100_0000));
            }
        }
        shift(kept, scale + by_scale + dropped as i32)
    }

    /// The product of two factors.
    pub fn times(&self, factor: Single) -> (value: Single)
        requires
            self.is_factor(),
            factor.is_factor(),
            128 <= self.exponent() + factor.exponent() <= 379,
        ensures
            value == self.product(factor),
    {
        let (significand, scale) = self.parts();
        let (by, by_scale) = factor.parts();
        assert(0x4000_0000_0000 <= significand * by < 0x1_0000_0000_0000) by (nonlinear_arith)
            requires
                0x80_0000 <= significand < 0x100_0000,
                0x80_0000 <= by < 0x100_0000,
        ;
        let exact: u64 = significand * by;
        let dropped: u64 = if exact < 0x8000_0000_0000 {
            23
        } else {
            24
        };
        proof {
            lemma2_to64();
        }
        let kept: u64 = round_shift(exact, dropped);
        assert(0x80_0000 <= kept <= 0x100_0000) by {
            if dropped == 23 {
                assert(kept == half_even(exact as int, 0x80_0000));
            } else {
                assert(kept == half_even(exact as int, 0x100_0000));
            }
        }
        let exponent: u32 = (scale + by_scale + dropped as i32 + 150) as u32;
        Single { bits: exponent * FRACTION_RANGE + (kept as u32 - FRACTION_RANGE) }
    }

    /// The magnitude with the sign of the value, saturated at both ends of the range.
    fn saturate(&self, magnitude: u64, min: i64, max: i64) -> (value: i64)
        requires
            -0x8000_0000 <= min <= 0 <= max < 0x1_0000_0000,
        ensures
            min <= value <= max,
            forall|exact: int|
                (magnitude < 0x1_0000_0000 || exact < 0x1_0000_0000 ==> magnitude == exact)
                    ==> value == #[trigger] saturated(*self, exact, min as int, max as int),
    {
        if self.is_nan() {
            0
        } else if self.is_negative() {
            if !self.is_finite() || magnitude > (-min) as u64 {
                min
            } else {
                -(magnitude as i64)
            }
        } else if !self.is_finite() || magnitude > max as u64 {
            max
        } else {
            magnitude as i64
        }
    }

    /// The value times the factor, in single precision, cast to an integer with this range.
    pub fn scaled(&self, factor: Single, min: i64, max: i64) -> (value: i64)
        requires
            factor.is_factor(),
            -0x8000_0000 <= min <= 0 <= max < 0x1_0000_0000,
        ensures
            value == self.cast_scaled(factor, min as int, max as int),
            min <= value <= max,
            self.product_whole(factor) >= 0,
    {
        let magnitude: u64 = self.times_whole(factor);
        let value: i64 = self.saturate(magnitude, min, max);
        assert(value == saturated(*self, self.product_whole(factor), min as int, max as int));
        value
    }

    /// The value times ten million, in double precision, cast to an integer with this range.
    pub fn times_ten_million(&self, min: i64, max: i64) -> (value: i64)
        requires
            -0x8000_0000 <= min <= 0 <= max < 0x1_0000_0000,
        ensures
            value == self.cast_times(10_000_000, min as int, max as int),
            min <= value <= max,
    {
        let (significand, scale) = self.parts();
        let magnitude: u64 = shift(significand * 10_000_000, scale);
        let value: i64 = self.saturate(magnitude, min, max);
        let ghost exact = shifted(self.significand() * 10_000_000, self.scale());
        assert(value == saturated(*self, exact, min as int, max as int));
        value
    }

    /// The value as a number of seconds; `None` where it is negative, no number or too large.
    pub fn to_time_span(&self) -> (span: Option<TimeSpan>)
        ensures
            match span {
                Some(span) => !self.nan() && !self.negative() && self.finite() && span.wf()
                    && span.total_nanos() == self.seconds_in_nanos() && self.whole() <= u64::MAX,
                None => self.nan() || self.negative() || !self.finite() || self.whole()
                    > u64::MAX,
            },
    {
        if self.is_nan() || self.is_negative() || !self.is_finite() {
            return None;
        }
        let (significand, scale) = self.parts();
        proof {
            lemma2_to64();
        }
        if scale >= 0 {
            if scale > 40 {
                proof {
                    lemma2_to64_rest();
                    if scale > 41 {
                        lemma_pow2_strictly_increases(41, scale as nat);
                    }
                    assert(significand * pow2(scale as nat) >= 0x80_0000 * 0x200_0000_0000)
                        by (nonlinear_arith)
                        requires
                            significand >= 0x80_0000,
                            pow2(scale as nat) >= 0x200_0000_0000,
                    ;
                }
                return None;
            }
            proof {
                lemma2_to64_rest();
                if scale < 40 {
                    lemma_pow2_strictly_increases(scale as nat, 40);
                }
                assert(significand * pow2(scale as nat) <= 0xff_ffff * 0x100_0000_0000)
                    by (nonlinear_arith)
                    requires
                        significand <= 0xff_ffff,
                        pow2(scale as nat) <= 0x100_0000_0000,
                ;
                lemma_u64_shl_is_mul(significand, scale as u64);
            }
            let secs: u64 = significand << (scale as u64);
            assert(secs == self.whole());
            Some(TimeSpan { secs, nanos: 0 })
        } else {
            let nanos: u64 = significand * 1_000_000_000;
            let places: u64 = (-scale) as u64;
            proof {
                lemma2_to64_rest();
                assert(self.whole() <= significand) by {
                    lemma_pow2_pos(places as nat);
                    vstd::arithmetic::div_mod::lemma_div_is_ordered_by_denominator(
                        significand as int,
                        1,
                        pow2(places as nat) as int,
                    );
                }
            }
            let rounded: u64 = if places > 60 {
                proof {
                    lemma_pow2_strictly_increases(60, places as nat);
                    let d = pow2(places as nat) as int;
                    vstd::arithmetic::div_mod::lemma_basic_div(nanos as int, d);
                    vstd::arithmetic::div_mod::lemma_small_mod(nanos as nat, d as nat);
                }
                0
            } else {
                round_shift(nanos, places)
            };
            assert(rounded == self.seconds_in_nanos());
            Some(
                TimeSpan {
                    secs: rounded / 1_000_000_000,
                    nanos: (rounded % 1_000_000_000) as u32,
                },
            )
        }
    }

    /// The bit pattern without the sign.
    pub open spec fn magnitude(self) -> int {
        if self.bits < SIGN_BIT {
            self.bits as int
        } else {
            self.bits - SIGN_BIT
        }
    }

    /// The value is no number.
    pub open spec fn nan(self) -> bool {
        self.magnitude() > INFINITY_BITS
    }

    /// A number that orders as the value does; both zeros have rank zero.
    pub open spec fn rank(self) -> int {
        if self.bits < SIGN_BIT {
            self.magnitude()
        } else {
            -self.magnitude()
        }
    }

    /// `self < other`, which never holds of a value that is no number.
    pub open spec fn below(self, other: Self) -> bool {
        !self.nan() && !other.nan() && self.rank() < other.rank()
    }

    /// `self <= other`, which never holds of a value that is no number.
    pub open spec fn at_most(self, other: Self) -> bool {
        !self.nan() && !other.nan() && self.rank() <= other.rank()
    }

    pub fn from_bits(bits: u32) -> (value: Self)
        ensures
            value.bits == bits,
    {
        Single { bits }
    }

    pub fn to_bits(&self) -> (bits: u32)
        ensures
            bits == self.bits,
    {
        self.bits
    }

    /// Positive zero.
    pub fn zero() -> (value: Self)
        ensures
            value.bits == 0,
            value.rank() == 0,
    {
        Single { bits: 0 }
    }

    pub fn one() -> (value: Self)
        ensures
            value.bits == ONE_BITS,
    {
        Single { bits: ONE_BITS }
    }

    pub fn is_nan(&self) -> (nan: bool)
        ensures
            nan == self.nan(),
    {
        if self.bits < SIGN_BIT {
            self.bits > INFINITY_BITS
        } else {
            self.bits - SIGN_BIT > INFINITY_BITS
        }
    }

    fn rank_number(&self) -> (rank: i64)
        ensures
            rank == self.rank(),
    {
        if self.bits < SIGN_BIT {
            self.bits as i64
        } else {
            -((self.bits - SIGN_BIT) as i64)
        }
    }

    /// `self < other`.
    pub fn is_below(&self, other: Self) -> (below: bool)
        ensures
            below == self.below(other),
    {
        !self.is_nan() && !other.is_nan() && self.rank_number() < other.rank_number()
    }

    /// `self <= other`.
    pub fn is_at_most(&self, other: Self) -> (at_most: bool)
        ensures
            at_most == self.at_most(other),
    {
        !self.is_nan() && !other.is_nan() && self.rank_number() <= other.rank_number()
    }
}

} // verus!

//! What a bit pattern stands for, and what the comparisons, casts and products are of these values.
//!
//! Every finite value is a whole multiple of `2^-149`, the smallest one above zero. Values are told
//! by that multiple, so that no fraction is needed to speak of them.

use vstd::arithmetic::div_mod::lemma_fundamental_div_mod;
use vstd::arithmetic::power2::{
    lemma2_to64, lemma_pow2_adds, lemma_pow2_pos, lemma_pow2_strictly_increases, pow2,
};
use vstd::prelude::*;

use crate::single::{
    half_even, saturated, shifted, Single, TimeSpan, ELEVEN_TENTHS_BITS, HUNDRED_BITS, NINE_TENTHS_BITS,
    ONE_BITS, TEN_BITS, TEN_THOUSAND_BITS, THOUSAND_BITS, THREE_BITS,
};

verus! {

/// The bit pattern stands for a number or an infinity.
pub open spec fn is_number(x: Single) -> bool {
    x.bits % 0x8000_0000 <= 0x7f80_0000
}

/// The magnitude, in multiples of `2^-149`, that goes with a bit pattern without its sign. Infinity
/// is beyond all numbers.
#[verifier::opaque]
pub open spec fn magnitude_value(bits: int) -> int {
    let (exponent, fraction) = (bits / 0x80_0000, bits % 0x80_0000);
    if exponent == 0 {
        fraction
    } else {
        (0x80_0000 + fraction) * pow2((exponent - 1) as nat)
    }
}

/// The value in multiples of `2^-149`.
pub open spec fn value(x: Single) -> int {
    if x.bits < 0x8000_0000 {
        magnitude_value(x.bits as int)
    } else {
        -magnitude_value(x.bits - 0x8000_0000)
    }
}

/// One, in multiples of `2^-149`.
pub open spec fn unit() -> int {
    pow2(149) as int
}

/// Higher bit patterns have higher magnitudes.
proof fn lemma_magnitude_grows(a: int, b: int)
    requires
        0 <= a < b < 0x8000_0000,
    ensures
        0 <= magnitude_value(a) < magnitude_value(b),
{
    reveal(magnitude_value);
    let (ea, fa) = (a / 0x80_0000, a % 0x80_0000);
    let (eb, fb) = (b / 0x80_0000, b % 0x80_0000);
    lemma2_to64();
    if ea == eb {
        if ea > 0 {
            let p = pow2((ea - 1) as nat) as int;
            lemma_pow2_pos((ea - 1) as nat);
            assert(0 <= (0x80_0000 + fa) * p < (0x80_0000 + fb) * p) by (nonlinear_arith)
                requires
                    0 <= fa < fb,
                    p > 0,
            ;
        }
    } else {
        assert(ea < eb);
        let q = pow2((eb - 1) as nat) as int;
        lemma_pow2_pos((eb - 1) as nat);
        assert((0x80_0000 + fb) * q >= 0x80_0000 * q) by (nonlinear_arith)
            requires
                0 <= fb,
                q > 0,
        ;
        if ea > 0 {
            let p = pow2((ea - 1) as nat) as int;
            lemma_pow2_pos((ea - 1) as nat);
            lemma_pow2_adds((ea - 1) as nat, 1);
            if ea + 1 < eb {
                lemma_pow2_strictly_increases(ea as nat, (eb - 1) as nat);
            }
            assert(0 <= (0x80_0000 + fa) * p < 0x100_0000 * p) by (nonlinear_arith)
                requires
                    0 <= fa < 0x80_0000,
                    p > 0,
            ;
        }
    }
}

proof fn lemma_magnitudes_compare(a: int, b: int)
    requires
        0 <= a < 0x8000_0000,
        0 <= b < 0x8000_0000,
    ensures
        a < b <==> magnitude_value(a) < magnitude_value(b),
        a == b <==> magnitude_value(a) == magnitude_value(b),
        magnitude_value(a) >= 0,
        magnitude_value(0) == 0,
{
    if a < b {
        lemma_magnitude_grows(a, b);
    } else if b < a {
        lemma_magnitude_grows(b, a);
    } else if a > 0 {
        lemma_magnitude_grows(0, a);
    }
    assert(magnitude_value(0) == 0) by {
        reveal(magnitude_value);
    }
}

/// A value is below another where it is the smaller of two numbers. What is no number is not below
/// anything, nor above.
pub proof fn law_comparisons_are_by_value(a: Single, b: Single)
    ensures
        a.below(b) <==> is_number(a) && is_number(b) && value(a) < value(b),
        a.at_most(b) <==> is_number(a) && is_number(b) && value(a) <= value(b),
        a.nan() <==> !is_number(a),
{
    lemma_magnitudes_compare(a.magnitude(), b.magnitude());
    lemma_magnitudes_compare(0, a.magnitude());
    lemma_magnitudes_compare(0, b.magnitude());
}

/// A value is below zero where its sign is set, except that neither zero is, nor what is no number.
pub proof fn law_below_zero_by_the_bits(x: Single)
    ensures
        x.below((Single { bits: 0 })) <==> 0x8000_0000 < x.bits <= 0xff80_0000,
        (Single { bits: 0 }).below(x) <==> 0 < x.bits <= 0x7f80_0000,
{
}

/// The magnitude is the significand at its scale.
proof fn lemma_magnitude_is_scaled(x: Single)
    ensures
        magnitude_value(x.magnitude()) == x.significand() * pow2((x.scale() + 149) as nat),
        0 <= x.significand() < 0x100_0000,
        -149 <= x.scale() <= 105,
        x.exponent() > 0 ==> x.significand() >= 0x80_0000,
        value(x) == if x.bits < 0x8000_0000 {
            magnitude_value(x.magnitude())
        } else {
            -magnitude_value(x.magnitude())
        },
{
    reveal(magnitude_value);
    lemma2_to64();
    let m = x.magnitude();
    assert(x.exponent() == m / 0x80_0000);
    if x.exponent() == 0 {
        assert(m % 0x80_0000 == m);
        assert(x.significand() * 1 == m) by (nonlinear_arith)
            requires
                x.significand() == m,
        ;
    }
}

/// The other sign makes the other value of the same magnitude.
pub proof fn law_negation_is_by_value(x: Single)
    ensures
        value(x.negated()) == -value(x),
        is_number(x.negated()) == is_number(x),
        x.negated().negated() == x,
{
}

/// `m * 2^k`, without what falls below one, is less than one below the exact value.
proof fn lemma_shifted_truncates(m: int, k: int, places: nat)
    requires
        0 <= m,
        -places <= k,
    ensures
        ({
            let exact = m * pow2((k + places) as nat);
            let one = pow2(places) as int;
            0 <= shifted(m, k) && shifted(m, k) * one <= exact < (shifted(m, k) + 1) * one
        }),
{
    lemma_pow2_pos(places);
    let u = pow2(places) as int;
    if k >= 0 {
        let p = pow2(k as nat) as int;
        lemma_pow2_pos(k as nat);
        lemma_pow2_adds(k as nat, places);
        assert(m * (p * u) == (m * p) * u) by (nonlinear_arith);
        assert((m * p + 1) * u > (m * p) * u && m * p >= 0) by (nonlinear_arith)
            requires
                u > 0,
                m >= 0,
                p > 0,
        ;
    } else {
        let d = pow2((-k) as nat) as int;
        let r = pow2((k + places) as nat) as int;
        lemma_pow2_pos((-k) as nat);
        lemma_pow2_pos((k + places) as nat);
        lemma_pow2_adds((-k) as nat, (k + places) as nat);
        assert(u == d * r);
        lemma_fundamental_div_mod(m, d);
        let q = m / d;
        let e = m % d;
        assert(0 <= q) by {
            vstd::arithmetic::div_mod::lemma_div_pos_is_pos(m, d);
        }
        assert(q * (d * r) <= m * r < (q + 1) * (d * r)) by (nonlinear_arith)
            requires
                m == d * q + e,
                0 <= e < d,
                r > 0,
        ;
    }
}

/// The cast to an unsigned integer drops the fraction and stops at both ends of the range.
pub proof fn law_unsigned_casts_truncate(x: Single, max: int)
    requires
        0 <= max < 0x1_0000_0000,
    ensures
        ({
            let cast = x.cast_unsigned(max);
            &&& 0 <= cast <= max
            &&& !is_number(x) || value(x) <= 0 ==> cast == 0
            &&& is_number(x) && 0 <= value(x) < (max + 1) * unit() ==> cast * unit() <= value(x) < (
            cast + 1) * unit()
            &&& is_number(x) && value(x) >= (max + 1) * unit() ==> cast == max
        }),
{
    lemma_magnitude_is_scaled(x);
    lemma_shifted_truncates(x.significand(), x.scale(), 149);
    lemma_pow2_pos(149);
    lemma_magnitudes_compare(0, x.magnitude());
    let u = unit();
    let w = x.whole();
    let v = magnitude_value(x.magnitude());
    assert(is_number(x) <==> !x.nan());
    assert(0 * u == 0) by (nonlinear_arith);
    assert((max + 1) * u > 0) by (nonlinear_arith)
        requires
            max >= 0,
            u > 0,
    ;
    if x.magnitude() == 0x7f80_0000 {
        // Infinity is beyond every range.
        lemma_infinity_is_large(max);
    } else if is_number(x) && x.bits < 0x8000_0000 {
        assert(w > max ==> v >= (max + 1) * u) by (nonlinear_arith)
            requires
                w * u <= v,
                u > 0,
        ;
        assert(w <= max ==> v < (max + 1) * u) by (nonlinear_arith)
            requires
                v < (w + 1) * u,
                u > 0,
        ;
        assert(v == 0 ==> w == 0) by (nonlinear_arith)
            requires
                w >= 0,
                w * u <= v,
                u > 0,
        ;
    } else if is_number(x) {
        assert(v == 0 ==> w == 0) by (nonlinear_arith)
            requires
                w >= 0,
                w * u <= v,
                u > 0,
        ;
        assert(value(x) <= 0);
        assert(value(x) == 0 ==> x.magnitude() == 0);
    }
}

proof fn lemma_infinity_is_large(max: int)
    requires
        0 <= max < 0x1_0000_0000,
    ensures
        magnitude_value(0x7f80_0000) >= (max + 1) * unit(),
{
    reveal(magnitude_value);
    lemma2_to64();
    assert(0x7f80_0000int / 0x80_0000 == 255);
    assert(0x7f80_0000int % 0x80_0000 == 0);
    lemma_pow2_adds(105, 149);
    lemma_pow2_strictly_increases(32, 105);
    lemma_pow2_pos(149);
    let (p, u) = (pow2(105) as int, unit());
    assert(0x80_0000 * (p * u) >= (max + 1) * u) by (nonlinear_arith)
        requires
            p >= max + 1,
            u > 0,
            max >= 0,
    ;
}

/// Rounding goes to the nearest whole number, and halfway to the even one.
pub proof fn law_rounding_is_to_the_nearest(n: int, d: int)
    requires
        0 <= n,
        0 < d,
    ensures
        -d <= 2 * (n - half_even(n, d) * d) <= d,
        2 * (n - half_even(n, d) * d) == d || 2 * (n - half_even(n, d) * d) == -d ==> half_even(
            n,
            d,
        ) % 2 == 0,
        half_even(n, d) >= 0,
{
    lemma_fundamental_div_mod(n, d);
    let (q, r) = (n / d, n % d);
    assert(q * d == d * q) by (nonlinear_arith);
    assert((q + 1) * d == d * q + d) by (nonlinear_arith);
    vstd::arithmetic::div_mod::lemma_div_pos_is_pos(n, d);
}

/// The product of two factors is off by no more than one part in `2^24`.
pub proof fn law_products_are_rounded(x: Single, factor: Single)
    requires
        x.is_factor(),
        factor.is_factor(),
        128 <= x.exponent() + factor.exponent() <= 379,
    ensures
        ({
            let exact = value(x) * value(factor);
            let product = value(x.product(factor)) * unit();
            &&& (product - exact) * 0x100_0000 <= exact
            &&& (exact - product) * 0x100_0000 <= exact
            &&& is_number(x.product(factor))
            &&& value(x.product(factor)) > 0
        }),
{
    lemma2_to64();
    lemma_magnitude_is_scaled(x);
    lemma_magnitude_is_scaled(factor);
    let (a, b) = (x.significand(), factor.significand());
    let exact = a * b;
    assert(0x4000_0000_0000 <= exact < 0x1_0000_0000_0000) by (nonlinear_arith)
        requires
            exact == a * b,
            0x80_0000 <= a < 0x100_0000,
            0x80_0000 <= b < 0x100_0000,
    ;
    let dropped: int = if exact < 0x8000_0000_0000 {
        23
    } else {
        24
    };
    let d = pow2(dropped as nat) as int;
    law_rounding_is_to_the_nearest(exact, d);
    let kept = half_even(exact, d);
    assert(0x80_0000 <= kept <= 0x100_0000) by {
        if dropped == 23 {
            assert(kept == half_even(exact, 0x80_0000));
        } else {
            assert(kept == half_even(exact, 0x100_0000));
        }
    }
    let exponent = x.scale() + factor.scale() + dropped + 150;
    let p = x.product(factor);
    assert(1 <= exponent <= 254);
    assert(p.bits == exponent * 0x80_0000 + (kept - 0x80_0000));
    let place = pow2((exponent - 1) as nat) as int;
    reveal(magnitude_value);
    // The value is `kept` at this exponent, also where it carries into the next.
    assert(value(p) == kept * place) by {
        if kept == 0x100_0000 {
            assert(p.bits == (exponent + 1) * 0x80_0000);
            assert(p.bits as int / 0x80_0000 == exponent + 1);
            assert(p.bits as int % 0x80_0000 == 0);
            lemma_pow2_adds((exponent - 1) as nat, 1);
            assert(0x80_0000 * (place * 2) == 0x100_0000 * place) by (nonlinear_arith);
        } else {
            assert(p.bits as int / 0x80_0000 == exponent);
            assert(p.bits as int % 0x80_0000 == kept - 0x80_0000);
        }
    }
    let pa = pow2((x.scale() + 149) as nat) as int;
    let pb = pow2((factor.scale() + 149) as nat) as int;
    lemma_pow2_pos((x.scale() + 149) as nat);
    lemma_pow2_pos((factor.scale() + 149) as nat);
    lemma_pow2_pos((exponent - 1) as nat);
    lemma_pow2_adds((x.scale() + 149) as nat, (factor.scale() + 149) as nat);
    lemma_pow2_adds((exponent - 1) as nat, 149);
    lemma_pow2_adds((x.scale() + factor.scale() + 298) as nat, dropped as nat);
    let u = unit();
    assert(place * u == (pa * pb) * d);
    assert((a * pa) * (b * pb) == exact * (pa * pb)) by (nonlinear_arith)
        requires
            exact == a * b,
    ;
    let s = pa * pb;
    assert(s > 0) by (nonlinear_arith)
        requires
            s == pa * pb,
            pa > 0,
            pb > 0,
    ;
    assert((kept * place) * u == (kept * d) * s) by (nonlinear_arith)
        requires
            place * u == s * d,
    ;
    let off = kept * d - exact;
    assert((kept * d) * s - exact * s == off * s) by (nonlinear_arith)
        requires
            off == kept * d - exact,
    ;
    assert(off * 0x100_0000 <= exact && -off * 0x100_0000 <= exact);
    assert((off * s) * 0x100_0000 <= exact * s && (-(off * s)) * 0x100_0000 <= exact * s)
        by (nonlinear_arith)
        requires
            off * 0x100_0000 <= exact,
            -off * 0x100_0000 <= exact,
            s > 0,
    ;
    assert(kept * place > 0) by (nonlinear_arith)
        requires
            kept > 0,
            place > 0,
    ;
}

/// The value stands for `n / d`, off by no more than one part in ten million.
pub open spec fn is_about(x: Single, n: int, d: int) -> bool {
    &&& is_number(x)
    &&& (value(x) * d - n * unit()) * 10_000_000 <= n * unit()
    &&& (n * unit() - value(x) * d) * 10_000_000 <= n * unit()
}

/// A bit pattern with this exponent stands for this significand at that place.
proof fn lemma_value_at(x: Single, exponent: int, place: nat)
    requires
        x.bits < 0x7f80_0000,
        x.bits as int / 0x80_0000 == exponent,
        exponent >= 1,
        place <= 149,
        exponent - 1 + place == 149,
    ensures
        ({
            let p = pow2((exponent - 1) as nat) as int;
            &&& value(x) == (0x80_0000 + x.bits as int % 0x80_0000) * p
            &&& unit() == p * pow2(place)
            &&& p > 0
        }),
{
    reveal(magnitude_value);
    lemma_pow2_adds((exponent - 1) as nat, place);
    lemma_pow2_pos((exponent - 1) as nat);
}

pub proof fn lemma_is_about(x: Single, exponent: int, place: nat, significand: int, n: int, d: int)
    requires
        x.bits < 0x7f80_0000,
        x.bits as int / 0x80_0000 == exponent,
        x.bits as int % 0x80_0000 == significand - 0x80_0000,
        exponent >= 1,
        place <= 149,
        exponent - 1 + place == 149,
        (significand * d - n * pow2(place)) * 10_000_000 <= n * pow2(place),
        (n * pow2(place) - significand * d) * 10_000_000 <= n * pow2(place),
    ensures
        is_about(x, n, d),
        significand * d == n * pow2(place) ==> value(x) * d == n * unit(),
{
    lemma_value_at(x, exponent, place);
    let p = pow2((exponent - 1) as nat) as int;
    let q = pow2(place) as int;
    assert((significand * p) * d == (significand * d) * p) by (nonlinear_arith);
    assert(n * (p * q) == (n * q) * p) by (nonlinear_arith);
    let (a, b) = (significand * d, n * q);
    assert((a * p - b * p) * 10_000_000 <= b * p) by (nonlinear_arith)
        requires
            (a - b) * 10_000_000 <= b,
            p > 0,
    ;
    assert((b * p - a * p) * 10_000_000 <= b * p) by (nonlinear_arith)
        requires
            (b - a) * 10_000_000 <= b,
            p > 0,
    ;
}

/// The constants stand for the numbers that they are named after.
pub proof fn law_constants_have_their_values()
    ensures
        value((Single { bits: ONE_BITS })) == unit(),
        value((Single { bits: THREE_BITS })) == 3 * unit(),
        value((Single { bits: TEN_BITS })) == 10 * unit(),
        value((Single { bits: HUNDRED_BITS })) == 100 * unit(),
        value((Single { bits: THOUSAND_BITS })) == 1000 * unit(),
        value((Single { bits: TEN_THOUSAND_BITS })) == 10_000 * unit(),
        is_about((Single { bits: NINE_TENTHS_BITS }), 9, 10),
        is_about((Single { bits: ELEVEN_TENTHS_BITS }), 11, 10),
{
    lemma2_to64();
    lemma_is_about(Single { bits: ONE_BITS }, 127, 23, 0x80_0000, 1, 1);
    lemma_is_about(Single { bits: THREE_BITS }, 128, 22, 0xc0_0000, 3, 1);
    lemma_is_about(Single { bits: TEN_BITS }, 130, 20, 0xa0_0000, 10, 1);
    lemma_is_about(Single { bits: HUNDRED_BITS }, 133, 17, 0xc8_0000, 100, 1);
    lemma_is_about(Single { bits: THOUSAND_BITS }, 136, 14, 0xfa_0000, 1000, 1);
    lemma_is_about(Single { bits: TEN_THOUSAND_BITS }, 140, 10, 0x9c_4000, 10_000, 1);
    lemma_is_about(Single { bits: NINE_TENTHS_BITS }, 126, 24, 0xe6_6666, 9, 10);
    lemma_is_about(Single { bits: ELEVEN_TENTHS_BITS }, 127, 23, 0x8c_cccd, 11, 10);
}

/// What comes out of a saturating cast: the truncated magnitude with the sign of the value, and the
/// end of the range where that is exceeded.
proof fn lemma_saturated(x: Single, magnitude: int, min: int, max: int)
    requires
        min <= 0 <= max,
        magnitude >= 0,
        value(x) == 0 ==> magnitude == 0,
    ensures
        ({
            let cast = saturated(x, magnitude, min, max);
            &&& min <= cast <= max
            &&& !is_number(x) ==> cast == 0
            &&& x.finite() && value(x) >= 0 ==> cast == if magnitude > max {
                max
            } else {
                magnitude
            }
            &&& x.finite() && value(x) <= 0 ==> cast == if magnitude > -min {
                min
            } else {
                -magnitude
            }
        }),
{
    lemma_magnitudes_compare(0, x.magnitude());
}

/// The cast of a value times a whole number drops the fraction, keeps the sign, and stops at both
/// ends of the range.
pub proof fn law_casts_of_multiples_truncate(x: Single, count: int, min: int, max: int)
    requires
        0 < count,
        min <= 0 <= max,
    ensures
        ({
            let cast = x.cast_times(count, min, max);
            &&& min <= cast <= max
            &&& !is_number(x) ==> cast == 0
            &&& x.finite() && min < cast < max ==> {
                &&& value(x) >= 0 ==> cast * unit() <= value(x) * count < (cast + 1) * unit()
                &&& value(x) <= 0 ==> (cast - 1) * unit() < value(x) * count <= cast * unit()
            }
            &&& x.finite() && cast == max && 0 < max ==> value(x) * count >= max * unit()
            &&& x.finite() && cast == min && min < 0 ==> value(x) * count <= min * unit()
        }),
{
    lemma_magnitude_is_scaled(x);
    lemma_pow2_pos((x.scale() + 149) as nat);
    lemma_pow2_pos(149);
    lemma_magnitudes_compare(0, x.magnitude());
    let (m, p, u) = (x.significand(), pow2((x.scale() + 149) as nat) as int, unit());
    assert(m * count >= 0) by (nonlinear_arith)
        requires
            m >= 0,
            count > 0,
    ;
    lemma_shifted_truncates(m * count, x.scale(), 149);
    let w = shifted(m * count, x.scale());
    assert((m * count) * p == (m * p) * count) by (nonlinear_arith);
    let v = magnitude_value(x.magnitude());
    assert(v == 0 ==> w == 0) by (nonlinear_arith)
        requires
            w >= 0,
            w * u <= v * count,
            u > 0,
    ;
    lemma_saturated(x, w, min, max);
    assert((-v) * count == -(v * count)) by (nonlinear_arith);
    assert((-w - 1) * u == -((w + 1) * u)) by (nonlinear_arith);
    assert((-w) * u == -(w * u)) by (nonlinear_arith);
    assert(w >= max ==> v * count >= max * u) by (nonlinear_arith)
        requires
            w * u <= v * count,
            u > 0,
    ;
    assert(w >= -min ==> -(v * count) <= min * u) by (nonlinear_arith)
        requires
            w * u <= v * count,
            u > 0,
    ;
}

/// The number of seconds is turned into the nearest number of nanoseconds.
pub proof fn law_seconds_are_the_nearest_nanoseconds(x: Single)
    requires
        x.finite(),
        x.bits < 0x8000_0000,
    ensures
        -unit() <= 2 * (value(x) * 1_000_000_000 - x.seconds_in_nanos() * unit()) <= unit(),
{
    lemma_magnitude_is_scaled(x);
    lemma_pow2_pos(149);
    let (m, k, u) = (x.significand(), x.scale(), unit());
    let p = pow2((k + 149) as nat) as int;
    if k >= 0 {
        let q = pow2(k as nat) as int;
        lemma_pow2_adds(k as nat, 149);
        assert((m * (q * u)) * 1_000_000_000 == ((m * q) * 1_000_000_000) * u) by (nonlinear_arith);
    } else {
        let d = pow2((-k) as nat) as int;
        lemma_pow2_pos((-k) as nat);
        lemma_pow2_pos((k + 149) as nat);
        lemma_pow2_adds((-k) as nat, (k + 149) as nat);
        law_rounding_is_to_the_nearest(m * 1_000_000_000, d);
        let h = half_even(m * 1_000_000_000, d);
        let off = m * 1_000_000_000 - h * d;
        assert((m * p) * 1_000_000_000 - h * (d * p) == off * p) by (nonlinear_arith)
            requires
                off == m * 1_000_000_000 - h * d,
        ;
        assert(-(d * p) <= 2 * (off * p) <= d * p) by (nonlinear_arith)
            requires
                -d <= 2 * off <= d,
                p > 0,
        ;
    }
}

/// A quotient in single precision is off by no more than one part in ten million, and has its sign.
pub proof fn law_quotients_are_rounded(x: Single, n: int, d: int)
    requires
        x.is_quotient(n, d),
        0 < d,
    ensures
        n >= 0 ==> is_about(x, n, d),
        n <= 0 ==> is_about(x.negated(), -n, d),
{
    lemma_magnitude_is_scaled(x);
    lemma_magnitude_is_scaled(x.negated());
    lemma_magnitudes_compare(0, x.magnitude());
    if n == 0 {
        assert(value(x) == 0 && value(x.negated()) == 0);
        assert(0 * d == 0 && 0 * unit() == 0) by (nonlinear_arith);
    } else {
        let a = if n < 0 {
            -n
        } else {
            n
        };
        let (m, k) = (x.significand(), x.scale());
        let p = pow2((k + 149) as nat) as int;
        let q = pow2((-k) as nat) as int;
        lemma_pow2_pos((-k) as nat);
        lemma_pow2_pos((k + 149) as nat);
        lemma_pow2_adds((k + 149) as nat, (-k) as nat);
        assert(a * q >= 0) by (nonlinear_arith)
            requires
                a > 0,
                q > 0,
        ;
        law_rounding_is_to_the_nearest(a * q, d);
        let off = a * q - m * d;
        // The significand has 24 bits, so that half of its last place is little.
        assert(off * 10_000_000 <= a * q && -off * 10_000_000 <= a * q) by (nonlinear_arith)
            requires
                off == a * q - m * d,
                -d <= 2 * off <= d,
                m >= 0x80_0000,
                d > 0,
        ;
        assert((m * p) * d - a * (p * q) == -(off * p)) by (nonlinear_arith)
            requires
                off == a * q - m * d,
        ;
        assert(a * (p * q) == (a * q) * p) by (nonlinear_arith);
        assert((off * p) * 10_000_000 <= (a * q) * p && (-(off * p)) * 10_000_000 <= (a * q) * p)
            by (nonlinear_arith)
            requires
                off * 10_000_000 <= a * q,
                -off * 10_000_000 <= a * q,
                p > 0,
        ;
    }
}

/// The magnitude of a scaled value that is not tiny, before it is cast: off by no more than one
/// part in ten million, without its fraction.
proof fn lemma_product_whole(x: Single, factor: Single)
    requires
        factor.is_factor(),
        x.exponent() > 0,
    ensures
        ({
            let w = x.product_whole(factor);
            let exact = magnitude_value(x.magnitude()) * value(factor);
            let one = unit() * unit();
            &&& w >= 0
            &&& (w * one) * 10_000_000 <= exact * 10_000_001
            &&& ((w + 1) * one) * 10_000_000 > exact * 9_999_999
        }),
{
    lemma2_to64();
    lemma_magnitude_is_scaled(x);
    lemma_magnitude_is_scaled(factor);
    let (a, b) = (x.significand(), factor.significand());
    let exact = a * b;
    assert(0x4000_0000_0000 <= exact < 0x1_0000_0000_0000) by (nonlinear_arith)
        requires
            exact == a * b,
            0x80_0000 <= a < 0x100_0000,
            0x80_0000 <= b < 0x100_0000,
    ;
    let dropped: int = if exact < 0x8000_0000_0000 {
        23
    } else {
        24
    };
    let d = pow2(dropped as nat) as int;
    law_rounding_is_to_the_nearest(exact, d);
    let kept = half_even(exact, d);
    let k = x.scale() + factor.scale() + dropped;
    lemma_shifted_truncates(kept, k, 298);
    let w = shifted(kept, k);
    lemma_pow2_adds(149, 149);
    let one = pow2(298) as int;
    let pa = pow2((x.scale() + 149) as nat) as int;
    let pb = pow2((factor.scale() + 149) as nat) as int;
    lemma_pow2_pos((x.scale() + 149) as nat);
    lemma_pow2_pos((factor.scale() + 149) as nat);
    lemma_pow2_adds((x.scale() + 149) as nat, (factor.scale() + 149) as nat);
    lemma_pow2_adds((x.scale() + factor.scale() + 298) as nat, dropped as nat);
    let s = pa * pb;
    assert(s > 0) by (nonlinear_arith)
        requires
            s == pa * pb,
            pa > 0,
            pb > 0,
    ;
    assert((a * pa) * (b * pb) == exact * s) by (nonlinear_arith)
        requires
            exact == a * b,
            s == pa * pb,
    ;
    assert(kept * (s * d) == (kept * d) * s) by (nonlinear_arith);
    let off = kept * d - exact;
    assert(off * 10_000_000 <= exact && -off * 10_000_000 <= exact);
    assert(((kept * d) * s) * 10_000_000 <= (exact * s) * 10_000_001) by (nonlinear_arith)
        requires
            kept * d == exact + off,
            off * 10_000_000 <= exact,
            s > 0,
    ;
    assert(((kept * d) * s) * 10_000_000 >= (exact * s) * 9_999_999) by (nonlinear_arith)
        requires
            kept * d == exact + off,
            -off * 10_000_000 <= exact,
            s > 0,
    ;
}

/// The cast of a scaled value keeps its sign, drops the fraction, stops at both ends of the range,
/// and is off by no more than one part in ten million. What is no number is zero.
pub proof fn law_scaled_casts_truncate(x: Single, factor: Single, min: int, max: int)
    requires
        factor.is_factor(),
        x.exponent() > 0,
        min <= 0 <= max,
    ensures
        ({
            let cast = x.cast_scaled(factor, min, max);
            let exact = value(x) * value(factor);
            let one = unit() * unit();
            &&& min <= cast <= max
            &&& !is_number(x) ==> cast == 0
            &&& x.finite() && value(x) > 0 ==> {
                &&& cast >= 0
                &&& (cast * one) * 10_000_000 <= exact * 10_000_001
                &&& cast < max ==> ((cast + 1) * one) * 10_000_000 > exact * 9_999_999
            }
            &&& x.finite() && value(x) < 0 ==> {
                &&& cast <= 0
                &&& (cast * one) * 10_000_000 >= exact * 10_000_001
                &&& cast > min ==> ((cast - 1) * one) * 10_000_000 < exact * 9_999_999
            }
        }),
{
    lemma_product_whole(x, factor);
    lemma_magnitude_is_scaled(x);
    lemma_magnitudes_compare(0, x.magnitude());
    let w = x.product_whole(factor);
    lemma_saturated(x, w, min, max);
    lemma_pow2_pos(149);
    let one = unit() * unit();
    assert(one > 0) by (nonlinear_arith)
        requires
            one == unit() * unit(),
            unit() > 0,
    ;
    let (v, f) = (magnitude_value(x.magnitude()), value(factor));
    assert((-v) * f == -(v * f)) by (nonlinear_arith);
    assert(w > max ==> max * one <= w * one) by (nonlinear_arith)
        requires
            one > 0,
    ;
    assert(w > -min ==> (-min) * one <= w * one) by (nonlinear_arith)
        requires
            one > 0,
    ;
    assert((-min) * one == -(min * one)) by (nonlinear_arith);
    assert((-w) * one == -(w * one)) by (nonlinear_arith);
    assert((-w - 1) * one == -((w + 1) * one)) by (nonlinear_arith);
}

/// The field holds the value times `n / d`, as a whole number that fits the range: its fraction is
/// dropped, it keeps its sign, and it is off by no more than one part in a million. What is no
/// number is zero, and so is what is tiny.
pub open spec fn is_scaled(field: int, x: Single, n: int, d: int, min: int, max: int) -> bool {
    &&& min <= field <= max
    &&& !is_number(x) ==> field == 0
    &&& x.bits % 0x8000_0000 < 0x80_0000 ==> field == 0
    &&& x.bits == 0x7f80_0000 ==> field == max
    &&& x.bits == 0xff80_0000 ==> field == min
    &&& 0x80_0000 <= x.bits < 0x7f80_0000 ==> {
        &&& field >= 0
        &&& ((field * unit()) * d) * 1_000_000 <= (value(x) * n) * 1_000_001
        &&& field < max ==> (((field + 1) * unit()) * d) * 1_000_000 > (value(x) * n) * 999_999
    }
    &&& 0x8080_0000 <= x.bits < 0xff80_0000 ==> {
        &&& field <= 0
        &&& ((field * unit()) * d) * 1_000_000 >= (value(x) * n) * 1_000_001
        &&& field > min ==> (((field - 1) * unit()) * d) * 1_000_000 < (value(x) * n) * 999_999
    }
}

proof fn lemma_scale_bounds(c: int, v: int, f: int, u: int, n: int, d: int)
    requires
        u > 0,
        d > 0,
        n > 0,
        v > 0,
        (f * d - n * u) * 10_000_000 <= n * u,
        (n * u - f * d) * 10_000_000 <= n * u,
    ensures
        (c * (u * u)) * 10_000_000 <= (v * f) * 10_000_001 ==> ((c * u) * d) * 1_000_000 <= (v * n)
            * 1_000_001,
        (c * (u * u)) * 10_000_000 > (v * f) * 9_999_999 ==> ((c * u) * d) * 1_000_000 > (v * n)
            * 999_999,
{
    let fd = f * d;
    let nu = n * u;
    let a = (c * u) * d;
    let b = v * n;
    assert((c * (u * u)) * d == a * u) by (nonlinear_arith)
        requires
            a == (c * u) * d,
    ;
    assert((v * f) * d == v * fd) by (nonlinear_arith)
        requires
            fd == f * d,
    ;
    assert(b > 0) by (nonlinear_arith)
        requires
            b == v * n,
            v > 0,
            n > 0,
    ;
    assert(v * nu == b * u) by (nonlinear_arith)
        requires
            nu == n * u,
            b == v * n,
    ;
    assert((v * fd) * 10_000_000 <= (b * u) * 10_000_001) by (nonlinear_arith)
        requires
            (fd - nu) * 10_000_000 <= nu,
            v * nu == b * u,
            v > 0,
    ;
    assert((v * fd) * 10_000_000 >= (b * u) * 9_999_999) by (nonlinear_arith)
        requires
            (nu - fd) * 10_000_000 <= nu,
            v * nu == b * u,
            v > 0,
    ;
    if (c * (u * u)) * 10_000_000 <= (v * f) * 10_000_001 {
        assert((a * u) * 10_000_000 <= (v * fd) * 10_000_001) by (nonlinear_arith)
            requires
                (c * (u * u)) * d == a * u,
                (v * f) * d == v * fd,
                (c * (u * u)) * 10_000_000 <= (v * f) * 10_000_001,
                d > 0,
        ;
        assert((a * u) * 1_000_000 <= (b * u) * 1_000_001) by {
            assert(b * u > 0) by (nonlinear_arith)
                requires
                    b > 0,
                    u > 0,
            ;
        }
        assert(a * 1_000_000 <= b * 1_000_001) by (nonlinear_arith)
            requires
                (a * u) * 1_000_000 <= (b * u) * 1_000_001,
                u > 0,
        ;
    }
    if (c * (u * u)) * 10_000_000 > (v * f) * 9_999_999 {
        assert((a * u) * 10_000_000 > (v * fd) * 9_999_999) by (nonlinear_arith)
            requires
                (c * (u * u)) * d == a * u,
                (v * f) * d == v * fd,
                (c * (u * u)) * 10_000_000 > (v * f) * 9_999_999,
                d > 0,
        ;
        assert((a * u) * 1_000_000 > (b * u) * 999_999) by {
            assert(b * u > 0) by (nonlinear_arith)
                requires
                    b > 0,
                    u > 0,
            ;
        }
        assert(a * 1_000_000 > b * 999_999) by (nonlinear_arith)
            requires
                (a * u) * 1_000_000 > (b * u) * 999_999,
                u > 0,
        ;
    }
}

/// A cast of a value times a factor that stands for `n / d` is the value scaled by that.
pub proof fn law_fields_are_scaled(
    x: Single,
    factor: Single,
    n: int,
    d: int,
    min: int,
    max: int,
)
    requires
        factor.is_factor(),
        is_about(factor, n, d),
        n > 0,
        d > 0,
        min <= 0 <= max,
    ensures
        is_scaled(x.cast_scaled(factor, min, max), x, n, d, min, max),
{
    let c = x.cast_scaled(factor, min, max);
    lemma_magnitude_is_scaled(x);
    lemma_magnitudes_compare(0, x.magnitude());
    lemma_pow2_pos(149);
    if x.exponent() == 0 {
        assert(c == 0);
    } else {
        law_scaled_casts_truncate(x, factor, min, max);
        let (v, f, u) = (value(x), value(factor), unit());
        if x.finite() && v > 0 {
            lemma_scale_bounds(c, v, f, u, n, d);
            lemma_scale_bounds(c + 1, v, f, u, n, d);
        } else if x.finite() {
            assert(v < 0);
            lemma_scale_bounds(-c, -v, f, u, n, d);
            lemma_scale_bounds(-c + 1, -v, f, u, n, d);
            let uu = u * u;
            assert((-c) * uu == -(c * uu)) by (nonlinear_arith);
            assert((-c + 1) * uu == -((c - 1) * uu)) by (nonlinear_arith);
            assert((-v) * f == -(v * f)) by (nonlinear_arith);
            assert((-v) * n == -(v * n)) by (nonlinear_arith);
            assert(((-c) * u) * d == -((c * u) * d)) by (nonlinear_arith);
            assert(((-c + 1) * u) * d == -(((c - 1) * u) * d)) by (nonlinear_arith);
        }
    }
}

/// The comparisons that are carried out are by value.
pub proof fn law_carried_out_comparisons(
    a: Single,
    b: Single,
    below: bool,
    at_most: bool,
    nan: bool,
    finite: bool,
)
    requires
        call_ensures(Single::is_below, (&a, b), below),
        call_ensures(Single::is_at_most, (&a, b), at_most),
        call_ensures(Single::is_nan, (&a,), nan),
        call_ensures(Single::is_finite, (&a,), finite),
    ensures
        below <==> is_number(a) && is_number(b) && value(a) < value(b),
        at_most <==> is_number(a) && is_number(b) && value(a) <= value(b),
        nan <==> !is_number(a),
        finite <==> a.bits % 0x8000_0000 < 0x7f80_0000,
{
    law_comparisons_are_by_value(a, b);
}

/// The signs and constants that are carried out.
pub proof fn law_carried_out_signs(
    x: Single,
    negated: Single,
    magnitude: Single,
    zero: Single,
    one: Single,
)
    requires
        call_ensures(Single::neg, (&x,), negated),
        call_ensures(Single::abs, (&x,), magnitude),
        call_ensures(Single::zero, (), zero),
        call_ensures(Single::one, (), one),
    ensures
        value(negated) == -value(x),
        value(x) >= 0 ==> value(magnitude) == value(x),
        value(x) <= 0 ==> value(magnitude) == -value(x),
        value(zero) == 0,
        value(one) == unit(),
{
    law_negation_is_by_value(x);
    law_constants_have_their_values();
    lemma_magnitudes_compare(0, x.magnitude());
}

/// The casts that are carried out drop the fraction and stop at both ends of the range.
pub proof fn law_carried_out_casts(x: Single, word: u32, byte: u8)
    requires
        call_ensures(Single::to_u32, (&x,), word),
        call_ensures(Single::to_u8, (&x,), byte),
    ensures
        !is_number(x) || value(x) <= 0 ==> word == 0 && byte == 0,
        is_number(x) && 0 <= value(x) < 0x1_0000_0000 * unit() ==> word * unit() <= value(x) < (word
            + 1) * unit(),
        is_number(x) && value(x) >= 0x1_0000_0000 * unit() ==> word == 0xffff_ffff,
        is_number(x) && 0 <= value(x) < 256 * unit() ==> byte * unit() <= value(x) < (byte + 1)
            * unit(),
        is_number(x) && value(x) >= 256 * unit() ==> byte == 255,
{
    law_unsigned_casts_truncate(x, 0xffff_ffff);
    law_unsigned_casts_truncate(x, 255);
}

/// Lengths of time, in nanoseconds and milliseconds.
pub proof fn law_lengths_of_time(
    millis: u64,
    span: TimeSpan,
    other: TimeSpan,
    made: TimeSpan,
    zero: bool,
    at_most: bool,
    whole: u64,
)
    requires
        span.nanos < 1_000_000_000,
        other.nanos < 1_000_000_000,
        span.secs <= 0xffff_ffff,
        call_ensures(TimeSpan::from_millis, (millis,), made),
        call_ensures(TimeSpan::is_zero, (&span,), zero),
        call_ensures(TimeSpan::is_at_most, (&span, other), at_most),
        call_ensures(TimeSpan::as_millis, (&span,), whole),
    ensures
        made.secs == millis as int / 1000,
        made.nanos == millis as int % 1000 * 1_000_000,
        zero <==> span.secs == 0 && span.nanos == 0,
        at_most <==> span.secs < other.secs || (span.secs == other.secs && span.nanos
            <= other.nanos),
        whole == span.secs * 1000 + span.nanos as int / 1_000_000,
{
}

} // verus!

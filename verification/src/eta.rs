//! The estimate of the time of arrival.
//!
//! An ambulance is taken to travel at sixty kilometres an hour. The estimate is
//! the travel time in minutes, rounded to the nearest whole minute, and never
//! less than one minute. A distance is a double-precision number held as its bit
//! pattern; the estimate is computed from the bit pattern with whole numbers
//! alone.

use vstd::prelude::*;
use vstd::arithmetic::div_mod::{lemma_basic_div, lemma_div_is_ordered, lemma_div_multiples_vanish_quotient};
use vstd::arithmetic::power2::{lemma2_to64, lemma2_to64_rest, lemma_pow2_strictly_increases, pow2};
use vstd::bits::lemma_u64_shl_is_mul;
use crate::model::{Distance, Location};

verus! {

/// The speed at which an ambulance is taken to travel, in kilometres an hour.
pub const AVERAGE_SPEED_KMH: u64 = 60;

/// The minutes of an hour.
pub const MINUTES_PER_HOUR: u64 = 60;

/// The least estimate, in minutes.
pub const MINIMUM_ETA_MINUTES: u32 = 1;

/// The bit pattern of positive infinity. Below it lie the bit patterns of the
/// numbers that are not negative, above it those of the negative numbers and of
/// what is no number.
pub const INFINITY_BITS: u64 = 0x7FF0_0000_0000_0000;

/// Two to the power fifty-two: the span of the fraction field of a double.
pub const FRACTION_SPAN: u64 = 0x10_0000_0000_0000;

impl Distance {
    /// Whether the distance is a number that is not negative and not infinite.
    pub open spec fn is_finite(self) -> bool {
        self.bits < INFINITY_BITS
    }

    /// Whether the distance is positive infinity.
    pub open spec fn is_infinite(self) -> bool {
        self.bits == INFINITY_BITS
    }

    /// The exponent field of a finite distance.
    pub open spec fn exponent(self) -> nat {
        (self.bits / FRACTION_SPAN) as nat
    }

    /// The fraction field of a finite distance.
    pub open spec fn fraction(self) -> nat {
        (self.bits % FRACTION_SPAN) as nat
    }

    /// A finite distance is `numerator / denominator` kilometres, exactly. This
    /// is the numerator.
    pub open spec fn numerator(self) -> nat {
        if self.exponent() == 0 {
            self.fraction()
        } else if self.exponent() <= 1075 {
            FRACTION_SPAN as nat + self.fraction()
        } else {
            (FRACTION_SPAN as nat + self.fraction()) * pow2((self.exponent() - 1075) as nat)
        }
    }

    /// The denominator of a finite distance: a power of two.
    pub open spec fn denominator(self) -> nat {
        if self.exponent() == 0 {
            pow2(1074)
        } else if self.exponent() <= 1075 {
            pow2((1075 - self.exponent()) as nat)
        } else {
            1
        }
    }
}

/// The whole number nearest to `numerator / denominator`; a half is rounded
/// upwards.
pub open spec fn nearest_whole(numerator: nat, denominator: nat) -> nat {
    ((2 * numerator + denominator) / (2 * denominator)) as nat
}

/// The minutes that it takes to travel a finite distance, rounded to the
/// nearest whole minute.
pub open spec fn travel_minutes(distance: Distance) -> nat {
    nearest_whole(
        distance.numerator() * MINUTES_PER_HOUR as nat,
        distance.denominator() * AVERAGE_SPEED_KMH as nat,
    )
}

/// The estimate of the time of arrival in minutes: the travel time, but no less
/// than one minute and no more than a `u32` holds. An infinite distance gives the
/// greatest estimate; what is negative or no number gives the least.
pub open spec fn eta_minutes(distance: Distance) -> u32 {
    if distance.is_finite() {
        let minutes = travel_minutes(distance);
        if minutes < MINIMUM_ETA_MINUTES {
            MINIMUM_ETA_MINUTES
        } else if minutes > u32::MAX {
            u32::MAX
        } else {
            minutes as u32
        }
    } else if distance.is_infinite() {
        u32::MAX
    } else {
        MINIMUM_ETA_MINUTES
    }
}

/// The estimate is never less than one minute.
pub proof fn lemma_eta_is_at_least_a_minute(distance: Distance)
    ensures
        eta_minutes(distance) >= MINIMUM_ETA_MINUTES,
{
}

/// The estimate depends on the distance alone: whenever it is asked for the same
/// distance, it is the same.
pub proof fn lemma_eta_is_the_same_for_the_same_distance(first: Distance, second: Distance)
    requires
        first.bits == second.bits,
    ensures
        eta_minutes(first) == eta_minutes(second),
{
}

/// A farther distance never has the shorter estimate.
pub proof fn lemma_eta_grows_with_the_distance(nearer: Distance, farther: Distance)
    requires
        nearer.bits <= farther.bits,
        farther.bits <= INFINITY_BITS,
    ensures
        eta_minutes(nearer) <= eta_minutes(farther),
{
    if farther.bits < INFINITY_BITS {
        lemma_travel_minutes(nearer);
        lemma_travel_minutes(farther);
        lemma_value_grows_with_the_bits(nearer, farther);
        let n1 = nearer.numerator() as int;
        let d1 = nearer.denominator() as int;
        let n2 = farther.numerator() as int;
        let d2 = farther.denominator() as int;
        // Both roundings are taken over the common denominator `2 * d1 * d2`.
        lemma_div_multiples_vanish_quotient(d2, 2 * n1 + d1, 2 * d1);
        lemma_div_multiples_vanish_quotient(d1, 2 * n2 + d2, 2 * d2);
        assert(d2 * (2 * n1 + d1) <= d1 * (2 * n2 + d2)) by (nonlinear_arith)
            requires
                n1 * d2 <= n2 * d1,
        ;
        assert(d2 * (2 * d1) == d1 * (2 * d2)) by (nonlinear_arith);
        lemma_div_is_ordered(d2 * (2 * n1 + d1), d1 * (2 * n2 + d2), d2 * (2 * d1));
    }
}

/// Distances are ordered by their bit patterns, and that is their order as
/// numbers: of two finite distances the one with the smaller bit pattern is the
/// smaller number. The numbers are `n1 / d1` and `n2 / d2`; `n1 / d1 <= n2 / d2`
/// is stated here without division.
pub proof fn lemma_value_grows_with_the_bits(nearer: Distance, farther: Distance)
    requires
        nearer.bits <= farther.bits < INFINITY_BITS,
    ensures
        nearer.numerator() * farther.denominator() <= farther.numerator() * nearer.denominator(),
{
    let e1 = nearer.exponent();
    let e2 = farther.exponent();
    let f1 = nearer.fraction() as int;
    let f2 = farther.fraction() as int;
    let span = FRACTION_SPAN as int;
    assert(e1 <= e2);
    assert(e1 == e2 ==> f1 <= f2);
    let n1 = nearer.numerator() as int;
    let d1 = nearer.denominator() as int;
    let n2 = farther.numerator() as int;
    let d2 = farther.denominator() as int;
    if e1 == e2 {
        assert(d1 == d2);
        assert(n1 <= n2) by {
            if e1 > 1075 {
                let scale = pow2((e1 - 1075) as nat) as int;
                assert((span + f1) * scale <= (span + f2) * scale) by (nonlinear_arith)
                    requires
                        f1 <= f2,
                        scale >= 0,
                ;
            }
        }
        assert(n1 * d2 <= n2 * d1) by (nonlinear_arith)
            requires
                n1 <= n2,
                d1 == d2,
                d1 >= 0,
        ;
    } else {
        // The farther distance has the greater exponent: it is at least two to
        // the power `e2 - 1075`, and the nearer one is less than two to the power
        // `max(e1, 1) - 1075 + 1`, which is no more.
        lemma_scaled(nearer);
        lemma_scaled(farther);
        let low1: nat = if e1 == 0 { 1 } else { e1 };
        // numerator * 2^1075 == significand * 2^low * denominator, for each.
        let s1 = if e1 == 0 { f1 } else { span + f1 };
        let s2 = span + f2;
        let low_power = pow2(low1) as int;
        let high_power = pow2(e2) as int;
        if e1 == 0 {
            if 1 < e2 {
                lemma_pow2_strictly_increases(1, e2);
            }
            assert(s1 * low_power <= s2 * high_power) by (nonlinear_arith)
                requires
                    0 <= s1 <= s2,
                    0 <= low_power <= high_power,
            ;
        } else {
            assert(2 * low_power <= high_power) by {
                vstd::arithmetic::power2::lemma_pow2_unfold(low1 + 1);
                if low1 + 1 < e2 {
                    lemma_pow2_strictly_increases(low1 + 1, e2);
                }
            }
            assert(s1 * low_power <= s2 * high_power) by (nonlinear_arith)
                requires
                    0 <= s1 < 2 * span,
                    s2 >= span,
                    2 * low_power <= high_power,
                    low_power >= 0,
                    span > 0,
            ;
        }
        let big = pow2(1075) as int;
        vstd::arithmetic::power2::lemma_pow2_pos(1075);
        assert(n1 * big == s1 * low_power * d1);
        assert(n2 * big == s2 * high_power * d2);
        assert((n1 * d2) * big <= (n2 * d1) * big) by (nonlinear_arith)
            requires
                n1 * big == s1 * low_power * d1,
                n2 * big == s2 * high_power * d2,
                s1 * low_power <= s2 * high_power,
                d1 >= 0,
                d2 >= 0,
        ;
        assert(n1 * d2 <= n2 * d1) by (nonlinear_arith)
            requires
                (n1 * d2) * big <= (n2 * d1) * big,
                big > 0,
        ;
    }
}

/// The numerator of a finite distance, scaled by two to the power 1075, is its
/// significand times two to the power of its exponent, for each unit of the
/// denominator. A distance with exponent zero counts as one with exponent one
/// and no leading bit.
proof fn lemma_scaled(distance: Distance)
    requires
        distance.bits < INFINITY_BITS,
    ensures
        distance.denominator() > 0,
        distance.numerator() * pow2(1075) == (if distance.exponent() == 0 {
            distance.fraction() as int
        } else {
            FRACTION_SPAN as int + distance.fraction()
        }) * pow2(if distance.exponent() == 0 { 1nat } else { distance.exponent() })
            * distance.denominator(),
{
    let e = distance.exponent();
    let f = distance.fraction() as int;
    let span = FRACTION_SPAN as int;
    let big = pow2(1075) as int;
    let n = distance.numerator() as int;
    let d = distance.denominator() as int;
    lemma2_to64();
    if e == 0 {
        vstd::arithmetic::power2::lemma_pow2_adds(1, 1074);
        vstd::arithmetic::power2::lemma_pow2_pos(1074);
        assert(f * big == f * 2 * d) by (nonlinear_arith)
            requires
                big == 2 * d,
        ;
    } else if e <= 1075 {
        vstd::arithmetic::power2::lemma_pow2_adds(e, (1075 - e) as nat);
        vstd::arithmetic::power2::lemma_pow2_pos((1075 - e) as nat);
        let p = pow2(e) as int;
        assert((span + f) * big == (span + f) * p * d) by (nonlinear_arith)
            requires
                big == p * d,
        ;
    } else {
        vstd::arithmetic::power2::lemma_pow2_adds(1075, (e - 1075) as nat);
        let scale = pow2((e - 1075) as nat) as int;
        let p = pow2(e) as int;
        assert(((span + f) * scale) * big == (span + f) * p * 1) by (nonlinear_arith)
            requires
                p == big * scale,
        ;
    }
}

/// Rounding the travel time is rounding the distance in kilometres: at sixty
/// kilometres an hour a kilometre takes a minute.
proof fn lemma_travel_minutes(distance: Distance)
    ensures
        travel_minutes(distance) == nearest_whole(distance.numerator(), distance.denominator()),
        distance.denominator() > 0,
{
    let n = distance.numerator() as int;
    let d = distance.denominator() as int;
    assert(d > 0) by {
        vstd::arithmetic::power2::lemma_pow2_pos(1074);
        if 0 < distance.exponent() <= 1075 {
            vstd::arithmetic::power2::lemma_pow2_pos((1075 - distance.exponent()) as nat);
        }
    }
    lemma_div_multiples_vanish_quotient(60, 2 * n + d, 2 * d);
    assert(2 * (n * 60) + d * 60 == 60 * (2 * n + d));
    assert(2 * (d * 60) == 60 * (2 * d));
}

/// Estimates the time of arrival over a distance, in minutes: the distance
/// divided by sixty kilometres an hour, in minutes, rounded to the nearest whole
/// minute, and one minute where that is less. The place of the call does not
/// enter into it.
pub fn calculate_eta(_location: &Location, distance: Distance) -> (minutes: u32)
    ensures
        minutes == eta_minutes(distance),
        minutes >= MINIMUM_ETA_MINUTES,
{
    let bits = distance.bits;
    if bits > INFINITY_BITS {
        return MINIMUM_ETA_MINUTES;
    }
    if bits == INFINITY_BITS {
        return u32::MAX;
    }
    let exponent: u64 = bits / FRACTION_SPAN;
    let fraction: u64 = bits % FRACTION_SPAN;
    proof {
        lemma_travel_minutes(distance);
        lemma2_to64();
        lemma2_to64_rest();
    }
    let ghost n = distance.numerator() as int;
    let ghost d = distance.denominator() as int;
    if exponent < 1022 {
        proof {
            if exponent == 0 {
                lemma_pow2_strictly_increases(54, 1074);
            } else if exponent < 1021 {
                lemma_pow2_strictly_increases(54, (1075 - exponent) as nat);
            }
            assert(2 * n + d < 2 * d);
            lemma_basic_div(2 * n + d, 2 * d);
        }
        return MINIMUM_ETA_MINUTES;
    }
    if exponent >= 1055 {
        proof {
            if exponent <= 1075 {
                if exponent > 1055 {
                    lemma_pow2_strictly_increases((1075 - exponent) as nat, 20);
                }
                assert(d <= 0x10_0000);
                assert(n >= 0x10_0000_0000_0000);
            } else {
                vstd::arithmetic::power2::lemma_pow2_pos((exponent - 1075) as nat);
                let scale = pow2((exponent - 1075) as nat) as int;
                let significand = FRACTION_SPAN as int + fraction as int;
                assert(significand * scale >= significand) by (nonlinear_arith)
                    requires
                        scale >= 1,
                        significand >= 0,
                ;
            }
            assert(0x1_0000_0000 * (2 * d) <= 2 * n + d);
            lemma_div_is_ordered(0x1_0000_0000 * (2 * d), 2 * n + d, 2 * d);
            vstd::arithmetic::div_mod::lemma_div_multiples_vanish(0x1_0000_0000, 2 * d);
        }
        return u32::MAX;
    }
    let significand: u64 = FRACTION_SPAN + fraction;
    let shift: u64 = 1075 - exponent;
    proof {
        if shift < 53 {
            lemma_pow2_strictly_increases(shift as nat, 53);
        }
        lemma_u64_shl_is_mul(1, shift);
    }
    let unit: u64 = 1u64 << shift;
    let rounded: u64 = (2 * significand + unit) / (2 * unit);
    if rounded > 0xFFFF_FFFF {
        u32::MAX
    } else if rounded < 1 {
        MINIMUM_ETA_MINUTES
    } else {
        rounded as u32
    }
}

} // verus!

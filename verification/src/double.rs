//! Double-precision numbers as plain bit patterns.
//!
//! Velocities, distances and fractional pointer positions reach this library as
//! IEEE 754 binary64 bit patterns. Every finite double is a whole multiple of
//! `2^-1074`, so a bit pattern has an exact integer value in that unit, and the
//! comparisons and the split into whole and fractional part below are stated over
//! that integer.

use vstd::arithmetic::div_mod::*;
use vstd::arithmetic::mul::*;
use vstd::arithmetic::power2::*;
use vstd::bits::*;
use vstd::prelude::*;

verus! {

/// The sign bit of a double.
pub const SIGN: u64 = 0x8000_0000_0000_0000;

/// The bit pattern of positive infinity; larger magnitudes are not numbers.
pub const INFINITE: u64 = 0x7ff0_0000_0000_0000;

/// One step of the exponent field: `2^52`.
pub const EXPONENT_STEP: u64 = 0x10_0000_0000_0000;

/// A quiet "not a number".
pub const NOT_A_NUMBER: u64 = 0x7ff8_0000_0000_0000;

/// The value of a magnitude (a bit pattern without its sign bit) in units of `2^-1074`.
pub open spec fn magnitude_units(magnitude: nat) -> nat {
    let exponent = magnitude / (EXPONENT_STEP as nat);
    let fraction = magnitude % (EXPONENT_STEP as nat);
    if exponent == 0 {
        fraction
    } else {
        (EXPONENT_STEP as nat + fraction) * pow2((exponent - 1) as nat)
    }
}

/// The number one, in units of `2^-1074`.
pub open spec fn one_units() -> nat {
    pow2(1074)
}

/// An integer forced into the range of `i32`, as a cast from a double does.
pub open spec fn saturated(n: int) -> int {
    if n < i32::MIN {
        i32::MIN as int
    } else if n > i32::MAX {
        i32::MAX as int
    } else {
        n
    }
}

/// A double, held as its bit pattern.
#[derive(Clone, Copy, Debug, PartialEq, Eq, Structural)]
pub struct Double {
    pub bits: u64,
}

impl Double {
    /// Whether the sign bit is set.
    pub open spec fn negative(self) -> bool {
        self.bits >= SIGN
    }

    /// The bit pattern without its sign bit.
    pub open spec fn magnitude(self) -> nat {
        if self.negative() {
            (self.bits - SIGN) as nat
        } else {
            self.bits as nat
        }
    }

    /// Whether the bit pattern is not a number.
    pub open spec fn nan(self) -> bool {
        self.magnitude() > INFINITE
    }

    /// Whether the bit pattern is a number other than an infinity.
    pub open spec fn finite(self) -> bool {
        self.magnitude() < INFINITE
    }

    /// The value in units of `2^-1074`. An infinity is past every finite value on its side.
    pub open spec fn value(self) -> int {
        if self.negative() {
            -(magnitude_units(self.magnitude()) as int)
        } else {
            magnitude_units(self.magnitude()) as int
        }
    }

    /// The value as an integer, rounded toward zero.
    pub open spec fn whole(self) -> int {
        if self.negative() {
            -((magnitude_units(self.magnitude()) / one_units()) as int)
        } else {
            (magnitude_units(self.magnitude()) / one_units()) as int
        }
    }

    /// The IEEE order: nothing is below or above what is not a number, and the two
    /// zeros are equal.
    pub open spec fn below(self, other: Double) -> bool {
        !self.nan() && !other.nan() && self.value() < other.value()
    }

    /// The number zero.
    pub open spec fn zero() -> Double {
        Double { bits: 0 }
    }

    fn magnitude_bits(&self) -> (magnitude: u64)
        ensures
            magnitude == self.magnitude(),
            magnitude < SIGN,
    {
        if self.bits >= SIGN {
            self.bits - SIGN
        } else {
            self.bits
        }
    }

    /// Whether the bit pattern is not a number.
    pub fn is_nan(&self) -> (r: bool)
        ensures
            r == self.nan(),
    {
        self.magnitude_bits() > INFINITE
    }

    /// `self < other` on doubles.
    pub fn lt(&self, other: &Double) -> (r: bool)
        ensures
            r == self.below(*other),
    {
        let a: u64 = self.magnitude_bits();
        let b: u64 = other.magnitude_bits();
        proof {
            lemma_units_ordered(a as nat, b as nat);
            lemma_units_ordered(b as nat, a as nat);
            lemma_units_zero(a as nat);
            lemma_units_zero(b as nat);
        }
        if self.is_nan() || other.is_nan() {
            false
        } else if self.bits >= SIGN {
            if other.bits >= SIGN {
                b < a
            } else {
                a != 0 || b != 0
            }
        } else {
            other.bits < SIGN && a < b
        }
    }

    /// The IEEE order the other way round, equal values included.
    pub open spec fn at_least(self, other: Double) -> bool {
        !self.nan() && !other.nan() && self.value() >= other.value()
    }

    /// `self >= other` on doubles.
    pub fn ge(&self, other: &Double) -> (r: bool)
        ensures
            r == self.at_least(*other),
    {
        !self.is_nan() && !other.is_nan() && !self.lt(other)
    }

    /// The larger of two doubles; an argument that is not a number gives way to the other.
    pub fn max(self, other: Double) -> (r: Double)
        ensures
            r == self.larger(other),
    {
        if self.is_nan() || self.lt(&other) {
            other
        } else {
            self
        }
    }

    /// What `max` returns.
    pub open spec fn larger(self, other: Double) -> Double {
        if self.nan() || self.below(other) {
            other
        } else {
            self
        }
    }

    /// The double forced into `low ..= high`; what is not a number stays as it is.
    pub fn clamp(self, low: Double, high: Double) -> (r: Double)
        requires
            !low.nan(),
            !high.nan(),
            !high.below(low),
        ensures
            r == self.clamped(low, high),
    {
        if self.lt(&low) {
            low
        } else if high.lt(&self) {
            high
        } else {
            self
        }
    }

    /// What `clamp` returns.
    pub open spec fn clamped(self, low: Double, high: Double) -> Double {
        if self.below(low) {
            low
        } else if high.below(self) {
            high
        } else {
            self
        }
    }

    /// The integer part, rounded toward zero and saturated to `i32`; zero for what is not
    /// a number.
    pub open spec fn whole_part(self) -> int {
        if self.nan() {
            0
        } else if self.finite() {
            saturated(self.whole())
        } else if self.negative() {
            i32::MIN as int
        } else {
            i32::MAX as int
        }
    }

    /// Whether this is an integer part and what remains once it (before saturation) is
    /// subtracted. The remainder of a finite number is exact, and a remainder of zero is
    /// the positive zero; the remainder of anything else is not a number.
    pub open spec fn splits_into(self, whole: i32, rest: Double) -> bool {
        &&& whole == self.whole_part()
        &&& self.finite() ==> {
            &&& rest.finite()
            &&& rest.value() == self.value() - self.whole() * one_units()
            &&& rest.value() == 0 ==> rest == Double::zero()
        }
        &&& !self.finite() ==> rest.nan()
    }

    /// Splits off the integer part.
    pub fn split_whole(self) -> (r: (i32, Double))
        ensures
            self.splits_into(r.0, r.1),
    {
        let magnitude: u64 = self.magnitude_bits();
        if magnitude > INFINITE {
            return (0, self);
        }
        let negative = self.bits >= SIGN;
        if magnitude == INFINITE {
            return (if negative { i32::MIN } else { i32::MAX }, Double { bits: NOT_A_NUMBER });
        }
        let (whole, rest) = split_magnitude(magnitude);
        proof {
            lemma_units_zero(rest as nat);
            let units = magnitude_units(magnitude as nat);
            let q = units / one_units();
            lemma_pow2_pos(1074);
            lemma_fundamental_div_mod(units as int, one_units() as int);
            lemma_mul_is_commutative(q as int, one_units() as int);
            assert((-(q as int)) * one_units() == -(q * one_units())) by (nonlinear_arith);
        }
        let limit: u64 = if negative { 0x8000_0000 } else { 0x7fff_ffff };
        let capped: u64 = if whole > limit { limit } else { whole };
        if negative {
            let signed: i64 = -(capped as i64);
            let bits: u64 = if rest == 0 { 0 } else { rest + SIGN };
            (signed as i32, Double { bits })
        } else {
            (capped as i32, Double { bits: rest })
        }
    }
}

/// What was clamped is inside the range, unless it is not a number.
pub proof fn law_clamped_is_in_range(number: Double, low: Double, high: Double)
    requires
        !low.nan(),
        !high.nan(),
        !high.below(low),
        !number.nan(),
    ensures
        number.clamped(low, high).at_least(low),
        high.at_least(number.clamped(low, high)),
{
}

/// A finite number splits in one way only.
pub proof fn law_split_is_unique(number: Double, a: (i32, Double), b: (i32, Double))
    requires
        number.finite(),
        number.splits_into(a.0, a.1),
        number.splits_into(b.0, b.1),
    ensures
        a == b,
{
    let (m, n) = (a.1.magnitude(), b.1.magnitude());
    lemma_units_ordered(m, n);
    lemma_units_ordered(n, m);
    lemma_units_zero(m);
    lemma_units_zero(n);
}

/// Splitting off the integer part loses nothing: the integer part and the remainder add
/// up to the number, the remainder has the number's sign and is less than one, as long
/// as the integer part fits.
pub proof fn law_split_loses_nothing(number: Double, whole: i32, rest: Double)
    requires
        number.finite(),
        number.splits_into(whole, rest),
        i32::MIN <= number.whole() <= i32::MAX,
    ensures
        whole * one_units() + rest.value() == number.value(),
        -(one_units() as int) < rest.value() < one_units(),
        number.value() >= 0 ==> rest.value() >= 0,
        number.value() <= 0 ==> rest.value() <= 0,
{
    let units = magnitude_units(number.magnitude());
    let one = one_units();
    lemma_pow2_pos(1074);
    lemma_fundamental_div_mod(units as int, one as int);
    lemma_mod_bound(units as int, one as int);
    lemma_mul_is_commutative((units / one) as int, one as int);
    assert((-((units / one) as int)) * one == -((units / one) * one)) by (nonlinear_arith);
}

/// Splits a finite magnitude into its integer part, capped at `2^53`, and the magnitude
/// of its fractional part.
fn split_magnitude(magnitude: u64) -> (r: (u64, u64))
    requires
        magnitude < INFINITE,
    ensures
        ({
            let q = magnitude_units(magnitude as nat) / one_units();
            &&& r.0 <= 0x20_0000_0000_0000
            &&& r.0 == q || (q >= 0x10_0000_0000_0000 && r.0 >= 0x10_0000_0000_0000)
            &&& r.1 < INFINITE
            &&& magnitude_units(r.1 as nat) == magnitude_units(magnitude as nat) % one_units()
        }),
{
    let exponent: u64 = magnitude / EXPONENT_STEP;
    let fraction: u64 = magnitude % EXPONENT_STEP;
    let ghost units = magnitude_units(magnitude as nat);
    if exponent < 1023 {
        proof {
            lemma_small_magnitude(exponent as nat, fraction as nat);
            lemma_small_mod(units, one_units());
            lemma_basic_div(units as int, one_units() as int);
        }
        return (0, magnitude);
    }
    let significand: u64 = EXPONENT_STEP + fraction;
    if exponent > 1074 {
        proof {
            lemma_large_magnitude(exponent as nat, significand as nat);
        }
        return (0x10_0000_0000_0000, 0);
    }
    let shift: u64 = 1075 - exponent;
    proof {
        lemma2_to64();
        lemma2_to64_rest();
        lemma_pow2_grows(shift as nat, 52);
        lemma_u64_shl_is_mul(1, shift);
    }
    let scale: u64 = 1u64 << shift;
    let whole: u64 = significand / scale;
    let mut rest: u64 = significand % scale;
    proof {
        lemma_split_point(exponent as nat, significand as nat, scale as nat);
        assert(significand / scale <= significand) by (nonlinear_arith)
            requires
                scale > 0,
        ;
    }
    if rest == 0 {
        proof {
            lemma_mul_basics(pow2((exponent - 1) as nat) as int);
        }
        return (whole, 0);
    }
    let mut power: u64 = exponent;
    proof {
        lemma2_to64();
    }
    while rest < EXPONENT_STEP
        invariant
            0 < rest < 2 * EXPONENT_STEP,
            971 <= power <= exponent <= 1074,
            1023 <= exponent,
            rest >= pow2((exponent - power) as nat),
            rest * pow2((power - 1) as nat) == units % one_units(),
        decreases 2 * EXPONENT_STEP - rest,
    {
        proof {
            lemma2_to64_rest();
            if exponent - power >= 52 {
                lemma_pow2_grows(52, (exponent - power) as nat);
            }
            lemma_pow2_unfold((exponent - power + 1) as nat);
            lemma_pow2_unfold((power - 1) as nat);
            let half = pow2((power - 2) as nat) as int;
            assert(rest * (2 * half) == (rest * 2) * half) by (nonlinear_arith);
        }
        rest = rest * 2;
        power = power - 1;
    }
    proof {
        lemma_fundamental_div_mod_converse(
            power * EXPONENT_STEP + (rest - EXPONENT_STEP),
            EXPONENT_STEP as int,
            power as int,
            rest - EXPONENT_STEP,
        );
    }
    (whole, power * EXPONENT_STEP + (rest - EXPONENT_STEP))
}

/// Powers of two do not shrink as the exponent grows.
proof fn lemma_pow2_grows(a: nat, b: nat)
    requires
        a <= b,
    ensures
        0 < pow2(a) <= pow2(b),
{
    lemma_pow2_pos(a);
    if a < b {
        lemma_pow2_strictly_increases(a, b);
    }
}

/// Only the magnitude zero has the value zero.
proof fn lemma_units_zero(magnitude: nat)
    ensures
        magnitude_units(magnitude) == 0 <==> magnitude == 0,
{
    let step = EXPONENT_STEP as nat;
    let exponent = magnitude / step;
    if exponent == 0 {
        lemma_fundamental_div_mod(magnitude as int, step as int);
    } else {
        let power = pow2((exponent - 1) as nat);
        lemma_pow2_pos((exponent - 1) as nat);
        lemma_mul_strictly_positive((step + magnitude % step) as int, power as int);
    }
}

/// A larger magnitude has a larger value.
proof fn lemma_units_ordered(a: nat, b: nat)
    requires
        a < SIGN,
        b < SIGN,
    ensures
        a < b ==> magnitude_units(a) < magnitude_units(b),
{
    if a < b {
        let step = EXPONENT_STEP as nat;
        let (ea, fa) = (a / step, a % step);
        let (eb, fb) = (b / step, b % step);
        if eb == 0 {
        } else if ea == eb {
            let power = pow2((eb - 1) as nat);
            lemma_pow2_pos((eb - 1) as nat);
            lemma_mul_strict_inequality((step + fa) as int, (step + fb) as int, power as int);
        } else {
            let power = pow2((eb - 1) as nat);
            lemma_pow2_pos((eb - 1) as nat);
            assert(step * power >= step) by (nonlinear_arith)
                requires
                    power >= 1,
            ;
            lemma_mul_inequality(step as int, (step + fb) as int, power as int);
            if ea > 0 {
                let low = pow2((ea - 1) as nat);
                lemma_pow2_pos((ea - 1) as nat);
                lemma_mul_strict_inequality((step + fa) as int, (2 * step) as int, low as int);
                lemma_pow2_unfold(ea);
                lemma_pow2_grows(ea, (eb - 1) as nat);
                assert((2 * step) * low == step * (2 * low)) by (nonlinear_arith);
                lemma_mul_inequality(pow2(ea) as int, power as int, step as int);
                lemma_mul_is_commutative(pow2(ea) as int, step as int);
                lemma_mul_is_commutative(power as int, step as int);
            }
        }
    }
}

/// Among numbers without a sign, the order of the bit patterns is that of the values.
pub proof fn lemma_positive_order(a: Double, b: Double)
    requires
        a.bits <= b.bits,
        b.bits <= INFINITE,
    ensures
        !a.nan(),
        !b.nan(),
        !b.below(a),
{
    lemma_units_ordered(a.bits as nat, b.bits as nat);
}

/// A magnitude whose exponent field is under 1023 is below one.
proof fn lemma_small_magnitude(exponent: nat, fraction: nat)
    requires
        exponent < 1023,
        fraction < EXPONENT_STEP,
    ensures
        exponent > 0 ==> (EXPONENT_STEP as nat + fraction) * pow2((exponent - 1) as nat)
            < one_units(),
        fraction < one_units(),
{
    lemma2_to64();
    lemma2_to64_rest();
    lemma_pow2_grows(53, 1074);
    if exponent > 0 {
        let power = pow2((exponent - 1) as nat);
        lemma_pow2_pos((exponent - 1) as nat);
        lemma_mul_strict_inequality(
            (EXPONENT_STEP as nat + fraction) as int,
            pow2(53) as int,
            power as int,
        );
        lemma_pow2_adds(53, (exponent - 1) as nat);
        lemma_pow2_grows((53 + exponent - 1) as nat, 1074);
    }
}

/// A magnitude whose exponent field is over 1074 is an integer of at least `2^52`.
proof fn lemma_large_magnitude(exponent: nat, significand: nat)
    requires
        exponent > 1074,
        significand >= EXPONENT_STEP,
    ensures
        (significand * pow2((exponent - 1) as nat)) / one_units() >= EXPONENT_STEP,
        (significand * pow2((exponent - 1) as nat)) % one_units() == 0,
{
    let high = pow2((exponent - 1075) as nat);
    let one = one_units();
    lemma_pow2_pos((exponent - 1075) as nat);
    lemma_pow2_pos(1074);
    lemma_pow2_adds((exponent - 1075) as nat, 1074);
    assert(significand * (high * one) == (significand * high) * one) by (nonlinear_arith);
    assert(significand * high >= significand) by (nonlinear_arith)
        requires
            high >= 1,
    ;
    lemma_fundamental_div_mod_converse(
        (significand * (high * one)) as int,
        one as int,
        (significand * high) as int,
        0,
    );
}

/// Where the binary point falls inside the significand, the whole part is its upper part.
proof fn lemma_split_point(exponent: nat, significand: nat, scale: nat)
    requires
        1023 <= exponent <= 1074,
        scale == pow2((1075 - exponent) as nat),
    ensures
        scale > 0,
        (significand * pow2((exponent - 1) as nat)) / one_units() == significand / scale,
        (significand * pow2((exponent - 1) as nat)) % one_units() == (significand % scale) * pow2(
            (exponent - 1) as nat,
        ),
{
    let low = pow2((exponent - 1) as nat);
    let one = one_units();
    lemma_pow2_pos((exponent - 1) as nat);
    lemma_pow2_pos((1075 - exponent) as nat);
    lemma_pow2_adds((1075 - exponent) as nat, (exponent - 1) as nat);
    lemma_fundamental_div_mod(significand as int, scale as int);
    lemma_mod_bound(significand as int, scale as int);
    let q = significand / scale;
    let r = significand % scale;
    assert((scale * q + r) * low == (scale * low) * q + r * low) by (nonlinear_arith);
    assert(0 <= r * low < scale * low) by (nonlinear_arith)
        requires
            0 <= r < scale,
            low > 0,
    ;
    assert((scale * low) * q == q * (scale * low)) by (nonlinear_arith);
    lemma_fundamental_div_mod_converse(
        (significand * low) as int,
        one as int,
        q as int,
        (r * low) as int,
    );
}

/// The values of the magnitudes, one after the other: they begin with zero, and each step up adds
/// one unit, or as many units as the exponent field (one less than it says) doubles that.
pub proof fn law_next_magnitude(magnitude: nat)
    ensures
        magnitude_units(0) == 0,
        magnitude_units(magnitude + 1) == magnitude_units(magnitude) + pow2(
            if magnitude < EXPONENT_STEP {
                0
            } else {
                (magnitude / (EXPONENT_STEP as nat) - 1) as nat
            },
        ),
{
    let step = EXPONENT_STEP as nat;
    let (exponent, fraction) = (magnitude / step, magnitude % step);
    lemma2_to64();
    lemma_fundamental_div_mod(magnitude as int, step as int);
    lemma_small_mod(0, step);
    if fraction + 1 < step {
        lemma_fundamental_div_mod_converse(
            magnitude as int + 1,
            step as int,
            exponent as int,
            fraction as int + 1,
        );
        if exponent > 0 {
            let power = pow2((exponent - 1) as nat);
            assert((step + fraction + 1) * power == (step + fraction) * power + power)
                by (nonlinear_arith);
        }
    } else {
        lemma_fundamental_div_mod_converse(
            magnitude as int + 1,
            step as int,
            exponent as int + 1,
            0,
        );
        if exponent > 0 {
            let power = pow2((exponent - 1) as nat);
            lemma_pow2_unfold(exponent);
            assert(step * (2 * power) == (step + fraction) * power + power) by (nonlinear_arith)
                requires
                    fraction + 1 == step,
            ;
        } else {
            assert(step * pow2(0) == step) by (nonlinear_arith)
                requires
                    pow2(0) == 1,
            ;
        }
    }
}

/// The number one, and what the sign bit does: it turns the value around and changes nothing else.
pub proof fn law_sign_and_one(number: Double)
    requires
        number.bits < SIGN,
    ensures
        ({
            let turned = Double { bits: (number.bits + SIGN) as u64 };
            &&& turned.value() == -number.value()
            &&& turned.nan() == number.nan()
            &&& turned.finite() == number.finite()
        }),
        number.value() >= 0,
        number.nan() <==> number.bits > 0x7ff0_0000_0000_0000,
        number.finite() <==> number.bits < 0x7ff0_0000_0000_0000,
        (Double { bits: 0x3ff0_0000_0000_0000 }).value() == one_units(),
{
    lemma2_to64();
    lemma2_to64_rest();
    lemma_pow2_adds(52, 1022);
    lemma_fundamental_div_mod_converse(0x3ff0_0000_0000_0000, EXPONENT_STEP as int, 1023, 0);
}

/// The order of doubles over their bit patterns: numbers without a sign are ordered as their
/// patterns, numbers with one the other way round, and those with a sign are below those without,
/// but for the two zeros. What is not a number is below nothing and above nothing.
pub proof fn law_order_of_the_patterns(a: Double, b: Double)
    ensures
        a.nan() || b.nan() ==> !a.below(b) && !a.at_least(b),
        !a.nan() && !b.nan() ==> (a.at_least(b) <==> !a.below(b)),
        !a.nan() && !b.nan() && a.bits < SIGN && b.bits < SIGN ==> (a.below(b) <==> a.bits
            < b.bits),
        !a.nan() && !b.nan() && a.bits >= SIGN && b.bits >= SIGN ==> (a.below(b) <==> a.bits
            > b.bits),
        !a.nan() && !b.nan() && a.bits >= SIGN && b.bits < SIGN ==> (a.below(b) <==> a.bits
            != SIGN || b.bits != 0),
        a.bits < SIGN && b.bits >= SIGN ==> !a.below(b),
{
    let (m, n) = (a.magnitude(), b.magnitude());
    lemma_units_ordered(m, n);
    lemma_units_ordered(n, m);
    lemma_units_zero(m);
    lemma_units_zero(n);
}

/// The larger of two numbers is one of them and not below either; what is not a number gives way.
pub proof fn law_larger_is_not_below(a: Double, b: Double)
    ensures
        a.larger(b) == a || a.larger(b) == b,
        !a.nan() ==> a.larger(b).at_least(a),
        !b.nan() ==> a.larger(b).at_least(b),
        a.nan() ==> a.larger(b) == b,
        b.nan() && !a.nan() ==> a.larger(b) == a,
{
}

/// Clamping changes nothing inside the range, and takes what is outside to the nearer end.
pub proof fn law_clamping_changes_what_is_outside(number: Double, low: Double, high: Double)
    requires
        !low.nan(),
        !high.nan(),
        !high.below(low),
    ensures
        number.nan() ==> number.clamped(low, high) == number,
        !number.nan() && low.value() <= number.value() <= high.value() ==> number.clamped(low, high)
            == number,
        !number.nan() && number.value() < low.value() ==> number.clamped(low, high) == low,
        !number.nan() && number.value() > high.value() ==> number.clamped(low, high) == high,
{
}

/// The integer part and the remainder of any finite number that is not too large for an integer of
/// 32 bits: they add up to the number, and the remainder is less than one and has its sign.
pub proof fn law_split_adds_up(number: Double, whole: i32, rest: Double)
    requires
        number.finite(),
        number.splits_into(whole, rest),
        -(0x8000_0001 * one_units()) < number.value() < 0x8000_0000 * one_units(),
    ensures
        whole * one_units() + rest.value() == number.value(),
        -(one_units() as int) < rest.value() < one_units(),
        number.value() >= 0 ==> rest.value() >= 0,
        number.value() <= 0 ==> rest.value() <= 0,
        rest.value() == 0 ==> rest.bits == 0,
{
    let units = magnitude_units(number.magnitude()) as int;
    let one = one_units() as int;
    lemma_pow2_pos(1074);
    lemma_fundamental_div_mod(units, one);
    lemma_mod_bound(units, one);
    let q = units / one;
    assert(units < 0x8000_0001 * one ==> q < 0x8000_0001) by (nonlinear_arith)
        requires
            units == one * q + units % one,
            units % one >= 0,
            one > 0,
    ;
    assert(units < 0x8000_0000 * one ==> q < 0x8000_0000) by (nonlinear_arith)
        requires
            units == one * q + units % one,
            units % one >= 0,
            one > 0,
    ;
    assert(q >= 0) by (nonlinear_arith)
        requires
            units == one * q + units % one,
            units % one < one,
            units >= 0,
            one > 0,
    ;
    law_split_loses_nothing(number, whole, rest);
}

/// The remainder of any finite number, however large, is what it has beyond whole units.
pub proof fn law_remainder_is_the_fraction(number: Double, whole: i32, rest: Double)
    requires
        number.finite(),
        number.splits_into(whole, rest),
    ensures
        rest.finite(),
        (number.value() - rest.value()) % (one_units() as int) == 0,
        -(one_units() as int) < rest.value() < one_units(),
        number.value() >= 0 ==> rest.value() >= 0,
        number.value() <= 0 ==> rest.value() <= 0,
        rest.value() == 0 ==> rest.bits == 0,
{
    let units = magnitude_units(number.magnitude()) as int;
    let one = one_units() as int;
    lemma_pow2_pos(1074);
    lemma_fundamental_div_mod(units, one);
    lemma_mod_bound(units, one);
    let q = units / one;
    lemma_mul_is_commutative(q, one);
    assert((-q) * one == -(q * one)) by (nonlinear_arith);
    lemma_mod_multiples_basic(number.whole(), one);
}

/// A number that is too large gives the nearest integer of 32 bits, an infinity likewise, and what
/// is not a number gives zero; the remainder of what is not finite is not a number.
pub proof fn law_split_saturates(number: Double, whole: i32, rest: Double)
    requires
        number.splits_into(whole, rest),
    ensures
        number.nan() ==> whole == 0,
        !number.nan() && number.value() >= 0x8000_0000 * one_units() ==> whole == i32::MAX,
        !number.nan() && number.value() <= -(0x8000_0000 * one_units()) ==> whole == i32::MIN,
        !number.finite() ==> rest.nan(),
        number.bits == 0x7ff0_0000_0000_0000 ==> whole == i32::MAX,
        number.bits == 0xfff0_0000_0000_0000 ==> whole == i32::MIN,
{
    let units = magnitude_units(number.magnitude()) as int;
    let one = one_units() as int;
    lemma_pow2_pos(1074);
    lemma_fundamental_div_mod(units, one);
    lemma_mod_bound(units, one);
    let q = units / one;
    assert(units >= 0x8000_0000 * one ==> q >= 0x8000_0000) by (nonlinear_arith)
        requires
            units == one * q + units % one,
            units % one < one,
            one > 0,
    ;
}

} // verus!

//! The 32-bit binary encoding of a ratio of two whole numbers.
//!
//! The fragment stage reads the playback position as a number in the
//! 32-bit binary interchange format: one sign bit, eight bits of exponent
//! and twenty-three bits of fraction. The clock keeps the position as an
//! exact ratio; this module finds the bit pattern whose value is nearest
//! to a ratio, with whole-number arithmetic alone.

use vstd::prelude::*;
use vstd::arithmetic::div_mod::lemma_fundamental_div_mod;
use vstd::arithmetic::power2::{
    lemma2_to64,
    lemma2_to64_rest,
    lemma_pow2_adds,
    lemma_pow2_pos,
    lemma_pow2_strictly_increases,
    lemma_pow2_unfold,
    pow2,
};

verus! {

/// Two to the power 23: the weight of the hidden bit of the mantissa, and
/// the weight of the exponent field in a bit pattern.
pub const MANTISSA_UNIT: u32 = 0x80_0000;

/// The bit pattern of positive infinity; every smaller pattern is a
/// finite number that is not negative.
pub const INFINITY_BITS: u32 = 0x7F80_0000;

/// Two to the power 100: ratios below it are encoded.
pub const RATIO_LIMIT: u128 = 0x10_0000_0000_0000_0000_0000_0000;

/// The value of the finite, non-negative bit pattern `bits`, multiplied
/// by two to the power 149 so that it is a whole number.
pub open spec fn scaled_value(bits: u32) -> nat {
    let exponent = (bits / MANTISSA_UNIT) as nat;
    let fraction = (bits % MANTISSA_UNIT) as nat;
    if exponent == 0 {
        fraction
    } else {
        (MANTISSA_UNIT as nat + fraction) * pow2((exponent - 1) as nat)
    }
}

/// How far the value of `bits` is from `numerator / denominator`, in
/// units of one over `denominator` times two to the power 149.
pub open spec fn distance(bits: u32, numerator: nat, denominator: nat) -> int {
    let value = scaled_value(bits) * denominator;
    let target = numerator * pow2(149);
    if value >= target {
        value - target
    } else {
        target - value
    }
}

/// Whether `bits` is to be preferred to its neighbour `other`: it is
/// nearer to the ratio, or as near and even.
pub open spec fn is_preferred(bits: u32, other: u32, numerator: nat, denominator: nat) -> bool {
    ||| distance(bits, numerator, denominator) < distance(other, numerator, denominator)
    ||| (distance(bits, numerator, denominator) == distance(other, numerator, denominator) && bits
        % 2 == 0)
}

/// Whether `bits` is the finite bit pattern nearest to
/// `numerator / denominator`: neither the next pattern below nor the next
/// one above is nearer, and where one is as near, `bits` is the even one
/// of the two.
pub open spec fn is_nearest(bits: u32, numerator: nat, denominator: nat) -> bool {
    &&& bits < INFINITY_BITS
    &&& bits > 0 ==> is_preferred(bits, (bits - 1) as u32, numerator, denominator)
    &&& bits + 1 < INFINITY_BITS ==> is_preferred(
        bits,
        (bits + 1) as u32,
        numerator,
        denominator,
    )
}

/// The mantissa of 25 bits `wide`, rounded to 24 bits: to the nearer
/// one, and to the even one where `wide` is odd and nothing was cut off
/// below it.
pub open spec fn rounded_mantissa(wide: nat, inexact: bool) -> nat {
    if wide % 2 == 1 && (inexact || (wide / 2) % 2 == 1) {
        wide / 2 + 1
    } else {
        wide / 2
    }
}

/// The bit pattern with the given exponent field and the mantissa `wide`
/// rounded to 24 bits; a mantissa that rounds up to 25 bits moves to the
/// next exponent.
pub open spec fn packed(wide: nat, inexact: bool, exponent: nat) -> int {
    let mantissa = rounded_mantissa(wide, inexact);
    if mantissa == 2 * MANTISSA_UNIT {
        (exponent + 1) * MANTISSA_UNIT
    } else {
        exponent * MANTISSA_UNIT + (mantissa - MANTISSA_UNIT)
    }
}

/// What a bit pattern with a mantissa and an exponent field stands for,
/// and what its two neighbours stand for.
proof fn lemma_scaled_values(bits: u32, mantissa: nat, exponent: nat)
    requires
        2 <= exponent <= 253,
        MANTISSA_UNIT <= mantissa < 2 * MANTISSA_UNIT,
        bits == exponent * MANTISSA_UNIT + (mantissa - MANTISSA_UNIT),
    ensures
        0 < bits,
        bits + 1 < INFINITY_BITS,
        bits % 2 == mantissa % 2,
        scaled_value(bits) == 2 * mantissa * pow2((exponent - 2) as nat),
        scaled_value((bits + 1) as u32) == (2 * mantissa + 2) * pow2((exponent - 2) as nat),
        scaled_value((bits - 1) as u32) == if mantissa > MANTISSA_UNIT {
            (2 * mantissa - 2) * pow2((exponent - 2) as nat)
        } else {
            (2 * mantissa - 1) * pow2((exponent - 2) as nat)
        },
{
    let unit = pow2((exponent - 2) as nat);
    lemma_pow2_unfold((exponent - 1) as nat);
    lemma_pow2_unfold(exponent);
    assert(pow2((exponent - 1) as nat) == 2 * unit);
    assert(pow2(exponent) == 4 * unit);
    assert(bits / MANTISSA_UNIT == exponent);
    assert(bits % MANTISSA_UNIT == mantissa - MANTISSA_UNIT);
    assert(mantissa * (2 * unit) == 2 * mantissa * unit) by (nonlinear_arith);
    if mantissa + 1 < 2 * MANTISSA_UNIT {
        assert((bits + 1) as u32 / MANTISSA_UNIT == exponent);
        assert((bits + 1) as u32 % MANTISSA_UNIT == mantissa + 1 - MANTISSA_UNIT);
        assert((mantissa + 1) * (2 * unit) == (2 * mantissa + 2) * unit) by (nonlinear_arith);
    } else {
        assert((bits + 1) as u32 / MANTISSA_UNIT == exponent + 1);
        assert((bits + 1) as u32 % MANTISSA_UNIT == 0);
        assert(MANTISSA_UNIT as nat * (4 * unit) == (2 * mantissa + 2) * unit)
            by (nonlinear_arith)
            requires
                mantissa + 1 == 2 * MANTISSA_UNIT,
        ;
    }
    if mantissa > MANTISSA_UNIT {
        assert((bits - 1) as u32 / MANTISSA_UNIT == exponent);
        assert((bits - 1) as u32 % MANTISSA_UNIT == mantissa - 1 - MANTISSA_UNIT);
        assert((mantissa - 1) * (2 * unit) == (2 * mantissa - 2) * unit) by (nonlinear_arith);
    } else {
        assert((bits - 1) as u32 / MANTISSA_UNIT == exponent - 1);
        assert((bits - 1) as u32 % MANTISSA_UNIT == MANTISSA_UNIT - 1);
        assert((MANTISSA_UNIT as nat + (MANTISSA_UNIT - 1)) * unit == (2 * mantissa - 1) * unit)
            by (nonlinear_arith)
            requires
                mantissa == MANTISSA_UNIT,
        ;
    }
}

/// The distance of a value that is `steps` units from a target that is
/// `wide` units and a rest.
proof fn lemma_distance(bits: u32, n: nat, d: nat, steps: int, wide: int, unit: int, rest: int)
    requires
        scaled_value(bits) * d == steps * unit,
        n * pow2(149) == wide * unit + rest,
    ensures
        distance(bits, n, d) == if (steps - wide) * unit >= rest {
            (steps - wide) * unit - rest
        } else {
            rest - (steps - wide) * unit
        },
{
    assert((steps - wide) * unit == steps * unit - wide * unit) by (nonlinear_arith);
}

/// Zero is encoded by the pattern of all zeros.
pub proof fn lemma_zero_is_nearest(d: nat)
    requires
        d > 0,
    ensures
        is_nearest(0, 0, d),
{
    assert(scaled_value(0) == 0);
    assert(scaled_value(1) == 1);
    assert(0 * d == 0 && 1 * d == d) by (nonlinear_arith);
    assert(0 * pow2(149) == 0) by (nonlinear_arith);
}

/// The pattern packed from a ratio that was scaled into 25 bits is the
/// nearest one.
proof fn lemma_packed_is_nearest(
    n: nat,
    d: nat,
    up: nat,
    down: nat,
    a: nat,
    b: nat,
    wide: nat,
    rest: nat,
    bits: u32,
)
    requires
        d > 0,
        up <= 56,
        down <= 75,
        a == n * pow2(up),
        b == d * pow2(down),
        a == wide * b + rest,
        rest < b,
        2 * MANTISSA_UNIT <= wide < 4 * MANTISSA_UNIT,
        bits == packed(wide, rest > 0, (151 + down - up) as nat),
    ensures
        is_nearest(bits, n, d),
{
    let low = pow2((149 - up) as nat);
    let exponent = (151 + down - up) as nat;
    let step = pow2((exponent - 2) as nat);
    lemma_pow2_pos((149 - up) as nat);
    lemma_pow2_pos(down);
    lemma_pow2_adds(up, (149 - up) as nat);
    lemma_pow2_adds((149 - up) as nat, down);
    lemma_pow2_unfold((exponent - 1) as nat);
    assert(step == low * pow2(down));
    assert(pow2((exponent - 1) as nat) == 2 * step);
    let unit = b * low;
    let cut = rest * low;
    assert(unit == step * d) by (nonlinear_arith)
        requires
            unit == b * low,
            b == d * pow2(down),
            step == low * pow2(down),
    ;
    assert(n * pow2(149) == wide * unit + cut) by (nonlinear_arith)
        requires
            pow2(149) == pow2(up) * low,
            a == n * pow2(up),
            a == wide * b + rest,
            unit == b * low,
            cut == rest * low,
    ;
    assert(0 <= cut < unit && (rest > 0 ==> cut > 0) && (rest == 0 ==> cut == 0))
        by (nonlinear_arith)
        requires
            unit == b * low,
            cut == rest * low,
            rest < b,
            low > 0,
    ;
    let mantissa = rounded_mantissa(wide, rest > 0);
    if mantissa == 2 * MANTISSA_UNIT {
        // The mantissa was all ones and went up: the value is a power of
        // two, and the pattern below it is only half a step away.
        assert(wide == 4 * MANTISSA_UNIT - 1);
        let carried = (exponent + 1) as nat;
        lemma_scaled_values(bits, MANTISSA_UNIT as nat, carried);
        lemma_pow2_unfold((carried - 2) as nat);
        assert(pow2((carried - 2) as nat) == 2 * step);
        let twice = 2 * step;
        assert(scaled_value(bits) * d == (4 * MANTISSA_UNIT) * unit) by (nonlinear_arith)
            requires
                scaled_value(bits) == 2 * MANTISSA_UNIT * twice,
                twice == 2 * step,
                unit == step * d,
        ;
        assert(scaled_value((bits + 1) as u32) * d == (4 * MANTISSA_UNIT + 4) * unit)
            by (nonlinear_arith)
            requires
                scaled_value((bits + 1) as u32) == (2 * MANTISSA_UNIT + 2) * twice,
                twice == 2 * step,
                unit == step * d,
        ;
        assert(scaled_value((bits - 1) as u32) * d == (4 * MANTISSA_UNIT - 2) * unit)
            by (nonlinear_arith)
            requires
                scaled_value((bits - 1) as u32) == (2 * MANTISSA_UNIT - 1) * twice,
                twice == 2 * step,
                unit == step * d,
        ;
        lemma_distance(bits, n, d, 4 * MANTISSA_UNIT, wide as int, unit as int, cut as int);
        lemma_distance(
            (bits + 1) as u32,
            n,
            d,
            4 * MANTISSA_UNIT + 4,
            wide as int,
            unit as int,
            cut as int,
        );
        lemma_distance(
            (bits - 1) as u32,
            n,
            d,
            4 * MANTISSA_UNIT - 2,
            wide as int,
            unit as int,
            cut as int,
        );
        assert((4 * MANTISSA_UNIT - wide) * unit == unit) by (nonlinear_arith)
            requires
                wide == 4 * MANTISSA_UNIT - 1,
        ;
        assert((4 * MANTISSA_UNIT + 4 - wide) * unit == 5 * unit) by (nonlinear_arith)
            requires
                wide == 4 * MANTISSA_UNIT - 1,
        ;
        assert((4 * MANTISSA_UNIT - 2 - wide) * unit == -unit) by (nonlinear_arith)
            requires
                wide == 4 * MANTISSA_UNIT - 1,
        ;
    } else {
        lemma_scaled_values(bits, mantissa, exponent);
        assert(scaled_value(bits) * d == (2 * mantissa) * unit) by (nonlinear_arith)
            requires
                scaled_value(bits) == 2 * mantissa * step,
                unit == step * d,
        ;
        assert(scaled_value((bits + 1) as u32) * d == (2 * mantissa + 2) * unit)
            by (nonlinear_arith)
            requires
                scaled_value((bits + 1) as u32) == (2 * mantissa + 2) * step,
                unit == step * d,
        ;
        lemma_distance(bits, n, d, (2 * mantissa) as int, wide as int, unit as int, cut as int);
        lemma_distance(
            (bits + 1) as u32,
            n,
            d,
            (2 * mantissa + 2) as int,
            wide as int,
            unit as int,
            cut as int,
        );
        let ahead = 2 * mantissa - wide;
        assert(ahead == -1 || ahead == 0 || ahead == 1);
        assert(ahead * unit == if ahead == 1 {
            unit as int
        } else if ahead == 0 {
            0
        } else {
            -unit
        }) by (nonlinear_arith)
            requires
                ahead == -1 || ahead == 0 || ahead == 1,
        ;
        assert((2 * mantissa + 2 - wide) * unit == ahead * unit + 2 * unit) by (nonlinear_arith)
            requires
                ahead == 2 * mantissa - wide,
        ;
        if mantissa > MANTISSA_UNIT {
            assert(scaled_value((bits - 1) as u32) * d == (2 * mantissa - 2) * unit)
                by (nonlinear_arith)
                requires
                    scaled_value((bits - 1) as u32) == (2 * mantissa - 2) * step,
                    unit == step * d,
            ;
            lemma_distance(
                (bits - 1) as u32,
                n,
                d,
                2 * mantissa - 2,
                wide as int,
                unit as int,
                cut as int,
            );
            assert((2 * mantissa - 2 - wide) * unit == ahead * unit - 2 * unit)
                by (nonlinear_arith)
                requires
                    ahead == 2 * mantissa - wide,
            ;
        } else {
            assert(scaled_value((bits - 1) as u32) * d == (2 * mantissa - 1) * unit)
                by (nonlinear_arith)
                requires
                    scaled_value((bits - 1) as u32) == (2 * mantissa - 1) * step,
                    unit == step * d,
            ;
            lemma_distance(
                (bits - 1) as u32,
                n,
                d,
                2 * mantissa - 1,
                wide as int,
                unit as int,
                cut as int,
            );
            assert((2 * mantissa - 1 - wide) * unit == ahead * unit - unit) by (nonlinear_arith)
                requires
                    ahead == 2 * mantissa - wide,
            ;
        }
    }
}

/// A larger finite bit pattern stands for a larger number.
pub proof fn lemma_scaled_value_increases(smaller: u32, larger: u32)
    requires
        smaller < larger < INFINITY_BITS,
    ensures
        scaled_value(smaller) < scaled_value(larger),
{
    let unit = MANTISSA_UNIT as nat;
    let e1 = (smaller / MANTISSA_UNIT) as nat;
    let f1 = (smaller % MANTISSA_UNIT) as nat;
    let e2 = (larger / MANTISSA_UNIT) as nat;
    let f2 = (larger % MANTISSA_UNIT) as nat;
    assert(e1 <= e2);
    if e1 == e2 {
        assert(f1 < f2);
        if e1 > 0 {
            let power = pow2((e1 - 1) as nat);
            lemma_pow2_pos((e1 - 1) as nat);
            assert((unit + f1) * power < (unit + f2) * power) by (nonlinear_arith)
                requires
                    f1 < f2,
                    power > 0,
            ;
        }
    } else {
        let above = pow2((e2 - 1) as nat);
        lemma_pow2_pos((e2 - 1) as nat);
        assert(unit * above <= (unit + f2) * above) by (nonlinear_arith)
            requires
                above > 0,
        ;
        if e1 == 0 {
            assert(unit * 1 <= unit * above) by (nonlinear_arith)
                requires
                    above >= 1,
            ;
        } else {
            let below = pow2((e1 - 1) as nat);
            lemma_pow2_pos((e1 - 1) as nat);
            lemma_pow2_unfold(e1);
            if e1 < e2 - 1 {
                lemma_pow2_strictly_increases(e1, (e2 - 1) as nat);
            }
            assert((unit + f1) * below < unit * above) by (nonlinear_arith)
                requires
                    f1 < unit,
                    below > 0,
                    2 * below <= above,
            ;
        }
    }
}

/// No ratio has two nearest bit patterns: the encoding of a position is
/// settled by the position alone.
pub proof fn lemma_nearest_is_unique(one: u32, other: u32, numerator: nat, denominator: nat)
    requires
        denominator > 0,
        is_nearest(one, numerator, denominator),
        is_nearest(other, numerator, denominator),
    ensures
        one == other,
{
    if one <= other {
        lemma_nearest_in_order(one, other, numerator, denominator);
    } else {
        lemma_nearest_in_order(other, one, numerator, denominator);
    }
}

/// Of two nearest bit patterns, the one that is not larger is the other.
proof fn lemma_nearest_in_order(smaller: u32, larger: u32, n: nat, d: nat)
    requires
        d > 0,
        smaller <= larger,
        is_nearest(smaller, n, d),
        is_nearest(larger, n, d),
    ensures
        smaller == larger,
{
    if smaller < larger {
        let next = (smaller + 1) as u32;
        let previous = (larger - 1) as u32;
        lemma_scaled_value_increases(smaller, next);
        lemma_scaled_value_increases(previous, larger);
        assert(scaled_value(smaller) * d < scaled_value(next) * d) by (nonlinear_arith)
            requires
                scaled_value(smaller) < scaled_value(next),
                d > 0,
        ;
        assert(scaled_value(previous) * d < scaled_value(larger) * d) by (nonlinear_arith)
            requires
                scaled_value(previous) < scaled_value(larger),
                d > 0,
        ;
        if next < previous {
            lemma_scaled_value_increases(next, previous);
            assert(scaled_value(next) * d < scaled_value(previous) * d) by (nonlinear_arith)
                requires
                    scaled_value(next) < scaled_value(previous),
                    d > 0,
            ;
        }
    }
}

/// The bit pattern of the finite number nearest to
/// `numerator / denominator`; of two that are as near, the even one.
pub fn nearest_bits(numerator: u128, denominator: u32) -> (bits: u32)
    requires
        denominator > 0,
        (numerator as int) < RATIO_LIMIT as int * denominator as int,
    ensures
        is_nearest(bits, numerator as nat, denominator as nat),
{
    if numerator == 0 {
        proof {
            lemma_zero_is_nearest(denominator as nat);
        }
        return 0;
    }
    let mut a: u128 = numerator;
    let mut b: u128 = denominator as u128;
    let mut up: u32 = 0;
    let mut down: u32 = 0;
    proof {
        lemma2_to64();
        lemma2_to64_rest();
        assert(numerator * 1 == numerator) by (nonlinear_arith);
        assert(denominator * 1 == denominator) by (nonlinear_arith);
    }
    while a < b * 0x100_0000
        invariant
            numerator > 0,
            down == 0,
            b == denominator,
            up <= 56,
            a == numerator * pow2(up as nat),
            b == denominator * pow2(down as nat),
            up > 0 ==> a < b * 0x200_0000,
            pow2(56) == 0x100_0000_0000_0000,
        decreases 0x200_0000_0000_0000 - a,
    {
        proof {
            lemma_pow2_pos(up as nat);
            assert(a >= pow2(up as nat)) by (nonlinear_arith)
                requires
                    a == numerator * pow2(up as nat),
                    numerator > 0,
            ;
            if up >= 56 {
                if up > 56 {
                    lemma_pow2_strictly_increases(56, up as nat);
                }
                assert(false);
            }
            lemma_pow2_unfold((up + 1) as nat);
            assert(numerator * (2 * pow2(up as nat)) == 2 * (numerator * pow2(up as nat)))
                by (nonlinear_arith);
        }
        a = a * 2;
        up = up + 1;
    }
    proof {
        lemma_pow2_adds(64, 11);
        assert(pow2(75) == 0x800_0000_0000_0000_0000);
    }
    while a / 0x200_0000 >= b
        invariant
            numerator > 0,
            denominator > 0,
            (numerator as int) < RATIO_LIMIT as int * denominator as int,
            up <= 56,
            down <= 75,
            a == numerator * pow2(up as nat),
            b == denominator * pow2(down as nat),
            b > 0,
            b * 0x100_0000 <= a,
            up > 0 ==> a < b * 0x200_0000,
            pow2(75) == 0x800_0000_0000_0000_0000,
        decreases a - b,
    {
        proof {
            lemma2_to64();
            assert(up == 0);
            assert(a == numerator) by (nonlinear_arith)
                requires
                    a == numerator * pow2(up as nat),
                    pow2(up as nat) == 1,
            ;
            let power = pow2(down as nat);
            assert(power * 0x200_0000 < RATIO_LIMIT as int) by (nonlinear_arith)
                requires
                    denominator * power * 0x200_0000 <= numerator,
                    (numerator as int) < RATIO_LIMIT as int * denominator as int,
                    denominator > 0,
                    power >= 0,
            ;
            if down >= 75 {
                if down > 75 {
                    lemma_pow2_strictly_increases(75, down as nat);
                }
                assert(false);
            }
            lemma_pow2_unfold((down + 1) as nat);
            assert(denominator * (2 * power) == 2 * (denominator * power)) by (nonlinear_arith);
        }
        b = b * 2;
        down = down + 1;
    }
    let wide: u128 = a / b;
    let rest: u128 = a % b;
    proof {
        lemma_fundamental_div_mod(a as int, b as int);
        assert(0x100_0000 <= wide < 0x200_0000) by (nonlinear_arith)
            requires
                a == b * wide + rest,
                0 <= rest < b,
                b * 0x100_0000 <= a,
                a < b * 0x200_0000,
        ;
        assert(b * wide == wide * b) by (nonlinear_arith);
    }
    let floor: u32 = (wide / 2) as u32;
    let odd: bool = wide % 2 == 1;
    let mantissa: u32 = if odd && (rest > 0 || floor % 2 == 1) {
        floor + 1
    } else {
        floor
    };
    let exponent: u32 = 151 + down - up;
    let bits: u32 = if mantissa == 0x100_0000 {
        (exponent + 1) * MANTISSA_UNIT
    } else {
        exponent * MANTISSA_UNIT + (mantissa - MANTISSA_UNIT)
    };
    proof {
        assert(mantissa == rounded_mantissa(wide as nat, rest > 0));
        assert(bits == packed(wide as nat, rest > 0, exponent as nat));
        lemma_packed_is_nearest(
            numerator as nat,
            denominator as nat,
            up as nat,
            down as nat,
            a as nat,
            b as nat,
            wide as nat,
            rest as nat,
            bits,
        );
    }
    bits
}

} // verus!

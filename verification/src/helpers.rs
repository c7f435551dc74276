//! Unit conversion for memory counters.
//!
//! A byte count is turned into megabytes the way a double-precision
//! division followed by rounding to the nearest whole number does it: the
//! count is first brought to the nearest value a double can hold (53
//! significant bits, ties to the even neighbour), the quotient by 2^20 is
//! exact, and the quotient is rounded with halves going up. Everything is
//! stated and computed over integers.

use vstd::prelude::*;
use vstd::arithmetic::div_mod::lemma_div_denominator;
use vstd::arithmetic::div_mod::lemma_div_is_ordered;
use vstd::arithmetic::div_mod::lemma_fundamental_div_mod;
use vstd::arithmetic::div_mod::lemma_mod_multiples_basic;
use vstd::arithmetic::power2::lemma2_to64;
use vstd::arithmetic::power2::lemma_pow2_pos;
use vstd::arithmetic::power2::lemma_pow2_unfold;
use vstd::arithmetic::power2::pow2;

verus! {

/// Number of bytes in one megabyte (2^20).
pub const BYTES_PER_MEGABYTE: u64 = 1_048_576;

/// Half a megabyte, the point from which a remainder rounds up.
pub const HALF_MEGABYTE: u64 = 524_288;

/// Smallest integer that needs more than 53 bits (2^53). Every integer
/// below it is held exactly by a double.
pub const DOUBLE_EXACT_LIMIT: u64 = 0x20_0000_0000_0000;

/// Distance between neighbouring doubles around the integer `b`: 1 below
/// 2^53, doubling with every further bit.
pub open spec fn double_spacing(b: nat) -> nat
    decreases b,
{
    if b < DOUBLE_EXACT_LIMIT {
        1
    } else {
        2 * double_spacing(b / 2)
    }
}

/// The integer a double holds after `b` is converted to it: the nearest
/// multiple of the spacing, a tie going to the even multiple.
pub open spec fn nearest_double(b: nat) -> nat {
    let unit = double_spacing(b);
    let steps = b / unit;
    let rest = b % unit;
    if 2 * rest < unit || (2 * rest == unit && steps % 2 == 0) {
        steps * unit
    } else {
        (steps + 1) * unit
    }
}

/// Megabytes in `b` bytes: the nearest double of `b`, divided by 2^20 and
/// rounded to the nearest whole number, halves up.
pub open spec fn megabytes_of(b: nat) -> nat {
    (nearest_double(b) + HALF_MEGABYTE as nat) / (BYTES_PER_MEGABYTE as nat)
}

/// Converts a byte count to whole megabytes.
pub fn bytes_to_megabytes(bytes: u64) -> (mb: u64)
    ensures
        mb == megabytes_of(bytes as nat),
{
    let mut unit: u64 = 1;
    let mut steps: u64 = bytes;
    while steps >= DOUBLE_EXACT_LIMIT
        invariant
            1 <= unit <= 4096,
            steps as nat == (bytes as nat) / (unit as nat),
            steps as nat * unit as nat <= 0xffff_ffff_ffff_ffff,
            double_spacing(bytes as nat) == unit as nat * double_spacing(steps as nat),
        decreases steps,
    {
        proof {
            lemma_div_denominator(bytes as int, unit as int, 2);
            assert(steps as nat * unit as nat >= DOUBLE_EXACT_LIMIT as nat * unit as nat)
                by (nonlinear_arith)
                requires
                    steps >= DOUBLE_EXACT_LIMIT,
            ;
            assert(unit as nat * (2 * double_spacing(steps as nat / 2)) == (2 * unit as nat)
                * double_spacing(steps as nat / 2)) by (nonlinear_arith);
            assert((steps as nat / 2) * (2 * unit as nat) <= steps as nat * unit as nat)
                by (nonlinear_arith);
        }
        steps = steps / 2;
        unit = unit * 2;
    }
    proof {
        lemma_fundamental_div_mod(bytes as int, unit as int);
        assert(steps as nat * unit as nat == unit as nat * steps as nat) by (nonlinear_arith);
        assert((steps as nat + 1) * unit as nat == steps as nat * unit as nat + unit as nat)
            by (nonlinear_arith);
        assert(unit as nat * double_spacing(steps as nat) == unit as nat) by (nonlinear_arith)
            requires
                double_spacing(steps as nat) == 1,
        ;
    }
    let low: u64 = steps * unit;
    let rest: u64 = bytes - low;
    let rounded: u128 = if 2 * rest < unit || (2 * rest == unit && steps % 2 == 0) {
        low as u128
    } else {
        low as u128 + unit as u128
    };
    ((rounded + HALF_MEGABYTE as u128) / (BYTES_PER_MEGABYTE as u128)) as u64
}

/// Below 2^53 nothing is lost on the way: the result is the byte count
/// divided by 2^20, rounded to the nearest whole number with halves up.
pub proof fn lemma_megabytes_below_exact_limit(b: nat)
    requires
        b < DOUBLE_EXACT_LIMIT,
    ensures
        megabytes_of(b) == (b + 524_288) / 1_048_576,
{
    assert(double_spacing(b) == 1);
    assert(nearest_double(b) == b);
}

/// A multiple of 2^n that is below 2^(53+n) is a multiple of the spacing
/// around it, so a double holds it exactly.
proof fn lemma_multiple_is_exact(b: nat, n: nat)
    requires
        b % pow2(n) == 0,
        b < DOUBLE_EXACT_LIMIT * pow2(n),
    ensures
        nearest_double(b) == b,
        b % double_spacing(b) == 0,
    decreases n,
{
    lemma_pow2_pos(n);
    if b < DOUBLE_EXACT_LIMIT {
        assert(double_spacing(b) == 1);
    } else {
        if n == 0 {
            lemma2_to64();
        }
        lemma_pow2_unfold(n);
        let half = pow2((n - 1) as nat);
        lemma_pow2_pos((n - 1) as nat);
        let q = b / pow2(n);
        lemma_fundamental_div_mod(b as int, pow2(n) as int);
        assert(b == (2 * half) * q);
        assert(b == 2 * (q * half)) by (nonlinear_arith)
            requires
                b == (2 * half) * q,
        ;
        assert(b / 2 == q * half);
        lemma_mod_multiples_basic(q as int, half as int);
        lemma_multiple_is_exact(b / 2, (n - 1) as nat);
        let unit = double_spacing(b / 2);
        let r = (b / 2) / unit;
        lemma_fundamental_div_mod((b / 2) as int, unit as int);
        assert(b / 2 == unit * r);
        assert(b == r * (2 * unit)) by (nonlinear_arith)
            requires
                b == 2 * (b / 2),
                b / 2 == unit * r,
        ;
        assert(double_spacing(b) == 2 * unit);
        lemma_mod_multiples_basic(r as int, (2 * unit) as int);
        lemma_fundamental_div_mod(b as int, (2 * unit) as int);
        assert((b / (2 * unit)) * (2 * unit) == (2 * unit) * (b / (2 * unit)))
            by (nonlinear_arith);
    }
}

/// A whole number of megabytes below 2^53 megabytes converts to exactly
/// that number. Every such count that fits in 64 bits is covered.
pub proof fn lemma_megabytes_of_whole(k: nat)
    requires
        k < DOUBLE_EXACT_LIMIT,
    ensures
        megabytes_of(k * 1_048_576) == k,
{
    lemma2_to64();
    lemma_mod_multiples_basic(k as int, 1_048_576);
    lemma_multiple_is_exact(k * 1_048_576, 20);
}

/// The spacing around an integer fits its size: counted in units of the
/// spacing the integer is below 2^53, and at least 2^52 where the spacing
/// is more than 1.
proof fn lemma_spacing_bounds(b: nat)
    ensures
        double_spacing(b) >= 1,
        b < 0x20_0000_0000_0000 * double_spacing(b),
        double_spacing(b) >= 2 ==> 0x10_0000_0000_0000 * double_spacing(b) <= b,
    decreases b,
{
    if b >= DOUBLE_EXACT_LIMIT {
        lemma_spacing_bounds(b / 2);
    }
}

/// The spacing grows with the integer, and where it grows it at least
/// doubles.
proof fn lemma_spacing_grows(a: nat, b: nat)
    requires
        a <= b,
    ensures
        double_spacing(a) <= double_spacing(b),
        double_spacing(a) < double_spacing(b) ==> 2 * double_spacing(a) <= double_spacing(b),
    decreases b,
{
    lemma_spacing_bounds(a);
    lemma_spacing_bounds(b);
    if b >= DOUBLE_EXACT_LIMIT && a >= DOUBLE_EXACT_LIMIT {
        lemma_spacing_grows(a / 2, b / 2);
    }
}

/// The nearest double lies between the two multiples of the spacing that
/// enclose the integer.
proof fn lemma_nearest_is_enclosed(b: nat)
    ensures
        (b / double_spacing(b)) * double_spacing(b) <= nearest_double(b) <= (b / double_spacing(b)
            + 1) * double_spacing(b),
{
    lemma_spacing_bounds(b);
    let unit = double_spacing(b);
    let steps = b / unit;
    assert(steps * unit <= (steps + 1) * unit) by (nonlinear_arith)
        requires
            unit >= 1,
    ;
}

/// Conversion to a double keeps the order: a larger integer does not go to
/// a smaller double.
pub proof fn lemma_nearest_double_is_monotone(a: nat, b: nat)
    requires
        a <= b,
    ensures
        nearest_double(a) <= nearest_double(b),
{
    lemma_spacing_bounds(a);
    lemma_spacing_bounds(b);
    lemma_spacing_grows(a, b);
    lemma_nearest_is_enclosed(a);
    lemma_nearest_is_enclosed(b);
    let unit_a = double_spacing(a);
    let unit_b = double_spacing(b);
    let steps_a = a / unit_a;
    let steps_b = b / unit_b;
    lemma_fundamental_div_mod(a as int, unit_a as int);
    lemma_fundamental_div_mod(b as int, unit_b as int);
    if unit_a == unit_b {
        lemma_div_is_ordered(a as int, b as int, unit_a as int);
        if steps_a < steps_b {
            assert((steps_a + 1) * unit_a <= steps_b * unit_a) by (nonlinear_arith)
                requires
                    steps_a + 1 <= steps_b,
            ;
        } else {
            assert(unit_a * steps_a == steps_a * unit_a) by (nonlinear_arith);
            assert(a % unit_a <= b % unit_a);
            assert(steps_a * unit_a <= (steps_a + 1) * unit_a) by (nonlinear_arith);
        }
    } else {
        let top = 0x20_0000_0000_0000 * unit_a;
        assert(steps_a < 0x20_0000_0000_0000) by (nonlinear_arith)
            requires
                a == unit_a * steps_a + a % unit_a,
                a < 0x20_0000_0000_0000 * unit_a,
                unit_a >= 1,
        ;
        assert((steps_a + 1) * unit_a <= 0x20_0000_0000_0000 * unit_a) by (nonlinear_arith)
            requires
                steps_a + 1 <= 0x20_0000_0000_0000,
        ;
        assert(top <= 0x10_0000_0000_0000 * unit_b);
        assert(steps_b >= 0x10_0000_0000_0000) by (nonlinear_arith)
            requires
                b == unit_b * steps_b + b % unit_b,
                b % unit_b < unit_b,
                0x10_0000_0000_0000 * unit_b <= b,
                unit_b >= 1,
        ;
        assert(0x10_0000_0000_0000 * unit_b <= steps_b * unit_b) by (nonlinear_arith)
            requires
                steps_b >= 0x10_0000_0000_0000,
        ;
    }
}

/// More bytes are not fewer megabytes.
pub proof fn lemma_megabytes_are_monotone(a: nat, b: nat)
    requires
        a <= b,
    ensures
        megabytes_of(a) <= megabytes_of(b),
{
    lemma_nearest_double_is_monotone(a, b);
}

} // verus!

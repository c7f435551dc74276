//! Exact non-negative numbers and their decimal text.
//!
//! Throughput and duration figures are quotients of measured integers. They
//! are kept as the two integers, so that nothing is lost before a figure is
//! shown, and rounded only when text is made of them.

use vstd::prelude::*;
use vstd::string::StrSliceExecFns;
use vstd::string::StringExecFns;
use vstd::arithmetic::div_mod::lemma_fundamental_div_mod;
use vstd::arithmetic::div_mod::lemma_fundamental_div_mod_converse;
use vstd::arithmetic::div_mod::lemma_mod_bound;

verus! {

/// A non-negative number given as `numerator / denominator`.
///
/// With a zero denominator the number is not finite: it stands for a
/// division by zero that a measurement ran into.
#[derive(Clone, Copy, Debug, PartialEq, Eq, Structural)]
pub struct Quotient {
    pub numerator: u128,
    pub denominator: u128,
}

/// A number rounded to two decimal places: `whole + cents / 100`.
#[derive(Clone, Copy, Debug, PartialEq, Eq, Structural)]
pub struct Hundredths {
    pub whole: u128,
    pub cents: u8,
}

/// Whether a double holds `numerator / denominator` exactly, given that
/// the quotient lies halfway between two counts of hundredths: such a
/// quotient is an odd number of eighths, and a double holds the eighths
/// below 2^53 of them.
pub open spec fn held_by_double(numerator: nat, denominator: nat) -> bool {
    (8 * numerator) % denominator == 0 && (8 * numerator) / denominator < 0x20_0000_0000_0000
}

/// `100 * numerator / denominator` rounded to the nearest integer. A
/// quotient that lies halfway between two integers goes to the even one
/// where a double holds the quotient exactly, as the formatting of doubles
/// has it (0.125 gives 12), and up everywhere else (0.005 gives 1). It is
/// the exact quotient that is rounded: a double that only comes near such
/// a half may lie on either side of it, and its formatting may then differ
/// by one in the last place. The denominator is taken to be positive.
pub open spec fn rounded_hundredths(numerator: nat, denominator: nat) -> nat {
    let down = (100 * numerator) / denominator;
    let rest = (100 * numerator) % denominator;
    if 2 * rest < denominator {
        down
    } else if 2 * rest > denominator {
        down + 1
    } else if held_by_double(numerator, denominator) && down % 2 == 0 {
        down
    } else {
        down + 1
    }
}

impl Quotient {
    /// Whether the denominator is positive.
    pub open spec fn is_finite(self) -> bool {
        self.denominator > 0
    }

    /// The quotient rounded to two decimal places, as one integer count of
    /// hundredths.
    pub open spec fn hundredths(self) -> nat {
        rounded_hundredths(self.numerator as nat, self.denominator as nat)
    }

    /// The quotient `numerator / denominator`.
    pub fn new(numerator: u128, denominator: u128) -> (q: Quotient)
        ensures
            q.numerator == numerator,
            q.denominator == denominator,
    {
        Quotient { numerator, denominator }
    }

    /// The whole number `value`.
    pub fn whole(value: u128) -> (q: Quotient)
        ensures
            q.numerator == value,
            q.denominator == 1,
    {
        Quotient { numerator: value, denominator: 1 }
    }

    /// Rounds to two decimal places, to the nearest count of hundredths;
    /// see `rounded_hundredths` for the halves. `None` exactly when the
    /// quotient is not finite.
    pub fn round_hundredths(&self) -> (r: Option<Hundredths>)
        ensures
            r is None <==> !self.is_finite(),
            r matches Some(h) ==> h.cents < 100 && h.whole * 100 + h.cents == self.hundredths(),
    {
        let den = self.denominator;
        if den == 0 {
            return None;
        }
        let whole = self.numerator / den;
        let rest = self.numerator % den;
        let (tenths, rest_after_tenths) = long_division_step(rest, den, 10);
        let (cents, rest_after_cents) = long_division_step(rest_after_tenths, den, 10);
        let (eighths, rest_after_eighths) = long_division_step(rest, den, 8);
        let kept: u8 = tenths * 10 + cents;
        let halfway = rest_after_cents == den - rest_after_cents;
        let exact = rest_after_eighths == 0 && whole < 0x4_0000_0000_0000;
        let round_up = if halfway {
            !(exact && kept % 2 == 0)
        } else {
            rest_after_cents > den - rest_after_cents
        };
        proof {
            let n = self.numerator as int;
            let d = den as int;
            let base = whole as int * 100 + kept as int;
            lemma_fundamental_div_mod(n, d);
            assert(100 * n == base * d + rest_after_cents as int) by (nonlinear_arith)
                requires
                    n == d * whole as int + rest as int,
                    10 * rest as int == tenths as int * d + rest_after_tenths as int,
                    10 * rest_after_tenths as int == cents as int * d + rest_after_cents as int,
                    kept as int == tenths as int * 10 + cents as int,
                    base == whole as int * 100 + kept as int,
            ;
            lemma_fundamental_div_mod_converse(100 * n, d, base, rest_after_cents as int);
            let count = 8 * whole as int + eighths as int;
            assert(8 * n == count * d + rest_after_eighths as int) by (nonlinear_arith)
                requires
                    n == d * whole as int + rest as int,
                    8 * rest as int == eighths as int * d + rest_after_eighths as int,
                    count == 8 * whole as int + eighths as int,
            ;
            lemma_fundamental_div_mod_converse(8 * n, d, count, rest_after_eighths as int);
            assert(exact == held_by_double(self.numerator as nat, den as nat));
            assert(base % 2 == kept as int % 2);
            if den == 1 {
                assert(rest == 0);
                assert(tenths as int * d == tenths as int) by (nonlinear_arith)
                    requires
                        d == 1,
                ;
                assert(cents as int * d == cents as int) by (nonlinear_arith)
                    requires
                        d == 1,
                ;
            } else {
                assert(whole as int * 2 <= n) by (nonlinear_arith)
                    requires
                        n == d * whole as int + rest as int,
                        d >= 2,
                        rest >= 0,
                        whole >= 0,
                ;
            }
        }
        if round_up {
            if kept == 99 {
                Some(Hundredths { whole: whole + 1, cents: 0 })
            } else {
                Some(Hundredths { whole, cents: kept + 1 })
            }
        } else {
            Some(Hundredths { whole, cents: kept })
        }
    }
}

/// One step of long division: how often `divisor` goes into `factor`
/// times `rest`, and what is left. Works by additions, so that nothing can
/// overflow however large the divisor is.
fn long_division_step(rest: u128, divisor: u128, factor: u8) -> (r: (u8, u128))
    requires
        rest < divisor,
        factor >= 1,
    ensures
        r.0 < factor,
        r.1 < divisor,
        factor * rest == r.0 * divisor + r.1,
{
    let mut digit: u8 = 0;
    let mut left: u128 = 0;
    let mut round: u8 = 0;
    while round < factor
        invariant
            rest < divisor,
            round <= factor,
            digit <= round,
            left < divisor,
            round as int * rest as int == digit as int * divisor as int + left as int,
        decreases factor - round,
    {
        proof {
            assert((round as int + 1) * rest as int == round as int * rest as int + rest as int)
                by (nonlinear_arith);
            assert((digit as int + 1) * divisor as int == digit as int * divisor as int
                + divisor as int) by (nonlinear_arith);
        }
        if left >= divisor - rest {
            left = left - (divisor - rest);
            digit = digit + 1;
        } else {
            left = left + rest;
        }
        round = round + 1;
    }
    proof {
        assert(digit < factor) by (nonlinear_arith)
            requires
                factor as int * rest as int == digit as int * divisor as int + left as int,
                rest < divisor,
                left >= 0,
                digit <= factor,
                factor >= 1,
        ;
    }
    (digit, left)
}

/// The character of a decimal digit.
pub open spec fn digit_char(digit: nat) -> char {
    "0123456789"@[digit as int]
}

/// A natural number in decimal, without leading zeros.
pub open spec fn decimal_text(n: nat) -> Seq<char>
    decreases n,
{
    if n < 10 {
        seq![digit_char(n)]
    } else {
        decimal_text(n / 10).push(digit_char(n % 10))
    }
}

/// The one-character text of a decimal digit.
pub(crate) fn digit_text(digit: u8) -> (text: &'static str)
    requires
        digit < 10,
    ensures
        text@ == seq![digit_char(digit as nat)],
{
    proof {
        reveal_strlit("0123456789");
    }
    let text = "0123456789".substring_char(digit as usize, digit as usize + 1);
    assert(text@ =~= seq![digit_char(digit as nat)]);
    text
}

/// Appends a number in decimal.
pub fn push_decimal(out: &mut String, n: u128)
    ensures
        final(out)@ == old(out)@ + decimal_text(n as nat),
    decreases n,
{
    if n >= 10 {
        push_decimal(out, n / 10);
    }
    out.append(digit_text((n % 10) as u8));
    assert(out@ =~= old(out)@ + decimal_text(n as nat));
}

/// A count of hundredths as a number with two decimal places.
pub open spec fn hundredths_text(hundredths: nat) -> Seq<char> {
    decimal_text(hundredths / 100) + seq![
        '.',
        digit_char((hundredths % 100) / 10),
        digit_char(hundredths % 10),
    ]
}

/// A quotient with two decimal places, rounded with halves up. A quotient
/// that is not finite reads `NaN` where it is zero by zero and `inf`
/// otherwise.
pub open spec fn quotient_text(q: Quotient) -> Seq<char> {
    if q.is_finite() {
        hundredths_text(q.hundredths())
    } else if q.numerator == 0 {
        "NaN"@
    } else {
        "inf"@
    }
}

/// Appends a number rounded to hundredths, with two decimal places.
fn push_hundredths(out: &mut String, value: Hundredths)
    requires
        value.cents < 100,
    ensures
        final(out)@ == old(out)@ + hundredths_text((value.whole * 100 + value.cents) as nat),
{
    let ghost count = (value.whole * 100 + value.cents) as nat;
    proof {
        reveal_strlit(".");
        assert(count / 100 == value.whole);
        assert(count % 100 == value.cents);
        assert(count % 10 == value.cents % 10);
    }
    push_decimal(out, value.whole);
    let ghost whole_part = out@;
    out.append(".");
    out.append(digit_text(value.cents / 10));
    out.append(digit_text(value.cents % 10));
    assert(out@ =~= whole_part + seq![
        '.',
        digit_char((value.cents / 10) as nat),
        digit_char((value.cents % 10) as nat),
    ]);
    assert(out@ =~= old(out)@ + hundredths_text(count));
}

/// Appends a quotient with two decimal places.
pub fn push_quotient(out: &mut String, q: Quotient)
    ensures
        final(out)@ == old(out)@ + quotient_text(q),
{
    match q.round_hundredths() {
        Some(value) => push_hundredths(out, value),
        None => {
            if q.numerator == 0 {
                out.append("NaN");
            } else {
                out.append("inf");
            }
        },
    }
}

/// The rounded count of hundredths is a nearest one: it lies within half a
/// hundredth of the quotient. Cleared of fractions, with `h` for the
/// count: `2 * h - 1 <= 200 * numerator / denominator <= 2 * h + 1`.
pub proof fn lemma_hundredths_nearest(numerator: nat, denominator: nat)
    requires
        denominator > 0,
    ensures
        ({
            let h = rounded_hundredths(numerator, denominator) as int;
            (2 * h - 1) * denominator <= 200 * numerator <= (2 * h + 1) * denominator
        }),
{
    let h = rounded_hundredths(numerator, denominator) as int;
    let x = (100 * numerator) as int;
    let d = denominator as int;
    let down = x / d;
    lemma_fundamental_div_mod(x, d);
    lemma_mod_bound(x, d);
    assert(x == d * down + x % d);
    assert((2 * down - 1) * d == 2 * (d * down) - d) by (nonlinear_arith);
    assert((2 * down + 1) * d == 2 * (d * down) + d) by (nonlinear_arith);
    assert((2 * (down + 1) - 1) * d == 2 * (d * down) + d) by (nonlinear_arith);
    assert((2 * (down + 1) + 1) * d == 2 * (d * down) + 3 * d) by (nonlinear_arith);
}

/// A half of a hundredth that a double holds exactly goes to the even
/// count, every other half goes up: an eighth is 0.12, three eighths are
/// 0.38, and a two-hundredth is 0.01.
pub proof fn lemma_halves()
    ensures
        rounded_hundredths(1, 8) == 12,
        rounded_hundredths(3, 8) == 38,
        rounded_hundredths(5, 8) == 62,
        rounded_hundredths(7, 8) == 88,
        rounded_hundredths(1, 200) == 1,
        rounded_hundredths(3, 200) == 2,
{
}

} // verus!

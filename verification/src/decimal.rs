//! Decimal figures as they are written.
//!
//! A figure that is measured by someone else, such as the charge of a
//! battery, is kept in the form in which it is shown: a sign, the digits,
//! and how many of the digits stand behind the point. A figure is read
//! from its text and written back to the same text.

use vstd::prelude::*;
use vstd::string::StrSliceExecFns;
use vstd::string::StringExecFns;
use crate::number::decimal_text;
use crate::number::digit_char;
use crate::number::digit_text;
use crate::number::push_decimal;

verus! {

/// A decimal number: `digits / 10^scale`, negative or not. The last
/// `scale` digits stand behind the point; digits that are missing in
/// front are zeros.
#[derive(Clone, Copy, Debug, PartialEq, Eq, Structural)]
pub struct Decimal {
    pub negative: bool,
    pub digits: u128,
    pub scale: u8,
}

/// A measured figure: a decimal number, or what stands in its place where
/// the measurement gave no number.
#[derive(Clone, Copy, Debug, PartialEq, Eq, Structural)]
pub enum Figure {
    Number(Decimal),
    Infinite { negative: bool },
    NotANumber,
}

/// Whether a character is a decimal digit.
pub open spec fn is_digit(c: char) -> bool {
    '0' <= c && c <= '9'
}

/// The number that a decimal digit stands for.
pub open spec fn digit_of(c: char) -> nat {
    (c as int - '0' as int) as nat
}

/// Whether every character is a decimal digit.
pub open spec fn all_digits(s: Seq<char>) -> bool {
    forall|i: int| 0 <= i < s.len() ==> is_digit(#[trigger] s[i])
}

/// The number that a run of digits stands for.
pub open spec fn digits_value(s: Seq<char>) -> nat
    decreases s.len(),
{
    if s.len() == 0 {
        0
    } else {
        digits_value(s.drop_last()) * 10 + digit_of(s.last())
    }
}

/// A number without its last `count` digits.
pub open spec fn drop_digits(n: nat, count: nat) -> nat
    decreases count,
{
    if count == 0 {
        n
    } else {
        drop_digits(n / 10, (count - 1) as nat)
    }
}

/// The last `count` digits of a number, with zeros in front where the
/// number has fewer.
pub open spec fn last_digits(n: nat, count: nat) -> Seq<char>
    decreases count,
{
    if count == 0 {
        Seq::empty()
    } else {
        last_digits(n / 10, (count - 1) as nat).push(digit_char(n % 10))
    }
}

/// Whether a text is the part of a numeral in front of the point: one
/// digit or more, and no zero in front of another digit.
pub open spec fn is_whole_part(s: Seq<char>) -> bool {
    s.len() >= 1 && all_digits(s) && (s.len() > 1 ==> s[0] != '0')
}

/// Whether a text is the part of a numeral behind the point: one digit or
/// more, and no more than a scale can count.
pub open spec fn is_fraction_part(s: Seq<char>) -> bool {
    1 <= s.len() <= 255 && all_digits(s)
}

/// Whether the point of a numeral stands at position `p`.
pub open spec fn splits_at(s: Seq<char>, p: int) -> bool {
    0 <= p < s.len() && s[p] == '.' && is_whole_part(s.subrange(0, p)) && is_fraction_part(
        s.subrange(p + 1, s.len() as int),
    )
}

/// The decimal with the given digits, of which `scale` stand behind the
/// point, where the digits make a number of 128 bits.
pub open spec fn numbered(digits: Seq<char>, scale: nat, negative: bool) -> Option<Decimal> {
    if digits_value(digits) <= u128::MAX {
        Some(Decimal { negative, digits: digits_value(digits) as u128, scale: scale as u8 })
    } else {
        None
    }
}

/// The decimal that a numeral without sign stands for: digits, or digits
/// with a point between them. A text that is no such numeral stands for
/// none, and neither does one with more digits than 128 bits hold.
pub open spec fn numeral(s: Seq<char>, negative: bool) -> Option<Decimal> {
    if is_whole_part(s) {
        numbered(s, 0, negative)
    } else if exists|p: int| splits_at(s, p) {
        let p = choose|p: int| splits_at(s, p);
        numbered(
            s.subrange(0, p) + s.subrange(p + 1, s.len() as int),
            (s.len() - p - 1) as nat,
            negative,
        )
    } else {
        None
    }
}

/// The figure that a text stands for: `NaN`, `inf`, `-inf`, or a numeral
/// with or without a minus sign in front.
pub open spec fn figure_of(s: Seq<char>) -> Option<Figure> {
    if s == "NaN"@ {
        Some(Figure::NotANumber)
    } else if s == "inf"@ {
        Some(Figure::Infinite { negative: false })
    } else if s == "-inf"@ {
        Some(Figure::Infinite { negative: true })
    } else if s.len() > 0 && s[0] == '-' {
        match numeral(s.subrange(1, s.len() as int), true) {
            Some(decimal) => Some(Figure::Number(decimal)),
            None => None,
        }
    } else {
        match numeral(s, false) {
            Some(decimal) => Some(Figure::Number(decimal)),
            None => None,
        }
    }
}

impl Decimal {
    /// The decimal as it is written: the sign, the digits in front of the
    /// point, and where there are digits behind the point, the point and
    /// those.
    pub open spec fn text(self) -> Seq<char> {
        (if self.negative {
            seq!['-']
        } else {
            Seq::empty()
        }) + decimal_text(drop_digits(self.digits as nat, self.scale as nat)) + (if self.scale
            == 0 {
            Seq::empty()
        } else {
            seq!['.'] + last_digits(self.digits as nat, self.scale as nat)
        })
    }

    /// Writes the decimal.
    pub fn to_text(&self) -> (text: String)
        ensures
            text@ == self.text(),
    {
        proof {
            reveal_strlit("-");
            reveal_strlit(".");
        }
        let mut out = String::new();
        if self.negative {
            out.append("-");
        }
        push_decimal(&mut out, without_last_digits(self.digits, self.scale));
        if self.scale > 0 {
            out.append(".");
            push_last_digits(&mut out, self.digits, self.scale);
        }
        assert(out@ =~= self.text());
        out
    }
}

impl Figure {
    /// The figure as it is written.
    pub open spec fn text(self) -> Seq<char> {
        match self {
            Figure::Number(decimal) => decimal.text(),
            Figure::Infinite { negative } => if negative {
                "-inf"@
            } else {
                "inf"@
            },
            Figure::NotANumber => "NaN"@,
        }
    }

    /// Writes the figure.
    pub fn to_text(&self) -> (text: String)
        ensures
            text@ == self.text(),
    {
        match self {
            Figure::Number(decimal) => decimal.to_text(),
            Figure::Infinite { negative } => {
                if *negative {
                    String::from_str("-inf")
                } else {
                    String::from_str("inf")
                }
            },
            Figure::NotANumber => String::from_str("NaN"),
        }
    }

    /// Reads a figure from its text. There is none where the text is no
    /// figure.
    pub fn parse(text: &str) -> (figure: Option<Figure>)
        ensures
            figure == figure_of(text@),
    {
        let owned = String::from_str(text);
        if owned == String::from_str("NaN") {
            return Some(Figure::NotANumber);
        }
        if owned == String::from_str("inf") {
            return Some(Figure::Infinite { negative: false });
        }
        if owned == String::from_str("-inf") {
            return Some(Figure::Infinite { negative: true });
        }
        let len = text.unicode_len();
        let parsed = if len > 0 && text.get_char(0) == '-' {
            read_numeral(text.substring_char(1, len), true)
        } else {
            read_numeral(text, false)
        };
        match parsed {
            Some(decimal) => Some(Figure::Number(decimal)),
            None => None,
        }
    }
}

/// A number without its last `count` digits.
fn without_last_digits(n: u128, count: u8) -> (rest: u128)
    ensures
        rest == drop_digits(n as nat, count as nat),
    decreases count,
{
    if count == 0 {
        n
    } else {
        without_last_digits(n / 10, count - 1)
    }
}

/// Appends the last `count` digits of a number.
fn push_last_digits(out: &mut String, n: u128, count: u8)
    ensures
        final(out)@ == old(out)@ + last_digits(n as nat, count as nat),
    decreases count,
{
    if count > 0 {
        push_last_digits(out, n / 10, count - 1);
        out.append(digit_text((n % 10) as u8));
    }
    assert(out@ =~= old(out)@ + last_digits(n as nat, count as nat));
}

/// The number that a character stands for, where it is a digit.
fn digit(c: char) -> (d: Option<u8>)
    ensures
        d is Some <==> is_digit(c),
        d matches Some(v) ==> v == digit_of(c) && v < 10,
{
    if c >= '0' && c <= '9' {
        Some((c as u32 - '0' as u32) as u8)
    } else {
        None
    }
}

/// The position of the first character from `from` on that is no digit, or
/// the length of the text.
fn end_of_digits(s: &str, from: usize) -> (end: usize)
    requires
        from <= s@.len(),
    ensures
        from <= end <= s@.len(),
        all_digits(s@.subrange(from as int, end as int)),
        end < s@.len() ==> !is_digit(s@[end as int]),
{
    let len = s.unicode_len();
    let mut end: usize = from;
    while end < len && digit(s.get_char(end)).is_some()
        invariant
            len == s@.len(),
            from <= end <= len,
            all_digits(s@.subrange(from as int, end as int)),
        decreases len - end,
    {
        proof {
            let longer = s@.subrange(from as int, end as int + 1);
            assert forall|i: int| 0 <= i < longer.len() implies is_digit(#[trigger] longer[i]) by {
                if i < end - from {
                    assert(longer[i] == s@.subrange(from as int, end as int)[i]);
                }
            }
        }
        end = end + 1;
    }
    end
}

/// Reads the digits of `s` from `from` to `to` behind the digits `front`,
/// whose number is `before`.
fn read_digits(s: &str, from: usize, to: usize, Ghost(front): Ghost<Seq<char>>, before: u128) -> (number:
    Option<u128>)
    requires
        from <= to <= s@.len(),
        all_digits(s@.subrange(from as int, to as int)),
        before == digits_value(front),
    ensures
        number == if digits_value(front + s@.subrange(from as int, to as int)) <= u128::MAX {
            Some(digits_value(front + s@.subrange(from as int, to as int)) as u128)
        } else {
            None::<u128>
        },
{
    let ghost all = front + s@.subrange(from as int, to as int);
    let mut number: u128 = before;
    let mut at: usize = from;
    assert(front + s@.subrange(from as int, from as int) =~= front);
    while at < to
        invariant
            from <= at <= to <= s@.len(),
            all_digits(s@.subrange(from as int, to as int)),
            all == front + s@.subrange(from as int, to as int),
            number == digits_value(front + s@.subrange(from as int, at as int)),
        decreases to - at,
    {
        let ghost read = front + s@.subrange(from as int, at as int);
        let ghost longer = front + s@.subrange(from as int, at as int + 1);
        proof {
            assert(longer.drop_last() =~= read);
            assert(longer.last() == s@[at as int]);
            assert(s@.subrange(from as int, to as int)[at - from] == s@[at as int]);
            assert(all =~= longer + s@.subrange(at as int + 1, to as int));
            lemma_value_grows(longer, s@.subrange(at as int + 1, to as int));
        }
        let d = match digit(s.get_char(at)) {
            Some(d) => d,
            None => 0,
        };
        number = match number.checked_mul(10) {
            Some(tens) => match tens.checked_add(d as u128) {
                Some(next) => next,
                None => {
                    return None;
                },
            },
            None => {
                return None;
            },
        };
        at = at + 1;
    }
    assert(s@.subrange(from as int, at as int) =~= s@.subrange(from as int, to as int));
    Some(number)
}

/// Reads a numeral without sign.
fn read_numeral(s: &str, negative: bool) -> (decimal: Option<Decimal>)
    ensures
        decimal == numeral(s@, negative),
{
    let len = s.unicode_len();
    let point = end_of_digits(s, 0);
    let ghost whole = s@.subrange(0, point as int);
    if point == 0 {
        proof {
            assert forall|p: int| !splits_at(s@, p) by {
                if splits_at(s@, p) {
                    assert(s@.subrange(0, p)[0] == s@[0]);
                }
            }
        }
        return None;
    }
    assert(forall|i: int| 0 <= i < point ==> whole[i] == s@[i]);
    if point > 1 && s.get_char(0) == '0' {
        proof {
            assert(is_digit(whole[1]));
            assert forall|p: int| !splits_at(s@, p) by {
                if splits_at(s@, p) {
                    assert(s@.subrange(0, p)[0] == s@[0]);
                }
            }
        }
        return None;
    }
    if point == len {
        assert(whole =~= s@);
        assert(Seq::<char>::empty() + s@.subrange(0, len as int) =~= s@);
        return match read_digits(s, 0, len, Ghost(Seq::empty()), 0) {
            Some(digits) => Some(Decimal { negative, digits, scale: 0 }),
            None => None,
        };
    }
    proof {
        assert(!is_whole_part(s@));
        assert forall|p: int| splits_at(s@, p) implies p == point by {
            if p < point {
                assert(is_digit(whole[p]));
            }
            if p > point {
                assert(s@.subrange(0, p)[point as int] == s@[point as int]);
            }
        }
    }
    if s.get_char(point) != '.' {
        return None;
    }
    let end = end_of_digits(s, point + 1);
    let ghost fraction = s@.subrange(point as int + 1, len as int);
    if end != len {
        proof {
            assert(fraction[end - point - 1] == s@[end as int]);
        }
        return None;
    }
    if len - point - 1 == 0 || len - point - 1 > 255 {
        return None;
    }
    assert(whole[0] == s@[0]);
    assert(splits_at(s@, point as int));
    assert(Seq::<char>::empty() + s@.subrange(0, point as int) =~= whole);
    let front = match read_digits(s, 0, point, Ghost(Seq::empty()), 0) {
        Some(front) => front,
        None => {
            proof {
                lemma_value_grows(whole, fraction);
            }
            return None;
        },
    };
    match read_digits(s, point + 1, len, Ghost(whole), front) {
        Some(digits) => Some(Decimal { negative, digits, scale: (len - point - 1) as u8 }),
        None => None,
    }
}

/// Digits behind a number do not make it smaller.
proof fn lemma_value_grows(front: Seq<char>, behind: Seq<char>)
    ensures
        digits_value(front) <= digits_value(front + behind),
    decreases behind.len(),
{
    if behind.len() == 0 {
        assert(front + behind =~= front);
    } else {
        assert((front + behind).drop_last() =~= front + behind.drop_last());
        lemma_value_grows(front, behind.drop_last());
    }
}

/// The character of the number of a digit is the digit.
proof fn lemma_digit_char_of(c: char)
    requires
        is_digit(c),
    ensures
        digit_of(c) < 10,
        digit_char(digit_of(c)) == c,
{
    reveal_strlit("0123456789");
}

/// The text of the number of a whole part is the whole part.
proof fn lemma_whole_part_text(s: Seq<char>)
    requires
        is_whole_part(s),
    ensures
        decimal_text(digits_value(s)) == s,
    decreases s.len(),
{
    let front = s.drop_last();
    lemma_digit_char_of(s.last());
    if front.len() == 0 {
        assert(digits_value(front) == 0);
        assert(decimal_text(digits_value(s)) =~= s);
    } else {
        assert forall|i: int| 0 <= i < front.len() implies is_digit(#[trigger] front[i]) by {
            assert(front[i] == s[i]);
        }
        assert(front[0] == s[0]);
        lemma_digit_char_of(front[0]);
        let first = front.subrange(0, 1);
        assert(first.drop_last() =~= Seq::<char>::empty());
        assert(digits_value(first.drop_last()) == 0);
        assert(digits_value(first) == digit_of(front[0]));
        assert(front =~= first + front.subrange(1, front.len() as int));
        lemma_value_grows(first, front.subrange(1, front.len() as int));
        assert(digits_value(front) >= 1);
        lemma_whole_part_text(front);
        assert(decimal_text(digits_value(s)) =~= s);
    }
}

/// The number of digits behind digits falls apart again: without its last
/// digits it is the number of the digits in front, and its last digits are
/// the digits behind.
proof fn lemma_value_splits(front: Seq<char>, behind: Seq<char>)
    requires
        all_digits(behind),
    ensures
        drop_digits(digits_value(front + behind), behind.len()) == digits_value(front),
        last_digits(digits_value(front + behind), behind.len()) == behind,
    decreases behind.len(),
{
    if behind.len() == 0 {
        assert(front + behind =~= front);
        assert(last_digits(digits_value(front + behind), 0) =~= behind);
    } else {
        let shorter = behind.drop_last();
        assert((front + behind).drop_last() =~= front + shorter);
        assert((front + behind).last() == behind.last());
        assert forall|i: int| 0 <= i < shorter.len() implies is_digit(#[trigger] shorter[i]) by {
            assert(shorter[i] == behind[i]);
        }
        lemma_digit_char_of(behind.last());
        lemma_value_splits(front, shorter);
        let value = digits_value(front + behind);
        assert(value / 10 == digits_value(front + shorter));
        assert(value % 10 == digit_of(behind.last()));
        assert(last_digits(value, behind.len()) =~= behind);
    }
}

/// A numeral is written back as it was read.
proof fn lemma_numeral_text(s: Seq<char>, negative: bool)
    ensures
        numeral(s, negative) matches Some(decimal) ==> decimal.negative == negative
            && decimal.text() == (if negative {
            seq!['-']
        } else {
            Seq::<char>::empty()
        }) + s,
{
    match numeral(s, negative) {
        Some(decimal) => {
            if is_whole_part(s) {
                lemma_whole_part_text(s);
                assert(decimal.text() =~= (if negative {
                    seq!['-']
                } else {
                    Seq::<char>::empty()
                }) + s);
            } else {
                let p = choose|p: int| splits_at(s, p);
                let whole = s.subrange(0, p);
                let fraction = s.subrange(p + 1, s.len() as int);
                lemma_whole_part_text(whole);
                lemma_value_splits(whole, fraction);
                assert(s =~= whole + seq!['.'] + fraction);
                assert(decimal.text() =~= (if negative {
                    seq!['-']
                } else {
                    Seq::<char>::empty()
                }) + s);
            }
        },
        None => {},
    }
}

/// A figure is written back as it was read: where a text stands for a
/// figure, the text of the figure is that text.
pub proof fn lemma_figure_is_written_as_read(s: Seq<char>)
    ensures
        figure_of(s) matches Some(figure) ==> figure.text() == s,
{
    if s == "NaN"@ || s == "inf"@ || s == "-inf"@ {
    } else if s.len() > 0 && s[0] == '-' {
        lemma_numeral_text(s.subrange(1, s.len() as int), true);
        assert(seq!['-'] + s.subrange(1, s.len() as int) =~= s);
    } else {
        lemma_numeral_text(s, false);
        assert(Seq::<char>::empty() + s =~= s);
    }
}

/// The number of the character of a digit is the digit.
proof fn lemma_digit_of_char(d: nat)
    requires
        d < 10,
    ensures
        is_digit(digit_char(d)),
        digit_of(digit_char(d)) == d,
{
    reveal_strlit("0123456789");
}

/// The decimal text of a number is a whole part, and its number is the
/// number.
proof fn lemma_decimal_text_is_whole(n: nat)
    ensures
        is_whole_part(decimal_text(n)),
        digits_value(decimal_text(n)) == n,
        n >= 1 ==> decimal_text(n)[0] != '0',
    decreases n,
{
    let text = decimal_text(n);
    lemma_digit_of_char(n % 10);
    if n < 10 {
        assert(text.drop_last() =~= Seq::<char>::empty());
        assert(digits_value(text.drop_last()) == 0);
    } else {
        let front = decimal_text(n / 10);
        lemma_decimal_text_is_whole(n / 10);
        assert(text.drop_last() =~= front);
        assert(text[0] == front[0]);
        assert forall|i: int| 0 <= i < text.len() implies is_digit(#[trigger] text[i]) by {
            if i < front.len() {
                assert(text[i] == front[i]);
            }
        }
    }
}

/// The last digits of a number are as many digits as were asked for.
proof fn lemma_last_digits_are_digits(n: nat, count: nat)
    ensures
        last_digits(n, count).len() == count,
        all_digits(last_digits(n, count)),
    decreases count,
{
    if count > 0 {
        lemma_last_digits_are_digits(n / 10, (count - 1) as nat);
        lemma_digit_of_char(n % 10);
        let shorter = last_digits(n / 10, (count - 1) as nat);
        let digits = last_digits(n, count);
        assert forall|i: int| 0 <= i < digits.len() implies is_digit(#[trigger] digits[i]) by {
            if i < shorter.len() {
                assert(digits[i] == shorter[i]);
            }
        }
    }
}

/// The digits in front of the point and the digits behind it make the
/// number again.
proof fn lemma_value_joins(n: nat, count: nat)
    ensures
        digits_value(decimal_text(drop_digits(n, count)) + last_digits(n, count)) == n,
    decreases count,
{
    let front = decimal_text(drop_digits(n, count));
    if count == 0 {
        assert(front + last_digits(n, count) =~= decimal_text(n));
        lemma_decimal_text_is_whole(n);
    } else {
        let shorter = last_digits(n / 10, (count - 1) as nat);
        lemma_value_joins(n / 10, (count - 1) as nat);
        lemma_digit_of_char(n % 10);
        let all = front + last_digits(n, count);
        assert(all.drop_last() =~= front + shorter);
        assert(all.last() == digit_char(n % 10));
    }
}

/// A decimal is read as it was written.
proof fn lemma_numeral_of_text(decimal: Decimal)
    ensures
        ({
            let whole = decimal_text(drop_digits(decimal.digits as nat, decimal.scale as nat));
            let unsigned = whole + (if decimal.scale == 0 {
                Seq::<char>::empty()
            } else {
                seq!['.'] + last_digits(decimal.digits as nat, decimal.scale as nat)
            });
            &&& numeral(unsigned, decimal.negative) == Some(decimal)
            &&& unsigned.len() >= 1
            &&& is_digit(unsigned[0])
        }),
{
    let n = decimal.digits as nat;
    let count = decimal.scale as nat;
    let whole = decimal_text(drop_digits(n, count));
    let fraction = last_digits(n, count);
    lemma_decimal_text_is_whole(drop_digits(n, count));
    lemma_last_digits_are_digits(n, count);
    lemma_value_joins(n, count);
    assert(is_digit(whole[0]));
    if decimal.scale == 0 {
        assert(whole + Seq::<char>::empty() =~= whole);
        assert(whole + fraction =~= whole);
    } else {
        let unsigned = whole + (seq!['.'] + fraction);
        let point = whole.len() as int;
        assert(unsigned[point] == '.');
        assert(unsigned[0] == whole[0]);
        assert(unsigned.subrange(0, point) =~= whole);
        assert(unsigned.subrange(point + 1, unsigned.len() as int) =~= fraction);
        assert(splits_at(unsigned, point));
        assert forall|p: int| splits_at(unsigned, p) implies p == point by {
            if p < point {
                assert(is_digit(whole[p]));
                assert(unsigned[p] == whole[p]);
            }
            if p > point {
                assert(unsigned.subrange(0, p)[point] == unsigned[point]);
            }
        }
    }
}

/// A figure is read as it was written: the text of every figure stands
/// for that figure. With `lemma_figure_is_written_as_read` this makes
/// reading and writing each the other's inverse.
pub proof fn lemma_figure_is_read_as_written(figure: Figure)
    ensures
        figure_of(figure.text()) == Some(figure),
{
    reveal_strlit("NaN");
    reveal_strlit("inf");
    reveal_strlit("-inf");
    match figure {
        Figure::Number(decimal) => {
            lemma_numeral_of_text(decimal);
            let whole = decimal_text(drop_digits(decimal.digits as nat, decimal.scale as nat));
            let unsigned = whole + (if decimal.scale == 0 {
                Seq::<char>::empty()
            } else {
                seq!['.'] + last_digits(decimal.digits as nat, decimal.scale as nat)
            });
            let text = decimal.text();
            if decimal.negative {
                assert(text =~= seq!['-'] + unsigned);
                assert(text[0] == '-');
                assert(text[1] == unsigned[0]);
                assert(text.subrange(1, text.len() as int) =~= unsigned);
            } else {
                assert(text =~= unsigned);
            }
        },
        Figure::Infinite { negative } => {},
        Figure::NotANumber => {},
    }
}

} // verus!

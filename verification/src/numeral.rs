//! Decimal numerals as JSON writes them, read as counts of millionths.
//!
//! A numeral is an optional minus sign, digits, optionally a point and more
//! digits, and optionally an exponent: `e` or `E`, an optional sign and
//! digits. Its value is counted in millionths; what lies beyond the sixth
//! decimal place is dropped.

use crate::text::{decimal, digit_char, fixed6, magnitude, padded, sign_text};
use vstd::prelude::*;
use vstd::std_specs::iter::IteratorSpec;
use vstd::string::{axiom_spec_iter, next_postcondition};

verus! {

/// Whether the character is a decimal digit.
pub open spec fn is_digit(c: char) -> bool {
    0x30 <= c as u32 <= 0x39
}

/// The value of a decimal digit.
pub open spec fn digit_value(c: char) -> nat {
    (c as u32 - 0x30) as nat
}

/// The number that the digits write.
pub open spec fn number(digits: Seq<char>) -> nat
    decreases digits.len(),
{
    if digits.len() == 0 {
        0
    } else {
        number(digits.drop_last()) * 10 + digit_value(digits.last())
    }
}

/// Ten to the power of `k`.
pub open spec fn pow10(k: nat) -> nat
    decreases k,
{
    if k == 0 {
        1
    } else {
        10 * pow10((k - 1) as nat)
    }
}

/// The position behind the digits that stand in a row from `from`.
pub open spec fn digits_end(s: Seq<char>, from: int) -> int
    decreases s.len() - from,
{
    if 0 <= from < s.len() && is_digit(s[from]) {
        digits_end(s, from + 1)
    } else {
        from
    }
}

/// The parts of a numeral.
pub struct Numeral {
    pub negative: bool,
    /// The digits before and behind the point, in one row.
    pub mantissa: Seq<char>,
    /// How many of those digits stand before the point.
    pub point: int,
    pub exponent: int,
}

/// Where the parts of a numeral begin and end in its text.
pub struct Layout {
    /// The first digit before the point.
    pub whole: int,
    /// The position behind the last digit before the point.
    pub whole_end: int,
    /// Whether a point follows.
    pub has_fraction: bool,
    /// The position behind the last digit behind the point.
    pub fraction_end: int,
    /// Whether an exponent follows.
    pub has_exponent: bool,
    /// Whether the exponent is negative.
    pub exponent_negative: bool,
    /// The first digit of the exponent.
    pub exponent_digits: int,
    /// The position behind the last digit of the exponent.
    pub end: int,
}

/// Where the parts of a numeral would begin and end in the text, read from
/// the left.
pub open spec fn layout_of(s: Seq<char>) -> Layout {
    let whole: int = if s.len() > 0 && s[0] == '-' {
        1
    } else {
        0
    };
    let whole_end = digits_end(s, whole);
    let has_fraction = whole_end < s.len() && s[whole_end] == '.';
    let fraction_end = if has_fraction {
        digits_end(s, whole_end + 1)
    } else {
        whole_end
    };
    let has_exponent = fraction_end < s.len() && (s[fraction_end] == 'e' || s[fraction_end]
        == 'E');
    let signed = has_exponent && fraction_end + 1 < s.len() && (s[fraction_end + 1] == '+'
        || s[fraction_end + 1] == '-');
    let exponent_digits = if signed {
        fraction_end + 2
    } else if has_exponent {
        fraction_end + 1
    } else {
        fraction_end
    };
    let end = if has_exponent {
        digits_end(s, exponent_digits)
    } else {
        fraction_end
    };
    Layout {
        whole,
        whole_end,
        has_fraction,
        fraction_end,
        has_exponent,
        exponent_negative: signed && s[fraction_end + 1] == '-',
        exponent_digits,
        end,
    }
}

/// Whether the text is a numeral: there are digits before the point,
/// digits behind a point, digits in an exponent, and nothing else.
pub open spec fn is_numeral(s: Seq<char>) -> bool {
    let l = layout_of(s);
    &&& l.whole_end > l.whole
    &&& l.has_fraction ==> l.fraction_end > l.whole_end + 1
    &&& l.has_exponent ==> l.end > l.exponent_digits
    &&& l.end == s.len()
}

/// The parts of the numeral that the text writes.
pub open spec fn numeral_of(s: Seq<char>) -> Numeral {
    let l = layout_of(s);
    let behind = if l.has_fraction {
        s.subrange(l.whole_end + 1, l.fraction_end)
    } else {
        Seq::empty()
    };
    let magnitude = if l.has_exponent {
        number(s.subrange(l.exponent_digits, l.end)) as int
    } else {
        0
    };
    Numeral {
        negative: l.whole == 1,
        mantissa: s.subrange(l.whole, l.whole_end) + behind,
        point: l.whole_end - l.whole,
        exponent: if l.exponent_negative {
            -magnitude
        } else {
            magnitude
        },
    }
}

impl Numeral {
    /// How many digits of the mantissa make up the whole millionths.
    pub open spec fn places(self) -> int {
        self.point + self.exponent + 6
    }

    /// The size of the numeral's value in millionths, without what lies
    /// beyond the sixth decimal place.
    pub open spec fn scaled(self) -> nat {
        let places = self.places();
        if places <= 0 {
            0
        } else if places <= self.mantissa.len() {
            number(self.mantissa.take(places))
        } else {
            number(self.mantissa) * pow10((places - self.mantissa.len()) as nat)
        }
    }
}

/// A size with its sign, where it fits.
pub open spec fn with_sign(negative: bool, size: nat) -> Option<i64> {
    if size > i64::MAX {
        None
    } else if negative {
        Some((-(size as int)) as i64)
    } else {
        Some(size as i64)
    }
}

/// The value in millionths of the numeral that the text writes; `None`
/// where the text is no numeral or the value does not fit.
pub open spec fn millionths(s: Seq<char>) -> Option<i64> {
    if !is_numeral(s) {
        None
    } else {
        with_sign(numeral_of(s).negative, numeral_of(s).scaled())
    }
}

/// The digits with one more write ten times the number and that digit.
pub proof fn lemma_number_push(digits: Seq<char>, c: char)
    ensures
        number(digits.push(c)) == number(digits) * 10 + digit_value(c),
{
    assert(digits.push(c).drop_last() =~= digits);
}

/// More digits write no smaller number.
pub proof fn lemma_number_grows(digits: Seq<char>, k: int)
    requires
        0 <= k <= digits.len(),
    ensures
        number(digits.take(k)) <= number(digits),
    decreases digits.len() - k,
{
    if k < digits.len() {
        assert(digits.take(k + 1) =~= digits.take(k).push(digits[k]));
        lemma_number_push(digits.take(k), digits[k]);
        lemma_number_grows(digits, k + 1);
    } else {
        assert(digits.take(k) =~= digits);
    }
}

/// A power of ten is at least one, and no smaller than a lower one.
pub proof fn lemma_pow10_grows(a: nat, b: nat)
    requires
        a <= b,
    ensures
        1 <= pow10(a) <= pow10(b),
    decreases b,
{
    if b > 0 {
        if a < b {
            lemma_pow10_grows(a, (b - 1) as nat);
        } else {
            lemma_pow10_grows((a - 1) as nat, (b - 1) as nat);
        }
    }
}

/// Nineteen tens in a row are more than sixty-three bits hold.
pub proof fn lemma_pow10_19()
    ensures
        pow10(19) > i64::MAX,
{
    reveal_with_fuel(pow10, 20);
}

/// The character of a digit is a digit, and its value is that digit.
pub proof fn lemma_digit_char(d: int)
    requires
        0 <= d <= 9,
    ensures
        is_digit(digit_char(d)),
        digit_value(digit_char(d)) == d,
{
}

/// A decimal numeral is not empty, holds digits only, and writes its
/// number.
pub proof fn lemma_decimal(n: nat)
    ensures
        decimal(n).len() >= 1,
        forall|i: int| 0 <= i < decimal(n).len() ==> is_digit(#[trigger] decimal(n)[i]),
        number(decimal(n)) == n,
    decreases n,
{
    if n < 10 {
        lemma_digit_char(n as int);
        assert(decimal(n).drop_last() =~= Seq::<char>::empty());
        assert(number(decimal(n).drop_last()) == 0);
    } else {
        lemma_decimal(n / 10);
        lemma_digit_char((n % 10) as int);
        lemma_number_push(decimal(n / 10), digit_char((n % 10) as int));
    }
}

/// Digits behind a row of digits: `width` of them, all digits, and
/// together they write the number of the row moved `width` places to the
/// left with the number of the digits added.
pub proof fn lemma_padded(row: Seq<char>, n: nat, width: nat)
    requires
        n < pow10(width),
    ensures
        padded(n, width).len() == width,
        forall|i: int| 0 <= i < width ==> is_digit(#[trigger] padded(n, width)[i]),
        number(row + padded(n, width)) == number(row) * pow10(width) + n,
    decreases width,
{
    if width == 0 {
        assert(row + padded(n, width) =~= row);
        assert(number(row) * 1 == number(row)) by (nonlinear_arith);
    } else {
        let less = (width - 1) as nat;
        let d = digit_char((n % 10) as int);
        assert(n / 10 < pow10(less));
        lemma_padded(row, n / 10, less);
        lemma_digit_char((n % 10) as int);
        assert(row + padded(n, width) =~= (row + padded(n / 10, less)).push(d));
        lemma_number_push(row + padded(n / 10, less), d);
        assert((number(row) * pow10(less) + n / 10) * 10 + n % 10 == number(row) * pow10(width)
            + n) by (nonlinear_arith)
            requires
                pow10(width) == 10 * pow10(less),
                (n / 10) * 10 + n % 10 == n,
        ;
    }
}

/// Where `count` digits stand in a row from `from` and no digit follows
/// them, the digits end behind them.
pub proof fn lemma_digits_end(s: Seq<char>, from: int, count: nat)
    requires
        0 <= from,
        from + count <= s.len(),
        forall|i: int| from <= i < from + count ==> is_digit(#[trigger] s[i]),
        from + count == s.len() || !is_digit(s[from + count]),
    ensures
        digits_end(s, from) == from + count,
    decreases count,
{
    if count > 0 {
        lemma_digits_end(s, from + 1, (count - 1) as nat);
    }
}

/// What is written with six decimal places is read back as the same count
/// of millionths.
pub proof fn lemma_fixed6_reads_back(v: i64)
    requires
        v > i64::MIN,
    ensures
        millionths(fixed6(v as int)) == Some(v),
{
    let m = magnitude(v as int);
    let whole = decimal(m / 1_000_000);
    let behind = padded(m % 1_000_000, 6);
    let text = fixed6(v as int);
    let a: int = if v < 0 {
        1
    } else {
        0
    };
    let w = whole.len() as int;
    reveal_with_fuel(pow10, 7);
    assert(pow10(6) == 1_000_000);
    lemma_decimal(m / 1_000_000);
    lemma_padded(whole, m % 1_000_000, 6);
    assert(text =~= sign_text(v as int) + whole + seq!['.'] + behind);
    assert(text.len() == a + w + 7);
    assert forall|i: int| a <= i < a + w implies is_digit(#[trigger] text[i]) by {
        assert(text[i] == whole[i - a]);
    }
    assert(text[a + w] == '.');
    assert forall|i: int| a + w + 1 <= i < a + w + 7 implies is_digit(#[trigger] text[i]) by {
        assert(text[i] == behind[i - a - w - 1]);
    }
    if v < 0 {
        assert(text[0] == '-');
    } else {
        assert(text[0] == whole[0]);
        assert(is_digit(whole[0]));
    }
    lemma_digits_end(text, a, w as nat);
    lemma_digits_end(text, a + w + 1, 6);
    let l = layout_of(text);
    assert(l.whole == a);
    assert(l.whole_end == a + w);
    assert(l.has_fraction);
    assert(l.fraction_end == a + w + 7);
    assert(!l.has_exponent);
    assert(l.end == text.len());
    assert(is_numeral(text));
    let n = numeral_of(text);
    assert(n.mantissa =~= whole + behind);
    assert(n.point == w);
    assert(n.exponent == 0);
    assert(n.places() == n.mantissa.len());
    assert(n.mantissa.take(n.places()) =~= n.mantissa);
    assert(n.scaled() == (m / 1_000_000) * 1_000_000 + m % 1_000_000);
    assert(n.scaled() == m);
}

/// The characters of a text.
pub fn chars_of(s: &str) -> (res: Vec<char>)
    ensures
        res@ == s@,
{
    broadcast use axiom_spec_iter, next_postcondition;

    let mut res: Vec<char> = Vec::new();
    let mut chars = s.chars();
    loop
        invariant
            res@.len() <= s@.len(),
            res@ == s@.take(res@.len() as int),
            chars.remaining() == s@.skip(res@.len() as int),
        decreases s@.len() - res@.len(),
    {
        match chars.next() {
            None => {
                proof {
                    assert(s@.take(res@.len() as int) =~= s@);
                }
                return res;
            },
            Some(c) => {
                let ghost before = res@;
                res.push(c);
                proof {
                    assert(c == s@[before.len() as int]);
                    assert(res@ =~= s@.take(res@.len() as int));
                }
            },
        }
    }
}

fn digit_of(c: char) -> (res: Option<u8>)
    ensures
        match res {
            Some(d) => is_digit(c) && d == digit_value(c) && d <= 9,
            None => !is_digit(c),
        },
{
    let code = c as u32;
    if 0x30 <= code && code <= 0x39 {
        Some((code - 0x30) as u8)
    } else {
        None
    }
}

/// The position behind the digits that stand in a row from `from`.
fn find_digits_end(s: &Vec<char>, from: usize) -> (end: usize)
    requires
        from <= s@.len(),
    ensures
        end == digits_end(s@, from as int),
        from <= end <= s@.len(),
        forall|k: int| from <= k < end ==> is_digit(#[trigger] s@[k]),
{
    let mut i = from;
    while i < s.len() && digit_of(s[i]).is_some()
        invariant
            from <= i <= s@.len(),
            digits_end(s@, from as int) == digits_end(s@, i as int),
            forall|k: int| from <= k < i ==> is_digit(#[trigger] s@[k]),
        decreases s@.len() - i,
    {
        i += 1;
    }
    i
}

/// Above this no number is told from another: it is more than any value
/// that fits and more than any text has digits.
const NUMBER_CAP: u128 = 1_000_000_000_000_000_000_000_000_000_000;

/// The smaller of two numbers.
pub open spec fn at_most(a: nat, b: nat) -> nat {
    if a <= b {
        a
    } else {
        b
    }
}

/// The number that the digits from `from` up to `to` write, or the cap
/// where it is greater.
fn capped_number(s: &Vec<char>, from: usize, to: usize) -> (res: u128)
    requires
        from <= to <= s@.len(),
        forall|k: int| from <= k < to ==> is_digit(#[trigger] s@[k]),
    ensures
        res == at_most(number(s@.subrange(from as int, to as int)), NUMBER_CAP as nat),
{
    let mut acc: u128 = 0;
    let mut i = from;
    proof {
        assert(s@.subrange(from as int, from as int) =~= Seq::<char>::empty());
    }
    while i < to
        invariant
            from <= i <= to <= s@.len(),
            forall|k: int| from <= k < to ==> is_digit(#[trigger] s@[k]),
            acc == at_most(number(s@.subrange(from as int, i as int)), NUMBER_CAP as nat),
        decreases to - i,
    {
        proof {
            assert(s@.subrange(from as int, i + 1) =~= s@.subrange(from as int, i as int).push(
                s@[i as int],
            ));
            lemma_number_push(s@.subrange(from as int, i as int), s@[i as int]);
        }
        let d = match digit_of(s[i]) {
            Some(d) => d,
            None => 0,
        };
        if acc >= NUMBER_CAP {
            acc = NUMBER_CAP;
        } else {
            acc = acc * 10 + d as u128;
            if acc > NUMBER_CAP {
                acc = NUMBER_CAP;
            }
        }
        i += 1;
    }
    acc
}

/// Appends the characters from `from` up to `to`.
fn push_range(buffer: &mut Vec<char>, s: &Vec<char>, from: usize, to: usize)
    requires
        from <= to <= s@.len(),
    ensures
        final(buffer)@ == old(buffer)@ + s@.subrange(from as int, to as int),
{
    let ghost before = buffer@;
    let mut i = from;
    while i < to
        invariant
            from <= i <= to <= s@.len(),
            buffer@ == before + s@.subrange(from as int, i as int),
        decreases to - i,
    {
        buffer.push(s[i]);
        proof {
            assert(buffer@ =~= before + s@.subrange(from as int, i + 1));
        }
        i += 1;
    }
}

/// The value with its sign, where it fits.
fn signed_value(negative: bool, size: u128) -> (res: Option<i64>)
    ensures
        res == with_sign(negative, size as nat),
{
    if size > i64::MAX as u128 {
        None
    } else if negative {
        Some(-(size as i64))
    } else {
        Some(size as i64)
    }
}

/// `size` times ten to the power of `pad`, where that fits.
fn times_pow10(size: u128, pad: i128) -> (res: Option<u128>)
    requires
        1 <= size <= i64::MAX,
        0 <= pad,
    ensures
        match res {
            Some(v) => v == size * pow10(pad as nat) && v <= i64::MAX,
            None => size * pow10(pad as nat) > i64::MAX,
        },
{
    let mut acc: u128 = size;
    let mut done: i128 = 0;
    proof {
        assert(size * pow10(0) == size) by (nonlinear_arith)
            requires
                pow10(0) == 1,
        ;
    }
    while done < pad
        invariant
            0 <= done <= pad,
            1 <= size <= i64::MAX,
            acc == size * pow10(done as nat),
            acc <= i64::MAX,
        decreases pad - done,
    {
        proof {
            assert(size * pow10((done + 1) as nat) == (size * pow10(done as nat)) * 10)
                by (nonlinear_arith)
                requires
                    pow10((done + 1) as nat) == 10 * pow10(done as nat),
            ;
        }
        acc = acc * 10;
        done += 1;
        if acc > i64::MAX as u128 {
            proof {
                lemma_pow10_grows(done as nat, pad as nat);
                assert(size * pow10(pad as nat) >= size * pow10(done as nat)) by (nonlinear_arith)
                    requires
                        pow10(pad as nat) >= pow10(done as nat),
                        size >= 1,
                ;
            }
            return None;
        }
    }
    Some(acc)
}

/// The value in millionths of a numeral of which the mantissa and the
/// size of the exponent are given; the latter may be cut at the cap.
fn value_of(
    negative: bool,
    mantissa: &Vec<char>,
    point: usize,
    exponent_negative: bool,
    magnitude: u128,
    Ghost(numeral): Ghost<Numeral>,
) -> (res: Option<i64>)
    requires
        forall|k: int| 0 <= k < mantissa@.len() ==> is_digit(#[trigger] mantissa@[k]),
        numeral.negative == negative,
        numeral.mantissa == mantissa@,
        numeral.point == point,
        point <= mantissa@.len(),
        exponent_negative ==> numeral.exponent <= 0,
        !exponent_negative ==> numeral.exponent >= 0,
        magnitude == at_most(
            if exponent_negative {
                (-numeral.exponent) as nat
            } else {
                numeral.exponent as nat
            },
            NUMBER_CAP as nat,
        ),
    ensures
        res == with_sign(negative, numeral.scaled()),
{
    let digits = mantissa.len();
    proof {
        assert(mantissa@.subrange(0, digits as int) =~= mantissa@);
    }
    let size = capped_number(mantissa, 0, digits);
    if magnitude >= NUMBER_CAP {
        if exponent_negative {
            return Some(0);
        }
        if size == 0 {
            proof {
                assert(0 * pow10((numeral.places() - digits) as nat) == 0) by (nonlinear_arith);
            }
            return Some(0);
        }
        proof {
            let pad = (numeral.places() - digits) as nat;
            lemma_pow10_grows(19, pad);
            lemma_pow10_19();
            assert(number(mantissa@) * pow10(pad) >= pow10(pad)) by (nonlinear_arith)
                requires
                    number(mantissa@) >= 1,
            ;
        }
        return None;
    }
    let exponent: i128 = if exponent_negative {
        -(magnitude as i128)
    } else {
        magnitude as i128
    };
    let places: i128 = point as i128 + exponent + 6;
    if places <= 0 {
        return Some(0);
    }
    if places <= digits as i128 {
        let take = places as usize;
        proof {
            assert(mantissa@.subrange(0, take as int) =~= mantissa@.take(take as int));
        }
        let leading = capped_number(mantissa, 0, take);
        return signed_value(negative, leading);
    }
    let pad: i128 = places - digits as i128;
    if size == 0 {
        proof {
            assert(0 * pow10(pad as nat) == 0) by (nonlinear_arith);
        }
        return Some(0);
    }
    if size > i64::MAX as u128 {
        proof {
            lemma_pow10_grows(0, pad as nat);
            assert(number(mantissa@) * pow10(pad as nat) >= number(mantissa@)) by (nonlinear_arith)
                requires
                    pow10(pad as nat) >= 1,
            ;
        }
        return None;
    }
    match times_pow10(size, pad) {
        Some(v) => signed_value(negative, v),
        None => None,
    }
}

/// Reads a numeral and returns its value in millionths, without what lies
/// beyond the sixth decimal place; `None` where the text is no numeral or
/// the value does not fit.
pub fn parse_millionths(text: &str) -> (res: Option<i64>)
    ensures
        res == millionths(text@),
{
    let s = chars_of(text);
    let n = s.len();
    let whole: usize = if n > 0 && s[0] == '-' {
        1
    } else {
        0
    };
    let whole_end = find_digits_end(&s, whole);
    if whole_end == whole {
        return None;
    }
    let has_fraction = whole_end < n && s[whole_end] == '.';
    let fraction_end = if has_fraction {
        find_digits_end(&s, whole_end + 1)
    } else {
        whole_end
    };
    if has_fraction && fraction_end == whole_end + 1 {
        return None;
    }
    let has_exponent = fraction_end < n && (s[fraction_end] == 'e' || s[fraction_end] == 'E');
    let signed = has_exponent && fraction_end + 1 < n && (s[fraction_end + 1] == '+'
        || s[fraction_end + 1] == '-');
    let exponent_digits = if signed {
        fraction_end + 2
    } else if has_exponent {
        fraction_end + 1
    } else {
        fraction_end
    };
    let end = if has_exponent {
        find_digits_end(&s, exponent_digits)
    } else {
        fraction_end
    };
    if has_exponent && end == exponent_digits {
        return None;
    }
    if end != n {
        return None;
    }
    let exponent_negative = signed && s[fraction_end + 1] == '-';
    let mut mantissa: Vec<char> = Vec::new();
    push_range(&mut mantissa, &s, whole, whole_end);
    if has_fraction {
        push_range(&mut mantissa, &s, whole_end + 1, fraction_end);
    }
    proof {
        assert(mantissa@ =~= numeral_of(s@).mantissa);
        assert forall|k: int| 0 <= k < mantissa@.len() implies is_digit(
            #[trigger] mantissa@[k],
        ) by {
            if k < whole_end - whole {
                assert(mantissa@[k] == s@[whole + k]);
            } else {
                assert(mantissa@[k] == s@[whole_end + 1 + (k - (whole_end - whole))]);
            }
        }
    }
    let magnitude: u128 = if has_exponent {
        capped_number(&s, exponent_digits, end)
    } else {
        0
    };
    value_of(
        whole == 1,
        &mantissa,
        whole_end - whole,
        exponent_negative,
        magnitude,
        Ghost(numeral_of(s@)),
    )
}

} // verus!

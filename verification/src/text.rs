//! Text primitives from which queries are assembled: decimal digits,
//! fixed-point numbers and separated lists.
//!
//! Quantities that are real numbers (degrees, metres, speeds) are carried as
//! integers counting millionths, so that what is written to a query is exact.

use itertools::Itertools;
use vstd::prelude::*;

verus! {

/// The character that stands for the digit `d`.
pub open spec fn digit_char(d: int) -> char {
    if d == 0 {
        '0'
    } else if d == 1 {
        '1'
    } else if d == 2 {
        '2'
    } else if d == 3 {
        '3'
    } else if d == 4 {
        '4'
    } else if d == 5 {
        '5'
    } else if d == 6 {
        '6'
    } else if d == 7 {
        '7'
    } else if d == 8 {
        '8'
    } else {
        '9'
    }
}

/// The decimal numeral of `n`, without leading zeros.
pub open spec fn decimal(n: nat) -> Seq<char>
    decreases n,
{
    if n < 10 {
        seq![digit_char(n as int)]
    } else {
        decimal(n / 10).push(digit_char((n % 10) as int))
    }
}

/// The last `width` decimal digits of `n`, with leading zeros.
pub open spec fn padded(n: nat, width: nat) -> Seq<char>
    decreases width,
{
    if width == 0 {
        Seq::empty()
    } else {
        padded(n / 10, (width - 1) as nat).push(digit_char((n % 10) as int))
    }
}

/// The last `width` decimal digits of `n` without their trailing zeros.
pub open spec fn trimmed(n: nat, width: nat) -> Seq<char>
    decreases width,
{
    if width == 0 {
        Seq::empty()
    } else if n % 10 == 0 {
        trimmed(n / 10, (width - 1) as nat)
    } else {
        padded(n, width)
    }
}

/// The absolute value of `v`.
pub open spec fn magnitude(v: int) -> nat {
    if v < 0 {
        (-v) as nat
    } else {
        v as nat
    }
}

/// A minus sign for a negative number, nothing otherwise.
pub open spec fn sign_text(v: int) -> Seq<char> {
    if v < 0 {
        seq!['-']
    } else {
        Seq::empty()
    }
}

/// The decimal numeral of a signed integer.
pub open spec fn signed_decimal(v: int) -> Seq<char> {
    sign_text(v) + decimal(magnitude(v))
}

/// A count of millionths written with exactly six decimal places.
pub open spec fn fixed6(v: int) -> Seq<char> {
    sign_text(v) + decimal(magnitude(v) / 1_000_000) + seq!['.'] + padded(
        magnitude(v) % 1_000_000,
        6,
    )
}

/// A count of millionths written with exactly twelve decimal places.
pub open spec fn fixed12(v: int) -> Seq<char> {
    fixed6(v) + padded(0, 6)
}

/// A count of millionths written with as few decimal places as it needs,
/// and without a decimal point where it is whole.
pub open spec fn shortest(v: int) -> Seq<char> {
    let whole = sign_text(v) + decimal(magnitude(v) / 1_000_000);
    if magnitude(v) % 1_000_000 == 0 {
        whole
    } else {
        whole + seq!['.'] + trimmed(magnitude(v) % 1_000_000, 6)
    }
}

/// `"true"` or `"false"`.
pub open spec fn bool_text(b: bool) -> Seq<char> {
    if b {
        "true"@
    } else {
        "false"@
    }
}

/// The parts in order, with `sep` between each two neighbours.
pub open spec fn joined(parts: Seq<Seq<char>>, sep: Seq<char>) -> Seq<char>
    decreases parts.len(),
{
    if parts.len() == 0 {
        Seq::empty()
    } else if parts.len() == 1 {
        parts[0]
    } else {
        joined(parts.drop_last(), sep) + sep + parts.last()
    }
}

/// How often a character occurs in a text.
pub open spec fn occurrences(s: Seq<char>, c: char) -> nat
    decreases s.len(),
{
    if s.len() == 0 {
        0
    } else if s.last() == c {
        occurrences(s.drop_last(), c) + 1
    } else {
        occurrences(s.drop_last(), c)
    }
}

/// A character occurs in two texts in a row as often as in the one and in
/// the other.
pub proof fn lemma_occurrences_add(a: Seq<char>, b: Seq<char>, c: char)
    ensures
        occurrences(a + b, c) == occurrences(a, c) + occurrences(b, c),
    decreases b.len(),
{
    if b.len() == 0 {
        assert(a + b =~= a);
    } else {
        assert((a + b).drop_last() =~= a + b.drop_last());
        lemma_occurrences_add(a, b.drop_last(), c);
    }
}

/// Parts that do not hold the separating character are joined by one
/// separator fewer than there are parts, whether they are empty or not: a
/// part that holds nothing keeps its place.
pub proof fn lemma_joined_keeps_places(parts: Seq<Seq<char>>, c: char)
    requires
        parts.len() > 0,
        forall|i: int| 0 <= i < parts.len() ==> occurrences(#[trigger] parts[i], c) == 0,
    ensures
        occurrences(joined(parts, seq![c]), c) == parts.len() - 1,
    decreases parts.len(),
{
    if parts.len() > 1 {
        let front = parts.drop_last();
        assert forall|i: int| 0 <= i < front.len() implies occurrences(
            #[trigger] front[i],
            c,
        ) == 0 by {
            assert(front[i] == parts[i]);
        }
        lemma_joined_keeps_places(front, c);
        lemma_occurrences_add(joined(front, seq![c]), seq![c], c);
        lemma_occurrences_add(joined(front, seq![c]) + seq![c], parts.last(), c);
        assert(seq![c].drop_last() =~= Seq::<char>::empty());
        assert(occurrences(seq![c].drop_last(), c) == 0);
        assert(occurrences(seq![c], c) == 1);
    }
}

/// The contents of each string of a list.
pub open spec fn texts(parts: Seq<String>) -> Seq<Seq<char>> {
    parts.map_values(|s: String| s@)
}

/// The contents of an optional string.
pub open spec fn optional_text(value: Option<String>) -> Option<Seq<char>> {
    match value {
        Some(s) => Some(s@),
        None => None,
    }
}

/// Appends one character. Trusted: `String::push` of the standard library,
/// which adds the character at the end and leaves the rest as it was.
#[verifier::external_body]
pub(crate) fn push_char(s: &mut String, c: char)
    ensures
        final(s)@ == old(s)@.push(c),
{
    s.push(c)
}

/// Joins the strings with a separator. Trusted: `Itertools::join`, which
/// gives the empty string for no element and otherwise writes the first
/// element followed, for each further element, by the separator and that
/// element.
#[verifier::external_body]
pub(crate) fn join(parts: &Vec<String>, sep: &str) -> (res: String)
    ensures
        res@ == joined(texts(parts@), sep@),
{
    parts.iter().join(sep)
}

fn digit(d: u128) -> (c: char)
    requires
        d < 10,
    ensures
        c == digit_char(d as int),
{
    if d == 0 {
        '0'
    } else if d == 1 {
        '1'
    } else if d == 2 {
        '2'
    } else if d == 3 {
        '3'
    } else if d == 4 {
        '4'
    } else if d == 5 {
        '5'
    } else if d == 6 {
        '6'
    } else if d == 7 {
        '7'
    } else if d == 8 {
        '8'
    } else {
        '9'
    }
}

/// The absolute value of `v` as an unsigned number.
pub fn magnitude_of(v: i64) -> (m: u128)
    ensures
        m == magnitude(v as int),
{
    if v >= 0 {
        v as u128
    } else {
        (-(v as i128)) as u128
    }
}

/// Appends the decimal numeral of `n`.
pub fn push_decimal(s: &mut String, n: u128)
    ensures
        final(s)@ == old(s)@ + decimal(n as nat),
    decreases n,
{
    if n >= 10 {
        push_decimal(s, n / 10);
    }
    push_char(s, digit(n % 10));
    proof {
        assert(final(s)@ =~= old(s)@ + decimal(n as nat));
    }
}

/// Appends the last `width` decimal digits of `n`, with leading zeros.
pub fn push_padded(s: &mut String, n: u128, width: u8)
    ensures
        final(s)@ == old(s)@ + padded(n as nat, width as nat),
    decreases width,
{
    if width > 0 {
        push_padded(s, n / 10, width - 1);
        push_char(s, digit(n % 10));
    }
    proof {
        assert(final(s)@ =~= old(s)@ + padded(n as nat, width as nat));
    }
}

/// Appends the last `width` decimal digits of `n` without trailing zeros.
pub fn push_trimmed(s: &mut String, n: u128, width: u8)
    ensures
        final(s)@ == old(s)@ + trimmed(n as nat, width as nat),
    decreases width,
{
    if width == 0 {
        proof {
            assert(s@ =~= old(s)@ + trimmed(n as nat, width as nat));
        }
    } else if n % 10 == 0 {
        push_trimmed(s, n / 10, width - 1);
    } else {
        push_padded(s, n, width);
    }
}

/// Appends a minus sign where `v` is negative.
pub fn push_sign(s: &mut String, v: i64)
    ensures
        final(s)@ == old(s)@ + sign_text(v as int),
{
    if v < 0 {
        push_char(s, '-');
    }
    proof {
        assert(final(s)@ =~= old(s)@ + sign_text(v as int));
    }
}

/// The decimal numeral of an unsigned integer.
pub fn decimal_string(n: u128) -> (res: String)
    ensures
        res@ == decimal(n as nat),
{
    let mut s = String::new();
    push_decimal(&mut s, n);
    proof {
        assert(s@ =~= decimal(n as nat));
    }
    s
}

/// The decimal numeral of a signed integer.
pub fn signed_string(v: i64) -> (res: String)
    ensures
        res@ == signed_decimal(v as int),
{
    let mut s = String::new();
    push_sign(&mut s, v);
    push_decimal(&mut s, magnitude_of(v));
    proof {
        assert(s@ =~= signed_decimal(v as int));
    }
    s
}

/// Writes a count of millionths with six decimal places.
pub fn fixed6_string(v: i64) -> (res: String)
    ensures
        res@ == fixed6(v as int),
{
    let m = magnitude_of(v);
    let mut s = String::new();
    push_sign(&mut s, v);
    push_decimal(&mut s, m / 1_000_000);
    push_char(&mut s, '.');
    push_padded(&mut s, m % 1_000_000, 6);
    proof {
        assert(s@ =~= fixed6(v as int));
    }
    s
}

/// Writes a count of millionths with twelve decimal places.
pub fn fixed12_string(v: i64) -> (res: String)
    ensures
        res@ == fixed12(v as int),
{
    let mut s = fixed6_string(v);
    push_padded(&mut s, 0, 6);
    s
}

/// Writes a count of millionths with as few decimal places as it needs.
pub fn shortest_string(v: i64) -> (res: String)
    ensures
        res@ == shortest(v as int),
{
    let m = magnitude_of(v);
    let mut s = String::new();
    push_sign(&mut s, v);
    push_decimal(&mut s, m / 1_000_000);
    if m % 1_000_000 != 0 {
        push_char(&mut s, '.');
        push_trimmed(&mut s, m % 1_000_000, 6);
    }
    proof {
        assert(s@ =~= shortest(v as int));
    }
    s
}

/// `"true"` or `"false"`.
pub fn bool_str(b: bool) -> (res: &'static str)
    ensures
        res@ == bool_text(b),
{
    if b {
        "true"
    } else {
        "false"
    }
}

} // verus!

//! Positions in a text: lines, columns and offsets.

use vstd::prelude::*;
use vstd::std_specs::iter::IteratorSpec;
use vstd::string::{axiom_spec_iter, next_postcondition};
use vstd::utf8::{char_is_scalar, encode_utf8};

verus! {

/// The number of bytes that a character takes in UTF-8.
pub open spec fn utf8_width(c: char) -> nat {
    if (c as u32) < 0x80 {
        1
    } else if (c as u32) < 0x800 {
        2
    } else if (c as u32) < 0x10000 {
        3
    } else {
        4
    }
}

/// The number of bytes that the characters take in UTF-8.
pub open spec fn utf8_length(s: Seq<char>) -> nat
    decreases s.len(),
{
    if s.len() == 0 {
        0
    } else {
        utf8_width(s[0]) + utf8_length(s.drop_first())
    }
}

/// The number of bytes before the character at position `k`.
pub open spec fn offset_of(s: Seq<char>, k: int) -> nat {
    utf8_length(s.take(k))
}

/// The line on which the character at position `k` stands, counted from
/// one: one more than the number of line feeds before it.
pub open spec fn line_of(s: Seq<char>, k: int) -> int
    decreases k,
{
    if k <= 0 {
        1
    } else if s[k - 1] == '\n' {
        line_of(s, k - 1) + 1
    } else {
        line_of(s, k - 1)
    }
}

/// The column in which the character at position `k` stands, counted from
/// one: one more than the number of characters between it and the line
/// feed before it.
pub open spec fn column_of(s: Seq<char>, k: int) -> int
    decreases k,
{
    if k <= 0 {
        1
    } else if s[k - 1] == '\n' {
        1
    } else {
        column_of(s, k - 1) + 1
    }
}

/// Whether the character at position `k` stands on the given line, in the
/// given column.
pub open spec fn stands_at(s: Seq<char>, k: int, line: int, col: int) -> bool {
    0 <= k < s.len() && line_of(s, k) == line && column_of(s, k) == col
}

/// The first position from `from` on at which a character stands on the
/// given line in the given column, or the length of the text where none
/// does.
pub open spec fn place_of(s: Seq<char>, line: int, col: int, from: int) -> int
    decreases s.len() - from,
{
    if from < 0 || from >= s.len() {
        s.len() as int
    } else if stands_at(s, from, line, col) {
        from
    } else {
        place_of(s, line, col, from + 1)
    }
}


/// The number of bytes that a character takes in UTF-8.
pub fn width_of(c: char) -> (res: usize)
    ensures
        res == utf8_width(c),
{
    let code = c as u32;
    if code < 0x80 {
        1
    } else if code < 0x800 {
        2
    } else if code < 0x10000 {
        3
    } else {
        4
    }
}

/// The bytes of a text are as many as its characters take.
pub proof fn lemma_utf8_length(s: Seq<char>)
    ensures
        utf8_length(s) == encode_utf8(s).len(),
    decreases s.len(),
{
    if s.len() > 0 {
        char_is_scalar(s[0]);
        lemma_utf8_length(s.drop_first());
    }
}

/// The characters of two texts in a row take as many bytes as those of the
/// one and those of the other.
pub proof fn lemma_utf8_length_add(a: Seq<char>, b: Seq<char>)
    ensures
        utf8_length(a + b) == utf8_length(a) + utf8_length(b),
    decreases a.len(),
{
    if a.len() == 0 {
        assert(a + b =~= b);
    } else {
        assert((a + b).drop_first() =~= a.drop_first() + b);
        lemma_utf8_length_add(a.drop_first(), b);
    }
}

/// The bytes before a character are those before the one in front of it
/// and those of that one; and there are no more of them than the text has.
pub proof fn lemma_offset_step(s: Seq<char>, k: int)
    requires
        0 <= k < s.len(),
    ensures
        offset_of(s, k + 1) == offset_of(s, k) + utf8_width(s[k]),
        offset_of(s, k + 1) <= utf8_length(s),
{
    let one = seq![s[k]];
    assert(s.take(k + 1) =~= s.take(k) + one);
    lemma_utf8_length_add(s.take(k), one);
    assert(utf8_length(one.drop_first()) == 0);
    assert(utf8_length(one) == utf8_width(s[k]));
    assert(s =~= s.take(k + 1) + s.skip(k + 1));
    lemma_utf8_length_add(s.take(k + 1), s.skip(k + 1));
}

/// A line holds no more characters than the text before it, and the text
/// no more lines.
pub proof fn lemma_position_bounds(s: Seq<char>, k: int)
    requires
        0 <= k,
    ensures
        1 <= line_of(s, k) <= k + 1,
        1 <= column_of(s, k) <= k + 1,
    decreases k,
{
    if k > 0 {
        lemma_position_bounds(s, k - 1);
    }
}

/// The first place at which a character stands on a line in a column is
/// the one before which none does.
pub proof fn lemma_place(s: Seq<char>, line: int, col: int, from: int, place: int)
    requires
        0 <= from <= place <= s.len(),
        forall|j: int| from <= j < place ==> !stands_at(s, j, line, col),
        place == s.len() || stands_at(s, place, line, col),
    ensures
        place_of(s, line, col, from) == place,
    decreases place - from,
{
    if from < place {
        lemma_place(s, line, col, from + 1, place);
    }
}


/// Finds the character that stands on the given line in the given column,
/// both counted from one. Returns its position among the characters and
/// the number of bytes before it, or `None` where no character stands
/// there. A line ends with its line feed, which is its last character; a
/// carriage return before the line feed counts as a character of the line.
pub fn locate(s: &str, line: usize, col: usize) -> (res: Option<(usize, usize)>)
    ensures
        match res {
            Some((k, offset)) => k < s@.len() && k == place_of(s@, line as int, col as int, 0)
                && offset == offset_of(s@, k as int),
            None => place_of(s@, line as int, col as int, 0) == s@.len(),
        },
{
    broadcast use axiom_spec_iter, next_postcondition;

    let bytes = s.as_bytes().len();
    proof {
        lemma_utf8_length(s@);
    }
    let mut current_line: u128 = 1;
    let mut current_col: u128 = 1;
    let mut position: usize = 0;
    let mut offset: usize = 0;
    let mut chars = s.chars();
    proof {
        assert(s@.take(0) =~= Seq::<char>::empty());
    }
    loop
        invariant
            0 <= position <= s@.len(),
            position <= offset <= bytes,
            bytes == utf8_length(s@),
            chars.remaining() == s@.skip(position as int),
            current_line == line_of(s@, position as int),
            current_col == column_of(s@, position as int),
            offset == offset_of(s@, position as int),
            forall|k: int| 0 <= k < position ==> !stands_at(s@, k, line as int, col as int),
        decreases s@.len() - position,
    {
        match chars.next() {
            None => {
                proof {
                    assert(s@.skip(position as int).len() == 0);
                    lemma_place(s@, line as int, col as int, 0, position as int);
                }
                return None;
            },
            Some(ch) => {
                assert(ch == s@[position as int]);
                proof {
                    lemma_offset_step(s@, position as int);
                    lemma_position_bounds(s@, position as int);
                }
                if current_line == line as u128 && current_col == col as u128 {
                    proof {
                        lemma_place(s@, line as int, col as int, 0, position as int);
                    }
                    return Some((position, offset));
                }
                if ch == '\n' {
                    current_line += 1;
                    current_col = 1;
                } else {
                    current_col += 1;
                }
                position += 1;
                offset += width_of(ch);
            },
        }
    }
}

/// The number of bytes before the character that stands on the given line
/// in the given column, both counted from one; `None` where no character
/// stands there.
pub fn get_index_of_line_col(s: &str, line: usize, col: usize) -> (res: Option<usize>)
    ensures
        match res {
            Some(offset) => place_of(s@, line as int, col as int, 0) < s@.len() && offset
                == offset_of(s@, place_of(s@, line as int, col as int, 0)),
            None => place_of(s@, line as int, col as int, 0) == s@.len(),
        },
{
    match locate(s, line, col) {
        Some((_, offset)) => Some(offset),
        None => None,
    }
}

/// The place that is found is one at which a character stands on the line
/// in the column, and where the end of the text is found none does.
pub proof fn lemma_place_stands(s: Seq<char>, line: int, col: int, from: int)
    requires
        0 <= from,
    ensures
        from <= place_of(s, line, col, from) || place_of(s, line, col, from) == s.len(),
        place_of(s, line, col, from) < s.len() ==> stands_at(
            s,
            place_of(s, line, col, from),
            line,
            col,
        ),
        place_of(s, line, col, from) >= s.len() ==> forall|k: int|
            from <= k ==> !stands_at(s, k, line, col),
    decreases s.len() - from,
{
    if from < s.len() && !stands_at(s, from, line, col) {
        lemma_place_stands(s, line, col, from + 1);
    }
}

} // verus!

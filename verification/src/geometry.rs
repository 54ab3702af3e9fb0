//! Reading the geometry of a response.
//!
//! A geometry arrives as an encoded polyline, which is a JSON string, or as
//! a line string of GeoJSON, which is a JSON object, and nothing beside the
//! payload says which. The payload is therefore looked at: behind its
//! leading whitespace an opening brace begins a line string and a quotation
//! mark a polyline. Anything else is no geometry. A payload in quotation
//! marks is always a polyline, also where its text begins with a brace, as
//! that of a polyline may.

use crate::numeral::{millionths, parse_millionths};
use crate::osrm_response_types::{GeoJsonLineString, Geometry};
use crate::str_ops::{lemma_utf8_length, locate, offset_of, place_of};
use crate::text::{decimal, optional_text, push_decimal, texts};
use serde_json::value::RawValue;
use std::collections::BTreeMap;
use vstd::prelude::*;
use vstd::std_specs::iter::IteratorSpec;
use vstd::string::{axiom_spec_iter, next_postcondition, StrSliceExecFns, StringExecFns};

verus! {

/// The error with which the JSON reader refuses a text.
#[verifier::external_type_specification]
#[verifier::external_body]
pub struct ExJsonError(serde_json::Error);

/// Why the JSON reader refused a text.
#[derive(Clone, Copy, Debug, PartialEq, Eq, Structural)]
pub enum JsonCategory {
    /// The text could not be read at all.
    Io,
    /// The text is not JSON.
    Syntax,
    /// The text is JSON of another shape than was asked for.
    Data,
    /// The text ends before the value does.
    Eof,
}

/// A member that a line string must have.
#[derive(Clone, Copy, Debug, PartialEq, Eq, Structural)]
pub enum Member {
    Type,
    Coordinates,
}

impl Member {
    /// The key of the member.
    pub open spec fn key(self) -> Seq<char> {
        match self {
            Member::Type => "type"@,
            Member::Coordinates => "coordinates"@,
        }
    }

    /// The key of the member: `"type"` or `"coordinates"`.
    pub fn as_str(&self) -> (s: &'static str)
        ensures
            s@ == self.key(),
    {
        match self {
            Member::Type => "type",
            Member::Coordinates => "coordinates",
        }
    }
}

/// Why a payload could not be read as a geometry.
#[derive(Clone, Debug, PartialEq, Eq)]
pub enum GeometryError {
    /// The payload begins neither as an object nor as a string.
    NotGeometry,
    /// The payload is not JSON. The line and the column are those that the
    /// JSON reader names, counted from one; the offset is the number of
    /// bytes before that place, and the excerpt the text up to twenty
    /// characters either side of it. A place behind the last character of
    /// the payload counts as its end.
    Syntax { line: usize, column: usize, offset: usize, excerpt: String },
    /// The payload ends before its value does; with its first and its last
    /// ten characters.
    Eof { start: String, end: String },
    /// The JSON reader refused the payload for another reason.
    Json(JsonCategory),
    /// The object lacks a member of a line string.
    MissingMember(Member),
    /// The entry at this index of the coordinates is not a pair of numbers
    /// that fit.
    BadPosition(usize),
}

/// The text of the JSON string that `text` writes, with its escapes
/// resolved; `None` where `text` is not one JSON string.
pub uninterp spec fn json_string_value(text: Seq<char>) -> Option<Seq<char>>;

/// The elements of the JSON array that `text` writes, each as it is
/// written; `None` where `text` is not one JSON array.
pub uninterp spec fn json_items(text: Seq<char>) -> Option<Seq<Seq<char>>>;

/// The value, as it is written, of the member `key` of the JSON object
/// that `text` writes, and `Some(None)` where the object has no such
/// member; `None` where `text` is not one JSON object.
pub uninterp spec fn json_member(text: Seq<char>, key: Seq<char>) -> Option<Option<Seq<char>>>;

/// Reads a JSON string. Trusted: `serde_json::from_str` for a `String`,
/// whose result depends on the text alone.
#[verifier::external_body]
fn read_string(text: &str) -> (res: Result<String, serde_json::Error>)
    ensures
        match res {
            Ok(s) => json_string_value(text@) == Some(s@),
            Err(_) => json_string_value(text@) is None,
        },
{
    serde_json::from_str::<String>(text)
}

/// Reads a JSON array and returns the text of each element. Trusted:
/// `serde_json::from_str` for a list of raw values, each of which holds
/// the text of its value as it stands in the input.
#[verifier::external_body]
fn read_items(text: &str) -> (res: Result<Vec<String>, serde_json::Error>)
    ensures
        match res {
            Ok(items) => json_items(text@) == Some(texts(items@)),
            Err(_) => json_items(text@) is None,
        },
{
    let items = serde_json::from_str::<Vec<Box<RawValue>>>(text)?;
    Ok(items.iter().map(|raw| raw.get().to_string()).collect())
}

/// Reads a JSON object and returns the text of the value of one member.
/// Trusted: `serde_json::from_str` for a map from keys to raw values, each
/// of which holds the text of its value as it stands in the input.
#[verifier::external_body]
fn read_member(text: &str, key: &str) -> (res: Result<Option<String>, serde_json::Error>)
    ensures
        match res {
            Ok(value) => json_member(text@, key@) == Some(optional_text(value)),
            Err(_) => json_member(text@, key@) is None,
        },
{
    let members = serde_json::from_str::<BTreeMap<String, Box<RawValue>>>(text)?;
    Ok(members.get(key).map(|raw| raw.get().to_string()))
}

/// Why the JSON reader refused a text. Trusted: `Error::classify`.
#[verifier::external_body]
fn category_of(error: &serde_json::Error) -> JsonCategory {
    match error.classify() {
        serde_json::error::Category::Io => JsonCategory::Io,
        serde_json::error::Category::Syntax => JsonCategory::Syntax,
        serde_json::error::Category::Data => JsonCategory::Data,
        serde_json::error::Category::Eof => JsonCategory::Eof,
    }
}

/// The line on which the JSON reader stopped. Trusted: `Error::line`.
#[verifier::external_body]
fn line_of_error(error: &serde_json::Error) -> usize {
    error.line()
}

/// The column in which the JSON reader stopped. Trusted: `Error::column`.
#[verifier::external_body]
fn column_of_error(error: &serde_json::Error) -> usize {
    error.column()
}

/// Whether the character is white space, as Unicode defines it.
pub open spec fn is_space(c: char) -> bool {
    let code = c as u32;
    ||| 0x09 <= code <= 0x0D
    ||| code == 0x20
    ||| code == 0x85
    ||| code == 0xA0
    ||| code == 0x1680
    ||| 0x2000 <= code <= 0x200A
    ||| code == 0x2028
    ||| code == 0x2029
    ||| code == 0x202F
    ||| code == 0x205F
    ||| code == 0x3000
}

/// The position behind the white space that stands in a row from `from`.
pub open spec fn spaces_end(s: Seq<char>, from: int) -> int
    decreases s.len() - from,
{
    if 0 <= from < s.len() && is_space(s[from]) {
        spaces_end(s, from + 1)
    } else {
        from
    }
}

/// The text without its leading white space.
pub open spec fn trimmed_start(s: Seq<char>) -> Seq<char> {
    s.skip(spaces_end(s, 0))
}

/// The form in which a payload writes a geometry.
#[derive(Clone, Copy, Debug, PartialEq, Eq, Structural)]
pub enum GeometryForm {
    /// A JSON object: a line string of GeoJSON.
    GeoJson,
    /// A JSON string: an encoded polyline.
    Polyline,
    /// Neither of them.
    Neither,
}

/// The form that the first character behind the leading white space
/// shows.
pub open spec fn form_of(raw: Seq<char>) -> GeometryForm {
    let t = trimmed_start(raw);
    if t.len() > 0 && t[0] == '{' {
        GeometryForm::GeoJson
    } else if t.len() > 0 && t[0] == '"' {
        GeometryForm::Polyline
    } else {
        GeometryForm::Neither
    }
}

/// The text up to twenty characters either side of a place.
pub open spec fn excerpt_around(s: Seq<char>, place: int) -> Seq<char> {
    let from = if place > 20 {
        place - 20
    } else {
        0
    };
    let to = if place + 20 < s.len() {
        place + 20
    } else {
        s.len() as int
    };
    s.subrange(from, to)
}

/// The first ten characters of a text, or all of it where it is shorter.
pub open spec fn start_of(s: Seq<char>) -> Seq<char> {
    if s.len() > 10 {
        s.take(10)
    } else {
        s
    }
}

/// The last ten characters of a text, or all of it where it is shorter.
pub open spec fn end_of(s: Seq<char>) -> Seq<char> {
    if s.len() > 10 {
        s.skip(s.len() - 10)
    } else {
        s
    }
}

impl JsonCategory {
    /// The name of the reason.
    pub open spec fn name(self) -> Seq<char> {
        match self {
            JsonCategory::Io => "Io"@,
            JsonCategory::Syntax => "Syntax"@,
            JsonCategory::Data => "Data"@,
            JsonCategory::Eof => "Eof"@,
        }
    }

    /// The name of the reason.
    pub fn as_str(&self) -> (s: &'static str)
        ensures
            s@ == self.name(),
    {
        match self {
            JsonCategory::Io => "Io",
            JsonCategory::Syntax => "Syntax",
            JsonCategory::Data => "Data",
            JsonCategory::Eof => "Eof",
        }
    }
}

impl GeometryError {
    /// The error in words.
    pub open spec fn text(self) -> Seq<char> {
        match self {
            GeometryError::NotGeometry => "Failed to parse geometry as Polyline or GeoJson"@,
            GeometryError::Syntax { line, column, offset, excerpt } =>
                "Syntax error when attempting to parse geojson at line "@ + decimal(line as nat)
                    + ", col "@ + decimal(column as nat)
                    + ". Error occurred in this substring "@ + excerpt@,
            GeometryError::Eof { start, end } =>
                "Reached end of file while parsing GeoJson. Start: "@ + start@ + ", End: "@
                    + end@,
            GeometryError::Json(category) => category.name(),
            GeometryError::MissingMember(member) => "GeoJson lacks the member "@ + member.key(),
            GeometryError::BadPosition(index) => "GeoJson coordinates hold no position at index "@
                + decimal(index as nat),
        }
    }

    /// The error in words, with the place and the excerpt that it holds.
    pub fn message(&self) -> (res: String)
        ensures
            res@ == self.text(),
    {
        match self {
            GeometryError::NotGeometry => String::from_str(
                "Failed to parse geometry as Polyline or GeoJson",
            ),
            GeometryError::Syntax { line, column, offset, excerpt } => {
                let mut s = String::from_str(
                    "Syntax error when attempting to parse geojson at line ",
                );
                push_decimal(&mut s, *line as u128);
                s.append(", col ");
                push_decimal(&mut s, *column as u128);
                s.append(". Error occurred in this substring ");
                s.append(excerpt.as_str());
                s
            },
            GeometryError::Eof { start, end } => {
                let mut s = String::from_str("Reached end of file while parsing GeoJson. Start: ");
                s.append(start.as_str());
                s.append(", End: ");
                s.append(end.as_str());
                s
            },
            GeometryError::Json(category) => String::from_str(category.as_str()),
            GeometryError::MissingMember(member) => {
                let mut s = String::from_str("GeoJson lacks the member ");
                s.append(member.as_str());
                s
            },
            GeometryError::BadPosition(index) => {
                let mut s = String::from_str("GeoJson coordinates hold no position at index ");
                push_decimal(&mut s, *index as u128);
                s
            },
        }
    }

    /// Whether this is the error for a text that the JSON reader refused
    /// for the given reason at the given line and column.
    pub open spec fn describes(
        self,
        text: Seq<char>,
        category: JsonCategory,
        line: usize,
        column: usize,
    ) -> bool {
        match category {
            JsonCategory::Syntax => self matches GeometryError::Syntax {
                line: l,
                column: c,
                offset,
                excerpt,
            } && l == line && c == column && offset == offset_of(
                text,
                place_of(text, line as int, column as int, 0),
            ) && excerpt@ == excerpt_around(text, place_of(text, line as int, column as int, 0)),
            JsonCategory::Eof => self matches GeometryError::Eof { start, end } && start@
                == start_of(text) && end@ == end_of(text),
            _ => self == GeometryError::Json(category),
        }
    }

    /// Whether this is the error for a text that the JSON reader refused,
    /// whatever it said of the reason and the place.
    pub open spec fn is_refusal_of(self, text: Seq<char>) -> bool {
        exists|category: JsonCategory, line: usize, column: usize|
            self.describes(text, category, line, column)
    }
}

/// Decides whether the character is white space.
pub fn is_whitespace(c: char) -> (res: bool)
    ensures
        res == is_space(c),
{
    let code = c as u32;
    (0x09 <= code && code <= 0x0D) || code == 0x20 || code == 0x85 || code == 0xA0 || code
        == 0x1680 || (0x2000 <= code && code <= 0x200A) || code == 0x2028 || code == 0x2029
        || code == 0x202F || code == 0x205F || code == 0x3000
}

/// The text without its leading white space.
pub fn trim_start(raw: &str) -> (res: &str)
    ensures
        res@ == trimmed_start(raw@),
{
    broadcast use axiom_spec_iter, next_postcondition;

    let length = raw.unicode_len();
    let mut spaces: usize = 0;
    let mut chars = raw.chars();
    loop
        invariant_except_break
            chars.remaining() == raw@.skip(spaces as int),
        invariant
            spaces <= raw@.len(),
            length == raw@.len(),
            spaces_end(raw@, 0) == spaces_end(raw@, spaces as int),
        ensures
            spaces_end(raw@, spaces as int) == spaces,
        decreases raw@.len() - spaces,
    {
        match chars.next() {
            None => {
                assert(raw@.skip(spaces as int).len() == 0);
                break ;
            },
            Some(c) => {
                assert(c == raw@[spaces as int]);
                if !is_whitespace(c) {
                    break ;
                }
                spaces += 1;
            },
        }
    }
    let res = raw.substring_char(spaces, length);
    proof {
        assert(res@ =~= trimmed_start(raw@));
    }
    res
}

/// Looks at a payload and says in which form it writes a geometry.
pub fn sniff(raw: &str) -> (res: GeometryForm)
    ensures
        res == form_of(raw@),
{
    let trimmed = trim_start(raw);
    if trimmed.is_empty() {
        return GeometryForm::Neither;
    }
    let first = trimmed.get_char(0);
    if first == '{' {
        GeometryForm::GeoJson
    } else if first == '"' {
        GeometryForm::Polyline
    } else {
        GeometryForm::Neither
    }
}

/// Makes the error for a text that the JSON reader refused for the given
/// reason at the given line and column.
pub fn describe(text: &str, category: JsonCategory, line: usize, column: usize) -> (res:
    GeometryError)
    ensures
        res.describes(text@, category, line, column),
{
    let length = text.unicode_len();
    match category {
        JsonCategory::Syntax => {
            let (place, offset) = match locate(text, line, column) {
                Some(found) => found,
                None => (length, text.as_bytes().len()),
            };
            proof {
                lemma_utf8_length(text@);
                assert(text@.take(length as int) =~= text@);
            }
            let from = if place > 20 {
                place - 20
            } else {
                0
            };
            let to = if length - place > 20 {
                place + 20
            } else {
                length
            };
            GeometryError::Syntax {
                line,
                column,
                offset,
                excerpt: String::from_str(text.substring_char(from, to)),
            }
        },
        JsonCategory::Eof => {
            let shown = if length > 10 {
                10
            } else {
                length
            };
            let start = String::from_str(text.substring_char(0, shown));
            let end = String::from_str(text.substring_char(length - shown, length));
            proof {
                assert(start@ =~= start_of(text@));
                assert(end@ =~= end_of(text@));
            }
            GeometryError::Eof { start, end }
        },
        _ => GeometryError::Json(category),
    }
}

/// Makes the error for a text that the JSON reader refused.
fn refusal(text: &str, error: &serde_json::Error) -> (res: GeometryError)
    ensures
        res.is_refusal_of(text@),
{
    let category = category_of(error);
    let line = line_of_error(error);
    let column = column_of_error(error);
    let res = describe(text, category, line, column);
    proof {
        assert(res.describes(text@, category, line, column));
    }
    res
}

/// The position that the text writes: a JSON array of exactly two
/// numerals, each read in millionths of a degree. `None` where the text is
/// anything else or a number does not fit.
pub open spec fn position_of(raw: Seq<char>) -> Option<(i64, i64)> {
    match json_items(raw) {
        Some(pair) => if pair.len() == 2 {
            match (millionths(pair[0]), millionths(pair[1])) {
                (Some(a), Some(b)) => Some((a, b)),
                _ => None,
            }
        } else {
            None
        },
        None => None,
    }
}

/// The first index from `from` on of an entry that writes no position, or
/// the number of entries where each writes one.
pub open spec fn first_bad(items: Seq<Seq<char>>, from: int) -> int
    decreases items.len() - from,
{
    if from < 0 || from >= items.len() {
        items.len() as int
    } else if position_of(items[from]) is None {
        from
    } else {
        first_bad(items, from + 1)
    }
}

/// Whether the line string has the given type tag and holds the positions
/// that the entries write, in order.
pub open spec fn is_line(line: GeoJsonLineString, kind: Seq<char>, items: Seq<Seq<char>>) -> bool {
    &&& line.kind@ == kind
    &&& line.coordinates@.len() == items.len()
    &&& forall|i: int|
        0 <= i < items.len() ==> position_of(items[i]) == Some(
            ((#[trigger] line.coordinates@[i])@[0], line.coordinates@[i]@[1]),
        )
}

/// Whether `res` is what reading the object `t` as a line string comes
/// to: the line string where the object has a type tag that is a string
/// and coordinates that are a list of positions; else the error of the
/// first of these that fails.
pub open spec fn reads_line(t: Seq<char>, res: Result<GeoJsonLineString, GeometryError>) -> bool {
    match json_member(t, Member::Type.key()) {
        None => res matches Err(e) && e.is_refusal_of(t),
        Some(None) => res == Err::<GeoJsonLineString, GeometryError>(
            GeometryError::MissingMember(Member::Type),
        ),
        Some(Some(kind_raw)) => match json_string_value(kind_raw) {
            None => res matches Err(e) && e.is_refusal_of(kind_raw),
            Some(kind) => match json_member(t, Member::Coordinates.key()) {
                None => res matches Err(e) && e.is_refusal_of(t),
                Some(None) => res == Err::<GeoJsonLineString, GeometryError>(
                    GeometryError::MissingMember(Member::Coordinates),
                ),
                Some(Some(list_raw)) => match json_items(list_raw) {
                    None => res matches Err(e) && e.is_refusal_of(list_raw),
                    Some(items) => if first_bad(items, 0) < items.len() {
                        res == Err::<GeoJsonLineString, GeometryError>(
                            GeometryError::BadPosition(first_bad(items, 0) as usize),
                        )
                    } else {
                        res matches Ok(line) && is_line(line, kind, items)
                    },
                },
            },
        },
    }
}

/// Whether `res` is what reading the payload `raw` as a geometry comes
/// to.
pub open spec fn decodes_to(raw: Seq<char>, res: Result<Geometry, GeometryError>) -> bool {
    let t = trimmed_start(raw);
    match form_of(raw) {
        GeometryForm::Neither => res == Err::<Geometry, GeometryError>(GeometryError::NotGeometry),
        GeometryForm::Polyline => match json_string_value(t) {
            Some(p) => res matches Ok(Geometry::Polyline(s)) && s@ == p,
            None => res matches Err(e) && e.is_refusal_of(t),
        },
        GeometryForm::GeoJson => match res {
            Ok(Geometry::GeoJson(line)) => reads_line(t, Ok(line)),
            Ok(_) => false,
            Err(e) => reads_line(t, Err(e)),
        },
    }
}

/// Reads one position: a JSON array of exactly two numbers.
fn read_position(raw: &str) -> (res: Option<[i64; 2]>)
    ensures
        match res {
            Some(p) => position_of(raw@) == Some((p@[0], p@[1])),
            None => position_of(raw@) is None,
        },
{
    let pair = match read_items(raw) {
        Ok(pair) => pair,
        Err(_) => {
            return None;
        },
    };
    if pair.len() != 2 {
        return None;
    }
    let longitude = parse_millionths(pair[0].as_str());
    let latitude = parse_millionths(pair[1].as_str());
    match (longitude, latitude) {
        (Some(a), Some(b)) => Some([a, b]),
        _ => None,
    }
}

/// Reads a JSON object as a line string of GeoJSON.
pub fn read_line_string(text: &str) -> (res: Result<GeoJsonLineString, GeometryError>)
    ensures
        reads_line(text@, res),
{
    let kind_raw = match read_member(text, Member::Type.as_str()) {
        Ok(Some(raw)) => raw,
        Ok(None) => {
            return Err(GeometryError::MissingMember(Member::Type));
        },
        Err(e) => {
            return Err(refusal(text, &e));
        },
    };
    let kind = match read_string(kind_raw.as_str()) {
        Ok(kind) => kind,
        Err(e) => {
            return Err(refusal(kind_raw.as_str(), &e));
        },
    };
    let list_raw = match read_member(text, Member::Coordinates.as_str()) {
        Ok(Some(raw)) => raw,
        Ok(None) => {
            return Err(GeometryError::MissingMember(Member::Coordinates));
        },
        Err(e) => {
            return Err(refusal(text, &e));
        },
    };
    let items = match read_items(list_raw.as_str()) {
        Ok(items) => items,
        Err(e) => {
            return Err(refusal(list_raw.as_str(), &e));
        },
    };
    let ghost entries = texts(items@);
    let mut coordinates: Vec<[i64; 2]> = Vec::new();
    let mut i: usize = 0;
    while i < items.len()
        invariant
            i <= items.len(),
            entries == texts(items@),
            json_member(text@, Member::Type.key()) == Some(Some(kind_raw@)),
            json_string_value(kind_raw@) == Some(kind@),
            json_member(text@, Member::Coordinates.key()) == Some(Some(list_raw@)),
            json_items(list_raw@) == Some(entries),
            coordinates@.len() == i,
            first_bad(entries, 0) == first_bad(entries, i as int),
            forall|k: int|
                0 <= k < i ==> position_of(entries[k]) == Some(
                    ((#[trigger] coordinates@[k])@[0], coordinates@[k]@[1]),
                ),
        decreases items.len() - i,
    {
        let position = read_position(items[i].as_str());
        proof {
            assert(entries[i as int] == items@[i as int]@);
            assert(entries.len() == items@.len());
        }
        match position {
            Some(p) => {
                coordinates.push(p);
            },
            None => {
                return Err(GeometryError::BadPosition(i));
            },
        }
        i += 1;
    }
    Ok(GeoJsonLineString { kind, coordinates })
}

impl Geometry {
    /// Reads a payload as a geometry: a line string where it begins as an
    /// object, a polyline where it begins as a string.
    pub fn decode(raw: &str) -> (res: Result<Geometry, GeometryError>)
        ensures
            decodes_to(raw@, res),
    {
        let trimmed = trim_start(raw);
        match sniff(raw) {
            GeometryForm::Neither => Err(GeometryError::NotGeometry),
            GeometryForm::Polyline => match read_string(trimmed) {
                Ok(polyline) => Ok(Geometry::Polyline(polyline)),
                Err(e) => Err(refusal(trimmed, &e)),
            },
            GeometryForm::GeoJson => match read_line_string(trimmed) {
                Ok(line) => Ok(Geometry::GeoJson(line)),
                Err(e) => Err(e),
            },
        }
    }
}

} // verus!

//! What the engine that runs in this process is handed, and what is made of
//! its answer.
//!
//! The engine takes a request as flat buffers. The coordinates are one
//! buffer of numbers, longitude before latitude for each point. An option
//! that holds one value for each point is a buffer of its own, as long as
//! the points or empty where the option is not set; in it a value that is
//! not set is the bearing that admits every direction, the empty hint, or no
//! radius at all, which the caller hands on as an infinite one. The switches
//! of a request are the bits of one byte.
//!
//! The engine answers with a status and a text. A status other than zero is
//! an error of the engine, and the text says which; a status of zero without
//! text is an empty response.

use crate::errors::{NativeOsrmError, OsrmError};
use crate::slots::{
    blank_slots, exclude_slots, hint_slots, push_blank_slots, push_exclude_slots,
    push_hint_slots,
};
use crate::request_types::{Bearing, Exclude, GeometryType, OverviewZoom, Snapping};
use crate::services::matching::{MatchGapsBehaviour, MatchOptions, MatchRequest};
use crate::services::nearest::{NearestOptions, NearestRequest};
use crate::services::route::{RouteOptions, RouteRequest};
use crate::services::table::{
    TableAnnotation, TableFallbackCoordinate, TableOptions, TableRequest,
};
use crate::services::trip::{TripDestination, TripOptions, TripRequest, TripSource};
use crate::services::{optional_hint_texts, optional_seq, Approach};
use crate::text::{optional_text, texts};
use crate::Point;
use vstd::prelude::*;
use vstd::string::StringExecFns;

verus! {

pub const ROUTE_ALTERNATIVES: u8 = 1;

pub const ROUTE_STEPS: u8 = 2;

pub const ROUTE_ANNOTATIONS: u8 = 4;

pub const ROUTE_CONTINUE_STRAIGHT: u8 = 8;

pub const ROUTE_GENERATE_HINTS: u8 = 16;

pub const ROUTE_SKIP_WAYPOINTS: u8 = 32;

pub const MATCH_TIDY: u8 = 1;

pub const MATCH_STEPS: u8 = 2;

pub const MATCH_ANNOTATIONS: u8 = 4;

pub const MATCH_GENERATE_HINTS: u8 = 8;

pub const MATCH_SKIP_WAYPOINTS: u8 = 16;

pub const TRIP_STEPS: u8 = 1;

pub const TRIP_ANNOTATIONS: u8 = 2;

pub const TRIP_GENERATE_HINTS: u8 = 4;

pub const TRIP_SKIP_WAYPOINTS: u8 = 8;

pub const TRIP_ROUNDTRIP: u8 = 16;

/// The bit of a switch where it is on, and no bit where it is off.
pub open spec fn flag(on: bool, bit: u8) -> u8 {
    if on {
        bit
    } else {
        0
    }
}

/// The switches of a route request as one byte.
pub open spec fn route_flags(q: RouteOptions) -> u8 {
    flag(q.alternatives, ROUTE_ALTERNATIVES) | flag(q.steps, ROUTE_STEPS) | flag(
        q.annotations,
        ROUTE_ANNOTATIONS,
    ) | flag(q.continue_straight, ROUTE_CONTINUE_STRAIGHT) | flag(
        q.generate_hints,
        ROUTE_GENERATE_HINTS,
    ) | flag(q.skip_waypoints, ROUTE_SKIP_WAYPOINTS)
}

/// The switches of a match request as one byte.
pub open spec fn match_flags(q: MatchOptions) -> u8 {
    flag(q.tidy, MATCH_TIDY) | flag(q.steps, MATCH_STEPS) | flag(q.annotations, MATCH_ANNOTATIONS)
        | flag(q.generate_hints, MATCH_GENERATE_HINTS) | flag(
        q.skip_waypoints,
        MATCH_SKIP_WAYPOINTS,
    )
}

/// The switches of a trip request as one byte.
pub open spec fn trip_flags(q: TripOptions) -> u8 {
    flag(q.steps, TRIP_STEPS) | flag(q.annotations, TRIP_ANNOTATIONS) | flag(
        q.generate_hints,
        TRIP_GENERATE_HINTS,
    ) | flag(q.skip_waypoints, TRIP_SKIP_WAYPOINTS) | flag(q.roundtrip, TRIP_ROUNDTRIP)
}

proof fn lemma_bits(a: u8, b: u8, c: u8, d: u8, e: u8, f: u8)
    by (bit_vector)
    requires
        a == 0 || a == 1,
        b == 0 || b == 2,
        c == 0 || c == 4,
        d == 0 || d == 8,
        e == 0 || e == 16,
        f == 0 || f == 32,
    ensures
        ((a | b | c | d | e | f) & 1 != 0) == (a == 1),
        ((a | b | c | d | e | f) & 2 != 0) == (b == 2),
        ((a | b | c | d | e | f) & 4 != 0) == (c == 4),
        ((a | b | c | d | e | f) & 8 != 0) == (d == 8),
        ((a | b | c | d | e | f) & 16 != 0) == (e == 16),
        ((a | b | c | d | e | f) & 32 != 0) == (f == 32),
        (a | b | c | d | e) == (a | b | c | d | e | 0),
{
}

/// Each switch of a route request is read back from its own bit of the
/// byte.
pub proof fn lemma_route_flags(q: RouteOptions)
    ensures
        (route_flags(q) & ROUTE_ALTERNATIVES != 0) == q.alternatives,
        (route_flags(q) & ROUTE_STEPS != 0) == q.steps,
        (route_flags(q) & ROUTE_ANNOTATIONS != 0) == q.annotations,
        (route_flags(q) & ROUTE_CONTINUE_STRAIGHT != 0) == q.continue_straight,
        (route_flags(q) & ROUTE_GENERATE_HINTS != 0) == q.generate_hints,
        (route_flags(q) & ROUTE_SKIP_WAYPOINTS != 0) == q.skip_waypoints,
{
    lemma_bits(
        flag(q.alternatives, ROUTE_ALTERNATIVES),
        flag(q.steps, ROUTE_STEPS),
        flag(q.annotations, ROUTE_ANNOTATIONS),
        flag(q.continue_straight, ROUTE_CONTINUE_STRAIGHT),
        flag(q.generate_hints, ROUTE_GENERATE_HINTS),
        flag(q.skip_waypoints, ROUTE_SKIP_WAYPOINTS),
    );
}

/// Each switch of a match request is read back from its own bit of the
/// byte.
pub proof fn lemma_match_flags(q: MatchOptions)
    ensures
        (match_flags(q) & MATCH_TIDY != 0) == q.tidy,
        (match_flags(q) & MATCH_STEPS != 0) == q.steps,
        (match_flags(q) & MATCH_ANNOTATIONS != 0) == q.annotations,
        (match_flags(q) & MATCH_GENERATE_HINTS != 0) == q.generate_hints,
        (match_flags(q) & MATCH_SKIP_WAYPOINTS != 0) == q.skip_waypoints,
{
    lemma_bits(
        flag(q.tidy, MATCH_TIDY),
        flag(q.steps, MATCH_STEPS),
        flag(q.annotations, MATCH_ANNOTATIONS),
        flag(q.generate_hints, MATCH_GENERATE_HINTS),
        flag(q.skip_waypoints, MATCH_SKIP_WAYPOINTS),
        0,
    );
}

/// Each switch of a trip request is read back from its own bit of the
/// byte.
pub proof fn lemma_trip_flags(q: TripOptions)
    ensures
        (trip_flags(q) & TRIP_STEPS != 0) == q.steps,
        (trip_flags(q) & TRIP_ANNOTATIONS != 0) == q.annotations,
        (trip_flags(q) & TRIP_GENERATE_HINTS != 0) == q.generate_hints,
        (trip_flags(q) & TRIP_SKIP_WAYPOINTS != 0) == q.skip_waypoints,
        (trip_flags(q) & TRIP_ROUNDTRIP != 0) == q.roundtrip,
{
    lemma_bits(
        flag(q.steps, TRIP_STEPS),
        flag(q.annotations, TRIP_ANNOTATIONS),
        flag(q.generate_hints, TRIP_GENERATE_HINTS),
        flag(q.skip_waypoints, TRIP_SKIP_WAYPOINTS),
        flag(q.roundtrip, TRIP_ROUNDTRIP),
        0,
    );
}

/// The coordinates of the points in one row: for each point its longitude,
/// then its latitude.
pub open spec fn flat_coordinates(points: Seq<Point>) -> Seq<int> {
    Seq::new(
        2 * points.len(),
        |i: int|
            if i % 2 == 0 {
                points[i / 2].lon()
            } else {
                points[i / 2].lat()
            },
    )
}

/// The numbers of a buffer as integers.
pub open spec fn integers(buffer: Seq<i64>) -> Seq<int> {
    Seq::new(buffer.len(), |i: int| buffer[i] as int)
}

/// A bearing that is set, or the one that admits every direction.
pub open spec fn bearing_or_any(bearing: Option<Bearing>) -> Bearing {
    match bearing {
        Some(b) => b,
        None => Bearing::unrestricted(),
    }
}

/// The bearings with every one that is not set replaced by the one that
/// admits every direction.
pub open spec fn filled_bearings(bearings: Seq<Option<Bearing>>) -> Seq<Bearing> {
    Seq::new(bearings.len(), |i: int| bearing_or_any(bearings[i]))
}

/// The hints with every one that is not set replaced by the empty hint.
pub open spec fn filled_hints(hints: Seq<Option<Seq<char>>>) -> Seq<Seq<char>> {
    hint_slots(hints)
}

/// `count` times the same value.
pub open spec fn repeated<T>(value: T, count: nat) -> Seq<T> {
    Seq::new(count, |i: int| value)
}

/// The buffer of an option that is set, or the empty buffer.
pub open spec fn or_empty<T>(buffer: Option<Seq<T>>) -> Seq<T> {
    match buffer {
        Some(b) => b,
        None => Seq::empty(),
    }
}

/// The buffer of an option that is set, or `count` times `value`.
pub open spec fn or_repeated<T>(buffer: Option<Seq<T>>, value: T, count: nat) -> Seq<T> {
    match buffer {
        Some(b) => b,
        None => repeated(value, count),
    }
}

/// The bearings of an optional list, filled.
pub open spec fn optional_filled_bearings(bearings: Option<Seq<Option<Bearing>>>) -> Option<
    Seq<Bearing>,
> {
    match bearings {
        Some(b) => Some(filled_bearings(b)),
        None => None,
    }
}

/// The hints of an optional list, filled.
pub open spec fn optional_filled_hints(hints: Option<Seq<Option<Seq<char>>>>) -> Option<
    Seq<Seq<char>>,
> {
    match hints {
        Some(h) => Some(filled_hints(h)),
        None => None,
    }
}

/// The names of the road classes to leave out, or none.
pub open spec fn exclude_names(exclude: Option<Seq<Exclude>>) -> Seq<Seq<char>> {
    match exclude {
        Some(e) => exclude_slots(e),
        None => Seq::empty(),
    }
}

/// The snapping policy that is set, or the engine's own.
pub open spec fn snapping_or_default(snapping: Option<Snapping>) -> Snapping {
    match snapping {
        Some(s) => s,
        None => Snapping::Default,
    }
}

/// The buffers of one option of a table for both sides: those of the
/// sources followed by those of the destinations, a side for which the
/// option is not set holding `value` throughout; and no buffer at all where
/// it is set for neither side.
pub open spec fn both_buffers<T>(
    sources: Option<Seq<T>>,
    source_count: nat,
    destinations: Option<Seq<T>>,
    destination_count: nat,
    value: T,
) -> Seq<T> {
    if sources is None && destinations is None {
        Seq::empty()
    } else {
        or_repeated(sources, value, source_count) + or_repeated(
            destinations,
            value,
            destination_count,
        )
    }
}

/// The positions `from`, `from + 1`, ... of `count` coordinates.
pub open spec fn positions(from: nat, count: nat) -> Seq<int> {
    Seq::new(count, |i: int| from + i)
}

/// The numbers of a list of indices as integers.
pub open spec fn index_values(indices: Seq<usize>) -> Seq<int> {
    Seq::new(indices.len(), |i: int| indices[i] as int)
}

fn switch(on: bool, mask: u8) -> (res: u8)
    ensures
        res == flag(on, mask),
{
    if on {
        mask
    } else {
        0
    }
}

/// Appends the coordinates of the points: for each its longitude, then its
/// latitude.
fn push_coordinates(buffer: &mut Vec<i64>, points: &[Point])
    ensures
        integers(final(buffer)@) == integers(old(buffer)@) + flat_coordinates(points@),
{
    let ghost before = buffer@;
    let mut i: usize = 0;
    while i < points.len()
        invariant
            i <= points.len(),
            buffer@.len() == before.len() + 2 * i,
            forall|k: int| 0 <= k < before.len() ==> buffer@[k] == before[k],
            forall|k: int|
                0 <= k < i ==> buffer@[before.len() + 2 * k] == points@[k].lon()
                    && buffer@[before.len() + 2 * k + 1] == points@[k].lat(),
        decreases points.len() - i,
    {
        buffer.push(points[i].longitude());
        buffer.push(points[i].latitude());
        i += 1;
    }
    proof {
        let flat = flat_coordinates(points@);
        assert forall|j: int| 0 <= j < flat.len() implies integers(buffer@)[before.len() + j]
            == flat[j] by {
            let k = j / 2;
            assert(0 <= k < points.len());
            if j % 2 == 0 {
                assert(j == 2 * k);
            } else {
                assert(j == 2 * k + 1);
            }
        }
        assert(integers(buffer@) =~= integers(before) + flat);
    }
}

/// The coordinates of one list of points followed by those of another are
/// the coordinates of the two lists in a row.
proof fn lemma_flat_coordinates_add(a: Seq<Point>, b: Seq<Point>)
    ensures
        flat_coordinates(a + b) == flat_coordinates(a) + flat_coordinates(b),
{
    let whole = flat_coordinates(a + b);
    let parts = flat_coordinates(a) + flat_coordinates(b);
    assert forall|j: int| 0 <= j < whole.len() implies whole[j] == parts[j] by {
        if j >= 2 * a.len() {
            assert((j - 2 * a.len()) / 2 == j / 2 - a.len());
            assert((j - 2 * a.len()) % 2 == j % 2);
        }
    }
    assert(whole =~= parts);
}

/// Appends a copy of each item.
fn push_all<T: Copy>(buffer: &mut Vec<T>, items: &[T])
    ensures
        final(buffer)@ == old(buffer)@ + items@,
{
    let ghost before = buffer@;
    let mut i: usize = 0;
    while i < items.len()
        invariant
            i <= items.len(),
            buffer@ == before + items@.take(i as int),
        decreases items.len() - i,
    {
        buffer.push(items[i]);
        proof {
            assert(buffer@ =~= before + items@.take(i + 1));
        }
        i += 1;
    }
    proof {
        assert(items@.take(i as int) =~= items@);
    }
}

/// Appends `count` times the same value.
fn push_repeated<T: Copy>(buffer: &mut Vec<T>, value: T, count: usize)
    ensures
        final(buffer)@ == old(buffer)@ + repeated(value, count as nat),
{
    let ghost before = buffer@;
    let mut i: usize = 0;
    while i < count
        invariant
            i <= count,
            buffer@ == before + repeated(value, i as nat),
        decreases count - i,
    {
        buffer.push(value);
        proof {
            assert(buffer@ =~= before + repeated(value, (i + 1) as nat));
        }
        i += 1;
    }
}

/// Appends the bearings, with the one that admits every direction in
/// place of each that is not set.
fn push_filled_bearings(buffer: &mut Vec<Bearing>, bearings: &[Option<Bearing>])
    ensures
        final(buffer)@ == old(buffer)@ + filled_bearings(bearings@),
{
    let ghost before = buffer@;
    let mut i: usize = 0;
    while i < bearings.len()
        invariant
            i <= bearings.len(),
            buffer@ == before + filled_bearings(bearings@).take(i as int),
        decreases bearings.len() - i,
    {
        let bearing = match bearings[i] {
            Some(b) => b,
            None => Bearing::default(),
        };
        buffer.push(bearing);
        proof {
            assert(buffer@ =~= before + filled_bearings(bearings@).take(i + 1));
        }
        i += 1;
    }
    proof {
        assert(filled_bearings(bearings@).take(i as int) =~= filled_bearings(bearings@));
    }
}

/// The buffer of an option that holds a value for each point: a copy of it
/// where it is set, the empty buffer where it is not.
fn buffer_or_empty<T: Copy>(items: Option<&[T]>) -> (res: Vec<T>)
    ensures
        res@ == or_empty(optional_seq(items)),
{
    let mut buffer: Vec<T> = Vec::new();
    if let Some(values) = items {
        push_all(&mut buffer, values);
    }
    proof {
        assert(buffer@ =~= or_empty(optional_seq(items)));
    }
    buffer
}

/// The radiuses of a request, or as many that are not set.
fn radius_buffer(radiuses: Option<&[Option<i64>]>, count: usize) -> (res: Vec<Option<i64>>)
    ensures
        res@ == or_repeated(optional_seq(radiuses), None, count as nat),
{
    let mut buffer: Vec<Option<i64>> = Vec::new();
    match radiuses {
        Some(values) => push_all(&mut buffer, values),
        None => push_repeated(&mut buffer, None, count),
    }
    proof {
        assert(buffer@ =~= or_repeated(optional_seq(radiuses), None, count as nat));
    }
    buffer
}

/// The bearings of a request, filled, or the empty buffer.
fn bearing_buffer(bearings: Option<&[Option<Bearing>]>) -> (res: Vec<Bearing>)
    ensures
        res@ == or_empty(optional_filled_bearings(optional_seq(bearings))),
{
    let mut buffer: Vec<Bearing> = Vec::new();
    if let Some(values) = bearings {
        push_filled_bearings(&mut buffer, values);
    }
    proof {
        assert(buffer@ =~= or_empty(optional_filled_bearings(optional_seq(bearings))));
    }
    buffer
}

/// The hints of a request, filled, or the empty buffer.
fn hint_buffer(hints: Option<&[Option<&str>]>) -> (res: Vec<String>)
    ensures
        texts(res@) == or_empty(optional_filled_hints(optional_hint_texts(hints))),
{
    let mut buffer: Vec<String> = Vec::new();
    if let Some(values) = hints {
        push_hint_slots(&mut buffer, values);
    }
    proof {
        assert(texts(buffer@) =~= or_empty(optional_filled_hints(optional_hint_texts(hints))));
    }
    buffer
}

/// The names of the road classes to leave out.
fn exclude_buffer(exclude: Option<&[Exclude]>) -> (res: Vec<String>)
    ensures
        texts(res@) == exclude_names(optional_seq(exclude)),
{
    let mut buffer: Vec<String> = Vec::new();
    if let Some(values) = exclude {
        push_exclude_slots(&mut buffer, values);
    }
    proof {
        assert(texts(buffer@) =~= exclude_names(optional_seq(exclude)));
    }
    buffer
}

fn snapping_of(snapping: Option<Snapping>) -> (res: Snapping)
    ensures
        res == snapping_or_default(snapping),
{
    match snapping {
        Some(s) => s,
        None => Snapping::Default,
    }
}

/// Flattens a route request into what the engine is handed.
pub fn route_call(request: &RouteRequest) -> (call: RouteCall)
    ensures
        call.carries(request@),
{
    let points = request.points();
    let mut coordinates: Vec<i64> = Vec::new();
    push_coordinates(&mut coordinates, points);
    proof {
        assert(integers(coordinates@) =~= flat_coordinates(points@));
    }
    let flags = switch(request.alternatives(), ROUTE_ALTERNATIVES) | switch(
        request.steps(),
        ROUTE_STEPS,
    ) | switch(request.annotations(), ROUTE_ANNOTATIONS) | switch(
        request.continue_straight(),
        ROUTE_CONTINUE_STRAIGHT,
    ) | switch(request.generate_hints(), ROUTE_GENERATE_HINTS) | switch(
        request.skip_waypoints(),
        ROUTE_SKIP_WAYPOINTS,
    );
    RouteCall {
        coordinates,
        geometry: request.geometry(),
        overview: request.overview(),
        flags,
        waypoints: buffer_or_empty(request.waypoints()),
        bearings: bearing_buffer(request.bearings()),
        radiuses: radius_buffer(request.radiuses(), points.len()),
        hints: hint_buffer(request.hints()),
        approaches: buffer_or_empty(request.approaches()),
        excludes: exclude_buffer(request.exclude()),
        snapping: snapping_of(request.snapping()),
    }
}

/// Flattens a trip request into what the engine is handed.
pub fn trip_call(request: &TripRequest) -> (call: TripCall)
    ensures
        call.carries(request@),
{
    let points = request.points();
    let mut coordinates: Vec<i64> = Vec::new();
    push_coordinates(&mut coordinates, points);
    proof {
        assert(integers(coordinates@) =~= flat_coordinates(points@));
    }
    let flags = switch(request.steps(), TRIP_STEPS) | switch(
        request.annotations(),
        TRIP_ANNOTATIONS,
    ) | switch(request.generate_hints(), TRIP_GENERATE_HINTS) | switch(
        request.skip_waypoints(),
        TRIP_SKIP_WAYPOINTS,
    ) | switch(request.roundtrip(), TRIP_ROUNDTRIP);
    TripCall {
        coordinates,
        geometry: request.geometry(),
        overview: request.overview(),
        source: request.source(),
        destination: request.destination(),
        flags,
        waypoints: buffer_or_empty(request.waypoints()),
        bearings: bearing_buffer(request.bearings()),
        radiuses: radius_buffer(request.radiuses(), points.len()),
        hints: hint_buffer(request.hints()),
        approaches: buffer_or_empty(request.approaches()),
        excludes: exclude_buffer(request.exclude()),
        snapping: snapping_of(request.snapping()),
    }
}

/// Flattens a match request into what the engine is handed.
pub fn match_call(request: &MatchRequest) -> (call: MatchCall)
    ensures
        call.carries(request@),
{
    let points = request.points();
    let mut coordinates: Vec<i64> = Vec::new();
    push_coordinates(&mut coordinates, points);
    proof {
        assert(integers(coordinates@) =~= flat_coordinates(points@));
    }
    let flags = switch(request.tidy(), MATCH_TIDY) | switch(request.steps(), MATCH_STEPS) | switch(
        request.annotations(),
        MATCH_ANNOTATIONS,
    ) | switch(request.generate_hints(), MATCH_GENERATE_HINTS) | switch(
        request.skip_waypoints(),
        MATCH_SKIP_WAYPOINTS,
    );
    MatchCall {
        coordinates,
        geometry: request.geometry(),
        overview: request.overview(),
        timestamps: buffer_or_empty(request.timestamps()),
        gaps: request.gaps(),
        waypoints: buffer_or_empty(request.waypoints()),
        flags,
        bearings: bearing_buffer(request.bearings()),
        radiuses: radius_buffer(request.radiuses(), points.len()),
        hints: hint_buffer(request.hints()),
        approaches: buffer_or_empty(request.approaches()),
        excludes: exclude_buffer(request.exclude()),
        snapping: snapping_of(request.snapping()),
    }
}

/// Flattens a nearest request into what the engine is handed.
pub fn nearest_call(request: &NearestRequest) -> (call: NearestCall)
    ensures
        call.carries(request@),
{
    let point = request.point();
    NearestCall {
        longitude: point.longitude(),
        latitude: point.latitude(),
        number: request.number(),
        bearing: request.bearing(),
        radius: request.radius(),
        approach: request.approach(),
        excludes: exclude_buffer(request.exclude()),
        snapping: request.snapping(),
    }
}

/// Appends the positions `from`, `from + 1`, ... of `count` coordinates.
fn push_positions(buffer: &mut Vec<usize>, from: usize, count: usize)
    requires
        from + count <= usize::MAX,
    ensures
        index_values(final(buffer)@) == index_values(old(buffer)@) + positions(
            from as nat,
            count as nat,
        ),
{
    let ghost before = buffer@;
    let mut i: usize = 0;
    while i < count
        invariant
            i <= count,
            from + count <= usize::MAX,
            buffer@.len() == before.len() + i,
            forall|k: int| 0 <= k < before.len() ==> buffer@[k] == before[k],
            forall|j: int|
                before.len() <= j < before.len() + i ==> (#[trigger] buffer@[j]) == from + (j
                    - before.len()),
        decreases count - i,
    {
        buffer.push(from + i);
        i += 1;
    }
    proof {
        assert(index_values(buffer@) =~= index_values(before) + positions(
            from as nat,
            count as nat,
        ));
    }
}

/// The buffers of one option of a table for both sides.
fn both<T: Copy>(
    sources: Option<&[T]>,
    source_count: usize,
    destinations: Option<&[T]>,
    destination_count: usize,
    value: T,
) -> (res: Vec<T>)
    ensures
        res@ == both_buffers(
            optional_seq(sources),
            source_count as nat,
            optional_seq(destinations),
            destination_count as nat,
            value,
        ),
{
    let mut buffer: Vec<T> = Vec::new();
    if sources.is_none() && destinations.is_none() {
        return buffer;
    }
    match sources {
        Some(values) => push_all(&mut buffer, values),
        None => push_repeated(&mut buffer, value, source_count),
    }
    proof {
        assert(buffer@ =~= or_repeated(optional_seq(sources), value, source_count as nat));
    }
    match destinations {
        Some(values) => push_all(&mut buffer, values),
        None => push_repeated(&mut buffer, value, destination_count),
    }
    buffer
}

/// The bearings of a table for both sides.
fn both_bearings(
    sources: Option<&[Option<Bearing>]>,
    source_count: usize,
    destinations: Option<&[Option<Bearing>]>,
    destination_count: usize,
) -> (res: Vec<Bearing>)
    ensures
        res@ == both_buffers(
            optional_filled_bearings(optional_seq(sources)),
            source_count as nat,
            optional_filled_bearings(optional_seq(destinations)),
            destination_count as nat,
            Bearing::unrestricted(),
        ),
{
    let mut buffer: Vec<Bearing> = Vec::new();
    if sources.is_none() && destinations.is_none() {
        return buffer;
    }
    match sources {
        Some(values) => push_filled_bearings(&mut buffer, values),
        None => push_repeated(&mut buffer, Bearing::default(), source_count),
    }
    proof {
        assert(buffer@ =~= or_repeated(
            optional_filled_bearings(optional_seq(sources)),
            Bearing::unrestricted(),
            source_count as nat,
        ));
    }
    match destinations {
        Some(values) => push_filled_bearings(&mut buffer, values),
        None => push_repeated(&mut buffer, Bearing::default(), destination_count),
    }
    buffer
}

/// The hints of a table for both sides.
fn both_hints(
    sources: Option<&[Option<&str>]>,
    source_count: usize,
    destinations: Option<&[Option<&str>]>,
    destination_count: usize,
) -> (res: Vec<String>)
    ensures
        texts(res@) == both_buffers(
            optional_filled_hints(optional_hint_texts(sources)),
            source_count as nat,
            optional_filled_hints(optional_hint_texts(destinations)),
            destination_count as nat,
            Seq::empty(),
        ),
{
    let mut buffer: Vec<String> = Vec::new();
    if sources.is_none() && destinations.is_none() {
        proof {
            assert(texts(buffer@) =~= Seq::<Seq<char>>::empty());
        }
        return buffer;
    }
    match sources {
        Some(values) => push_hint_slots(&mut buffer, values),
        None => push_blank_slots(&mut buffer, source_count),
    }
    proof {
        assert(blank_slots(source_count as nat) =~= repeated(
            Seq::<char>::empty(),
            source_count as nat,
        ));
        assert(texts(buffer@) =~= or_repeated(
            optional_filled_hints(optional_hint_texts(sources)),
            Seq::empty(),
            source_count as nat,
        ));
    }
    match destinations {
        Some(values) => push_hint_slots(&mut buffer, values),
        None => push_blank_slots(&mut buffer, destination_count),
    }
    proof {
        assert(blank_slots(destination_count as nat) =~= repeated(
            Seq::<char>::empty(),
            destination_count as nat,
        ));
    }
    buffer
}

/// Flattens a table request into what the engine is handed.
pub fn table_call(request: &TableRequest) -> (call: TableCall)
    ensures
        call.carries(request@),
{
    let sources = request.sources();
    let destinations = request.destinations();
    let s = sources.len();
    let d = destinations.len();
    let mut coordinates: Vec<i64> = Vec::new();
    push_coordinates(&mut coordinates, sources);
    push_coordinates(&mut coordinates, destinations);
    proof {
        lemma_flat_coordinates_add(sources@, destinations@);
        assert(integers(coordinates@) =~= flat_coordinates(sources@ + destinations@));
    }
    let total = coordinates.len();
    proof {
        assert(integers(coordinates@).len() == total);
        assert(total == 2 * (s + d));
    }
    let mut source_positions: Vec<usize> = Vec::new();
    push_positions(&mut source_positions, 0, s);
    let mut destination_positions: Vec<usize> = Vec::new();
    push_positions(&mut destination_positions, s, d);
    proof {
        assert(index_values(source_positions@) =~= positions(0, s as nat));
        assert(index_values(destination_positions@) =~= positions(s as nat, d as nat));
    }
    TableCall {
        coordinates,
        sources: source_positions,
        destinations: destination_positions,
        annotations: request.annotations(),
        fallback_speed: match request.fallback_speed() {
            Some(v) => v,
            None => 0,
        },
        fallback_coordinate: match request.fallback_coordinate() {
            Some(c) => c,
            None => TableFallbackCoordinate::Input,
        },
        scale_factor: match request.scale_factor() {
            Some(f) => f,
            None => 0,
        },
        bearings: both_bearings(request.source_bearings(), s, request.destination_bearings(), d),
        radiuses: both(request.source_radiuses(), s, request.destination_radiuses(), d, None),
        hints: both_hints(request.source_hints(), s, request.destination_hints(), d),
        approaches: both(
            request.source_approaches(),
            s,
            request.destination_approaches(),
            d,
            Approach::Unrestricted,
        ),
        generate_hints: request.generate_hints(),
        excludes: exclude_buffer(request.exclude()),
        snapping: snapping_of(request.snapping()),
    }
}

/// What the engine's answer comes to: the text where the status is zero
/// and there is text; an empty response where the status is zero and there
/// is none; the engine's error, with its message, for any other status.
pub open spec fn answer(status: i32, message: Option<Seq<char>>) -> Result<Seq<char>, Seq<char>> {
    if status != 0 {
        match message {
            Some(m) => Err("OSRM error: "@ + m),
            None => Err("OSRM returned a null message"@),
        }
    } else {
        match message {
            Some(m) if m.len() > 0 => Ok(m),
            _ => Err("OSRM returned no result"@),
        }
    }
}

/// Reads the status and the text with which the engine answered; `None`
/// stands for no text at all.
pub fn interpret(status: i32, message: Option<String>) -> (res: Result<String, OsrmError>)
    ensures
        match (res, answer(status, optional_text(message))) {
            (Ok(text), Ok(expected)) => text@ == expected,
            (Err(OsrmError::Native(NativeOsrmError::FfiError(m))), Err(expected)) => status != 0
                && m@ == expected,
            (Err(OsrmError::EmptyResponse(m)), Err(expected)) => status == 0 && m@ == expected,
            _ => false,
        },
{
    if status != 0 {
        let text = match message {
            Some(m) => String::from_str("OSRM error: ").concat(m.as_str()),
            None => String::from_str("OSRM returned a null message"),
        };
        return Err(OsrmError::Native(NativeOsrmError::FfiError(text)));
    }
    match message {
        Some(m) => {
            if m.as_str().is_empty() {
                Err(OsrmError::EmptyResponse(String::from_str("OSRM returned no result")))
            } else {
                Ok(m)
            }
        },
        None => Err(OsrmError::EmptyResponse(String::from_str("OSRM returned no result"))),
    }
}

/// The error of an engine that could not be started, with what it said of
/// the failure where it said anything.
pub fn creation_failure(message: Option<String>) -> (res: OsrmError)
    ensures
        res matches OsrmError::Native(NativeOsrmError::Initialization(m)) && m@
            == "Failure to create an OSRM instance: "@ + match message {
            Some(text) => text@,
            None => "unknown error"@,
        },
{
    let reason = match message {
        Some(text) => text,
        None => String::from_str("unknown error"),
    };
    OsrmError::Native(
        NativeOsrmError::Initialization(
            String::from_str("Failure to create an OSRM instance: ").concat(reason.as_str()),
        ),
    )
}

/// The error of an answer that could not be read.
pub fn parse_failure(message: String) -> (res: OsrmError)
    ensures
        res matches OsrmError::Native(NativeOsrmError::JsonParse(m)) && m@ == message@,
{
    OsrmError::Native(NativeOsrmError::JsonParse(message))
}

/// What the engine is handed for a route.
#[derive(Clone, Debug)]
pub struct RouteCall {
    pub coordinates: Vec<i64>,
    pub geometry: GeometryType,
    pub overview: OverviewZoom,
    pub flags: u8,
    pub waypoints: Vec<usize>,
    pub bearings: Vec<Bearing>,
    pub radiuses: Vec<Option<i64>>,
    pub hints: Vec<String>,
    pub approaches: Vec<Approach>,
    pub excludes: Vec<String>,
    pub snapping: Snapping,
}

impl RouteCall {
    /// Whether the call hands the engine exactly what `q` asks for.
    pub open spec fn carries(self, q: RouteOptions) -> bool {
        &&& integers(self.coordinates@) == flat_coordinates(q.points)
        &&& self.geometry == q.geometry
        &&& self.overview == q.overview
        &&& self.flags == route_flags(q)
        &&& self.waypoints@ == or_empty(q.waypoints)
        &&& self.bearings@ == or_empty(optional_filled_bearings(q.bearings))
        &&& self.radiuses@ == or_repeated(q.radiuses, None, q.points.len())
        &&& texts(self.hints@) == or_empty(optional_filled_hints(q.hints))
        &&& self.approaches@ == or_empty(q.approaches)
        &&& texts(self.excludes@) == exclude_names(q.exclude)
        &&& self.snapping == snapping_or_default(q.snapping)
    }
}

/// What the engine is handed for a trip.
#[derive(Clone, Debug)]
pub struct TripCall {
    pub coordinates: Vec<i64>,
    pub geometry: GeometryType,
    pub overview: OverviewZoom,
    pub source: TripSource,
    pub destination: TripDestination,
    pub flags: u8,
    pub waypoints: Vec<usize>,
    pub bearings: Vec<Bearing>,
    pub radiuses: Vec<Option<i64>>,
    pub hints: Vec<String>,
    pub approaches: Vec<Approach>,
    pub excludes: Vec<String>,
    pub snapping: Snapping,
}

impl TripCall {
    /// Whether the call hands the engine exactly what `q` asks for.
    pub open spec fn carries(self, q: TripOptions) -> bool {
        &&& integers(self.coordinates@) == flat_coordinates(q.points)
        &&& self.geometry == q.geometry
        &&& self.overview == q.overview
        &&& self.source == q.source
        &&& self.destination == q.destination
        &&& self.flags == trip_flags(q)
        &&& self.waypoints@ == or_empty(q.waypoints)
        &&& self.bearings@ == or_empty(optional_filled_bearings(q.bearings))
        &&& self.radiuses@ == or_repeated(q.radiuses, None, q.points.len())
        &&& texts(self.hints@) == or_empty(optional_filled_hints(q.hints))
        &&& self.approaches@ == or_empty(q.approaches)
        &&& texts(self.excludes@) == exclude_names(q.exclude)
        &&& self.snapping == snapping_or_default(q.snapping)
    }
}

/// What the engine is handed for a match.
#[derive(Clone, Debug)]
pub struct MatchCall {
    pub coordinates: Vec<i64>,
    pub geometry: GeometryType,
    pub overview: OverviewZoom,
    pub timestamps: Vec<u64>,
    pub gaps: MatchGapsBehaviour,
    pub waypoints: Vec<usize>,
    pub flags: u8,
    pub bearings: Vec<Bearing>,
    pub radiuses: Vec<Option<i64>>,
    pub hints: Vec<String>,
    pub approaches: Vec<Approach>,
    pub excludes: Vec<String>,
    pub snapping: Snapping,
}

impl MatchCall {
    /// Whether the call hands the engine exactly what `q` asks for.
    pub open spec fn carries(self, q: MatchOptions) -> bool {
        &&& integers(self.coordinates@) == flat_coordinates(q.points)
        &&& self.geometry == q.geometry
        &&& self.overview == q.overview
        &&& self.timestamps@ == or_empty(q.timestamps)
        &&& self.gaps == q.gaps
        &&& self.waypoints@ == or_empty(q.waypoints)
        &&& self.flags == match_flags(q)
        &&& self.bearings@ == or_empty(optional_filled_bearings(q.bearings))
        &&& self.radiuses@ == or_repeated(q.radiuses, None, q.points.len())
        &&& texts(self.hints@) == or_empty(optional_filled_hints(q.hints))
        &&& self.approaches@ == or_empty(q.approaches)
        &&& texts(self.excludes@) == exclude_names(q.exclude)
        &&& self.snapping == snapping_or_default(q.snapping)
    }
}

/// What the engine is handed for a table. The coordinates are those of the
/// sources followed by those of the destinations; `sources` and
/// `destinations` are their positions among the coordinates.
#[derive(Clone, Debug)]
pub struct TableCall {
    pub coordinates: Vec<i64>,
    pub sources: Vec<usize>,
    pub destinations: Vec<usize>,
    pub annotations: TableAnnotation,
    /// The fallback speed, or zero where none is set.
    pub fallback_speed: i64,
    pub fallback_coordinate: TableFallbackCoordinate,
    /// The scale factor, or zero where none is set.
    pub scale_factor: i64,
    pub bearings: Vec<Bearing>,
    pub radiuses: Vec<Option<i64>>,
    pub hints: Vec<String>,
    pub approaches: Vec<Approach>,
    pub generate_hints: bool,
    pub excludes: Vec<String>,
    pub snapping: Snapping,
}

impl TableCall {
    /// Whether the call hands the engine exactly what `q` asks for.
    pub open spec fn carries(self, q: TableOptions) -> bool {
        let s = q.sources.len();
        let d = q.destinations.len();
        &&& integers(self.coordinates@) == flat_coordinates(q.sources + q.destinations)
        &&& index_values(self.sources@) == positions(0, s)
        &&& index_values(self.destinations@) == positions(s, d)
        &&& self.annotations == q.annotations
        &&& self.fallback_speed == match q.fallback_speed {
            Some(v) => v,
            None => 0,
        }
        &&& self.fallback_coordinate == match q.fallback_coordinate {
            Some(c) => c,
            None => TableFallbackCoordinate::Input,
        }
        &&& self.scale_factor == match q.scale_factor {
            Some(f) => f,
            None => 0,
        }
        &&& self.bearings@ == both_buffers(
            optional_filled_bearings(q.source_bearings),
            s,
            optional_filled_bearings(q.destination_bearings),
            d,
            Bearing::unrestricted(),
        )
        &&& self.radiuses@ == both_buffers(q.source_radiuses, s, q.destination_radiuses, d, None)
        &&& texts(self.hints@) == both_buffers(
            optional_filled_hints(q.source_hints),
            s,
            optional_filled_hints(q.destination_hints),
            d,
            Seq::empty(),
        )
        &&& self.approaches@ == both_buffers(
            q.source_approaches,
            s,
            q.destination_approaches,
            d,
            Approach::Unrestricted,
        )
        &&& self.generate_hints == q.generate_hints
        &&& texts(self.excludes@) == exclude_names(q.exclude)
        &&& self.snapping == snapping_or_default(q.snapping)
    }
}

/// What the engine is handed for the nearest segments of a point.
#[derive(Clone, Debug)]
pub struct NearestCall {
    pub longitude: i64,
    pub latitude: i64,
    pub number: u64,
    pub bearing: Option<Bearing>,
    pub radius: Option<i64>,
    pub approach: Option<Approach>,
    pub excludes: Vec<String>,
    pub snapping: Option<Snapping>,
}

impl NearestCall {
    /// Whether the call hands the engine exactly what `q` asks for.
    pub open spec fn carries(self, q: NearestOptions) -> bool {
        &&& self.longitude == q.point.lon()
        &&& self.latitude == q.point.lat()
        &&& self.number == q.number
        &&& self.bearing == q.bearing
        &&& self.radius == q.radius
        &&& self.approach == q.approach
        &&& texts(self.excludes@) == exclude_names(q.exclude)
        &&& self.snapping == q.snapping
    }
}

} // verus!

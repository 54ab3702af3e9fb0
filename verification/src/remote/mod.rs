//! The engine that is reached over HTTP, and the queries that it is asked.
//!
//! A query is
//!
//! ```text
//! {endpoint}/{service}/v1/{profile}/{coordinates}?option=value&option=value
//! ```
//!
//! with the coordinates as `longitude,latitude` pairs of six decimal places,
//! separated by semicolons. An option that holds one value for each
//! coordinate is written as those values separated by semicolons; where a
//! value is not set its place stays empty, so that the values that follow
//! keep their positions.
//!
//! The profile is part of every query. An engine that serves one map
//! ignores it; a host that serves several picks the map by it.

mod osrm_engine;

pub use osrm_engine::OsrmEngine;

use crate::errors::{OsrmError, RemoteOsrmError};
use crate::request_types::{Bearing, Exclude, Snapping};
use crate::services::matching::MatchOptions;
use crate::services::nearest::NearestOptions;
use crate::services::route::{RouteOptions, RouteRequest, RouteRequestBuilder};
use crate::services::table::TableOptions;
use crate::services::trip::TripOptions;
use crate::services::Approach;
use crate::slots::{blank_slots, exclude_slots, hint_slots};
use crate::text::{bool_text, decimal, fixed12, fixed6, joined, shortest};
use crate::Point;
use vstd::prelude::*;
use vstd::string::StringExecFns;

verus! {

/// The profile with which the map was prepared.
#[derive(Clone, Copy, Debug, PartialEq, Eq, Structural)]
pub enum Profile {
    Car,
    Bike,
    Foot,
}

impl Profile {
    /// The variant as a query writes it.
    pub open spec fn url_text(self) -> Seq<char> {
        match self {
            Profile::Bike => "bike"@,
            Profile::Car => "car"@,
            Profile::Foot => "foot"@,
        }
    }

    /// The variant in lower case: `"bike"`, `"car"` or `"foot"`.
    pub fn url_form(self) -> (s: &'static str)
        ensures
            s@ == self.url_text(),
    {
        match self {
            Profile::Bike => "bike",
            Profile::Car => "car",
            Profile::Foot => "foot",
        }
    }
}

/// A point as a query writes it: longitude, comma, latitude.
pub open spec fn point_text(p: Point) -> Seq<char> {
    fixed6(p.lon()) + seq![','] + fixed6(p.lat())
}

/// What stands in a bearing's place: the bearing, or nothing.
pub open spec fn bearing_slot(bearing: Option<Bearing>) -> Seq<char> {
    match bearing {
        Some(b) => b.url_text(),
        None => Seq::empty(),
    }
}

/// What stands in a radius's place: the radius with twelve decimal places,
/// or nothing.
pub open spec fn radius_slot(radius: Option<i64>) -> Seq<char> {
    match radius {
        Some(r) => fixed12(r as int),
        None => Seq::empty(),
    }
}

/// The points as a query writes them, one by one.
pub open spec fn point_slots(points: Seq<Point>) -> Seq<Seq<char>> {
    Seq::new(points.len(), |i: int| point_text(points[i]))
}

/// The places of the bearings, one by one.
pub open spec fn bearing_slots(bearings: Seq<Option<Bearing>>) -> Seq<Seq<char>> {
    Seq::new(bearings.len(), |i: int| bearing_slot(bearings[i]))
}

/// The places of the radiuses, one by one.
pub open spec fn radius_slots(radiuses: Seq<Option<i64>>) -> Seq<Seq<char>> {
    Seq::new(radiuses.len(), |i: int| radius_slot(radiuses[i]))
}

/// The approaches as a query writes them, one by one.
pub open spec fn approach_slots(approaches: Seq<Approach>) -> Seq<Seq<char>> {
    Seq::new(approaches.len(), |i: int| approaches[i].url_text())
}

/// The timestamps as decimal numerals, one by one.
pub open spec fn timestamp_slots(timestamps: Seq<u64>) -> Seq<Seq<char>> {
    Seq::new(timestamps.len(), |i: int| decimal(timestamps[i] as nat))
}

/// The indices as decimal numerals, one by one.
pub open spec fn index_slots(indices: Seq<usize>) -> Seq<Seq<char>> {
    Seq::new(indices.len(), |i: int| decimal(indices[i] as nat))
}

/// The numerals of `count` numbers in a row, the first of them `from`.
pub open spec fn range_slots(from: nat, count: nat) -> Seq<Seq<char>> {
    Seq::new(count, |i: int| decimal((from + i) as nat))
}

/// The places that are given, or as many empty ones.
pub open spec fn slots_or_blanks(slots: Option<Seq<Seq<char>>>, count: nat) -> Seq<Seq<char>> {
    match slots {
        Some(s) => s,
        None => blank_slots(count),
    }
}

/// An option of a query: its name and its value, or nothing where it is
/// not set.
pub open spec fn optional(name: Seq<char>, value: Option<Seq<char>>) -> Seq<char> {
    match value {
        Some(v) => name + v,
        None => Seq::empty(),
    }
}

/// The values of one option for the sources followed by those for the
/// destinations, or `None` where the option is set for neither.
pub open spec fn both_sides(
    sources: Option<Seq<Seq<char>>>,
    source_count: nat,
    destinations: Option<Seq<Seq<char>>>,
    destination_count: nat,
) -> Option<Seq<char>> {
    if sources is None && destinations is None {
        None
    } else {
        Some(
            joined(
                slots_or_blanks(sources, source_count) + slots_or_blanks(
                    destinations,
                    destination_count,
                ),
                ";"@,
            ),
        )
    }
}

/// The value of an option that holds one place for each point.
pub open spec fn per_point(slots: Option<Seq<Seq<char>>>) -> Option<Seq<char>> {
    match slots {
        Some(s) => Some(joined(s, ";"@)),
        None => None,
    }
}

/// The places of an optional list of bearings.
pub open spec fn optional_bearing_slots(bearings: Option<Seq<Option<Bearing>>>) -> Option<
    Seq<Seq<char>>,
> {
    match bearings {
        Some(b) => Some(bearing_slots(b)),
        None => None,
    }
}

/// The places of an optional list of radiuses.
pub open spec fn optional_radius_slots(radiuses: Option<Seq<Option<i64>>>) -> Option<
    Seq<Seq<char>>,
> {
    match radiuses {
        Some(r) => Some(radius_slots(r)),
        None => None,
    }
}

/// The places of an optional list of hints.
pub open spec fn optional_hint_slots(hints: Option<Seq<Option<Seq<char>>>>) -> Option<
    Seq<Seq<char>>,
> {
    match hints {
        Some(h) => Some(hint_slots(h)),
        None => None,
    }
}

/// The places of an optional list of approaches.
pub open spec fn optional_approach_slots(approaches: Option<Seq<Approach>>) -> Option<
    Seq<Seq<char>>,
> {
    match approaches {
        Some(a) => Some(approach_slots(a)),
        None => None,
    }
}

/// The places of an optional list of indices.
pub open spec fn optional_index_slots(indices: Option<Seq<usize>>) -> Option<Seq<Seq<char>>> {
    match indices {
        Some(w) => Some(index_slots(w)),
        None => None,
    }
}

/// The places of an optional list of timestamps.
pub open spec fn optional_timestamp_slots(timestamps: Option<Seq<u64>>) -> Option<
    Seq<Seq<char>>,
> {
    match timestamps {
        Some(t) => Some(timestamp_slots(t)),
        None => None,
    }
}

/// The excluded classes, separated by commas.
pub open spec fn exclude_value(exclude: Option<Seq<Exclude>>) -> Option<Seq<char>> {
    match exclude {
        Some(e) => Some(joined(exclude_slots(e), ","@)),
        None => None,
    }
}

/// The snapping policy as a query writes it.
pub open spec fn snapping_value(snapping: Option<Snapping>) -> Option<Seq<char>> {
    match snapping {
        Some(s) => Some(s.url_text()),
        None => None,
    }
}

/// The end of a query: exclusions and snapping, each where it is set.
pub open spec fn closing_text(exclude: Option<Seq<Exclude>>, snapping: Option<Snapping>) -> Seq<
    char,
> {
    optional("&exclude="@, exclude_value(exclude)) + optional(
        "&snapping="@,
        snapping_value(snapping),
    )
}

/// The options that the route, trip and match services share, each where
/// it is set: waypoints, bearings, radiuses, hints, approaches, exclusions
/// and snapping.
pub open spec fn shared_text(
    waypoints: Option<Seq<usize>>,
    bearings: Option<Seq<Option<Bearing>>>,
    radiuses: Option<Seq<Option<i64>>>,
    hints: Option<Seq<Option<Seq<char>>>>,
    approaches: Option<Seq<Approach>>,
    exclude: Option<Seq<Exclude>>,
    snapping: Option<Snapping>,
) -> Seq<char> {
    optional("&waypoints="@, per_point(optional_index_slots(waypoints))) + optional(
        "&bearings="@,
        per_point(optional_bearing_slots(bearings)),
    ) + optional("&radiuses="@, per_point(optional_radius_slots(radiuses))) + optional(
        "&hints="@,
        per_point(optional_hint_slots(hints)),
    ) + optional("&approaches="@, per_point(optional_approach_slots(approaches)))
        + closing_text(exclude, snapping)
}

/// The start of every query: endpoint, service, version, profile and
/// coordinates.
pub open spec fn path_text(
    endpoint: Seq<char>,
    service: Seq<char>,
    profile: Profile,
    points: Seq<Point>,
) -> Seq<char> {
    endpoint + seq!['/'] + service + "/v1/"@ + profile.url_text() + seq!['/'] + joined(
        point_slots(points),
        ";"@,
    )
}

/// The query that asks the route service for `q`.
pub open spec fn route_url(endpoint: Seq<char>, profile: Profile, q: RouteOptions) -> Seq<char> {
    path_text(endpoint, "route"@, profile, q.points) + "?alternatives="@ + bool_text(
        q.alternatives,
    ) + "&steps="@ + bool_text(q.steps) + "&geometries="@ + q.geometry.url_text() + "&overview="@
        + q.overview.url_text() + "&annotations="@ + bool_text(q.annotations)
        + "&continue_straight="@ + bool_text(q.continue_straight) + "&generate_hints="@
        + bool_text(q.generate_hints) + "&skip_waypoints="@ + bool_text(q.skip_waypoints)
        + shared_text(
        q.waypoints,
        q.bearings,
        q.radiuses,
        q.hints,
        q.approaches,
        q.exclude,
        q.snapping,
    )
}

/// The query that asks the trip service for `q`.
pub open spec fn trip_url(endpoint: Seq<char>, profile: Profile, q: TripOptions) -> Seq<char> {
    path_text(endpoint, "trip"@, profile, q.points) + "?steps="@ + bool_text(q.steps)
        + "&geometries="@ + q.geometry.url_text() + "&overview="@ + q.overview.url_text()
        + "&annotations="@ + bool_text(q.annotations) + "&roundtrip="@ + bool_text(q.roundtrip)
        + "&source="@ + q.source.url_text() + "&destination="@ + q.destination.url_text()
        + "&generate_hints="@ + bool_text(q.generate_hints) + "&skip_waypoints="@ + bool_text(
        q.skip_waypoints,
    ) + shared_text(
        q.waypoints,
        q.bearings,
        q.radiuses,
        q.hints,
        q.approaches,
        q.exclude,
        q.snapping,
    )
}

/// The query that asks the match service for `q`.
pub open spec fn match_url(endpoint: Seq<char>, profile: Profile, q: MatchOptions) -> Seq<char> {
    path_text(endpoint, "match"@, profile, q.points) + "?steps="@ + bool_text(q.steps)
        + "&geometries="@ + q.geometry.url_text() + "&overview="@ + q.overview.url_text()
        + "&annotations="@ + bool_text(q.annotations) + "&gaps="@ + q.gaps.url_text() + "&tidy="@
        + bool_text(q.tidy) + "&generate_hints="@ + bool_text(q.generate_hints)
        + "&skip_waypoints="@ + bool_text(q.skip_waypoints) + optional(
        "&timestamps="@,
        per_point(optional_timestamp_slots(q.timestamps)),
    ) + shared_text(
        q.waypoints,
        q.bearings,
        q.radiuses,
        q.hints,
        q.approaches,
        q.exclude,
        q.snapping,
    )
}

/// The query that asks the nearest service for `q`.
pub open spec fn nearest_url(endpoint: Seq<char>, profile: Profile, q: NearestOptions) -> Seq<
    char,
> {
    path_text(endpoint, "nearest"@, profile, seq![q.point]) + "?number="@ + decimal(
        q.number as nat,
    ) + optional(
        "&bearings="@,
        match q.bearing {
            Some(b) => Some(b.url_text()),
            None => None,
        },
    ) + optional(
        "&radiuses="@,
        match q.radius {
            Some(r) => Some(fixed12(r as int)),
            None => None,
        },
    ) + optional(
        "&approaches="@,
        match q.approach {
            Some(a) => Some(a.url_text()),
            None => None,
        },
    ) + closing_text(q.exclude, q.snapping)
}

/// What the outcome of the HTTP call comes to: the body where the call
/// succeeded and the body holds anything; an empty response where it
/// succeeded and the body is empty; the error of the endpoint, with what
/// the transport said, where it failed.
pub fn interpret(outcome: Result<String, String>) -> (res: Result<String, OsrmError>)
    ensures
        match outcome {
            Ok(body) => if body@.len() > 0 {
                res matches Ok(text) && text@ == body@
            } else {
                res matches Err(OsrmError::EmptyResponse(m)) && m@
                    == "The endpoint returned no result"@
            },
            Err(failure) => res matches Err(
                OsrmError::Remote(RemoteOsrmError::EndpointError(m)),
            ) && m@ == failure@,
        },
{
    match outcome {
        Ok(body) => {
            if body.as_str().is_empty() {
                Err(OsrmError::EmptyResponse(String::from_str("The endpoint returned no result")))
            } else {
                Ok(body)
            }
        },
        Err(failure) => Err(OsrmError::Remote(RemoteOsrmError::EndpointError(failure))),
    }
}

/// The error of a body that could not be read.
pub fn parse_failure(message: String) -> (res: OsrmError)
    ensures
        res matches OsrmError::Remote(RemoteOsrmError::JsonParse(m)) && m@ == message@,
{
    OsrmError::Remote(RemoteOsrmError::JsonParse(message))
}

/// Two requests built from one builder are asked for with the same
/// query.
pub proof fn lemma_same_build_same_url<'a>(
    endpoint: Seq<char>,
    profile: Profile,
    builder: RouteRequestBuilder<'a>,
    first: RouteRequest<'a>,
    second: RouteRequest<'a>,
)
    requires
        builder.builds(Ok(first)),
        builder.builds(Ok(second)),
    ensures
        route_url(endpoint, profile, first@) == route_url(endpoint, profile, second@),
{
}

/// The fallback of a table query: speed and coordinate, where both are
/// set.
pub open spec fn fallback_text(q: TableOptions) -> Seq<char> {
    match (q.fallback_coordinate, q.fallback_speed) {
        (Some(coord), Some(speed)) => "&fallback_speed="@ + shortest(speed as int)
            + "&fallback_coordinate="@ + coord.url_text(),
        _ => Seq::empty(),
    }
}

/// The query that asks the table service for `q`. Its coordinates are the
/// sources followed by the destinations, and its `sources` and
/// `destinations` are their positions among the coordinates.
pub open spec fn table_url(endpoint: Seq<char>, profile: Profile, q: TableOptions) -> Seq<char> {
    let s = q.sources.len();
    let d = q.destinations.len();
    path_text(endpoint, "table"@, profile, q.sources + q.destinations) + "?sources="@ + joined(
        range_slots(0, s),
        ";"@,
    ) + "&destinations="@ + joined(range_slots(s, d), ";"@) + "&generate_hints="@ + bool_text(
        q.generate_hints,
    ) + fallback_text(q) + "&annotations="@ + q.annotations.url_text() + optional(
        "&scale_factor="@,
        match q.scale_factor {
            Some(f) => Some(shortest(f as int)),
            None => None,
        },
    ) + optional(
        "&bearings="@,
        both_sides(
            optional_bearing_slots(q.source_bearings),
            s,
            optional_bearing_slots(q.destination_bearings),
            d,
        ),
    ) + optional(
        "&radiuses="@,
        both_sides(
            optional_radius_slots(q.source_radiuses),
            s,
            optional_radius_slots(q.destination_radiuses),
            d,
        ),
    ) + optional(
        "&hints="@,
        both_sides(
            optional_hint_slots(q.source_hints),
            s,
            optional_hint_slots(q.destination_hints),
            d,
        ),
    ) + optional(
        "&approaches="@,
        both_sides(
            optional_approach_slots(q.source_approaches),
            s,
            optional_approach_slots(q.destination_approaches),
            d,
        ),
    ) + closing_text(q.exclude, q.snapping)
}

} // verus!

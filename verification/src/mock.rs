//! The engine that asks nothing and answers with placeholders.
//!
//! Every answer has the shape that the request asks for: as many entries as
//! there are points, the geometry in the encoding that was chosen, and each
//! optional part present exactly where a real engine would send it. What the
//! entries hold is made up and always the same.
//!
//! A request can only be had from its builder, so this engine is never
//! handed one that breaks a rule, such as a table without sources: whoever
//! writes against it meets the same errors of construction as with a real
//! engine, and meets them in the same place.

use crate::errors::OsrmError;
use crate::osrm_response_types::{MatchRoute, MatchWaypoint, Route, TripWaypoint, Waypoint};
use crate::services::matching::{MatchOptions, MatchRequest, MatchResponse};
use crate::services::nearest::{NearestOptions, NearestRequest, NearestResponse};
use crate::services::route::{RouteOptions, RouteRequest, RouteResponse, SimpleRouteResponse};
use crate::services::table::{
    TableAnnotation, TableLocationEntry, TableOptions, TableRequest, TableResponse,
};
use crate::services::trip::{TripOptions, TripRequest, TripResponse};
use crate::Point;
use vstd::prelude::*;
use vstd::string::StringExecFns;

verus! {

/// The duration, in millionths of a second, that the mock gives for every
/// pair of a table but those on its diagonal.
pub const MOCK_DURATION: i64 = 1_000_000;

/// The distance, in millionths of a metre, that the mock gives for every
/// pair of a table but those on its diagonal.
pub const MOCK_DISTANCE: i64 = 2_000_000;

/// Whether a hint is the mock's: `"Mock hint"` where hints are asked for,
/// none otherwise.
pub open spec fn is_mock_hint(hint: Option<String>, hints: bool) -> bool {
    if hints {
        hint matches Some(h) && h@ == "Mock hint"@
    } else {
        hint is None
    }
}

/// Whether a location is that of the point: its longitude, then its
/// latitude.
pub open spec fn is_location_of(location: [i64; 2], p: Point) -> bool {
    location@[0] == p.lon() && location@[1] == p.lat()
}

/// Whether a waypoint is the mock's echo of the point.
pub open spec fn is_mock_waypoint(w: Waypoint, p: Point, hints: bool) -> bool {
    &&& is_mock_hint(w.hint, hints)
    &&& is_location_of(w.location, p)
    &&& w.name@ == "Mock name"@
    &&& w.distance == 0
}

/// Whether the waypoints are the mock's echoes of the points, in order.
pub open spec fn are_mock_waypoints(ws: Seq<Waypoint>, points: Seq<Point>, hints: bool) -> bool {
    &&& ws.len() == points.len()
    &&& forall|i: int| 0 <= i < ws.len() ==> is_mock_waypoint(#[trigger] ws[i], points[i], hints)
}

/// Whether an entry of a table is the mock's echo of the point.
pub open spec fn is_mock_entry(e: TableLocationEntry, p: Point, hints: bool) -> bool {
    &&& is_mock_hint(e.hint, hints)
    &&& is_location_of(e.location, p)
    &&& e.name@ == "Mock name"@
    &&& e.distance == 0
}

/// Whether the entries are the mock's echoes of the points, in order.
pub open spec fn are_mock_entries(
    es: Seq<TableLocationEntry>,
    points: Seq<Point>,
    hints: bool,
) -> bool {
    &&& es.len() == points.len()
    &&& forall|i: int| 0 <= i < es.len() ==> is_mock_entry(#[trigger] es[i], points[i], hints)
}

/// Whether a table has `rows` rows of `columns` entries, each of them
/// `value` but those on the diagonal, which are zero.
pub open spec fn is_mock_matrix(
    m: Seq<Vec<Option<i64>>>,
    rows: nat,
    columns: nat,
    value: i64,
) -> bool {
    &&& m.len() == rows
    &&& forall|i: int| 0 <= i < rows ==> (#[trigger] m[i])@.len() == columns
    &&& forall|i: int, j: int|
        0 <= i < rows && 0 <= j < columns ==> #[trigger] m[i]@[j] == Some(
            if i == j {
                0i64
            } else {
                value
            },
        )
}

/// Whether a table is present exactly where it is asked for, and is then
/// the mock's.
pub open spec fn is_mock_table(
    m: Option<Vec<Vec<Option<i64>>>>,
    asked: bool,
    rows: nat,
    columns: nat,
    value: i64,
) -> bool {
    if asked {
        m matches Some(t) && is_mock_matrix(t@, rows, columns, value)
    } else {
        m is None
    }
}

/// Whether a response is what the mock answers to a table request.
pub open spec fn is_mock_table_response(r: TableResponse, q: TableOptions) -> bool {
    &&& r.code@ == "Ok"@
    &&& are_mock_entries(r.sources@, q.sources, q.generate_hints)
    &&& are_mock_entries(r.destinations@, q.destinations, q.generate_hints)
    &&& is_mock_table(
        r.durations,
        q.annotations.has_duration(),
        q.sources.len(),
        q.destinations.len(),
        MOCK_DURATION,
    )
    &&& is_mock_table(
        r.distances,
        q.annotations.has_distance(),
        q.sources.len(),
        q.destinations.len(),
        MOCK_DISTANCE,
    )
}

/// Whether a response is what the mock answers to a route request: one
/// placeholder route with a leg for each pair of neighbouring points, and
/// each point echoed as a waypoint unless the waypoints are skipped.
pub open spec fn is_mock_route_response(r: RouteResponse, q: RouteOptions) -> bool {
    &&& r.code@ == "Ok"@
    &&& r.routes@.len() == 1
    &&& r.routes@[0].is_placeholder_with(
        (q.points.len() - 1) as nat,
        q.steps,
        q.annotations,
        q.geometry,
        q.overview,
    )
    &&& if q.skip_waypoints {
        r.waypoints is None
    } else {
        r.waypoints matches Some(ws) && are_mock_waypoints(ws@, q.points, q.generate_hints)
    }
}

/// Whether a waypoint of a trip is the mock's echo of the point at
/// position `i`.
pub open spec fn is_mock_trip_waypoint(w: TripWaypoint, p: Point, i: int, hints: bool) -> bool {
    &&& is_mock_hint(w.hint, hints)
    &&& is_location_of(w.location, p)
    &&& w.name@ == "Mock name"@
    &&& w.distance == 0
    &&& w.trips_index == i
    &&& w.waypoint_index == i
}

/// How many legs a trip through `points` points has: one between each two
/// neighbours, and one more back to the start where the trip is a round.
pub open spec fn trip_legs(points: nat, roundtrip: bool) -> nat {
    if roundtrip {
        points
    } else {
        (points - 1) as nat
    }
}

/// Whether a response is what the mock answers to a trip request: one
/// placeholder trip through the points in the order given, and each point
/// echoed as a waypoint unless the waypoints are skipped.
pub open spec fn is_mock_trip_response(r: TripResponse, q: TripOptions) -> bool {
    &&& r.code@ == "Ok"@
    &&& r.trips@.len() == 1
    &&& r.trips@[0].is_placeholder_with(
        trip_legs(q.points.len(), q.roundtrip),
        q.steps,
        q.annotations,
        q.geometry,
        q.overview,
    )
    &&& if q.skip_waypoints {
        r.waypoints is None
    } else {
        r.waypoints matches Some(ws) && ws@.len() == q.points.len() && forall|i: int|
            0 <= i < ws@.len() ==> is_mock_trip_waypoint(
                #[trigger] ws@[i],
                q.points[i],
                i,
                q.generate_hints,
            )
    }
}

/// Whether a tracepoint is the mock's echo of the point at position `i`.
pub open spec fn is_mock_tracepoint(
    t: Option<MatchWaypoint>,
    p: Point,
    i: int,
    hints: bool,
) -> bool {
    t matches Some(w) && {
        &&& is_mock_hint(w.hint, hints)
        &&& is_location_of(w.location, p)
        &&& w.name@ == "Mock name"@
        &&& w.distance == 0
        &&& w.matchings_index == 0
        &&& w.waypoint_index == i
        &&& w.alternatives_count == 0
    }
}

/// Whether a response is what the mock answers to a match request: one
/// placeholder matching with a leg for each pair of neighbouring points,
/// and each point as a tracepoint of it unless the waypoints are skipped.
pub open spec fn is_mock_match_response(r: MatchResponse, q: MatchOptions) -> bool {
    &&& r.code@ == "Ok"@
    &&& r.matchings@.len() == 1
    &&& r.matchings@[0].is_placeholder_with(
        (q.points.len() - 1) as nat,
        q.steps,
        q.annotations,
        q.geometry,
        q.overview,
    )
    &&& if q.skip_waypoints {
        r.tracepoints@.len() == 0
    } else {
        r.tracepoints@.len() == q.points.len() && forall|i: int|
            0 <= i < r.tracepoints@.len() ==> is_mock_tracepoint(
                #[trigger] r.tracepoints@[i],
                q.points[i],
                i,
                q.generate_hints,
            )
    }
}

/// Whether a response is what the mock answers to a nearest request: the
/// point itself as the one waypoint.
pub open spec fn is_mock_nearest_response(r: NearestResponse, q: NearestOptions) -> bool {
    &&& r.code@ == "Ok"@
    &&& r.waypoints@.len() == 1
    &&& is_mock_waypoint(r.waypoints@[0], q.point, true)
}

fn mock_hint(hints: bool) -> (res: Option<String>)
    ensures
        is_mock_hint(res, hints),
{
    if hints {
        Some(String::from_str("Mock hint"))
    } else {
        None
    }
}

fn location_of(p: &Point) -> (res: [i64; 2])
    ensures
        is_location_of(res, *p),
{
    [p.longitude(), p.latitude()]
}

fn mock_waypoints(points: &[Point], hints: bool) -> (res: Vec<Waypoint>)
    ensures
        are_mock_waypoints(res@, points@, hints),
{
    let mut res: Vec<Waypoint> = Vec::new();
    let mut i: usize = 0;
    while i < points.len()
        invariant
            i <= points.len(),
            res@.len() == i,
            forall|k: int| 0 <= k < i ==> is_mock_waypoint(#[trigger] res@[k], points@[k], hints),
        decreases points.len() - i,
    {
        res.push(
            Waypoint {
                hint: mock_hint(hints),
                location: location_of(&points[i]),
                name: String::from_str("Mock name"),
                distance: 0,
            },
        );
        i += 1;
    }
    res
}

fn mock_entries(points: &[Point], hints: bool) -> (res: Vec<TableLocationEntry>)
    ensures
        are_mock_entries(res@, points@, hints),
{
    let mut res: Vec<TableLocationEntry> = Vec::new();
    let mut i: usize = 0;
    while i < points.len()
        invariant
            i <= points.len(),
            res@.len() == i,
            forall|k: int| 0 <= k < i ==> is_mock_entry(#[trigger] res@[k], points@[k], hints),
        decreases points.len() - i,
    {
        res.push(
            TableLocationEntry {
                hint: mock_hint(hints),
                location: location_of(&points[i]),
                name: String::from_str("Mock name"),
                distance: 0,
            },
        );
        i += 1;
    }
    res
}

fn mock_row(row: usize, columns: usize, value: i64) -> (res: Vec<Option<i64>>)
    ensures
        res@.len() == columns,
        forall|j: int|
            0 <= j < columns ==> #[trigger] res@[j] == Some(
                if row == j {
                    0i64
                } else {
                    value
                },
            ),
{
    let mut res: Vec<Option<i64>> = Vec::new();
    let mut j: usize = 0;
    while j < columns
        invariant
            j <= columns,
            res@.len() == j,
            forall|k: int|
                0 <= k < j ==> #[trigger] res@[k] == Some(
                    if row == k {
                        0i64
                    } else {
                        value
                    },
                ),
        decreases columns - j,
    {
        res.push(
            Some(
                if row == j {
                    0
                } else {
                    value
                },
            ),
        );
        j += 1;
    }
    res
}

fn mock_matrix(rows: usize, columns: usize, value: i64) -> (res: Vec<Vec<Option<i64>>>)
    ensures
        is_mock_matrix(res@, rows as nat, columns as nat, value),
{
    let mut res: Vec<Vec<Option<i64>>> = Vec::new();
    let mut i: usize = 0;
    while i < rows
        invariant
            i <= rows,
            is_mock_matrix(res@, i as nat, columns as nat, value),
        decreases rows - i,
    {
        res.push(mock_row(i, columns, value));
        i += 1;
    }
    res
}

fn mock_table(asked: bool, rows: usize, columns: usize, value: i64) -> (res: Option<
    Vec<Vec<Option<i64>>>,
>)
    ensures
        is_mock_table(res, asked, rows as nat, columns as nat, value),
{
    if asked {
        Some(mock_matrix(rows, columns, value))
    } else {
        None
    }
}

/// The engine that answers with placeholders.
#[derive(Clone, Copy, Debug)]
pub struct OsrmEngine {}

impl OsrmEngine {
    /// The mock engine. It needs nothing and holds nothing.
    pub fn new() -> (res: Self) {
        Self {  }
    }

    /// Answers a table request: for each source one row with one entry for
    /// each destination, zero where source and destination have the same
    /// position and a fixed value elsewhere; durations, distances, both or
    /// neither, as the request asks.
    pub fn table(&self, table_request: TableRequest) -> (res: Result<TableResponse, OsrmError>)
        ensures
            res matches Ok(r) && is_mock_table_response(r, table_request@),
    {
        let sources = table_request.sources();
        let destinations = table_request.destinations();
        let annotations = table_request.annotations();
        let with_durations = matches!(
            annotations,
            TableAnnotation::Duration | TableAnnotation::All
        );
        let with_distances = matches!(
            annotations,
            TableAnnotation::Distance | TableAnnotation::All
        );
        let hints = table_request.generate_hints();
        Ok(
            TableResponse {
                code: String::from_str("Ok"),
                destinations: mock_entries(destinations, hints),
                durations: mock_table(
                    with_durations,
                    sources.len(),
                    destinations.len(),
                    MOCK_DURATION,
                ),
                distances: mock_table(
                    with_distances,
                    sources.len(),
                    destinations.len(),
                    MOCK_DISTANCE,
                ),
                sources: mock_entries(sources, hints),
            },
        )
    }

    /// Answers a route request: one placeholder route with a leg for each
    /// pair of neighbouring points, and the points themselves as
    /// waypoints.
    pub fn route(&self, route_request: &RouteRequest) -> (res: Result<RouteResponse, OsrmError>)
        ensures
            res matches Ok(r) && is_mock_route_response(r, route_request@),
    {
        let points = route_request.points();
        let steps = route_request.steps();
        let annotations = route_request.annotations();
        let geometry = route_request.geometry();
        let overview = route_request.overview();
        let mut routes: Vec<Route> = Vec::new();
        routes.push(Route::placeholder(points.len() - 1, steps, annotations, geometry, overview));
        let waypoints = if route_request.skip_waypoints() {
            None
        } else {
            Some(mock_waypoints(points, route_request.generate_hints()))
        };
        Ok(RouteResponse { code: String::from_str("Ok"), routes, waypoints })
    }

    /// Answers a trip request: one placeholder trip through the points in
    /// the order in which they were given, and the points themselves as
    /// waypoints.
    pub fn trip(&self, trip_request: TripRequest) -> (res: Result<TripResponse, OsrmError>)
        ensures
            res matches Ok(r) && is_mock_trip_response(r, trip_request@),
    {
        let points = trip_request.points();
        let steps = trip_request.steps();
        let annotations = trip_request.annotations();
        let geometry = trip_request.geometry();
        let overview = trip_request.overview();
        let hints = trip_request.generate_hints();
        let legs = if trip_request.roundtrip() {
            points.len()
        } else {
            points.len() - 1
        };
        let mut trips: Vec<Route> = Vec::new();
        trips.push(Route::placeholder(legs, steps, annotations, geometry, overview));
        let waypoints = if trip_request.skip_waypoints() {
            None
        } else {
            let mut ws: Vec<TripWaypoint> = Vec::new();
            let mut j: usize = 0;
            while j < points.len()
                invariant
                    j <= points.len(),
                    ws@.len() == j,
                    forall|k: int|
                        0 <= k < j ==> is_mock_trip_waypoint(
                            #[trigger] ws@[k],
                            points@[k],
                            k,
                            hints,
                        ),
                decreases points.len() - j,
            {
                ws.push(
                    TripWaypoint {
                        hint: mock_hint(hints),
                        location: location_of(&points[j]),
                        name: String::from_str("Mock name"),
                        distance: 0,
                        trips_index: j,
                        waypoint_index: j,
                    },
                );
                j += 1;
            }
            Some(ws)
        };
        Ok(TripResponse { code: String::from_str("Ok"), trips, waypoints })
    }

    /// Answers for a route between two points without looking at them: no
    /// distance, and a duration of one second.
    pub fn simple_route(&self, _from: Point, _to: Point) -> (res: Result<
        SimpleRouteResponse,
        OsrmError,
    >)
        ensures
            res matches Ok(r) && r.code@ == "Ok"@ && r.distance == 0 && r.durations == 1_000_000,
    {
        Ok(SimpleRouteResponse { code: String::from_str("Ok"), distance: 0, durations: 1_000_000 })
    }

    /// Answers a nearest request with the point itself.
    pub fn nearest(&self, nearest_request: &NearestRequest) -> (res: Result<
        NearestResponse,
        OsrmError,
    >)
        ensures
            res matches Ok(r) && is_mock_nearest_response(r, nearest_request@),
    {
        let point = nearest_request.point();
        let mut waypoints: Vec<Waypoint> = Vec::new();
        waypoints.push(
            Waypoint {
                hint: mock_hint(true),
                location: location_of(point),
                name: String::from_str("Mock name"),
                distance: 0,
            },
        );
        Ok(NearestResponse { code: String::from_str("Ok"), waypoints })
    }

    /// Answers a match request: one placeholder matching with a leg for
    /// each pair of neighbouring points, and each point as a tracepoint of
    /// it.
    pub fn matching(&self, match_request: &MatchRequest) -> (res: Result<MatchResponse, OsrmError>)
        ensures
            res matches Ok(r) && is_mock_match_response(r, match_request@),
    {
        let points = match_request.points();
        let steps = match_request.steps();
        let annotations = match_request.annotations();
        let geometry = match_request.geometry();
        let overview = match_request.overview();
        let hints = match_request.generate_hints();
        let mut matchings: Vec<MatchRoute> = Vec::new();
        matchings.push(MatchRoute::placeholder(points.len() - 1, steps, annotations, geometry, overview));
        let mut tracepoints: Vec<Option<MatchWaypoint>> = Vec::new();
        if !match_request.skip_waypoints() {
            let mut j: usize = 0;
            while j < points.len()
                invariant
                    j <= points.len(),
                    tracepoints@.len() == j,
                    forall|k: int|
                        0 <= k < j ==> is_mock_tracepoint(
                            #[trigger] tracepoints@[k],
                            points@[k],
                            k,
                            hints,
                        ),
                decreases points.len() - j,
            {
                tracepoints.push(
                    Some(
                        MatchWaypoint {
                            hint: mock_hint(hints),
                            location: location_of(&points[j]),
                            name: String::from_str("Mock name"),
                            distance: 0,
                            matchings_index: 0,
                            waypoint_index: j as u64,
                            alternatives_count: 0,
                        },
                    ),
                );
                j += 1;
            }
        }
        Ok(MatchResponse { code: String::from_str("Ok"), tracepoints, matchings })
    }
}

} // verus!

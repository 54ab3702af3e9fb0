//! Given coordinates, find the fastest route through them in the order in
//! which they are given.

use crate::errors::OsrmError;
use crate::osrm_response_types::{Route, RouteLeg, Waypoint};
use crate::request_types::{Bearing, Exclude, GeometryType, OverviewZoom, Snapping};
use crate::services::{
    excludes_share_profile, fits, greatest, greatest_index, one_profile, optional_hint_texts,
    optional_seq, radiuses_are_non_negative, radiuses_non_negative, Approach, DimensionMismatch,
};
use crate::text::{decimal, push_decimal};
use crate::Point;
use vstd::prelude::*;
use vstd::string::StringExecFns;

verus! {

/// Why a route request cannot be built.
#[derive(Clone, Copy, Debug, PartialEq, Eq, Structural)]
pub enum RouteRequestError {
    /// A route needs at least two points.
    InsufficientPoints,
    /// An array option is not as long as the points.
    DimensionMismatch(DimensionMismatch),
    /// The exclusions are not all of one profile.
    DifferentExcludeTypes,
    /// A radius is negative.
    NegativeRadius,
    /// The list of waypoint indices is given and empty.
    EmptyWaypoints,
    /// A waypoint index, the first field, is not below the number of
    /// points, the second.
    WaypointIndexOutOfBounds(usize, usize),
}

impl RouteRequestError {
    /// The error in words.
    pub open spec fn text(self) -> Seq<char> {
        match self {
            RouteRequestError::InsufficientPoints => "Route requires at least 2 points"@,
            RouteRequestError::DimensionMismatch(d) =>
                "Mismatch of dimensions between Points and "@
                    + d.name(),
            RouteRequestError::DifferentExcludeTypes =>
                "Exclude types are not all of the same type"@,
            RouteRequestError::NegativeRadius => "Radii must be non-negative"@,
            RouteRequestError::EmptyWaypoints =>
                "Waypoints when non-None must have non-zero length"@,
            RouteRequestError::WaypointIndexOutOfBounds(index, length) =>
                "Waypoints contain index "@
                    + decimal(index as nat)
                    + " which is out of bounds for points with size "@
                    + decimal(length as nat),
        }
    }

    /// The error in words, naming the option or the index at fault.
    pub fn message(&self) -> (res: String)
        ensures
            res@ == self.text(),
    {
        match self {
            RouteRequestError::InsufficientPoints => String::from_str(
                "Route requires at least 2 points",
            ),
            RouteRequestError::DimensionMismatch(d) => {
                let mut s = String::from_str("Mismatch of dimensions between Points and ");
                s.append(d.as_str());
                s
            },
            RouteRequestError::DifferentExcludeTypes => String::from_str(
                "Exclude types are not all of the same type",
            ),
            RouteRequestError::NegativeRadius => String::from_str("Radii must be non-negative"),
            RouteRequestError::EmptyWaypoints => String::from_str(
                "Waypoints when non-None must have non-zero length",
            ),
            RouteRequestError::WaypointIndexOutOfBounds(index, length) => {
                let mut s = String::from_str("Waypoints contain index ");
                push_decimal(&mut s, *index as u128);
                s.append(" which is out of bounds for points with size ");
                push_decimal(&mut s, *length as u128);
                s
            },
        }
    }
}

/// What a route request asks for: the points and every option, as mathematical
/// values.
pub struct RouteOptions {
    pub points: Seq<Point>,
    pub alternatives: bool,
    pub steps: bool,
    pub geometry: GeometryType,
    pub overview: OverviewZoom,
    pub annotations: bool,
    pub continue_straight: bool,
    pub waypoints: Option<Seq<usize>>,
    pub bearings: Option<Seq<Option<Bearing>>>,
    pub radiuses: Option<Seq<Option<i64>>>,
    pub generate_hints: bool,
    pub hints: Option<Seq<Option<Seq<char>>>>,
    pub approaches: Option<Seq<Approach>>,
    pub exclude: Option<Seq<Exclude>>,
    pub snapping: Option<Snapping>,
    pub skip_waypoints: bool,
}

impl RouteOptions {
    /// The options of a builder on which nothing has been set.
    pub open spec fn defaults(points: Seq<Point>) -> RouteOptions {
        RouteOptions {
            points,
            alternatives: false,
            steps: false,
            geometry: GeometryType::Polyline,
            overview: OverviewZoom::Simplified,
            annotations: false,
            continue_straight: true,
            waypoints: None,
            bearings: None,
            radiuses: None,
            generate_hints: true,
            hints: None,
            approaches: None,
            exclude: None,
            snapping: None,
            skip_waypoints: false,
        }
    }

    /// The first rule that the options break, in the order in which the rules
    /// are checked, or `None` where they break none.
    pub open spec fn first_error(self) -> Option<RouteRequestError> {
        let n = self.points.len();
        if n < 2 {
            Some(RouteRequestError::InsufficientPoints)
        } else if self.waypoints matches Some(w) && w.len() == 0 {
            Some(RouteRequestError::EmptyWaypoints)
        } else if self.waypoints matches Some(w) && greatest(w) >= n {
            Some(
                RouteRequestError::WaypointIndexOutOfBounds(
                    greatest(self.waypoints.unwrap()) as usize,
                    n as usize,
                ),
            )
        } else if !fits(self.bearings, n) {
            Some(RouteRequestError::DimensionMismatch(DimensionMismatch::Bearings))
        } else if !fits(self.radiuses, n) {
            Some(RouteRequestError::DimensionMismatch(DimensionMismatch::Radiuses))
        } else if self.radiuses matches Some(r) && !radiuses_non_negative(r) {
            Some(RouteRequestError::NegativeRadius)
        } else if !fits(self.hints, n) {
            Some(RouteRequestError::DimensionMismatch(DimensionMismatch::Hints))
        } else if !fits(self.approaches, n) {
            Some(RouteRequestError::DimensionMismatch(DimensionMismatch::Approaches))
        } else if self.exclude matches Some(e) && !one_profile(e) {
            Some(RouteRequestError::DifferentExcludeTypes)
        } else {
            None
        }
    }

    /// Whether the options break no rule.
    pub open spec fn valid(self) -> bool {
        self.first_error() is None
    }
}

/// A request to the route service. Made by [`RouteRequestBuilder::build`]
/// alone, which lets none through that breaks a rule.
#[derive(Clone, Copy, Debug)]
pub struct RouteRequest<'a> {
    points: &'a [Point],
    alternatives: bool,
    steps: bool,
    geometry: GeometryType,
    overview: OverviewZoom,
    annotations: bool,
    continue_straight: bool,
    waypoints: Option<&'a [usize]>,
    bearings: Option<&'a [Option<Bearing>]>,
    radiuses: Option<&'a [Option<i64>]>,
    generate_hints: bool,
    hints: Option<&'a [Option<&'a str>]>,
    approaches: Option<&'a [Approach]>,
    exclude: Option<&'a [Exclude]>,
    snapping: Option<Snapping>,
    skip_waypoints: bool,
}

impl<'a> View for RouteRequest<'a> {
    type V = RouteOptions;

    closed spec fn view(&self) -> RouteOptions {
        RouteOptions {
            points: self.points@,
            alternatives: self.alternatives,
            steps: self.steps,
            geometry: self.geometry,
            overview: self.overview,
            annotations: self.annotations,
            continue_straight: self.continue_straight,
            waypoints: optional_seq(self.waypoints),
            bearings: optional_seq(self.bearings),
            radiuses: optional_seq(self.radiuses),
            generate_hints: self.generate_hints,
            hints: optional_hint_texts(self.hints),
            approaches: optional_seq(self.approaches),
            exclude: optional_seq(self.exclude),
            snapping: self.snapping,
            skip_waypoints: self.skip_waypoints,
        }
    }
}

impl<'a> RouteRequest<'a> {
    #[verifier::type_invariant]
    spec fn well_formed(self) -> bool {
        self@.valid()
    }

    /// The points of the request, in order.
    pub fn points(&self) -> (res: &'a [Point])
        ensures
            res@ == self@.points,
            self@.valid(),
    {
        proof {
            use_type_invariant(self);
        }
        self.points
    }

    /// Whether the response holds alternative routes beside the best one.
    pub fn alternatives(&self) -> (res: bool)
        ensures
            res == self@.alternatives,
    {
        self.alternatives
    }

    /// Whether the response holds the steps of each leg.
    pub fn steps(&self) -> (res: bool)
        ensures
            res == self@.steps,
    {
        self.steps
    }

    /// The encoding of the geometry in the response.
    pub fn geometry(&self) -> (res: GeometryType)
        ensures
            res == self@.geometry,
    {
        self.geometry
    }

    /// The level of detail of the overview geometry.
    pub fn overview(&self) -> (res: OverviewZoom)
        ensures
            res == self@.overview,
    {
        self.overview
    }

    /// Whether the response holds annotations for each segment.
    pub fn annotations(&self) -> (res: bool)
        ensures
            res == self@.annotations,
    {
        self.annotations
    }

    /// Whether the route goes straight on at a waypoint where it can, in place
    /// of turning back.
    pub fn continue_straight(&self) -> (res: bool)
        ensures
            res == self@.continue_straight,
    {
        self.continue_straight
    }

    /// The indices of the points that are waypoints; the other points only
    /// shape the path.
    pub fn waypoints(&self) -> (res: Option<&'a [usize]>)
        ensures
            optional_seq(res) == self@.waypoints,
    {
        self.waypoints
    }

    /// For each point the directions in which it may be snapped; `None` admits
    /// every direction.
    pub fn bearings(&self) -> (res: Option<&'a [Option<Bearing>]>)
        ensures
            optional_seq(res) == self@.bearings,
    {
        self.bearings
    }

    /// For each point the distance, in millionths of a metre, within which it
    /// may be snapped; `None` sets no limit.
    pub fn radiuses(&self) -> (res: Option<&'a [Option<i64>]>)
        ensures
            optional_seq(res) == self@.radiuses,
    {
        self.radiuses
    }

    /// Whether the response holds hints for later requests.
    pub fn generate_hints(&self) -> (res: bool)
        ensures
            res == self@.generate_hints,
    {
        self.generate_hints
    }

    /// For each point a hint from an earlier response, which the engine uses in
    /// place of snapping the point again.
    pub fn hints(&self) -> (res: Option<&'a [Option<&'a str>]>)
        ensures
            optional_hint_texts(res) == self@.hints,
    {
        self.hints
    }

    /// For each point the side of the road from which it is reached.
    pub fn approaches(&self) -> (res: Option<&'a [Approach]>)
        ensures
            optional_seq(res) == self@.approaches,
    {
        self.approaches
    }

    /// The road classes to leave out, all of one profile.
    pub fn exclude(&self) -> (res: Option<&'a [Exclude]>)
        ensures
            optional_seq(res) == self@.exclude,
    {
        self.exclude
    }

    /// Which segments the points may be snapped to.
    pub fn snapping(&self) -> (res: Option<Snapping>)
        ensures
            res == self@.snapping,
    {
        self.snapping
    }

    /// Whether the response leaves out the waypoints.
    pub fn skip_waypoints(&self) -> (res: bool)
        ensures
            res == self@.skip_waypoints,
    {
        self.skip_waypoints
    }

}

/// Collects the options of a route request and checks them. Each of `bearings`,
/// `radiuses`, `hints` and `approaches` holds one entry for each point.
#[derive(Clone, Copy, Debug)]
pub struct RouteRequestBuilder<'a> {
    points: &'a [Point],
    alternatives: bool,
    steps: bool,
    geometry: GeometryType,
    overview: OverviewZoom,
    annotations: bool,
    continue_straight: bool,
    waypoints: Option<&'a [usize]>,
    bearings: Option<&'a [Option<Bearing>]>,
    radiuses: Option<&'a [Option<i64>]>,
    generate_hints: bool,
    hints: Option<&'a [Option<&'a str>]>,
    approaches: Option<&'a [Approach]>,
    exclude: Option<&'a [Exclude]>,
    snapping: Option<Snapping>,
    skip_waypoints: bool,
}

impl<'a> View for RouteRequestBuilder<'a> {
    type V = RouteOptions;

    closed spec fn view(&self) -> RouteOptions {
        RouteOptions {
            points: self.points@,
            alternatives: self.alternatives,
            steps: self.steps,
            geometry: self.geometry,
            overview: self.overview,
            annotations: self.annotations,
            continue_straight: self.continue_straight,
            waypoints: optional_seq(self.waypoints),
            bearings: optional_seq(self.bearings),
            radiuses: optional_seq(self.radiuses),
            generate_hints: self.generate_hints,
            hints: optional_hint_texts(self.hints),
            approaches: optional_seq(self.approaches),
            exclude: optional_seq(self.exclude),
            snapping: self.snapping,
            skip_waypoints: self.skip_waypoints,
        }
    }
}

impl<'a> RouteRequestBuilder<'a> {
    /// A builder with the given points and every option at its default.
    pub fn new(points: &'a [Point]) -> (res: Self)
        ensures
            res@ == RouteOptions::defaults(points@),
    {
        Self {
            points,
            alternatives: false,
            steps: false,
            geometry: GeometryType::Polyline,
            overview: OverviewZoom::Simplified,
            annotations: false,
            continue_straight: true,
            waypoints: None,
            bearings: None,
            radiuses: None,
            generate_hints: true,
            hints: None,
            approaches: None,
            exclude: None,
            snapping: None,
            skip_waypoints: false,
        }
    }

    /// Replaces the points, keeping the options.
    pub fn points(self, points: &'a [Point]) -> (res: Self)
        ensures
            res@ == (RouteOptions { points: points@, ..self@ }),
    {
        let mut b = self;
        b.points = points;
        b
    }

    /// Whether the response holds alternative routes beside the best one.
    pub fn alternatives(self, generate_alternatives: bool) -> (res: Self)
        ensures
            res@ == (RouteOptions { alternatives: generate_alternatives, ..self@ }),
    {
        let mut b = self;
        b.alternatives = generate_alternatives;
        b
    }

    /// Whether the response holds the steps of each leg.
    pub fn steps(self, generate_steps: bool) -> (res: Self)
        ensures
            res@ == (RouteOptions { steps: generate_steps, ..self@ }),
    {
        let mut b = self;
        b.steps = generate_steps;
        b
    }

    /// The encoding of the geometry in the response.
    pub fn geometry(self, geometry_type: GeometryType) -> (res: Self)
        ensures
            res@ == (RouteOptions { geometry: geometry_type, ..self@ }),
    {
        let mut b = self;
        b.geometry = geometry_type;
        b
    }

    /// The level of detail of the overview geometry.
    pub fn overview(self, overview_detail: OverviewZoom) -> (res: Self)
        ensures
            res@ == (RouteOptions { overview: overview_detail, ..self@ }),
    {
        let mut b = self;
        b.overview = overview_detail;
        b
    }

    /// Whether the response holds annotations for each segment.
    pub fn annotations(self, include_annotations: bool) -> (res: Self)
        ensures
            res@ == (RouteOptions { annotations: include_annotations, ..self@ }),
    {
        let mut b = self;
        b.annotations = include_annotations;
        b
    }

    /// Whether the route goes straight on at a waypoint where it can, in place
    /// of turning back.
    pub fn continue_straight(self, prefer_continue_straight: bool) -> (res: Self)
        ensures
            res@ == (RouteOptions { continue_straight: prefer_continue_straight, ..self@ }),
    {
        let mut b = self;
        b.continue_straight = prefer_continue_straight;
        b
    }

    /// The indices of the points that are waypoints; the other points only
    /// shape the path.
    pub fn waypoints(self, waypoint_indices: &'a [usize]) -> (res: Self)
        ensures
            res@ == (RouteOptions { waypoints: Some(waypoint_indices@), ..self@ }),
    {
        let mut b = self;
        b.waypoints = Some(waypoint_indices);
        b
    }

    /// For each point the directions in which it may be snapped; `None` admits
    /// every direction.
    pub fn bearings(self, bearings: &'a [Option<Bearing>]) -> (res: Self)
        ensures
            res@ == (RouteOptions { bearings: Some(bearings@), ..self@ }),
    {
        let mut b = self;
        b.bearings = Some(bearings);
        b
    }

    /// For each point the distance, in millionths of a metre, within which it
    /// may be snapped; `None` sets no limit.
    pub fn radiuses(self, coordinate_radiuses: &'a [Option<i64>]) -> (res: Self)
        ensures
            res@ == (RouteOptions { radiuses: Some(coordinate_radiuses@), ..self@ }),
    {
        let mut b = self;
        b.radiuses = Some(coordinate_radiuses);
        b
    }

    /// Whether the response holds hints for later requests.
    pub fn generate_hints(self, generate_hints: bool) -> (res: Self)
        ensures
            res@ == (RouteOptions { generate_hints, ..self@ }),
    {
        let mut b = self;
        b.generate_hints = generate_hints;
        b
    }

    /// For each point a hint from an earlier response, which the engine uses in
    /// place of snapping the point again.
    pub fn hints(self, coordinate_hints: &'a [Option<&'a str>]) -> (res: Self)
        ensures
            res@ == (RouteOptions { hints: optional_hint_texts(Some(coordinate_hints)), ..self@ }),
    {
        let mut b = self;
        b.hints = Some(coordinate_hints);
        b
    }

    /// For each point the side of the road from which it is reached.
    pub fn approaches(self, approach_direction: &'a [Approach]) -> (res: Self)
        ensures
            res@ == (RouteOptions { approaches: Some(approach_direction@), ..self@ }),
    {
        let mut b = self;
        b.approaches = Some(approach_direction);
        b
    }

    /// The road classes to leave out, all of one profile.
    pub fn exclude(self, exclude: &'a [Exclude]) -> (res: Self)
        ensures
            res@ == (RouteOptions { exclude: Some(exclude@), ..self@ }),
    {
        let mut b = self;
        b.exclude = Some(exclude);
        b
    }

    /// Which segments the points may be snapped to.
    pub fn snapping(self, snapping: Snapping) -> (res: Self)
        ensures
            res@ == (RouteOptions { snapping: Some(snapping), ..self@ }),
    {
        let mut b = self;
        b.snapping = Some(snapping);
        b
    }

    /// Whether the response leaves out the waypoints.
    pub fn skip_waypoints(self, skip_waypoints: bool) -> (res: Self)
        ensures
            res@ == (RouteOptions { skip_waypoints, ..self@ }),
    {
        let mut b = self;
        b.skip_waypoints = skip_waypoints;
        b
    }

    /// Whether `res` is what building comes to: a request for exactly the
    /// options of the builder where they break no rule, and else the first rule
    /// that they break.
    pub open spec fn builds(&self, res: Result<RouteRequest<'a>, RouteRequestError>) -> bool {
        match res {
            Ok(request) => self@.first_error() is None && request@ == self@,
            Err(e) => self@.first_error() == Some(e),
        }
    }

    /// The first rule that the options break, or `None` where they break none.
    fn first_violation(&self) -> (res: Option<RouteRequestError>)
        ensures
            res == self@.first_error(),
    {
        let n = self.points.len();
        if n < 2 {
            return Some(RouteRequestError::InsufficientPoints);
        }
        if let Some(waypoints) = self.waypoints {
            if waypoints.len() == 0 {
                return Some(RouteRequestError::EmptyWaypoints);
            }
            let max_idx = greatest_index(waypoints);
            if max_idx >= n {
                return Some(RouteRequestError::WaypointIndexOutOfBounds(max_idx, n));
            }
        }
        if let Some(bearings) = self.bearings {
            if bearings.len() != n {
                return Some(RouteRequestError::DimensionMismatch(DimensionMismatch::Bearings));
            }
        }
        if let Some(radiuses) = self.radiuses {
            if radiuses.len() != n {
                return Some(RouteRequestError::DimensionMismatch(DimensionMismatch::Radiuses));
            }
            if !radiuses_are_non_negative(radiuses) {
                return Some(RouteRequestError::NegativeRadius);
            }
        }
        if let Some(hints) = self.hints {
            if hints.len() != n {
                return Some(RouteRequestError::DimensionMismatch(DimensionMismatch::Hints));
            }
        }
        if let Some(approaches) = self.approaches {
            if approaches.len() != n {
                return Some(RouteRequestError::DimensionMismatch(DimensionMismatch::Approaches));
            }
        }
        if let Some(exclude) = self.exclude {
            if !excludes_share_profile(exclude) {
                return Some(RouteRequestError::DifferentExcludeTypes);
            }
        }
        None
    }

    /// Checks the options and makes the request, or returns the first rule that
    /// they break.
    pub fn build(&self) -> (res: Result<RouteRequest<'a>, RouteRequestError>)
        ensures
            self.builds(res),
    {
        if let Some(e) = self.first_violation() {
            return Err(e);
        }
        Ok(
            RouteRequest {
                points: self.points,
                alternatives: self.alternatives,
                steps: self.steps,
                geometry: self.geometry,
                overview: self.overview,
                annotations: self.annotations,
                continue_straight: self.continue_straight,
                waypoints: self.waypoints,
                bearings: self.bearings,
                radiuses: self.radiuses,
                generate_hints: self.generate_hints,
                hints: self.hints,
                approaches: self.approaches,
                exclude: self.exclude,
                snapping: self.snapping,
                skip_waypoints: self.skip_waypoints,
            },
        )
    }
}

/// With fewer than two points the options break the rule on the number of
/// points, whatever else they hold.
pub proof fn lemma_insufficient_points(q: RouteOptions)
    requires
        q.points.len() < 2,
    ensures
        q.first_error() == Some(RouteRequestError::InsufficientPoints),
{
}

/// A dimension mismatch names an array option that is set and is not as
/// long as the points; and options that break no rule hold no such array.
pub proof fn lemma_mismatch_names_option(q: RouteOptions)
    ensures
        q.first_error() == Some(RouteRequestError::DimensionMismatch(DimensionMismatch::Bearings))
            ==> q.bearings is Some && q.bearings.unwrap().len() != q.points.len(),
        q.first_error() == Some(RouteRequestError::DimensionMismatch(DimensionMismatch::Radiuses))
            ==> q.radiuses is Some && q.radiuses.unwrap().len() != q.points.len(),
        q.first_error() == Some(RouteRequestError::DimensionMismatch(DimensionMismatch::Hints))
            ==> q.hints is Some && q.hints.unwrap().len() != q.points.len(),
        q.first_error() == Some(RouteRequestError::DimensionMismatch(DimensionMismatch::Approaches))
            ==> q.approaches is Some && q.approaches.unwrap().len() != q.points.len(),
        q.valid() ==> q.points.len() >= 2 && fits(q.bearings, q.points.len()) && fits(
            q.radiuses,
            q.points.len(),
        ) && fits(q.hints, q.points.len()) && fits(q.approaches, q.points.len()),
{
}

/// One array option added to options that break no rule gives the
/// dimension mismatch that names it where its length differs from that of
/// the points, and no error where it does not.
pub proof fn lemma_one_array_option(
    points: Seq<Point>,
    bearings: Seq<Option<Bearing>>,
    hints: Seq<Option<Seq<char>>>,
    approaches: Seq<Approach>,
)
    requires
        points.len() >= 2,
    ensures
        (RouteOptions {
            bearings: Some(bearings),
            ..RouteOptions::defaults(points)
        }).first_error() == if bearings.len() == points.len() {
            None
        } else {
            Some(RouteRequestError::DimensionMismatch(DimensionMismatch::Bearings))
        },
        (RouteOptions {
            hints: Some(hints),
            ..RouteOptions::defaults(points)
        }).first_error() == if hints.len() == points.len() {
            None
        } else {
            Some(RouteRequestError::DimensionMismatch(DimensionMismatch::Hints))
        },
        (RouteOptions {
            approaches: Some(approaches),
            ..RouteOptions::defaults(points)
        }).first_error() == if approaches.len() == points.len() {
            None
        } else {
            Some(RouteRequestError::DimensionMismatch(DimensionMismatch::Approaches))
        },
{
}

/// Radiuses added to options that break no rule give a dimension mismatch
/// where they are not as many as the points, the error of a negative
/// radius where they are and one of them is negative, and else no error.
pub proof fn lemma_radiuses_alone(points: Seq<Point>, radiuses: Seq<Option<i64>>)
    requires
        points.len() >= 2,
    ensures
        (RouteOptions {
            radiuses: Some(radiuses),
            ..RouteOptions::defaults(points)
        }).first_error() == if radiuses.len() != points.len() {
            Some(RouteRequestError::DimensionMismatch(DimensionMismatch::Radiuses))
        } else if !radiuses_non_negative(radiuses) {
            Some(RouteRequestError::NegativeRadius)
        } else {
            None
        },
{
}

/// Exclusions added to options that break no rule give the error of
/// different exclude types exactly where they are not all of one profile.
pub proof fn lemma_exclude_alone(points: Seq<Point>, exclude: Seq<Exclude>)
    requires
        points.len() >= 2,
    ensures
        (RouteOptions {
            exclude: Some(exclude),
            ..RouteOptions::defaults(points)
        }).first_error() == if one_profile(exclude) {
            None
        } else {
            Some(RouteRequestError::DifferentExcludeTypes)
        },
{
}

/// Building twice from one builder comes to the same: either two requests
/// that ask for the same, or twice the same error.
pub proof fn lemma_build_repeats<'a>(
    builder: RouteRequestBuilder<'a>,
    first: Result<RouteRequest<'a>, RouteRequestError>,
    second: Result<RouteRequest<'a>, RouteRequestError>,
)
    requires
        builder.builds(first),
        builder.builds(second),
    ensures
        match (first, second) {
            (Ok(a), Ok(b)) => a@ == b@,
            (Err(a), Err(b)) => a == b,
            _ => false,
        },
{
}

/// Two points or more and every option at its default break no rule.
pub proof fn lemma_two_points_suffice(points: Seq<Point>)
    requires
        points.len() >= 2,
    ensures
        RouteOptions::defaults(points).first_error() is None,
{
}

/// What the route service answers.
#[derive(Clone, Debug)]
pub struct RouteResponse {
    /// `"Ok"` on success; `"NoRoute"` where the points are not connected.
    pub code: String,
    /// The routes, the best first.
    pub routes: Vec<Route>,
    /// The points as snapped, in order; `None` where the request skipped
    /// them.
    pub waypoints: Option<Vec<Waypoint>>,
}

/// What a route between two points comes to.
#[derive(Clone, Debug)]
pub struct SimpleRouteResponse {
    pub code: String,
    /// The travel time, in millionths of a second.
    pub durations: i128,
    /// The distance, in millionths of a metre.
    pub distance: i128,
}

/// The distances of the legs, added up.
pub open spec fn total_distance(legs: Seq<RouteLeg>) -> int
    decreases legs.len(),
{
    if legs.len() == 0 {
        0
    } else {
        total_distance(legs.drop_last()) + legs.last().distance
    }
}

/// The durations of the legs, added up.
pub open spec fn total_duration(legs: Seq<RouteLeg>) -> int
    decreases legs.len(),
{
    if legs.len() == 0 {
        0
    } else {
        total_duration(legs.drop_last()) + legs.last().duration
    }
}

impl SimpleRouteResponse {
    /// What the best route of a response comes to: its code, and the
    /// distances and the durations of its legs added up. A response
    /// without a route is an empty response.
    pub fn summarise(response: &RouteResponse) -> (res: Result<SimpleRouteResponse, OsrmError>)
        ensures
            match res {
                Ok(simple) => response.routes@.len() > 0 && simple.code@ == response.code@
                    && simple.distance == total_distance(response.routes@[0].legs@)
                    && simple.durations == total_duration(response.routes@[0].legs@),
                Err(e) => response.routes@.len() == 0 && (e matches OsrmError::EmptyResponse(m)
                    && m@ == "No route was returned between those 2 points"@),
            },
    {
        if response.routes.len() == 0 {
            return Err(
                OsrmError::EmptyResponse(
                    String::from_str("No route was returned between those 2 points"),
                ),
            );
        }
        let legs = &response.routes[0].legs;
        let mut distance: i128 = 0;
        let mut durations: i128 = 0;
        let mut i: usize = 0;
        while i < legs.len()
            invariant
                i <= legs.len(),
                distance == total_distance(legs@.take(i as int)),
                durations == total_duration(legs@.take(i as int)),
                -(i * 0x8000_0000_0000_0000) <= distance <= i * 0x8000_0000_0000_0000,
                -(i * 0x8000_0000_0000_0000) <= durations <= i * 0x8000_0000_0000_0000,
            decreases legs.len() - i,
        {
            proof {
                assert(legs@.take(i + 1).drop_last() =~= legs@.take(i as int));
            }
            distance = distance + legs[i].distance as i128;
            durations = durations + legs[i].duration as i128;
            i += 1;
        }
        proof {
            assert(legs@.take(i as int) =~= legs@);
        }
        Ok(SimpleRouteResponse { code: response.code.clone(), distance, durations })
    }
}

} // verus!

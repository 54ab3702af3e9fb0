//! Given coordinates in no particular order, find a short round through all
//! of them.

use crate::osrm_response_types::{Route, TripWaypoint};
use crate::request_types::{Bearing, Exclude, GeometryType, OverviewZoom, Snapping};
use crate::services::{
    excludes_share_profile, fits, greatest, greatest_index, one_profile, optional_hint_texts,
    optional_seq, radiuses_are_non_negative, radiuses_non_negative, Approach, DimensionMismatch,
};
use crate::text::{decimal, push_decimal};
use crate::Point;
use vstd::prelude::*;
use vstd::string::StringExecFns;

verus! {

/// Why a trip request cannot be built.
#[derive(Clone, Copy, Debug, PartialEq, Eq, Structural)]
pub enum TripRequestError {
    /// A trip needs at least two points.
    InsufficientPoints,
    /// An array option is not as long as the points.
    DimensionMismatch(DimensionMismatch),
    /// The exclusions are not all of one profile.
    DifferentExcludeTypes,
    /// A radius is negative.
    NegativeRadius,
    /// The list of waypoint indices is given and empty.
    EmptyWaypoints,
    /// A waypoint index, the first field, is not below the number of
    /// points, the second.
    WaypointIndexOutOfBounds(usize, usize),
}

impl TripRequestError {
    /// The error in words.
    pub open spec fn text(self) -> Seq<char> {
        match self {
            TripRequestError::InsufficientPoints => "Trip requires at least 2 points"@,
            TripRequestError::DimensionMismatch(d) =>
                "Mismatch of dimensions between Points and "@
                    + d.name(),
            TripRequestError::DifferentExcludeTypes =>
                "Exclude types are not all of the same type"@,
            TripRequestError::NegativeRadius => "Radii must be non-negative"@,
            TripRequestError::EmptyWaypoints =>
                "Waypoints when non-None must have non-zero length"@,
            TripRequestError::WaypointIndexOutOfBounds(index, length) =>
                "Waypoints contain index "@
                    + decimal(index as nat)
                    + " which is out of bounds for points with size "@
                    + decimal(length as nat),
        }
    }

    /// The error in words, naming the option or the index at fault.
    pub fn message(&self) -> (res: String)
        ensures
            res@ == self.text(),
    {
        match self {
            TripRequestError::InsufficientPoints => String::from_str(
                "Trip requires at least 2 points",
            ),
            TripRequestError::DimensionMismatch(d) => {
                let mut s = String::from_str("Mismatch of dimensions between Points and ");
                s.append(d.as_str());
                s
            },
            TripRequestError::DifferentExcludeTypes => String::from_str(
                "Exclude types are not all of the same type",
            ),
            TripRequestError::NegativeRadius => String::from_str("Radii must be non-negative"),
            TripRequestError::EmptyWaypoints => String::from_str(
                "Waypoints when non-None must have non-zero length",
            ),
            TripRequestError::WaypointIndexOutOfBounds(index, length) => {
                let mut s = String::from_str("Waypoints contain index ");
                push_decimal(&mut s, *index as u128);
                s.append(" which is out of bounds for points with size ");
                push_decimal(&mut s, *length as u128);
                s
            },
        }
    }
}

/// Where a trip may start.
#[derive(Clone, Copy, Debug, PartialEq, Eq, Structural)]
pub enum TripSource {
    /// At any of the points.
    Any,
    /// At the first point.
    First,
}

impl TripSource {
    /// The variant as a query writes it.
    pub open spec fn url_text(self) -> Seq<char> {
        match self {
            TripSource::Any => "any"@,
            TripSource::First => "first"@,
        }
    }

    /// The variant in lower case: `"any"` or `"first"`.
    pub fn url_form(&self) -> (s: &'static str)
        ensures
            s@ == self.url_text(),
    {
        match self {
            TripSource::Any => "any",
            TripSource::First => "first",
        }
    }
}

/// Where a trip may end.
#[derive(Clone, Copy, Debug, PartialEq, Eq, Structural)]
pub enum TripDestination {
    /// At any of the points.
    Any,
    /// At the last point.
    Last,
}

impl TripDestination {
    /// The variant as a query writes it.
    pub open spec fn url_text(self) -> Seq<char> {
        match self {
            TripDestination::Any => "any"@,
            TripDestination::Last => "last"@,
        }
    }

    /// The variant in lower case: `"any"` or `"last"`.
    pub fn url_form(&self) -> (s: &'static str)
        ensures
            s@ == self.url_text(),
    {
        match self {
            TripDestination::Any => "any",
            TripDestination::Last => "last",
        }
    }
}

/// What a trip request asks for: the points and every option, as mathematical
/// values.
pub struct TripOptions {
    pub points: Seq<Point>,
    pub roundtrip: bool,
    pub source: TripSource,
    pub destination: TripDestination,
    pub steps: bool,
    pub annotations: bool,
    pub geometry: GeometryType,
    pub overview: OverviewZoom,
    pub waypoints: Option<Seq<usize>>,
    pub bearings: Option<Seq<Option<Bearing>>>,
    pub radiuses: Option<Seq<Option<i64>>>,
    pub generate_hints: bool,
    pub hints: Option<Seq<Option<Seq<char>>>>,
    pub approaches: Option<Seq<Approach>>,
    pub exclude: Option<Seq<Exclude>>,
    pub snapping: Option<Snapping>,
    pub skip_waypoints: bool,
}

impl TripOptions {
    /// The options of a builder on which nothing has been set.
    pub open spec fn defaults(points: Seq<Point>) -> TripOptions {
        TripOptions {
            points,
            roundtrip: true,
            source: TripSource::Any,
            destination: TripDestination::Any,
            steps: false,
            annotations: false,
            geometry: GeometryType::Polyline,
            overview: OverviewZoom::False,
            waypoints: None,
            bearings: None,
            radiuses: None,
            generate_hints: true,
            hints: None,
            approaches: None,
            exclude: None,
            snapping: None,
            skip_waypoints: false,
        }
    }

    /// The first rule that the options break, in the order in which the rules
    /// are checked, or `None` where they break none.
    pub open spec fn first_error(self) -> Option<TripRequestError> {
        let n = self.points.len();
        if n < 2 {
            Some(TripRequestError::InsufficientPoints)
        } else if self.waypoints matches Some(w) && w.len() == 0 {
            Some(TripRequestError::EmptyWaypoints)
        } else if self.waypoints matches Some(w) && greatest(w) >= n {
            Some(
                TripRequestError::WaypointIndexOutOfBounds(
                    greatest(self.waypoints.unwrap()) as usize,
                    n as usize,
                ),
            )
        } else if !fits(self.bearings, n) {
            Some(TripRequestError::DimensionMismatch(DimensionMismatch::Bearings))
        } else if !fits(self.radiuses, n) {
            Some(TripRequestError::DimensionMismatch(DimensionMismatch::Radiuses))
        } else if self.radiuses matches Some(r) && !radiuses_non_negative(r) {
            Some(TripRequestError::NegativeRadius)
        } else if !fits(self.hints, n) {
            Some(TripRequestError::DimensionMismatch(DimensionMismatch::Hints))
        } else if !fits(self.approaches, n) {
            Some(TripRequestError::DimensionMismatch(DimensionMismatch::Approaches))
        } else if self.exclude matches Some(e) && !one_profile(e) {
            Some(TripRequestError::DifferentExcludeTypes)
        } else {
            None
        }
    }

    /// Whether the options break no rule.
    pub open spec fn valid(self) -> bool {
        self.first_error() is None
    }
}

/// A request to the trip service. Made by [`TripRequestBuilder::build`] alone,
/// which lets none through that breaks a rule.
#[derive(Clone, Copy, Debug)]
pub struct TripRequest<'a> {
    points: &'a [Point],
    roundtrip: bool,
    source: TripSource,
    destination: TripDestination,
    steps: bool,
    annotations: bool,
    geometry: GeometryType,
    overview: OverviewZoom,
    waypoints: Option<&'a [usize]>,
    bearings: Option<&'a [Option<Bearing>]>,
    radiuses: Option<&'a [Option<i64>]>,
    generate_hints: bool,
    hints: Option<&'a [Option<&'a str>]>,
    approaches: Option<&'a [Approach]>,
    exclude: Option<&'a [Exclude]>,
    snapping: Option<Snapping>,
    skip_waypoints: bool,
}

impl<'a> View for TripRequest<'a> {
    type V = TripOptions;

    closed spec fn view(&self) -> TripOptions {
        TripOptions {
            points: self.points@,
            roundtrip: self.roundtrip,
            source: self.source,
            destination: self.destination,
            steps: self.steps,
            annotations: self.annotations,
            geometry: self.geometry,
            overview: self.overview,
            waypoints: optional_seq(self.waypoints),
            bearings: optional_seq(self.bearings),
            radiuses: optional_seq(self.radiuses),
            generate_hints: self.generate_hints,
            hints: optional_hint_texts(self.hints),
            approaches: optional_seq(self.approaches),
            exclude: optional_seq(self.exclude),
            snapping: self.snapping,
            skip_waypoints: self.skip_waypoints,
        }
    }
}

impl<'a> TripRequest<'a> {
    #[verifier::type_invariant]
    spec fn well_formed(self) -> bool {
        self@.valid()
    }

    /// The points of the request, in order.
    pub fn points(&self) -> (res: &'a [Point])
        ensures
            res@ == self@.points,
            self@.valid(),
    {
        proof {
            use_type_invariant(self);
        }
        self.points
    }

    /// Whether the trip returns to where it started.
    pub fn roundtrip(&self) -> (res: bool)
        ensures
            res == self@.roundtrip,
    {
        self.roundtrip
    }

    /// Where the trip may start.
    pub fn source(&self) -> (res: TripSource)
        ensures
            res == self@.source,
    {
        self.source
    }

    /// Where the trip may end.
    pub fn destination(&self) -> (res: TripDestination)
        ensures
            res == self@.destination,
    {
        self.destination
    }

    /// Whether the response holds the steps of each leg.
    pub fn steps(&self) -> (res: bool)
        ensures
            res == self@.steps,
    {
        self.steps
    }

    /// Whether the response holds annotations for each segment.
    pub fn annotations(&self) -> (res: bool)
        ensures
            res == self@.annotations,
    {
        self.annotations
    }

    /// The encoding of the geometry in the response.
    pub fn geometry(&self) -> (res: GeometryType)
        ensures
            res == self@.geometry,
    {
        self.geometry
    }

    /// The level of detail of the overview geometry.
    pub fn overview(&self) -> (res: OverviewZoom)
        ensures
            res == self@.overview,
    {
        self.overview
    }

    /// The indices of the points that are waypoints; the other points only
    /// shape the path.
    pub fn waypoints(&self) -> (res: Option<&'a [usize]>)
        ensures
            optional_seq(res) == self@.waypoints,
    {
        self.waypoints
    }

    /// For each point the directions in which it may be snapped; `None` admits
    /// every direction.
    pub fn bearings(&self) -> (res: Option<&'a [Option<Bearing>]>)
        ensures
            optional_seq(res) == self@.bearings,
    {
        self.bearings
    }

    /// For each point the distance, in millionths of a metre, within which it
    /// may be snapped; `None` sets no limit.
    pub fn radiuses(&self) -> (res: Option<&'a [Option<i64>]>)
        ensures
            optional_seq(res) == self@.radiuses,
    {
        self.radiuses
    }

    /// Whether the response holds hints for later requests.
    pub fn generate_hints(&self) -> (res: bool)
        ensures
            res == self@.generate_hints,
    {
        self.generate_hints
    }

    /// For each point a hint from an earlier response, which the engine uses in
    /// place of snapping the point again.
    pub fn hints(&self) -> (res: Option<&'a [Option<&'a str>]>)
        ensures
            optional_hint_texts(res) == self@.hints,
    {
        self.hints
    }

    /// For each point the side of the road from which it is reached.
    pub fn approaches(&self) -> (res: Option<&'a [Approach]>)
        ensures
            optional_seq(res) == self@.approaches,
    {
        self.approaches
    }

    /// The road classes to leave out, all of one profile.
    pub fn exclude(&self) -> (res: Option<&'a [Exclude]>)
        ensures
            optional_seq(res) == self@.exclude,
    {
        self.exclude
    }

    /// Which segments the points may be snapped to.
    pub fn snapping(&self) -> (res: Option<Snapping>)
        ensures
            res == self@.snapping,
    {
        self.snapping
    }

    /// Whether the response leaves out the waypoints.
    pub fn skip_waypoints(&self) -> (res: bool)
        ensures
            res == self@.skip_waypoints,
    {
        self.skip_waypoints
    }

}

/// Collects the options of a trip request and checks them. Each of `bearings`,
/// `radiuses`, `hints` and `approaches` holds one entry for each point.
#[derive(Clone, Copy, Debug)]
pub struct TripRequestBuilder<'a> {
    points: &'a [Point],
    roundtrip: bool,
    source: TripSource,
    destination: TripDestination,
    steps: bool,
    annotations: bool,
    geometry: GeometryType,
    overview: OverviewZoom,
    waypoints: Option<&'a [usize]>,
    bearings: Option<&'a [Option<Bearing>]>,
    radiuses: Option<&'a [Option<i64>]>,
    generate_hints: bool,
    hints: Option<&'a [Option<&'a str>]>,
    approaches: Option<&'a [Approach]>,
    exclude: Option<&'a [Exclude]>,
    snapping: Option<Snapping>,
    skip_waypoints: bool,
}

impl<'a> View for TripRequestBuilder<'a> {
    type V = TripOptions;

    closed spec fn view(&self) -> TripOptions {
        TripOptions {
            points: self.points@,
            roundtrip: self.roundtrip,
            source: self.source,
            destination: self.destination,
            steps: self.steps,
            annotations: self.annotations,
            geometry: self.geometry,
            overview: self.overview,
            waypoints: optional_seq(self.waypoints),
            bearings: optional_seq(self.bearings),
            radiuses: optional_seq(self.radiuses),
            generate_hints: self.generate_hints,
            hints: optional_hint_texts(self.hints),
            approaches: optional_seq(self.approaches),
            exclude: optional_seq(self.exclude),
            snapping: self.snapping,
            skip_waypoints: self.skip_waypoints,
        }
    }
}

impl<'a> TripRequestBuilder<'a> {
    /// A builder with the given points and every option at its default.
    pub fn new(points: &'a [Point]) -> (res: Self)
        ensures
            res@ == TripOptions::defaults(points@),
    {
        Self {
            points,
            roundtrip: true,
            source: TripSource::Any,
            destination: TripDestination::Any,
            steps: false,
            annotations: false,
            geometry: GeometryType::Polyline,
            overview: OverviewZoom::False,
            waypoints: None,
            bearings: None,
            radiuses: None,
            generate_hints: true,
            hints: None,
            approaches: None,
            exclude: None,
            snapping: None,
            skip_waypoints: false,
        }
    }

    /// Replaces the points, keeping the options.
    pub fn points(self, points: &'a [Point]) -> (res: Self)
        ensures
            res@ == (TripOptions { points: points@, ..self@ }),
    {
        let mut b = self;
        b.points = points;
        b
    }

    /// Whether the trip returns to where it started.
    pub fn roundtrip(self, roundtrip: bool) -> (res: Self)
        ensures
            res@ == (TripOptions { roundtrip, ..self@ }),
    {
        let mut b = self;
        b.roundtrip = roundtrip;
        b
    }

    /// Where the trip may start.
    pub fn source(self, source: TripSource) -> (res: Self)
        ensures
            res@ == (TripOptions { source, ..self@ }),
    {
        let mut b = self;
        b.source = source;
        b
    }

    /// Where the trip may end.
    pub fn destination(self, destination: TripDestination) -> (res: Self)
        ensures
            res@ == (TripOptions { destination, ..self@ }),
    {
        let mut b = self;
        b.destination = destination;
        b
    }

    /// Whether the response holds the steps of each leg.
    pub fn steps(self, generate_steps: bool) -> (res: Self)
        ensures
            res@ == (TripOptions { steps: generate_steps, ..self@ }),
    {
        let mut b = self;
        b.steps = generate_steps;
        b
    }

    /// Whether the response holds annotations for each segment.
    pub fn annotations(self, include_annotations: bool) -> (res: Self)
        ensures
            res@ == (TripOptions { annotations: include_annotations, ..self@ }),
    {
        let mut b = self;
        b.annotations = include_annotations;
        b
    }

    /// The encoding of the geometry in the response.
    pub fn geometry(self, geometry_type: GeometryType) -> (res: Self)
        ensures
            res@ == (TripOptions { geometry: geometry_type, ..self@ }),
    {
        let mut b = self;
        b.geometry = geometry_type;
        b
    }

    /// The level of detail of the overview geometry.
    pub fn overview(self, overview_detail: OverviewZoom) -> (res: Self)
        ensures
            res@ == (TripOptions { overview: overview_detail, ..self@ }),
    {
        let mut b = self;
        b.overview = overview_detail;
        b
    }

    /// The indices of the points that are waypoints; the other points only
    /// shape the path.
    pub fn waypoints(self, waypoint_indices: &'a [usize]) -> (res: Self)
        ensures
            res@ == (TripOptions { waypoints: Some(waypoint_indices@), ..self@ }),
    {
        let mut b = self;
        b.waypoints = Some(waypoint_indices);
        b
    }

    /// For each point the directions in which it may be snapped; `None` admits
    /// every direction.
    pub fn bearings(self, bearings: &'a [Option<Bearing>]) -> (res: Self)
        ensures
            res@ == (TripOptions { bearings: Some(bearings@), ..self@ }),
    {
        let mut b = self;
        b.bearings = Some(bearings);
        b
    }

    /// For each point the distance, in millionths of a metre, within which it
    /// may be snapped; `None` sets no limit.
    pub fn radiuses(self, coordinate_radiuses: &'a [Option<i64>]) -> (res: Self)
        ensures
            res@ == (TripOptions { radiuses: Some(coordinate_radiuses@), ..self@ }),
    {
        let mut b = self;
        b.radiuses = Some(coordinate_radiuses);
        b
    }

    /// Whether the response holds hints for later requests.
    pub fn generate_hints(self, generate_hints: bool) -> (res: Self)
        ensures
            res@ == (TripOptions { generate_hints, ..self@ }),
    {
        let mut b = self;
        b.generate_hints = generate_hints;
        b
    }

    /// For each point a hint from an earlier response, which the engine uses in
    /// place of snapping the point again.
    pub fn hints(self, coordinate_hints: &'a [Option<&'a str>]) -> (res: Self)
        ensures
            res@ == (TripOptions { hints: optional_hint_texts(Some(coordinate_hints)), ..self@ }),
    {
        let mut b = self;
        b.hints = Some(coordinate_hints);
        b
    }

    /// For each point the side of the road from which it is reached.
    pub fn approaches(self, approach_direction: &'a [Approach]) -> (res: Self)
        ensures
            res@ == (TripOptions { approaches: Some(approach_direction@), ..self@ }),
    {
        let mut b = self;
        b.approaches = Some(approach_direction);
        b
    }

    /// The road classes to leave out, all of one profile.
    pub fn exclude(self, exclude: &'a [Exclude]) -> (res: Self)
        ensures
            res@ == (TripOptions { exclude: Some(exclude@), ..self@ }),
    {
        let mut b = self;
        b.exclude = Some(exclude);
        b
    }

    /// Which segments the points may be snapped to.
    pub fn snapping(self, snapping: Snapping) -> (res: Self)
        ensures
            res@ == (TripOptions { snapping: Some(snapping), ..self@ }),
    {
        let mut b = self;
        b.snapping = Some(snapping);
        b
    }

    /// Whether the response leaves out the waypoints.
    pub fn skip_waypoints(self, skip_waypoints: bool) -> (res: Self)
        ensures
            res@ == (TripOptions { skip_waypoints, ..self@ }),
    {
        let mut b = self;
        b.skip_waypoints = skip_waypoints;
        b
    }

    /// Whether `res` is what building comes to: a request for exactly the
    /// options of the builder where they break no rule, and else the first rule
    /// that they break.
    pub open spec fn builds(&self, res: Result<TripRequest<'a>, TripRequestError>) -> bool {
        match res {
            Ok(request) => self@.first_error() is None && request@ == self@,
            Err(e) => self@.first_error() == Some(e),
        }
    }

    /// The first rule that the options break, or `None` where they break none.
    fn first_violation(&self) -> (res: Option<TripRequestError>)
        ensures
            res == self@.first_error(),
    {
        let n = self.points.len();
        if n < 2 {
            return Some(TripRequestError::InsufficientPoints);
        }
        if let Some(waypoints) = self.waypoints {
            if waypoints.len() == 0 {
                return Some(TripRequestError::EmptyWaypoints);
            }
            let max_idx = greatest_index(waypoints);
            if max_idx >= n {
                return Some(TripRequestError::WaypointIndexOutOfBounds(max_idx, n));
            }
        }
        if let Some(bearings) = self.bearings {
            if bearings.len() != n {
                return Some(TripRequestError::DimensionMismatch(DimensionMismatch::Bearings));
            }
        }
        if let Some(radiuses) = self.radiuses {
            if radiuses.len() != n {
                return Some(TripRequestError::DimensionMismatch(DimensionMismatch::Radiuses));
            }
            if !radiuses_are_non_negative(radiuses) {
                return Some(TripRequestError::NegativeRadius);
            }
        }
        if let Some(hints) = self.hints {
            if hints.len() != n {
                return Some(TripRequestError::DimensionMismatch(DimensionMismatch::Hints));
            }
        }
        if let Some(approaches) = self.approaches {
            if approaches.len() != n {
                return Some(TripRequestError::DimensionMismatch(DimensionMismatch::Approaches));
            }
        }
        if let Some(exclude) = self.exclude {
            if !excludes_share_profile(exclude) {
                return Some(TripRequestError::DifferentExcludeTypes);
            }
        }
        None
    }

    /// Checks the options and makes the request, or returns the first rule that
    /// they break.
    pub fn build(&self) -> (res: Result<TripRequest<'a>, TripRequestError>)
        ensures
            self.builds(res),
    {
        if let Some(e) = self.first_violation() {
            return Err(e);
        }
        Ok(
            TripRequest {
                points: self.points,
                roundtrip: self.roundtrip,
                source: self.source,
                destination: self.destination,
                steps: self.steps,
                annotations: self.annotations,
                geometry: self.geometry,
                overview: self.overview,
                waypoints: self.waypoints,
                bearings: self.bearings,
                radiuses: self.radiuses,
                generate_hints: self.generate_hints,
                hints: self.hints,
                approaches: self.approaches,
                exclude: self.exclude,
                snapping: self.snapping,
                skip_waypoints: self.skip_waypoints,
            },
        )
    }
}

/// With fewer than two points the options break the rule on the number of
/// points, whatever else they hold.
pub proof fn lemma_insufficient_points(q: TripOptions)
    requires
        q.points.len() < 2,
    ensures
        q.first_error() == Some(TripRequestError::InsufficientPoints),
{
}

/// A dimension mismatch names an array option that is set and is not as
/// long as the points; and options that break no rule hold no such array.
pub proof fn lemma_mismatch_names_option(q: TripOptions)
    ensures
        q.first_error() == Some(TripRequestError::DimensionMismatch(DimensionMismatch::Bearings))
            ==> q.bearings is Some && q.bearings.unwrap().len() != q.points.len(),
        q.first_error() == Some(TripRequestError::DimensionMismatch(DimensionMismatch::Radiuses))
            ==> q.radiuses is Some && q.radiuses.unwrap().len() != q.points.len(),
        q.first_error() == Some(TripRequestError::DimensionMismatch(DimensionMismatch::Hints))
            ==> q.hints is Some && q.hints.unwrap().len() != q.points.len(),
        q.first_error() == Some(TripRequestError::DimensionMismatch(DimensionMismatch::Approaches))
            ==> q.approaches is Some && q.approaches.unwrap().len() != q.points.len(),
        q.valid() ==> q.points.len() >= 2 && fits(q.bearings, q.points.len()) && fits(
            q.radiuses,
            q.points.len(),
        ) && fits(q.hints, q.points.len()) && fits(q.approaches, q.points.len()),
{
}

/// One array option added to options that break no rule gives the
/// dimension mismatch that names it where its length differs from that of
/// the points, and no error where it does not.
pub proof fn lemma_one_array_option(
    points: Seq<Point>,
    bearings: Seq<Option<Bearing>>,
    hints: Seq<Option<Seq<char>>>,
    approaches: Seq<Approach>,
)
    requires
        points.len() >= 2,
    ensures
        (TripOptions {
            bearings: Some(bearings),
            ..TripOptions::defaults(points)
        }).first_error() == if bearings.len() == points.len() {
            None
        } else {
            Some(TripRequestError::DimensionMismatch(DimensionMismatch::Bearings))
        },
        (TripOptions {
            hints: Some(hints),
            ..TripOptions::defaults(points)
        }).first_error() == if hints.len() == points.len() {
            None
        } else {
            Some(TripRequestError::DimensionMismatch(DimensionMismatch::Hints))
        },
        (TripOptions {
            approaches: Some(approaches),
            ..TripOptions::defaults(points)
        }).first_error() == if approaches.len() == points.len() {
            None
        } else {
            Some(TripRequestError::DimensionMismatch(DimensionMismatch::Approaches))
        },
{
}

/// Radiuses added to options that break no rule give a dimension mismatch
/// where they are not as many as the points, the error of a negative
/// radius where they are and one of them is negative, and else no error.
pub proof fn lemma_radiuses_alone(points: Seq<Point>, radiuses: Seq<Option<i64>>)
    requires
        points.len() >= 2,
    ensures
        (TripOptions {
            radiuses: Some(radiuses),
            ..TripOptions::defaults(points)
        }).first_error() == if radiuses.len() != points.len() {
            Some(TripRequestError::DimensionMismatch(DimensionMismatch::Radiuses))
        } else if !radiuses_non_negative(radiuses) {
            Some(TripRequestError::NegativeRadius)
        } else {
            None
        },
{
}

/// Exclusions added to options that break no rule give the error of
/// different exclude types exactly where they are not all of one profile.
pub proof fn lemma_exclude_alone(points: Seq<Point>, exclude: Seq<Exclude>)
    requires
        points.len() >= 2,
    ensures
        (TripOptions {
            exclude: Some(exclude),
            ..TripOptions::defaults(points)
        }).first_error() == if one_profile(exclude) {
            None
        } else {
            Some(TripRequestError::DifferentExcludeTypes)
        },
{
}

/// Building twice from one builder comes to the same: either two requests
/// that ask for the same, or twice the same error.
pub proof fn lemma_build_repeats<'a>(
    builder: TripRequestBuilder<'a>,
    first: Result<TripRequest<'a>, TripRequestError>,
    second: Result<TripRequest<'a>, TripRequestError>,
)
    requires
        builder.builds(first),
        builder.builds(second),
    ensures
        match (first, second) {
            (Ok(a), Ok(b)) => a@ == b@,
            (Err(a), Err(b)) => a == b,
            _ => false,
        },
{
}

/// Two points or more and every option at its default break no rule.
pub proof fn lemma_two_points_suffice(points: Seq<Point>)
    requires
        points.len() >= 2,
    ensures
        TripOptions::defaults(points).first_error() is None,
{
}

/// What the trip service answers.
#[derive(Clone, Debug)]
pub struct TripResponse {
    /// `"Ok"` on success.
    pub code: String,
    /// The trips through the points.
    pub trips: Vec<Route>,
    /// The points as snapped, in the order in which they were given;
    /// `None` where the request skipped them.
    pub waypoints: Option<Vec<TripWaypoint>>,
}

} // verus!

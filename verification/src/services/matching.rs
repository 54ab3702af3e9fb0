//! Given the coordinates of a trace, and the times at which they were
//! recorded where they are known, find the route that was most likely taken.

use crate::osrm_response_types::{MatchRoute, MatchWaypoint};
use crate::request_types::{Bearing, Exclude, GeometryType, OverviewZoom, Snapping};
use crate::services::{
    ascending, excludes_share_profile, fits, greatest, greatest_index, one_profile,
    optional_hint_texts, optional_seq, radiuses_are_non_negative, radiuses_non_negative,
    timestamps_ascend, Approach, DimensionMismatch,
};
use crate::text::{decimal, push_decimal};
use crate::Point;
use vstd::prelude::*;
use vstd::string::StringExecFns;

verus! {

/// Why a match request cannot be built.
#[derive(Clone, Copy, Debug, PartialEq, Eq, Structural)]
pub enum MatchRequestError {
    /// A trace needs at least two points.
    InsufficientPoints,
    /// An array option is not as long as the points.
    DimensionMismatch(DimensionMismatch),
    /// A timestamp is smaller than the one before it.
    TimestampsNotSorted,
    /// The trace is to be split at gaps, which only timestamps show, and
    /// none are given.
    TimestampsRequiredForSplitBehaviour,
    /// The list of waypoint indices is given and empty.
    EmptyWaypoints,
    /// A waypoint index, the first field, is not below the number of
    /// points, the second.
    WaypointIndexOutOfBounds(usize, usize),
    /// The exclusions are not all of one profile.
    DifferentExcludeTypes,
    /// A radius is negative.
    NegativeRadius,
}

impl MatchRequestError {
    /// The error in words.
    pub open spec fn text(self) -> Seq<char> {
        match self {
            MatchRequestError::InsufficientPoints => "Match requires at least 2 points"@,
            MatchRequestError::DimensionMismatch(d) =>
                "Mismatch of dimensions between Points and "@
                    + d.name(),
            MatchRequestError::TimestampsNotSorted => "Timestamps must be increasing order"@,
            MatchRequestError::TimestampsRequiredForSplitBehaviour =>
                "Timestamps must be included for GapsBehaviour::Split"@,
            MatchRequestError::EmptyWaypoints =>
                "Waypoints when non-None must have non-zero length"@,
            MatchRequestError::WaypointIndexOutOfBounds(index, length) =>
                "Waypoints contain index "@
                    + decimal(index as nat)
                    + " which is out of bounds for points with size "@
                    + decimal(length as nat),
            MatchRequestError::DifferentExcludeTypes =>
                "Exclude types are not all of the same type"@,
            MatchRequestError::NegativeRadius => "Radii must be non-negative"@,
        }
    }

    /// The error in words, naming the option or the index at fault.
    pub fn message(&self) -> (res: String)
        ensures
            res@ == self.text(),
    {
        match self {
            MatchRequestError::InsufficientPoints => String::from_str(
                "Match requires at least 2 points",
            ),
            MatchRequestError::DimensionMismatch(d) => {
                let mut s = String::from_str("Mismatch of dimensions between Points and ");
                s.append(d.as_str());
                s
            },
            MatchRequestError::TimestampsNotSorted => String::from_str(
                "Timestamps must be increasing order",
            ),
            MatchRequestError::TimestampsRequiredForSplitBehaviour => String::from_str(
                "Timestamps must be included for GapsBehaviour::Split",
            ),
            MatchRequestError::EmptyWaypoints => String::from_str(
                "Waypoints when non-None must have non-zero length",
            ),
            MatchRequestError::WaypointIndexOutOfBounds(index, length) => {
                let mut s = String::from_str("Waypoints contain index ");
                push_decimal(&mut s, *index as u128);
                s.append(" which is out of bounds for points with size ");
                push_decimal(&mut s, *length as u128);
                s
            },
            MatchRequestError::DifferentExcludeTypes => String::from_str(
                "Exclude types are not all of the same type",
            ),
            MatchRequestError::NegativeRadius => String::from_str("Radii must be non-negative"),
        }
    }
}

/// What the engine does at a large gap between two timestamps.
#[derive(Clone, Copy, Debug, PartialEq, Eq, Structural)]
pub enum MatchGapsBehaviour {
    /// Split the trace there and match the parts one by one.
    Split,
    /// Match the trace as a whole.
    Ignore,
}

impl MatchGapsBehaviour {
    /// The variant as a query writes it.
    pub open spec fn url_text(self) -> Seq<char> {
        match self {
            MatchGapsBehaviour::Split => "split"@,
            MatchGapsBehaviour::Ignore => "ignore"@,
        }
    }

    /// The variant in lower case: `"split"` or `"ignore"`.
    pub fn url_form(&self) -> (s: &'static str)
        ensures
            s@ == self.url_text(),
    {
        match self {
            MatchGapsBehaviour::Split => "split",
            MatchGapsBehaviour::Ignore => "ignore",
        }
    }
}

/// What a match request asks for: the points and every option, as mathematical
/// values.
pub struct MatchOptions {
    pub points: Seq<Point>,
    pub steps: bool,
    pub geometry: GeometryType,
    pub overview: OverviewZoom,
    pub annotations: bool,
    pub timestamps: Option<Seq<u64>>,
    pub gaps: MatchGapsBehaviour,
    pub tidy: bool,
    pub waypoints: Option<Seq<usize>>,
    pub bearings: Option<Seq<Option<Bearing>>>,
    pub radiuses: Option<Seq<Option<i64>>>,
    pub generate_hints: bool,
    pub hints: Option<Seq<Option<Seq<char>>>>,
    pub approaches: Option<Seq<Approach>>,
    pub exclude: Option<Seq<Exclude>>,
    pub snapping: Option<Snapping>,
    pub skip_waypoints: bool,
}

impl MatchOptions {
    /// The options of a builder on which nothing has been set.
    pub open spec fn defaults(points: Seq<Point>) -> MatchOptions {
        MatchOptions {
            points,
            steps: false,
            geometry: GeometryType::Polyline,
            overview: OverviewZoom::Simplified,
            annotations: false,
            timestamps: None,
            gaps: MatchGapsBehaviour::Split,
            tidy: false,
            waypoints: None,
            bearings: None,
            radiuses: None,
            generate_hints: true,
            hints: None,
            approaches: None,
            exclude: None,
            snapping: None,
            skip_waypoints: false,
        }
    }

    /// The defaults but for the gaps, which are ignored: options that break no
    /// rule for two points or more.
    pub open spec fn ready(points: Seq<Point>) -> MatchOptions {
        MatchOptions { gaps: MatchGapsBehaviour::Ignore, ..MatchOptions::defaults(points) }
    }

    /// The first rule that the options break, in the order in which the rules
    /// are checked, or `None` where they break none.
    pub open spec fn first_error(self) -> Option<MatchRequestError> {
        let n = self.points.len();
        if n < 2 {
            Some(MatchRequestError::InsufficientPoints)
        } else if !fits(self.timestamps, n) {
            Some(MatchRequestError::DimensionMismatch(DimensionMismatch::Timestamps))
        } else if self.timestamps matches Some(t) && !ascending(t) {
            Some(MatchRequestError::TimestampsNotSorted)
        } else if self.timestamps is None && self.gaps == MatchGapsBehaviour::Split {
            Some(MatchRequestError::TimestampsRequiredForSplitBehaviour)
        } else if self.waypoints matches Some(w) && w.len() == 0 {
            Some(MatchRequestError::EmptyWaypoints)
        } else if self.waypoints matches Some(w) && greatest(w) >= n {
            Some(
                MatchRequestError::WaypointIndexOutOfBounds(
                    greatest(self.waypoints.unwrap()) as usize,
                    n as usize,
                ),
            )
        } else if !fits(self.bearings, n) {
            Some(MatchRequestError::DimensionMismatch(DimensionMismatch::Bearings))
        } else if !fits(self.radiuses, n) {
            Some(MatchRequestError::DimensionMismatch(DimensionMismatch::Radiuses))
        } else if self.radiuses matches Some(r) && !radiuses_non_negative(r) {
            Some(MatchRequestError::NegativeRadius)
        } else if !fits(self.hints, n) {
            Some(MatchRequestError::DimensionMismatch(DimensionMismatch::Hints))
        } else if !fits(self.approaches, n) {
            Some(MatchRequestError::DimensionMismatch(DimensionMismatch::Approaches))
        } else if self.exclude matches Some(e) && !one_profile(e) {
            Some(MatchRequestError::DifferentExcludeTypes)
        } else {
            None
        }
    }

    /// Whether the options break no rule.
    pub open spec fn valid(self) -> bool {
        self.first_error() is None
    }
}

/// A request to the match service. Made by [`MatchRequestBuilder::build`]
/// alone, which lets none through that breaks a rule.
#[derive(Clone, Copy, Debug)]
pub struct MatchRequest<'a> {
    points: &'a [Point],
    steps: bool,
    geometry: GeometryType,
    overview: OverviewZoom,
    annotations: bool,
    timestamps: Option<&'a [u64]>,
    gaps: MatchGapsBehaviour,
    tidy: bool,
    waypoints: Option<&'a [usize]>,
    bearings: Option<&'a [Option<Bearing>]>,
    radiuses: Option<&'a [Option<i64>]>,
    generate_hints: bool,
    hints: Option<&'a [Option<&'a str>]>,
    approaches: Option<&'a [Approach]>,
    exclude: Option<&'a [Exclude]>,
    snapping: Option<Snapping>,
    skip_waypoints: bool,
}

impl<'a> View for MatchRequest<'a> {
    type V = MatchOptions;

    closed spec fn view(&self) -> MatchOptions {
        MatchOptions {
            points: self.points@,
            steps: self.steps,
            geometry: self.geometry,
            overview: self.overview,
            annotations: self.annotations,
            timestamps: optional_seq(self.timestamps),
            gaps: self.gaps,
            tidy: self.tidy,
            waypoints: optional_seq(self.waypoints),
            bearings: optional_seq(self.bearings),
            radiuses: optional_seq(self.radiuses),
            generate_hints: self.generate_hints,
            hints: optional_hint_texts(self.hints),
            approaches: optional_seq(self.approaches),
            exclude: optional_seq(self.exclude),
            snapping: self.snapping,
            skip_waypoints: self.skip_waypoints,
        }
    }
}

impl<'a> MatchRequest<'a> {
    #[verifier::type_invariant]
    spec fn well_formed(self) -> bool {
        self@.valid()
    }

    /// The points of the request, in order.
    pub fn points(&self) -> (res: &'a [Point])
        ensures
            res@ == self@.points,
            self@.valid(),
    {
        proof {
            use_type_invariant(self);
        }
        self.points
    }

    /// Whether the response holds the steps of each leg.
    pub fn steps(&self) -> (res: bool)
        ensures
            res == self@.steps,
    {
        self.steps
    }

    /// The encoding of the geometry in the response.
    pub fn geometry(&self) -> (res: GeometryType)
        ensures
            res == self@.geometry,
    {
        self.geometry
    }

    /// The level of detail of the overview geometry.
    pub fn overview(&self) -> (res: OverviewZoom)
        ensures
            res == self@.overview,
    {
        self.overview
    }

    /// Whether the response holds annotations for each segment.
    pub fn annotations(&self) -> (res: bool)
        ensures
            res == self@.annotations,
    {
        self.annotations
    }

    /// For each point the time at which it was recorded, in seconds since the
    /// epoch.
    pub fn timestamps(&self) -> (res: Option<&'a [u64]>)
        ensures
            optional_seq(res) == self@.timestamps,
    {
        self.timestamps
    }

    /// What to do at a large gap between two timestamps.
    pub fn gaps(&self) -> (res: MatchGapsBehaviour)
        ensures
            res == self@.gaps,
    {
        self.gaps
    }

    /// Whether the engine may drop points that lie close together.
    pub fn tidy(&self) -> (res: bool)
        ensures
            res == self@.tidy,
    {
        self.tidy
    }

    /// The indices of the points that are waypoints; the other points only
    /// shape the path.
    pub fn waypoints(&self) -> (res: Option<&'a [usize]>)
        ensures
            optional_seq(res) == self@.waypoints,
    {
        self.waypoints
    }

    /// For each point the directions in which it may be snapped; `None` admits
    /// every direction.
    pub fn bearings(&self) -> (res: Option<&'a [Option<Bearing>]>)
        ensures
            optional_seq(res) == self@.bearings,
    {
        self.bearings
    }

    /// For each point the distance, in millionths of a metre, within which it
    /// may be snapped; `None` sets no limit.
    pub fn radiuses(&self) -> (res: Option<&'a [Option<i64>]>)
        ensures
            optional_seq(res) == self@.radiuses,
    {
        self.radiuses
    }

    /// Whether the response holds hints for later requests.
    pub fn generate_hints(&self) -> (res: bool)
        ensures
            res == self@.generate_hints,
    {
        self.generate_hints
    }

    /// For each point a hint from an earlier response, which the engine uses in
    /// place of snapping the point again.
    pub fn hints(&self) -> (res: Option<&'a [Option<&'a str>]>)
        ensures
            optional_hint_texts(res) == self@.hints,
    {
        self.hints
    }

    /// For each point the side of the road from which it is reached.
    pub fn approaches(&self) -> (res: Option<&'a [Approach]>)
        ensures
            optional_seq(res) == self@.approaches,
    {
        self.approaches
    }

    /// The road classes to leave out, all of one profile.
    pub fn exclude(&self) -> (res: Option<&'a [Exclude]>)
        ensures
            optional_seq(res) == self@.exclude,
    {
        self.exclude
    }

    /// Which segments the points may be snapped to.
    pub fn snapping(&self) -> (res: Option<Snapping>)
        ensures
            res == self@.snapping,
    {
        self.snapping
    }

    /// Whether the response leaves out the waypoints.
    pub fn skip_waypoints(&self) -> (res: bool)
        ensures
            res == self@.skip_waypoints,
    {
        self.skip_waypoints
    }

}

/// Collects the options of a match request and checks them. Each of
/// `timestamps`, `bearings`, `radiuses`, `hints` and `approaches` holds one
/// entry for each point.
#[derive(Clone, Copy, Debug)]
pub struct MatchRequestBuilder<'a> {
    points: &'a [Point],
    steps: bool,
    geometry: GeometryType,
    overview: OverviewZoom,
    annotations: bool,
    timestamps: Option<&'a [u64]>,
    gaps: MatchGapsBehaviour,
    tidy: bool,
    waypoints: Option<&'a [usize]>,
    bearings: Option<&'a [Option<Bearing>]>,
    radiuses: Option<&'a [Option<i64>]>,
    generate_hints: bool,
    hints: Option<&'a [Option<&'a str>]>,
    approaches: Option<&'a [Approach]>,
    exclude: Option<&'a [Exclude]>,
    snapping: Option<Snapping>,
    skip_waypoints: bool,
}

impl<'a> View for MatchRequestBuilder<'a> {
    type V = MatchOptions;

    closed spec fn view(&self) -> MatchOptions {
        MatchOptions {
            points: self.points@,
            steps: self.steps,
            geometry: self.geometry,
            overview: self.overview,
            annotations: self.annotations,
            timestamps: optional_seq(self.timestamps),
            gaps: self.gaps,
            tidy: self.tidy,
            waypoints: optional_seq(self.waypoints),
            bearings: optional_seq(self.bearings),
            radiuses: optional_seq(self.radiuses),
            generate_hints: self.generate_hints,
            hints: optional_hint_texts(self.hints),
            approaches: optional_seq(self.approaches),
            exclude: optional_seq(self.exclude),
            snapping: self.snapping,
            skip_waypoints: self.skip_waypoints,
        }
    }
}

impl<'a> MatchRequestBuilder<'a> {
    /// A builder with the given points and every option at its default. By
    /// default the trace is split at gaps, so the request cannot be built until
    /// timestamps are given or the gaps are to be ignored.
    pub fn new(points: &'a [Point]) -> (res: Self)
        ensures
            res@ == MatchOptions::defaults(points@),
    {
        Self {
            points,
            steps: false,
            geometry: GeometryType::Polyline,
            overview: OverviewZoom::Simplified,
            annotations: false,
            timestamps: None,
            gaps: MatchGapsBehaviour::Split,
            tidy: false,
            waypoints: None,
            bearings: None,
            radiuses: None,
            generate_hints: true,
            hints: None,
            approaches: None,
            exclude: None,
            snapping: None,
            skip_waypoints: false,
        }
    }

    /// Replaces the points, keeping the options.
    pub fn points(self, points: &'a [Point]) -> (res: Self)
        ensures
            res@ == (MatchOptions { points: points@, ..self@ }),
    {
        let mut b = self;
        b.points = points;
        b
    }

    /// Whether the response holds the steps of each leg.
    pub fn steps(self, generate_steps: bool) -> (res: Self)
        ensures
            res@ == (MatchOptions { steps: generate_steps, ..self@ }),
    {
        let mut b = self;
        b.steps = generate_steps;
        b
    }

    /// The encoding of the geometry in the response.
    pub fn geometry(self, geometry_type: GeometryType) -> (res: Self)
        ensures
            res@ == (MatchOptions { geometry: geometry_type, ..self@ }),
    {
        let mut b = self;
        b.geometry = geometry_type;
        b
    }

    /// The level of detail of the overview geometry.
    pub fn overview(self, overview_detail: OverviewZoom) -> (res: Self)
        ensures
            res@ == (MatchOptions { overview: overview_detail, ..self@ }),
    {
        let mut b = self;
        b.overview = overview_detail;
        b
    }

    /// Whether the response holds annotations for each segment.
    pub fn annotations(self, include_annotations: bool) -> (res: Self)
        ensures
            res@ == (MatchOptions { annotations: include_annotations, ..self@ }),
    {
        let mut b = self;
        b.annotations = include_annotations;
        b
    }

    /// For each point the time at which it was recorded, in seconds since the
    /// epoch.
    pub fn timestamps(self, timestamps: &'a [u64]) -> (res: Self)
        ensures
            res@ == (MatchOptions { timestamps: Some(timestamps@), ..self@ }),
    {
        let mut b = self;
        b.timestamps = Some(timestamps);
        b
    }

    /// What to do at a large gap between two timestamps.
    pub fn gaps(self, gaps_behaviour: MatchGapsBehaviour) -> (res: Self)
        ensures
            res@ == (MatchOptions { gaps: gaps_behaviour, ..self@ }),
    {
        let mut b = self;
        b.gaps = gaps_behaviour;
        b
    }

    /// Whether the engine may drop points that lie close together.
    pub fn tidy(self, do_tidy: bool) -> (res: Self)
        ensures
            res@ == (MatchOptions { tidy: do_tidy, ..self@ }),
    {
        let mut b = self;
        b.tidy = do_tidy;
        b
    }

    /// The indices of the points that are waypoints; the other points only
    /// shape the path.
    pub fn waypoints(self, waypoint_indices: &'a [usize]) -> (res: Self)
        ensures
            res@ == (MatchOptions { waypoints: Some(waypoint_indices@), ..self@ }),
    {
        let mut b = self;
        b.waypoints = Some(waypoint_indices);
        b
    }

    /// For each point the directions in which it may be snapped; `None` admits
    /// every direction.
    pub fn bearings(self, bearings: &'a [Option<Bearing>]) -> (res: Self)
        ensures
            res@ == (MatchOptions { bearings: Some(bearings@), ..self@ }),
    {
        let mut b = self;
        b.bearings = Some(bearings);
        b
    }

    /// For each point the distance, in millionths of a metre, within which it
    /// may be snapped; `None` sets no limit.
    pub fn radiuses(self, coordinate_radiuses: &'a [Option<i64>]) -> (res: Self)
        ensures
            res@ == (MatchOptions { radiuses: Some(coordinate_radiuses@), ..self@ }),
    {
        let mut b = self;
        b.radiuses = Some(coordinate_radiuses);
        b
    }

    /// Whether the response holds hints for later requests.
    pub fn generate_hints(self, generate_hints: bool) -> (res: Self)
        ensures
            res@ == (MatchOptions { generate_hints, ..self@ }),
    {
        let mut b = self;
        b.generate_hints = generate_hints;
        b
    }

    /// For each point a hint from an earlier response, which the engine uses in
    /// place of snapping the point again.
    pub fn hints(self, coordinate_hints: &'a [Option<&'a str>]) -> (res: Self)
        ensures
            res@ == (MatchOptions { hints: optional_hint_texts(Some(coordinate_hints)), ..self@ }),
    {
        let mut b = self;
        b.hints = Some(coordinate_hints);
        b
    }

    /// For each point the side of the road from which it is reached.
    pub fn approaches(self, approach_direction: &'a [Approach]) -> (res: Self)
        ensures
            res@ == (MatchOptions { approaches: Some(approach_direction@), ..self@ }),
    {
        let mut b = self;
        b.approaches = Some(approach_direction);
        b
    }

    /// The road classes to leave out, all of one profile.
    pub fn exclude(self, exclude: &'a [Exclude]) -> (res: Self)
        ensures
            res@ == (MatchOptions { exclude: Some(exclude@), ..self@ }),
    {
        let mut b = self;
        b.exclude = Some(exclude);
        b
    }

    /// Which segments the points may be snapped to.
    pub fn snapping(self, snapping: Snapping) -> (res: Self)
        ensures
            res@ == (MatchOptions { snapping: Some(snapping), ..self@ }),
    {
        let mut b = self;
        b.snapping = Some(snapping);
        b
    }

    /// Whether the response leaves out the waypoints.
    pub fn skip_waypoints(self, skip_waypoints: bool) -> (res: Self)
        ensures
            res@ == (MatchOptions { skip_waypoints, ..self@ }),
    {
        let mut b = self;
        b.skip_waypoints = skip_waypoints;
        b
    }

    /// Whether `res` is what building comes to: a request for exactly the
    /// options of the builder where they break no rule, and else the first rule
    /// that they break.
    pub open spec fn builds(&self, res: Result<MatchRequest<'a>, MatchRequestError>) -> bool {
        match res {
            Ok(request) => self@.first_error() is None && request@ == self@,
            Err(e) => self@.first_error() == Some(e),
        }
    }

    /// The first rule that the options break, or `None` where they break none.
    fn first_violation(&self) -> (res: Option<MatchRequestError>)
        ensures
            res == self@.first_error(),
    {
        let n = self.points.len();
        if n < 2 {
            return Some(MatchRequestError::InsufficientPoints);
        }
        if let Some(timestamps) = self.timestamps {
            if timestamps.len() != n {
                return Some(MatchRequestError::DimensionMismatch(DimensionMismatch::Timestamps));
            }
            if !timestamps_ascend(timestamps) {
                return Some(MatchRequestError::TimestampsNotSorted);
            }
        } else if let MatchGapsBehaviour::Split = self.gaps {
            return Some(MatchRequestError::TimestampsRequiredForSplitBehaviour);
        }
        if let Some(waypoints) = self.waypoints {
            if waypoints.len() == 0 {
                return Some(MatchRequestError::EmptyWaypoints);
            }
            let max_idx = greatest_index(waypoints);
            if max_idx >= n {
                return Some(MatchRequestError::WaypointIndexOutOfBounds(max_idx, n));
            }
        }
        if let Some(bearings) = self.bearings {
            if bearings.len() != n {
                return Some(MatchRequestError::DimensionMismatch(DimensionMismatch::Bearings));
            }
        }
        if let Some(radiuses) = self.radiuses {
            if radiuses.len() != n {
                return Some(MatchRequestError::DimensionMismatch(DimensionMismatch::Radiuses));
            }
            if !radiuses_are_non_negative(radiuses) {
                return Some(MatchRequestError::NegativeRadius);
            }
        }
        if let Some(hints) = self.hints {
            if hints.len() != n {
                return Some(MatchRequestError::DimensionMismatch(DimensionMismatch::Hints));
            }
        }
        if let Some(approaches) = self.approaches {
            if approaches.len() != n {
                return Some(MatchRequestError::DimensionMismatch(DimensionMismatch::Approaches));
            }
        }
        if let Some(exclude) = self.exclude {
            if !excludes_share_profile(exclude) {
                return Some(MatchRequestError::DifferentExcludeTypes);
            }
        }
        None
    }

    /// Checks the options and makes the request, or returns the first rule that
    /// they break.
    pub fn build(&self) -> (res: Result<MatchRequest<'a>, MatchRequestError>)
        ensures
            self.builds(res),
    {
        if let Some(e) = self.first_violation() {
            return Err(e);
        }
        Ok(
            MatchRequest {
                points: self.points,
                steps: self.steps,
                geometry: self.geometry,
                overview: self.overview,
                annotations: self.annotations,
                timestamps: self.timestamps,
                gaps: self.gaps,
                tidy: self.tidy,
                waypoints: self.waypoints,
                bearings: self.bearings,
                radiuses: self.radiuses,
                generate_hints: self.generate_hints,
                hints: self.hints,
                approaches: self.approaches,
                exclude: self.exclude,
                snapping: self.snapping,
                skip_waypoints: self.skip_waypoints,
            },
        )
    }
}

/// With fewer than two points the options break the rule on the number of
/// points, whatever else they hold.
pub proof fn lemma_insufficient_points(q: MatchOptions)
    requires
        q.points.len() < 2,
    ensures
        q.first_error() == Some(MatchRequestError::InsufficientPoints),
{
}

/// A dimension mismatch names an array option that is set and is not as
/// long as the points; and options that break no rule hold no such array.
pub proof fn lemma_mismatch_names_option(q: MatchOptions)
    ensures
        q.first_error() == Some(MatchRequestError::DimensionMismatch(DimensionMismatch::Bearings))
            ==> q.bearings is Some && q.bearings.unwrap().len() != q.points.len(),
        q.first_error() == Some(MatchRequestError::DimensionMismatch(DimensionMismatch::Radiuses))
            ==> q.radiuses is Some && q.radiuses.unwrap().len() != q.points.len(),
        q.first_error() == Some(MatchRequestError::DimensionMismatch(DimensionMismatch::Hints))
            ==> q.hints is Some && q.hints.unwrap().len() != q.points.len(),
        q.first_error() == Some(MatchRequestError::DimensionMismatch(DimensionMismatch::Approaches))
            ==> q.approaches is Some && q.approaches.unwrap().len() != q.points.len(),
        q.valid() ==> q.points.len() >= 2 && fits(q.bearings, q.points.len()) && fits(
            q.radiuses,
            q.points.len(),
        ) && fits(q.hints, q.points.len()) && fits(q.approaches, q.points.len()),
{
}

/// One array option added to options that break no rule gives the
/// dimension mismatch that names it where its length differs from that of
/// the points, and no error where it does not.
pub proof fn lemma_one_array_option(
    points: Seq<Point>,
    bearings: Seq<Option<Bearing>>,
    hints: Seq<Option<Seq<char>>>,
    approaches: Seq<Approach>,
)
    requires
        points.len() >= 2,
    ensures
        (MatchOptions {
            bearings: Some(bearings),
            ..MatchOptions::ready(points)
        }).first_error() == if bearings.len() == points.len() {
            None
        } else {
            Some(MatchRequestError::DimensionMismatch(DimensionMismatch::Bearings))
        },
        (MatchOptions {
            hints: Some(hints),
            ..MatchOptions::ready(points)
        }).first_error() == if hints.len() == points.len() {
            None
        } else {
            Some(MatchRequestError::DimensionMismatch(DimensionMismatch::Hints))
        },
        (MatchOptions {
            approaches: Some(approaches),
            ..MatchOptions::ready(points)
        }).first_error() == if approaches.len() == points.len() {
            None
        } else {
            Some(MatchRequestError::DimensionMismatch(DimensionMismatch::Approaches))
        },
{
}

/// Radiuses added to options that break no rule give a dimension mismatch
/// where they are not as many as the points, the error of a negative
/// radius where they are and one of them is negative, and else no error.
pub proof fn lemma_radiuses_alone(points: Seq<Point>, radiuses: Seq<Option<i64>>)
    requires
        points.len() >= 2,
    ensures
        (MatchOptions {
            radiuses: Some(radiuses),
            ..MatchOptions::ready(points)
        }).first_error() == if radiuses.len() != points.len() {
            Some(MatchRequestError::DimensionMismatch(DimensionMismatch::Radiuses))
        } else if !radiuses_non_negative(radiuses) {
            Some(MatchRequestError::NegativeRadius)
        } else {
            None
        },
{
}

/// Exclusions added to options that break no rule give the error of
/// different exclude types exactly where they are not all of one profile.
pub proof fn lemma_exclude_alone(points: Seq<Point>, exclude: Seq<Exclude>)
    requires
        points.len() >= 2,
    ensures
        (MatchOptions {
            exclude: Some(exclude),
            ..MatchOptions::ready(points)
        }).first_error() == if one_profile(exclude) {
            None
        } else {
            Some(MatchRequestError::DifferentExcludeTypes)
        },
{
}

/// Building twice from one builder comes to the same: either two requests
/// that ask for the same, or twice the same error.
pub proof fn lemma_build_repeats<'a>(
    builder: MatchRequestBuilder<'a>,
    first: Result<MatchRequest<'a>, MatchRequestError>,
    second: Result<MatchRequest<'a>, MatchRequestError>,
)
    requires
        builder.builds(first),
        builder.builds(second),
    ensures
        match (first, second) {
            (Ok(a), Ok(b)) => a@ == b@,
            (Err(a), Err(b)) => a == b,
            _ => false,
        },
{
}

/// Where the trace is to be split at gaps and no timestamps are given, the
/// options break the rule that asks for them.
pub proof fn lemma_split_needs_timestamps(q: MatchOptions)
    requires
        q.points.len() >= 2,
        q.gaps == MatchGapsBehaviour::Split,
        q.timestamps is None,
    ensures
        q.first_error() == Some(MatchRequestError::TimestampsRequiredForSplitBehaviour),
{
}

/// Timestamps added to the defaults, as many as the points and none
/// smaller than the one before it, break no rule; fewer or more of them
/// give a dimension mismatch, and as many in another order the error of
/// unsorted timestamps.
pub proof fn lemma_timestamps_alone(points: Seq<Point>, timestamps: Seq<u64>)
    requires
        points.len() >= 2,
    ensures
        (MatchOptions {
            timestamps: Some(timestamps),
            ..MatchOptions::defaults(points)
        }).first_error() == if timestamps.len() != points.len() {
            Some(MatchRequestError::DimensionMismatch(DimensionMismatch::Timestamps))
        } else if !ascending(timestamps) {
            Some(MatchRequestError::TimestampsNotSorted)
        } else {
            None
        },
{
}

/// Two points or more with gaps ignored, and every other option at its
/// default, break no rule.
pub proof fn lemma_two_points_suffice(points: Seq<Point>)
    requires
        points.len() >= 2,
    ensures
        MatchOptions::ready(points).first_error() is None,
{
}

/// What the match service answers.
#[derive(Clone, Debug)]
pub struct MatchResponse {
    /// `"Ok"` on success; `"NoMatch"` where no matching was found.
    pub code: String,
    /// The points of the trace as matched, in order; `None` for a point
    /// that was left out as an outlier.
    pub tracepoints: Vec<Option<MatchWaypoint>>,
    /// The routes that the parts of the trace were matched to.
    pub matchings: Vec<MatchRoute>,
}

} // verus!

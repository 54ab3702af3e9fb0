//! Given sources and destinations, find the duration or the distance, or
//! both, of the fastest route from each source to each destination.

use crate::request_types::{Bearing, Exclude, Snapping};
use crate::services::{
    excludes_share_profile, fits, one_profile, optional_hint_texts, optional_seq,
    radiuses_are_non_negative, radiuses_non_negative, Approach, DimensionMismatch,
};
use crate::Point;
use vstd::prelude::*;
use vstd::string::StringExecFns;

verus! {

/// Why a table request cannot be built.
#[derive(Clone, Copy, Debug, PartialEq, Eq, Structural)]
pub enum TableRequestError {
    /// There is no source.
    EmptySources,
    /// There is no destination.
    EmptyDestinations,
    /// The fallback speed is zero or negative.
    NonPositiveFallbackSpeed,
    /// The scale factor is zero or negative.
    NonPositiveScaleFactor,
    /// Of fallback speed and fallback coordinate one is set and not the
    /// other.
    IncompleteFallbackPair,
    /// A scale factor is set, and the response is to hold no durations for
    /// it to multiply.
    ScaleFactorRequiresDuration,
    /// An array option is not as long as the sources or destinations that
    /// it belongs to.
    DimensionMismatch(DimensionMismatch),
    /// The exclusions are not all of one profile.
    DifferentExcludeTypes,
    /// A radius is negative.
    NegativeRadius,
}

impl TableRequestError {
    /// The error in words.
    pub open spec fn text(self) -> Seq<char> {
        match self {
            TableRequestError::EmptySources => "No sources in table request"@,
            TableRequestError::EmptyDestinations => "No destinations in table request"@,
            TableRequestError::NonPositiveFallbackSpeed =>
                "Fallback speed must be greater than 0.0"@,
            TableRequestError::NonPositiveScaleFactor => "Scale factor must be greater than 0.0"@,
            TableRequestError::IncompleteFallbackPair =>
                "Fallback speed and coordinate are co-dependent and must both be specified, or both null"@,
            TableRequestError::ScaleFactorRequiresDuration =>
                "Scale factor multiplies duration, so annotations must be TableAnnotation::Duration, or TableAnnotation::All"@,
            TableRequestError::DimensionMismatch(d) =>
                "Mismatch of dimensions between Points and "@
                    + d.name(),
            TableRequestError::DifferentExcludeTypes =>
                "Exclude types are not all of the same type"@,
            TableRequestError::NegativeRadius => "Radii must be non-negative"@,
        }
    }

    /// The error in words, naming the option or the index at fault.
    pub fn message(&self) -> (res: String)
        ensures
            res@ == self.text(),
    {
        match self {
            TableRequestError::EmptySources => String::from_str("No sources in table request"),
            TableRequestError::EmptyDestinations => String::from_str(
                "No destinations in table request",
            ),
            TableRequestError::NonPositiveFallbackSpeed => String::from_str(
                "Fallback speed must be greater than 0.0",
            ),
            TableRequestError::NonPositiveScaleFactor => String::from_str(
                "Scale factor must be greater than 0.0",
            ),
            TableRequestError::IncompleteFallbackPair => String::from_str(
                "Fallback speed and coordinate are co-dependent and must both be specified, or both null",
            ),
            TableRequestError::ScaleFactorRequiresDuration => String::from_str(
                "Scale factor multiplies duration, so annotations must be TableAnnotation::Duration, or TableAnnotation::All",
            ),
            TableRequestError::DimensionMismatch(d) => {
                let mut s = String::from_str("Mismatch of dimensions between Points and ");
                s.append(d.as_str());
                s
            },
            TableRequestError::DifferentExcludeTypes => String::from_str(
                "Exclude types are not all of the same type",
            ),
            TableRequestError::NegativeRadius => String::from_str("Radii must be non-negative"),
        }
    }
}

/// Which tables a response holds.
#[derive(Clone, Copy, Debug, PartialEq, Eq, Structural)]
pub enum TableAnnotation {
    /// Neither table.
    Nothing,
    /// The durations.
    Duration,
    /// The distances.
    Distance,
    /// Durations and distances.
    All,
}

impl TableAnnotation {
    /// The variant as a query writes it.
    pub open spec fn url_text(self) -> Seq<char> {
        match self {
            TableAnnotation::Nothing => "none"@,
            TableAnnotation::Duration => "duration"@,
            TableAnnotation::Distance => "distance"@,
            TableAnnotation::All => "duration,distance"@,
        }
    }

    /// Whether the response holds durations.
    pub open spec fn has_duration(self) -> bool {
        self == TableAnnotation::Duration || self == TableAnnotation::All
    }

    /// Whether the response holds distances.
    pub open spec fn has_distance(self) -> bool {
        self == TableAnnotation::Distance || self == TableAnnotation::All
    }

    /// The variant in lower case: `"none"`, `"duration"`, `"distance"` or
    /// `"duration,distance"`.
    pub fn url_form(&self) -> (s: &'static str)
        ensures
            s@ == self.url_text(),
    {
        match self {
            TableAnnotation::Nothing => "none",
            TableAnnotation::Duration => "duration",
            TableAnnotation::Distance => "distance",
            TableAnnotation::All => "duration,distance",
        }
    }
}

/// The coordinate between which the straight line of a pair without a
/// route is measured.
#[derive(Clone, Copy, Debug, PartialEq, Eq, Structural)]
pub enum TableFallbackCoordinate {
    /// The coordinate as it was given.
    Input,
    /// The coordinate as it was snapped.
    Snapped,
}

impl TableFallbackCoordinate {
    /// The variant as a query writes it.
    pub open spec fn url_text(self) -> Seq<char> {
        match self {
            TableFallbackCoordinate::Input => "input"@,
            TableFallbackCoordinate::Snapped => "snapped"@,
        }
    }

    /// The variant in lower case: `"input"` or `"snapped"`.
    pub fn url_form(&self) -> (s: &'static str)
        ensures
            s@ == self.url_text(),
    {
        match self {
            TableFallbackCoordinate::Input => "input",
            TableFallbackCoordinate::Snapped => "snapped",
        }
    }
}

/// What a table request asks for: the sources, the destinations and every
/// option, as mathematical values.
pub struct TableOptions {
    pub sources: Seq<Point>,
    pub destinations: Seq<Point>,
    pub annotations: TableAnnotation,
    pub fallback_speed: Option<i64>,
    pub fallback_coordinate: Option<TableFallbackCoordinate>,
    pub scale_factor: Option<i64>,
    pub source_bearings: Option<Seq<Option<Bearing>>>,
    pub destination_bearings: Option<Seq<Option<Bearing>>>,
    pub source_radiuses: Option<Seq<Option<i64>>>,
    pub destination_radiuses: Option<Seq<Option<i64>>>,
    pub generate_hints: bool,
    pub source_hints: Option<Seq<Option<Seq<char>>>>,
    pub destination_hints: Option<Seq<Option<Seq<char>>>>,
    pub source_approaches: Option<Seq<Approach>>,
    pub destination_approaches: Option<Seq<Approach>>,
    pub exclude: Option<Seq<Exclude>>,
    pub snapping: Option<Snapping>,
}

impl TableOptions {
    /// The options of a builder on which nothing has been set.
    pub open spec fn defaults(sources: Seq<Point>, destinations: Seq<Point>) -> TableOptions {
        TableOptions {
            sources,
            destinations,
            annotations: TableAnnotation::Duration,
            fallback_speed: None,
            fallback_coordinate: None,
            scale_factor: None,
            source_bearings: None,
            destination_bearings: None,
            source_radiuses: None,
            destination_radiuses: None,
            generate_hints: true,
            source_hints: None,
            destination_hints: None,
            source_approaches: None,
            destination_approaches: None,
            exclude: None,
            snapping: None,
        }
    }

    /// The first rule that the options break, in the order in which the rules
    /// are checked, or `None` where they break none.
    pub open spec fn first_error(self) -> Option<TableRequestError> {
        let s = self.sources.len();
        let d = self.destinations.len();
        if s == 0 {
            Some(TableRequestError::EmptySources)
        } else if d == 0 {
            Some(TableRequestError::EmptyDestinations)
        } else if self.fallback_speed matches Some(v) && v <= 0 {
            Some(TableRequestError::NonPositiveFallbackSpeed)
        } else if self.scale_factor matches Some(f) && f <= 0 {
            Some(TableRequestError::NonPositiveScaleFactor)
        } else if (self.fallback_coordinate is Some) != (self.fallback_speed is Some) {
            Some(TableRequestError::IncompleteFallbackPair)
        } else if self.scale_factor is Some && !self.annotations.has_duration() {
            Some(TableRequestError::ScaleFactorRequiresDuration)
        } else if !fits(self.source_bearings, s) || !fits(self.destination_bearings, d) {
            Some(TableRequestError::DimensionMismatch(DimensionMismatch::Bearings))
        } else if !fits(self.source_radiuses, s) {
            Some(TableRequestError::DimensionMismatch(DimensionMismatch::Radiuses))
        } else if self.source_radiuses matches Some(r) && !radiuses_non_negative(r) {
            Some(TableRequestError::NegativeRadius)
        } else if !fits(self.destination_radiuses, d) {
            Some(TableRequestError::DimensionMismatch(DimensionMismatch::Radiuses))
        } else if self.destination_radiuses matches Some(r) && !radiuses_non_negative(r) {
            Some(TableRequestError::NegativeRadius)
        } else if !fits(self.source_hints, s) || !fits(self.destination_hints, d) {
            Some(TableRequestError::DimensionMismatch(DimensionMismatch::Hints))
        } else if !fits(self.source_approaches, s) || !fits(self.destination_approaches, d) {
            Some(TableRequestError::DimensionMismatch(DimensionMismatch::Approaches))
        } else if self.exclude matches Some(e) && !one_profile(e) {
            Some(TableRequestError::DifferentExcludeTypes)
        } else {
            None
        }
    }

    /// Whether the options break no rule.
    pub open spec fn valid(self) -> bool {
        self.first_error() is None
    }
}

/// A request to the table service. Made by [`TableRequestBuilder::build`]
/// alone, which lets none through that breaks a rule.
#[derive(Clone, Copy, Debug)]
pub struct TableRequest<'a> {
    sources: &'a [Point],
    destinations: &'a [Point],
    annotations: TableAnnotation,
    fallback_speed: Option<i64>,
    fallback_coordinate: Option<TableFallbackCoordinate>,
    scale_factor: Option<i64>,
    source_bearings: Option<&'a [Option<Bearing>]>,
    destination_bearings: Option<&'a [Option<Bearing>]>,
    source_radiuses: Option<&'a [Option<i64>]>,
    destination_radiuses: Option<&'a [Option<i64>]>,
    generate_hints: bool,
    source_hints: Option<&'a [Option<&'a str>]>,
    destination_hints: Option<&'a [Option<&'a str>]>,
    source_approaches: Option<&'a [Approach]>,
    destination_approaches: Option<&'a [Approach]>,
    exclude: Option<&'a [Exclude]>,
    snapping: Option<Snapping>,
}

impl<'a> View for TableRequest<'a> {
    type V = TableOptions;

    closed spec fn view(&self) -> TableOptions {
        TableOptions {
            sources: self.sources@,
            destinations: self.destinations@,
            annotations: self.annotations,
            fallback_speed: self.fallback_speed,
            fallback_coordinate: self.fallback_coordinate,
            scale_factor: self.scale_factor,
            source_bearings: optional_seq(self.source_bearings),
            destination_bearings: optional_seq(self.destination_bearings),
            source_radiuses: optional_seq(self.source_radiuses),
            destination_radiuses: optional_seq(self.destination_radiuses),
            generate_hints: self.generate_hints,
            source_hints: optional_hint_texts(self.source_hints),
            destination_hints: optional_hint_texts(self.destination_hints),
            source_approaches: optional_seq(self.source_approaches),
            destination_approaches: optional_seq(self.destination_approaches),
            exclude: optional_seq(self.exclude),
            snapping: self.snapping,
        }
    }
}

impl<'a> TableRequest<'a> {
    #[verifier::type_invariant]
    spec fn well_formed(self) -> bool {
        self@.valid()
    }

    /// The points from which to travel.
    pub fn sources(&self) -> (res: &'a [Point])
        ensures
            res@ == self@.sources,
            self@.valid(),
    {
        proof {
            use_type_invariant(self);
        }
        self.sources
    }

    /// The points to which to travel.
    pub fn destinations(&self) -> (res: &'a [Point])
        ensures
            res@ == self@.destinations,
            self@.valid(),
    {
        proof {
            use_type_invariant(self);
        }
        self.destinations
    }

    /// Which tables the response holds.
    pub fn annotations(&self) -> (res: TableAnnotation)
        ensures
            res == self@.annotations,
    {
        self.annotations
    }

    /// The speed, in millionths of a metre per second, at which a pair without
    /// a route is taken to be travelled in a straight line. Goes together with
    /// `fallback_coordinate`.
    pub fn fallback_speed(&self) -> (res: Option<i64>)
        ensures
            res == self@.fallback_speed,
    {
        self.fallback_speed
    }

    /// The coordinate between which the straight line of a pair without a route
    /// is measured. Goes together with `fallback_speed`.
    pub fn fallback_coordinate(&self) -> (res: Option<TableFallbackCoordinate>)
        ensures
            res == self@.fallback_coordinate,
    {
        self.fallback_coordinate
    }

    /// The factor, in millionths, by which the durations are multiplied.
    pub fn scale_factor(&self) -> (res: Option<i64>)
        ensures
            res == self@.scale_factor,
    {
        self.scale_factor
    }

    /// For each source the directions in which it may be snapped; `None` admits
    /// every direction.
    pub fn source_bearings(&self) -> (res: Option<&'a [Option<Bearing>]>)
        ensures
            optional_seq(res) == self@.source_bearings,
    {
        self.source_bearings
    }

    /// For each destination the directions in which it may be snapped; `None`
    /// admits every direction.
    pub fn destination_bearings(&self) -> (res: Option<&'a [Option<Bearing>]>)
        ensures
            optional_seq(res) == self@.destination_bearings,
    {
        self.destination_bearings
    }

    /// For each source the distance, in millionths of a metre, within which it
    /// may be snapped; `None` sets no limit.
    pub fn source_radiuses(&self) -> (res: Option<&'a [Option<i64>]>)
        ensures
            optional_seq(res) == self@.source_radiuses,
    {
        self.source_radiuses
    }

    /// For each destination the distance, in millionths of a metre, within
    /// which it may be snapped; `None` sets no limit.
    pub fn destination_radiuses(&self) -> (res: Option<&'a [Option<i64>]>)
        ensures
            optional_seq(res) == self@.destination_radiuses,
    {
        self.destination_radiuses
    }

    /// Whether the response holds hints for later requests.
    pub fn generate_hints(&self) -> (res: bool)
        ensures
            res == self@.generate_hints,
    {
        self.generate_hints
    }

    /// For each source a hint from an earlier response, which the engine uses
    /// in place of snapping the point again.
    pub fn source_hints(&self) -> (res: Option<&'a [Option<&'a str>]>)
        ensures
            optional_hint_texts(res) == self@.source_hints,
    {
        self.source_hints
    }

    /// For each destination a hint from an earlier response, which the engine
    /// uses in place of snapping the point again.
    pub fn destination_hints(&self) -> (res: Option<&'a [Option<&'a str>]>)
        ensures
            optional_hint_texts(res) == self@.destination_hints,
    {
        self.destination_hints
    }

    /// For each source the side of the road from which it is reached.
    pub fn source_approaches(&self) -> (res: Option<&'a [Approach]>)
        ensures
            optional_seq(res) == self@.source_approaches,
    {
        self.source_approaches
    }

    /// For each destination the side of the road from which it is reached.
    pub fn destination_approaches(&self) -> (res: Option<&'a [Approach]>)
        ensures
            optional_seq(res) == self@.destination_approaches,
    {
        self.destination_approaches
    }

    /// The road classes to leave out, all of one profile.
    pub fn exclude(&self) -> (res: Option<&'a [Exclude]>)
        ensures
            optional_seq(res) == self@.exclude,
    {
        self.exclude
    }

    /// Which segments the points may be snapped to.
    pub fn snapping(&self) -> (res: Option<Snapping>)
        ensures
            res == self@.snapping,
    {
        self.snapping
    }

}

/// Collects the options of a table request and checks them. Each array option
/// of the sources holds one entry for each source, each of the destinations one
/// for each destination.
#[derive(Clone, Copy, Debug)]
pub struct TableRequestBuilder<'a> {
    sources: &'a [Point],
    destinations: &'a [Point],
    annotations: TableAnnotation,
    fallback_speed: Option<i64>,
    fallback_coordinate: Option<TableFallbackCoordinate>,
    scale_factor: Option<i64>,
    source_bearings: Option<&'a [Option<Bearing>]>,
    destination_bearings: Option<&'a [Option<Bearing>]>,
    source_radiuses: Option<&'a [Option<i64>]>,
    destination_radiuses: Option<&'a [Option<i64>]>,
    generate_hints: bool,
    source_hints: Option<&'a [Option<&'a str>]>,
    destination_hints: Option<&'a [Option<&'a str>]>,
    source_approaches: Option<&'a [Approach]>,
    destination_approaches: Option<&'a [Approach]>,
    exclude: Option<&'a [Exclude]>,
    snapping: Option<Snapping>,
}

impl<'a> View for TableRequestBuilder<'a> {
    type V = TableOptions;

    closed spec fn view(&self) -> TableOptions {
        TableOptions {
            sources: self.sources@,
            destinations: self.destinations@,
            annotations: self.annotations,
            fallback_speed: self.fallback_speed,
            fallback_coordinate: self.fallback_coordinate,
            scale_factor: self.scale_factor,
            source_bearings: optional_seq(self.source_bearings),
            destination_bearings: optional_seq(self.destination_bearings),
            source_radiuses: optional_seq(self.source_radiuses),
            destination_radiuses: optional_seq(self.destination_radiuses),
            generate_hints: self.generate_hints,
            source_hints: optional_hint_texts(self.source_hints),
            destination_hints: optional_hint_texts(self.destination_hints),
            source_approaches: optional_seq(self.source_approaches),
            destination_approaches: optional_seq(self.destination_approaches),
            exclude: optional_seq(self.exclude),
            snapping: self.snapping,
        }
    }
}

impl<'a> TableRequestBuilder<'a> {
    /// A builder with the given sources and destinations and every option at
    /// its default: the response holds durations.
    pub fn new(sources: &'a [Point], destinations: &'a [Point]) -> (res: Self)
        ensures
            res@ == TableOptions::defaults(sources@, destinations@),
    {
        Self {
            sources,
            destinations,
            annotations: TableAnnotation::Duration,
            fallback_speed: None,
            fallback_coordinate: None,
            scale_factor: None,
            source_bearings: None,
            destination_bearings: None,
            source_radiuses: None,
            destination_radiuses: None,
            generate_hints: true,
            source_hints: None,
            destination_hints: None,
            source_approaches: None,
            destination_approaches: None,
            exclude: None,
            snapping: None,
        }
    }

    /// Replaces the sources, keeping the options.
    pub fn sources(self, sources: &'a [Point]) -> (res: Self)
        ensures
            res@ == (TableOptions { sources: sources@, ..self@ }),
    {
        let mut b = self;
        b.sources = sources;
        b
    }

    /// Replaces the destinations, keeping the options.
    pub fn destinations(self, destinations: &'a [Point]) -> (res: Self)
        ensures
            res@ == (TableOptions { destinations: destinations@, ..self@ }),
    {
        let mut b = self;
        b.destinations = destinations;
        b
    }

    /// Which tables the response holds.
    pub fn annotations(self, val: TableAnnotation) -> (res: Self)
        ensures
            res@ == (TableOptions { annotations: val, ..self@ }),
    {
        let mut b = self;
        b.annotations = val;
        b
    }

    /// The speed, in millionths of a metre per second, at which a pair without
    /// a route is taken to be travelled in a straight line. Goes together with
    /// `fallback_coordinate`.
    pub fn fallback_speed(self, speed: i64) -> (res: Self)
        ensures
            res@ == (TableOptions { fallback_speed: Some(speed), ..self@ }),
    {
        let mut b = self;
        b.fallback_speed = Some(speed);
        b
    }

    /// The coordinate between which the straight line of a pair without a route
    /// is measured. Goes together with `fallback_speed`.
    pub fn fallback_coordinate(self, coord: TableFallbackCoordinate) -> (res: Self)
        ensures
            res@ == (TableOptions { fallback_coordinate: Some(coord), ..self@ }),
    {
        let mut b = self;
        b.fallback_coordinate = Some(coord);
        b
    }

    /// The factor, in millionths, by which the durations are multiplied.
    pub fn scale_factor(self, val: i64) -> (res: Self)
        ensures
            res@ == (TableOptions { scale_factor: Some(val), ..self@ }),
    {
        let mut b = self;
        b.scale_factor = Some(val);
        b
    }

    /// For each source the directions in which it may be snapped; `None` admits
    /// every direction.
    pub fn source_bearings(self, source_bearings: &'a [Option<Bearing>]) -> (res: Self)
        ensures
            res@ == (TableOptions { source_bearings: Some(source_bearings@), ..self@ }),
    {
        let mut b = self;
        b.source_bearings = Some(source_bearings);
        b
    }

    /// For each destination the directions in which it may be snapped; `None`
    /// admits every direction.
    pub fn destination_bearings(self, destination_bearings: &'a [Option<Bearing>]) -> (res: Self)
        ensures
            res@ == (TableOptions { destination_bearings: Some(destination_bearings@), ..self@ }),
    {
        let mut b = self;
        b.destination_bearings = Some(destination_bearings);
        b
    }

    /// For each source the distance, in millionths of a metre, within which it
    /// may be snapped; `None` sets no limit.
    pub fn source_radiuses(self, source_radiuses: &'a [Option<i64>]) -> (res: Self)
        ensures
            res@ == (TableOptions { source_radiuses: Some(source_radiuses@), ..self@ }),
    {
        let mut b = self;
        b.source_radiuses = Some(source_radiuses);
        b
    }

    /// For each destination the distance, in millionths of a metre, within
    /// which it may be snapped; `None` sets no limit.
    pub fn destination_radiuses(self, destination_radiuses: &'a [Option<i64>]) -> (res: Self)
        ensures
            res@ == (TableOptions { destination_radiuses: Some(destination_radiuses@), ..self@ }),
    {
        let mut b = self;
        b.destination_radiuses = Some(destination_radiuses);
        b
    }

    /// Whether the response holds hints for later requests.
    pub fn generate_hints(self, generate_hints: bool) -> (res: Self)
        ensures
            res@ == (TableOptions { generate_hints, ..self@ }),
    {
        let mut b = self;
        b.generate_hints = generate_hints;
        b
    }

    /// For each source a hint from an earlier response, which the engine uses
    /// in place of snapping the point again.
    pub fn source_hints(self, source_hints: &'a [Option<&'a str>]) -> (res: Self)
        ensures
            res@ == (TableOptions {
                source_hints: optional_hint_texts(Some(source_hints)),
                ..self@
            }),
    {
        let mut b = self;
        b.source_hints = Some(source_hints);
        b
    }

    /// For each destination a hint from an earlier response, which the engine
    /// uses in place of snapping the point again.
    pub fn destination_hints(self, destination_hints: &'a [Option<&'a str>]) -> (res: Self)
        ensures
            res@ == (TableOptions {
                destination_hints: optional_hint_texts(Some(destination_hints)),
                ..self@
            }),
    {
        let mut b = self;
        b.destination_hints = Some(destination_hints);
        b
    }

    /// For each source the side of the road from which it is reached.
    pub fn source_approaches(self, source_approaches: &'a [Approach]) -> (res: Self)
        ensures
            res@ == (TableOptions { source_approaches: Some(source_approaches@), ..self@ }),
    {
        let mut b = self;
        b.source_approaches = Some(source_approaches);
        b
    }

    /// For each destination the side of the road from which it is reached.
    pub fn destination_approaches(self, destination_approaches: &'a [Approach]) -> (res: Self)
        ensures
            res@ == (TableOptions {
                destination_approaches: Some(destination_approaches@),
                ..self@
            }),
    {
        let mut b = self;
        b.destination_approaches = Some(destination_approaches);
        b
    }

    /// The road classes to leave out, all of one profile.
    pub fn exclude(self, exclude: &'a [Exclude]) -> (res: Self)
        ensures
            res@ == (TableOptions { exclude: Some(exclude@), ..self@ }),
    {
        let mut b = self;
        b.exclude = Some(exclude);
        b
    }

    /// Which segments the points may be snapped to.
    pub fn snapping(self, snapping: Snapping) -> (res: Self)
        ensures
            res@ == (TableOptions { snapping: Some(snapping), ..self@ }),
    {
        let mut b = self;
        b.snapping = Some(snapping);
        b
    }

    /// Sets the fallback speed and the fallback coordinate together.
    pub fn fallback(self, coord: TableFallbackCoordinate, speed: i64) -> (res: Self)
        ensures
            res@ == (TableOptions {
                fallback_coordinate: Some(coord),
                fallback_speed: Some(speed),
                ..self@
            }),
    {
        let mut b = self;
        b.fallback_coordinate = Some(coord);
        b.fallback_speed = Some(speed);
        b
    }

    /// Whether `res` is what building comes to: a request for exactly the
    /// options of the builder where they break no rule, and else the first rule
    /// that they break.
    pub open spec fn builds(&self, res: Result<TableRequest<'a>, TableRequestError>) -> bool {
        match res {
            Ok(request) => self@.first_error() is None && request@ == self@,
            Err(e) => self@.first_error() == Some(e),
        }
    }

    /// The first rule that the options break, or `None` where they break none.
    fn first_violation(&self) -> (res: Option<TableRequestError>)
        ensures
            res == self@.first_error(),
    {
        let s = self.sources.len();
        let d = self.destinations.len();
        if s == 0 {
            return Some(TableRequestError::EmptySources);
        }
        if d == 0 {
            return Some(TableRequestError::EmptyDestinations);
        }
        if let Some(v) = self.fallback_speed {
            if v <= 0 {
                return Some(TableRequestError::NonPositiveFallbackSpeed);
            }
        }
        if let Some(f) = self.scale_factor {
            if f <= 0 {
                return Some(TableRequestError::NonPositiveScaleFactor);
            }
        }
        if self.fallback_coordinate.is_some() != self.fallback_speed.is_some() {
            return Some(TableRequestError::IncompleteFallbackPair);
        }
        if self.scale_factor.is_some() && matches!(
            self.annotations,
            TableAnnotation::Nothing | TableAnnotation::Distance
        ) {
            return Some(TableRequestError::ScaleFactorRequiresDuration);
        }
        if let Some(bearings) = self.source_bearings {
            if bearings.len() != s {
                return Some(TableRequestError::DimensionMismatch(DimensionMismatch::Bearings));
            }
        }
        if let Some(bearings) = self.destination_bearings {
            if bearings.len() != d {
                return Some(TableRequestError::DimensionMismatch(DimensionMismatch::Bearings));
            }
        }
        if let Some(radiuses) = self.source_radiuses {
            if radiuses.len() != s {
                return Some(TableRequestError::DimensionMismatch(DimensionMismatch::Radiuses));
            }
            if !radiuses_are_non_negative(radiuses) {
                return Some(TableRequestError::NegativeRadius);
            }
        }
        if let Some(radiuses) = self.destination_radiuses {
            if radiuses.len() != d {
                return Some(TableRequestError::DimensionMismatch(DimensionMismatch::Radiuses));
            }
            if !radiuses_are_non_negative(radiuses) {
                return Some(TableRequestError::NegativeRadius);
            }
        }
        if let Some(hints) = self.source_hints {
            if hints.len() != s {
                return Some(TableRequestError::DimensionMismatch(DimensionMismatch::Hints));
            }
        }
        if let Some(hints) = self.destination_hints {
            if hints.len() != d {
                return Some(TableRequestError::DimensionMismatch(DimensionMismatch::Hints));
            }
        }
        if let Some(approaches) = self.source_approaches {
            if approaches.len() != s {
                return Some(TableRequestError::DimensionMismatch(DimensionMismatch::Approaches));
            }
        }
        if let Some(approaches) = self.destination_approaches {
            if approaches.len() != d {
                return Some(TableRequestError::DimensionMismatch(DimensionMismatch::Approaches));
            }
        }
        if let Some(exclude) = self.exclude {
            if !excludes_share_profile(exclude) {
                return Some(TableRequestError::DifferentExcludeTypes);
            }
        }
        None
    }

    /// Checks the options and makes the request, or returns the first rule that
    /// they break.
    pub fn build(&self) -> (res: Result<TableRequest<'a>, TableRequestError>)
        ensures
            self.builds(res),
    {
        if let Some(e) = self.first_violation() {
            return Err(e);
        }
        Ok(
            TableRequest {
                sources: self.sources,
                destinations: self.destinations,
                annotations: self.annotations,
                fallback_speed: self.fallback_speed,
                fallback_coordinate: self.fallback_coordinate,
                scale_factor: self.scale_factor,
                source_bearings: self.source_bearings,
                destination_bearings: self.destination_bearings,
                source_radiuses: self.source_radiuses,
                destination_radiuses: self.destination_radiuses,
                generate_hints: self.generate_hints,
                source_hints: self.source_hints,
                destination_hints: self.destination_hints,
                source_approaches: self.source_approaches,
                destination_approaches: self.destination_approaches,
                exclude: self.exclude,
                snapping: self.snapping,
            },
        )
    }
}

/// Without a source the options break the rule on sources, and with a
/// source and without a destination the rule on destinations, whatever
/// else they hold.
pub proof fn lemma_empty_sides(q: TableOptions)
    ensures
        q.sources.len() == 0 ==> q.first_error() == Some(TableRequestError::EmptySources),
        q.sources.len() > 0 && q.destinations.len() == 0 ==> q.first_error() == Some(
            TableRequestError::EmptyDestinations,
        ),
{
}

/// Sources, destinations and every option at its default break no rule.
pub proof fn lemma_defaults_suffice(sources: Seq<Point>, destinations: Seq<Point>)
    requires
        sources.len() > 0,
        destinations.len() > 0,
    ensures
        TableOptions::defaults(sources, destinations).first_error() is None,
{
}

/// A fallback speed or a scale factor that is not positive is an error of
/// its own, the speed's before the factor's; and of fallback speed and
/// fallback coordinate one without the other is an incomplete pair.
pub proof fn lemma_fallback_rules(q: TableOptions)
    requires
        q.sources.len() > 0,
        q.destinations.len() > 0,
    ensures
        q.fallback_speed is Some && q.fallback_speed.unwrap() <= 0 ==> q.first_error() == Some(
            TableRequestError::NonPositiveFallbackSpeed,
        ),
        !(q.fallback_speed is Some && q.fallback_speed.unwrap() <= 0) && q.scale_factor is Some
            && q.scale_factor.unwrap() <= 0 ==> q.first_error() == Some(
            TableRequestError::NonPositiveScaleFactor,
        ),
        q.first_error() == Some(TableRequestError::IncompleteFallbackPair) ==> (
        q.fallback_coordinate is Some) != (q.fallback_speed is Some),
        q.valid() ==> (q.fallback_coordinate is Some) == (q.fallback_speed is Some),
{
}

/// A scale factor added to the defaults breaks no rule where it is
/// positive and the response holds durations; it is the error of a scale
/// factor without durations where it is positive and the response holds
/// none.
pub proof fn lemma_scale_factor_alone(
    sources: Seq<Point>,
    destinations: Seq<Point>,
    annotations: TableAnnotation,
    factor: i64,
)
    requires
        sources.len() > 0,
        destinations.len() > 0,
        factor > 0,
    ensures
        (TableOptions {
            annotations,
            scale_factor: Some(factor),
            ..TableOptions::defaults(sources, destinations)
        }).first_error() == if annotations.has_duration() {
            None
        } else {
            Some(TableRequestError::ScaleFactorRequiresDuration)
        },
{
}

/// Options that break no rule hold no array option of another length
/// than the side that it belongs to.
pub proof fn lemma_valid_fits(q: TableOptions)
    requires
        q.valid(),
    ensures
        q.sources.len() > 0,
        q.destinations.len() > 0,
        fits(q.source_bearings, q.sources.len()),
        fits(q.destination_bearings, q.destinations.len()),
        fits(q.source_radiuses, q.sources.len()),
        fits(q.destination_radiuses, q.destinations.len()),
        fits(q.source_hints, q.sources.len()),
        fits(q.destination_hints, q.destinations.len()),
        fits(q.source_approaches, q.sources.len()),
        fits(q.destination_approaches, q.destinations.len()),
{
}

/// Bearings for the sources added to the defaults give a dimension
/// mismatch that names the bearings where they are not as many as the
/// sources, and no error where they are.
pub proof fn lemma_source_bearings_alone(
    sources: Seq<Point>,
    destinations: Seq<Point>,
    bearings: Seq<Option<Bearing>>,
)
    requires
        sources.len() > 0,
        destinations.len() > 0,
    ensures
        (TableOptions {
            source_bearings: Some(bearings),
            ..TableOptions::defaults(sources, destinations)
        }).first_error() == if bearings.len() == sources.len() {
            None
        } else {
            Some(TableRequestError::DimensionMismatch(DimensionMismatch::Bearings))
        },
{
}

/// Building twice from one builder comes to the same: either two requests
/// that ask for the same, or twice the same error.
pub proof fn lemma_build_repeats<'a>(
    builder: TableRequestBuilder<'a>,
    first: Result<TableRequest<'a>, TableRequestError>,
    second: Result<TableRequest<'a>, TableRequestError>,
)
    requires
        builder.builds(first),
        builder.builds(second),
    ensures
        match (first, second) {
            (Ok(a), Ok(b)) => a@ == b@,
            (Err(a), Err(b)) => a == b,
            _ => false,
        },
{
}

/// A source or a destination as the engine snapped it.
#[derive(Clone, Debug)]
pub struct TableLocationEntry {
    /// A token that stands for the snapped point in a later request;
    /// `None` where the request asked for no hints.
    pub hint: Option<String>,
    pub location: [i64; 2],
    /// The name of the road that the point was snapped to.
    pub name: String,
    /// How far the snapped point lies from the one given.
    pub distance: i64,
}

/// What the table service answers. Each table holds one row for each
/// source and in it one entry for each destination; an entry is `None`
/// where no route was found.
#[derive(Clone, Debug)]
pub struct TableResponse {
    /// `"Ok"` on success.
    pub code: String,
    pub destinations: Vec<TableLocationEntry>,
    /// The travel times, in millionths of a second.
    pub durations: Option<Vec<Vec<Option<i64>>>>,
    /// The distances, in millionths of a metre.
    pub distances: Option<Vec<Vec<Option<i64>>>>,
    pub sources: Vec<TableLocationEntry>,
}

} // verus!

//! Snap a coordinate to the nearest segments of the road network.

use crate::osrm_response_types::Waypoint;
use crate::request_types::{Bearing, Exclude, Snapping};
use crate::services::{excludes_share_profile, one_profile, optional_seq, Approach};
use crate::Point;
use vstd::prelude::*;
use vstd::string::StringExecFns;

verus! {

/// Why a nearest request cannot be built.
#[derive(Clone, Copy, Debug, PartialEq, Eq, Structural)]
pub enum NearestRequestError {
    /// The exclusions are not all of one profile.
    DifferentExcludeTypes,
    /// The radius is negative.
    NegativeRadius,
}

impl NearestRequestError {
    /// The error in words.
    pub open spec fn text(self) -> Seq<char> {
        match self {
            NearestRequestError::DifferentExcludeTypes =>
                "Exclude types are not all of the same type"@,
            NearestRequestError::NegativeRadius => "Radii must be non-negative"@,
        }
    }

    /// The error in words, naming the option or the index at fault.
    pub fn message(&self) -> (res: String)
        ensures
            res@ == self.text(),
    {
        match self {
            NearestRequestError::DifferentExcludeTypes => String::from_str(
                "Exclude types are not all of the same type",
            ),
            NearestRequestError::NegativeRadius => String::from_str("Radii must be non-negative"),
        }
    }
}

/// What a nearest request asks for: the one point and every option, as
/// mathematical values.
pub struct NearestOptions {
    pub point: Point,
    pub number: u64,
    pub bearing: Option<Bearing>,
    pub radius: Option<i64>,
    pub approach: Option<Approach>,
    pub exclude: Option<Seq<Exclude>>,
    pub snapping: Option<Snapping>,
}

impl NearestOptions {
    /// The options of a builder on which nothing has been set.
    pub open spec fn defaults(point: Point, number: u64) -> NearestOptions {
        NearestOptions {
            point,
            number,
            bearing: None,
            radius: None,
            approach: None,
            exclude: None,
            snapping: None,
        }
    }

    /// The first rule that the options break, in the order in which the rules
    /// are checked, or `None` where they break none.
    pub open spec fn first_error(self) -> Option<NearestRequestError> {
        if self.exclude matches Some(e) && !one_profile(e) {
            Some(NearestRequestError::DifferentExcludeTypes)
        } else if self.radius matches Some(r) && r < 0 {
            Some(NearestRequestError::NegativeRadius)
        } else {
            None
        }
    }

    /// Whether the options break no rule.
    pub open spec fn valid(self) -> bool {
        self.first_error() is None
    }
}

/// A request to the nearest service, for exactly one point. Made by
/// [`NearestRequestBuilder::build`] alone, which lets none through that breaks
/// a rule.
#[derive(Clone, Copy, Debug)]
pub struct NearestRequest<'a> {
    point: &'a Point,
    number: u64,
    bearing: Option<Bearing>,
    radius: Option<i64>,
    approach: Option<Approach>,
    exclude: Option<&'a [Exclude]>,
    snapping: Option<Snapping>,
}

impl<'a> View for NearestRequest<'a> {
    type V = NearestOptions;

    closed spec fn view(&self) -> NearestOptions {
        NearestOptions {
            point: *self.point,
            number: self.number,
            bearing: self.bearing,
            radius: self.radius,
            approach: self.approach,
            exclude: optional_seq(self.exclude),
            snapping: self.snapping,
        }
    }
}

impl<'a> NearestRequest<'a> {
    #[verifier::type_invariant]
    spec fn well_formed(self) -> bool {
        self@.valid()
    }

    /// The point to snap.
    pub fn point(&self) -> (res: &'a Point)
        ensures
            *res == self@.point,
            self@.valid(),
    {
        proof {
            use_type_invariant(self);
        }
        self.point
    }

    /// How many of the nearest segments to return.
    pub fn number(&self) -> (res: u64)
        ensures
            res == self@.number,
            self@.valid(),
    {
        proof {
            use_type_invariant(self);
        }
        self.number
    }

    /// The directions in which the point may be snapped.
    pub fn bearing(&self) -> (res: Option<Bearing>)
        ensures
            res == self@.bearing,
    {
        self.bearing
    }

    /// The distance, in millionths of a metre, within which the point may be
    /// snapped.
    pub fn radius(&self) -> (res: Option<i64>)
        ensures
            res == self@.radius,
    {
        self.radius
    }

    /// The side of the road from which the point is reached.
    pub fn approach(&self) -> (res: Option<Approach>)
        ensures
            res == self@.approach,
    {
        self.approach
    }

    /// The road classes to leave out, all of one profile.
    pub fn exclude(&self) -> (res: Option<&'a [Exclude]>)
        ensures
            optional_seq(res) == self@.exclude,
    {
        self.exclude
    }

    /// Which segments the point may be snapped to.
    pub fn snapping(&self) -> (res: Option<Snapping>)
        ensures
            res == self@.snapping,
    {
        self.snapping
    }

}

/// Collects the options of a nearest request and checks them.
#[derive(Clone, Copy, Debug)]
pub struct NearestRequestBuilder<'a> {
    point: &'a Point,
    number: u64,
    bearing: Option<Bearing>,
    radius: Option<i64>,
    approach: Option<Approach>,
    exclude: Option<&'a [Exclude]>,
    snapping: Option<Snapping>,
}

impl<'a> View for NearestRequestBuilder<'a> {
    type V = NearestOptions;

    closed spec fn view(&self) -> NearestOptions {
        NearestOptions {
            point: *self.point,
            number: self.number,
            bearing: self.bearing,
            radius: self.radius,
            approach: self.approach,
            exclude: optional_seq(self.exclude),
            snapping: self.snapping,
        }
    }
}

impl<'a> NearestRequestBuilder<'a> {
    /// A builder for the given point and number of segments, with every option
    /// unset.
    pub fn new(point: &'a Point, number: u64) -> (res: Self)
        ensures
            res@ == NearestOptions::defaults(*point, number),
    {
        Self {
            point,
            number,
            bearing: None,
            radius: None,
            approach: None,
            exclude: None,
            snapping: None,
        }
    }

    /// Replaces the point, keeping the options.
    pub fn point(self, point: &'a Point) -> (res: Self)
        ensures
            res@ == (NearestOptions { point: *point, ..self@ }),
    {
        let mut b = self;
        b.point = point;
        b
    }

    /// The directions in which the point may be snapped.
    pub fn bearing(self, bearing: Bearing) -> (res: Self)
        ensures
            res@ == (NearestOptions { bearing: Some(bearing), ..self@ }),
    {
        let mut b = self;
        b.bearing = Some(bearing);
        b
    }

    /// The distance, in millionths of a metre, within which the point may be
    /// snapped.
    pub fn radius(self, coordinate_radius: i64) -> (res: Self)
        ensures
            res@ == (NearestOptions { radius: Some(coordinate_radius), ..self@ }),
    {
        let mut b = self;
        b.radius = Some(coordinate_radius);
        b
    }

    /// The side of the road from which the point is reached.
    pub fn approach(self, approach_direction: Approach) -> (res: Self)
        ensures
            res@ == (NearestOptions { approach: Some(approach_direction), ..self@ }),
    {
        let mut b = self;
        b.approach = Some(approach_direction);
        b
    }

    /// The road classes to leave out, all of one profile.
    pub fn exclude(self, exclude: &'a [Exclude]) -> (res: Self)
        ensures
            res@ == (NearestOptions { exclude: Some(exclude@), ..self@ }),
    {
        let mut b = self;
        b.exclude = Some(exclude);
        b
    }

    /// Which segments the point may be snapped to.
    pub fn snapping(self, snapping: Snapping) -> (res: Self)
        ensures
            res@ == (NearestOptions { snapping: Some(snapping), ..self@ }),
    {
        let mut b = self;
        b.snapping = Some(snapping);
        b
    }

    /// Whether `res` is what building comes to: a request for exactly the
    /// options of the builder where they break no rule, and else the first rule
    /// that they break.
    pub open spec fn builds(&self, res: Result<NearestRequest<'a>, NearestRequestError>) -> bool {
        match res {
            Ok(request) => self@.first_error() is None && request@ == self@,
            Err(e) => self@.first_error() == Some(e),
        }
    }

    /// The first rule that the options break, or `None` where they break none.
    fn first_violation(&self) -> (res: Option<NearestRequestError>)
        ensures
            res == self@.first_error(),
    {
        if let Some(exclude) = self.exclude {
            if !excludes_share_profile(exclude) {
                return Some(NearestRequestError::DifferentExcludeTypes);
            }
        }
        if let Some(r) = self.radius {
            if r < 0 {
                return Some(NearestRequestError::NegativeRadius);
            }
        }
        None
    }

    /// Checks the options and makes the request, or returns the first rule that
    /// they break.
    pub fn build(&self) -> (res: Result<NearestRequest<'a>, NearestRequestError>)
        ensures
            self.builds(res),
    {
        if let Some(e) = self.first_violation() {
            return Err(e);
        }
        Ok(
            NearestRequest {
                point: self.point,
                number: self.number,
                bearing: self.bearing,
                radius: self.radius,
                approach: self.approach,
                exclude: self.exclude,
                snapping: self.snapping,
            },
        )
    }
}

/// A point, a number and every option unset break no rule.
pub proof fn lemma_defaults_suffice(point: Point, number: u64)
    ensures
        NearestOptions::defaults(point, number).first_error() is None,
{
}

/// A radius added to the defaults is an error exactly where it is
/// negative.
pub proof fn lemma_radius_alone(point: Point, number: u64, radius: i64)
    ensures
        (NearestOptions {
            radius: Some(radius),
            ..NearestOptions::defaults(point, number)
        }).first_error() == if radius < 0 {
            Some(NearestRequestError::NegativeRadius)
        } else {
            None
        },
{
}

/// Building twice from one builder comes to the same: either two requests
/// that ask for the same, or twice the same error.
pub proof fn lemma_build_repeats<'a>(
    builder: NearestRequestBuilder<'a>,
    first: Result<NearestRequest<'a>, NearestRequestError>,
    second: Result<NearestRequest<'a>, NearestRequestError>,
)
    requires
        builder.builds(first),
        builder.builds(second),
    ensures
        match (first, second) {
            (Ok(a), Ok(b)) => a@ == b@,
            (Err(a), Err(b)) => a == b,
            _ => false,
        },
{
}

/// What the nearest service answers.
#[derive(Clone, Debug)]
pub struct NearestResponse {
    /// `"Ok"` on success.
    pub code: String,
    /// The snapped points, the nearest first.
    pub waypoints: Vec<Waypoint>,
}

} // verus!

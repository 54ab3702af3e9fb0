//! Option types that the service requests share.

use crate::text::{push_char, signed_decimal, signed_string};
use vstd::prelude::*;
use vstd::string::StringExecFns;

verus! {

/// The encoding in which a service returns path geometry.
///
/// For no geometry at all, set `OverviewZoom::False` in the builder.
#[derive(Clone, Copy, Debug, PartialEq, Eq, Structural)]
pub enum GeometryType {
    Polyline,
    /// Polyline with six decimal places of precision in place of five.
    Polyline6,
    GeoJSON,
}

impl GeometryType {
    /// The variant as a query writes it.
    pub open spec fn url_text(self) -> Seq<char> {
        match self {
            GeometryType::GeoJSON => "geojson"@,
            GeometryType::Polyline => "polyline"@,
            GeometryType::Polyline6 => "polyline6"@,
        }
    }

    /// The variant in lower case: `"geojson"`, `"polyline"` or
    /// `"polyline6"`.
    pub fn url_form(self) -> (s: &'static str)
        ensures
            s@ == self.url_text(),
    {
        match self {
            GeometryType::GeoJSON => "geojson",
            GeometryType::Polyline => "polyline",
            GeometryType::Polyline6 => "polyline6",
        }
    }
}

/// The level of detail of the overview geometry. With `False` the response
/// holds no geometry.
#[derive(Clone, Copy, Debug, PartialEq, Eq, Structural)]
pub enum OverviewZoom {
    Simplified,
    Full,
    False,
}

impl OverviewZoom {
    /// The variant as a query writes it.
    pub open spec fn url_text(self) -> Seq<char> {
        match self {
            OverviewZoom::Full => "full"@,
            OverviewZoom::Simplified => "simplified"@,
            OverviewZoom::False => "false"@,
        }
    }

    /// The variant in lower case: `"full"`, `"simplified"` or `"false"`.
    pub fn url_form(&self) -> (s: &'static str)
        ensures
            s@ == self.url_text(),
    {
        match self {
            OverviewZoom::Full => "full",
            OverviewZoom::Simplified => "simplified",
            OverviewZoom::False => "false",
        }
    }
}

/// An arc of directions in which a coordinate may be snapped to a segment.
///
/// `bearing` is the middle of the arc in degrees clockwise from true north,
/// `range` the number of degrees to either side of it. `Bearing::new(0, 10)`
/// is the arc ten degrees either side of north.
#[derive(Clone, Copy, Debug, PartialEq, Eq, Structural)]
pub struct Bearing {
    bearing: i16,
    range: i16,
}

impl Bearing {
    /// Whether an angle and a range make a bearing that the engine accepts.
    pub open spec fn in_range(bearing: int, range: int) -> bool {
        0 <= bearing <= 360 && 0 <= range <= 180
    }

    /// The middle of the arc, in degrees.
    pub closed spec fn angle(self) -> int {
        self.bearing as int
    }

    /// The half-width of the arc, in degrees.
    pub closed spec fn spread(self) -> int {
        self.range as int
    }

    /// The arc that admits every direction: all of the circle.
    pub closed spec fn unrestricted() -> Bearing {
        Bearing { bearing: 0, range: 180 }
    }

    /// The bearing as a query writes it: angle, comma, range.
    pub open spec fn url_text(self) -> Seq<char> {
        signed_decimal(self.angle()) + seq![','] + signed_decimal(self.spread())
    }

    /// A bearing with `0 <= bearing <= 360` and `0 <= range <= 180`, or
    /// `None` where either is outside those bounds.
    pub fn new(bearing: i16, range: i16) -> (res: Option<Self>)
        ensures
            res is Some <==> Self::in_range(bearing as int, range as int),
            res matches Some(b) ==> b.angle() == bearing && b.spread() == range,
    {
        if bearing < 0 || bearing > 360 || range < 0 || range > 180 {
            return None;
        }
        Some(Self { bearing, range })
    }

    /// A bearing whose values are not checked. The engine rejects an
    /// invalid one when the request is made.
    pub fn new_unchecked(bearing: i16, range: i16) -> (res: Self)
        ensures
            res.angle() == bearing,
            res.spread() == range,
    {
        Self { bearing, range }
    }

    /// The middle of the arc, in degrees.
    pub fn bearing(&self) -> (res: i16)
        ensures
            res == self.angle(),
    {
        self.bearing
    }

    /// The half-width of the arc, in degrees.
    pub fn range(&self) -> (res: i16)
        ensures
            res == self.spread(),
    {
        self.range
    }

    /// The bearing as a comma separated pair, as a query writes it.
    pub fn url_form(&self) -> (res: String)
        ensures
            res@ == self.url_text(),
    {
        let mut s = signed_string(self.bearing as i64);
        push_char(&mut s, ',');
        let range = signed_string(self.range as i64);
        s.append(range.as_str());
        proof {
            assert(s@ =~= self.url_text());
        }
        s
    }
}

impl Default for Bearing {
    /// The arc that admits every direction.
    fn default() -> (res: Self)
        ensures
            res == Bearing::unrestricted(),
            res.angle() == 0,
            res.spread() == 180,
    {
        Bearing { bearing: 0, range: 180 }
    }
}

/// A road class to leave out of a computation. Exclusions belong to the
/// profile with which the map was prepared, so those of one request are all
/// of one profile.
#[derive(Clone, Copy, Debug, PartialEq, Eq, Structural)]
pub enum Exclude {
    Car(CarExclude),
    Bicycle(BicycleExclude),
}

impl Exclude {
    /// Whether two exclusions belong to the same profile.
    pub open spec fn same_profile(self, other: Exclude) -> bool {
        (self is Car) == (other is Car)
    }

    /// The excluded class as a query writes it.
    pub open spec fn name(self) -> Seq<char> {
        match self {
            Exclude::Car(v) => v.name(),
            Exclude::Bicycle(v) => v.name(),
        }
    }

    /// The excluded class in lower case, whatever the profile.
    pub fn as_str(&self) -> (s: &'static str)
        ensures
            s@ == self.name(),
    {
        match self {
            Exclude::Car(v) => v.as_str(),
            Exclude::Bicycle(v) => v.as_str(),
        }
    }
}

/// The road classes that routing by car may exclude.
#[derive(Clone, Copy, Debug, PartialEq, Eq, Structural)]
pub enum CarExclude {
    Toll,
    Motorway,
    Ferry,
}

impl CarExclude {
    /// The class as a query writes it.
    pub open spec fn name(self) -> Seq<char> {
        match self {
            CarExclude::Toll => "toll"@,
            CarExclude::Motorway => "motorway"@,
            CarExclude::Ferry => "ferry"@,
        }
    }

    /// The class in lower case: `"toll"`, `"motorway"` or `"ferry"`.
    pub fn as_str(&self) -> (s: &'static str)
        ensures
            s@ == self.name(),
    {
        match self {
            CarExclude::Toll => "toll",
            CarExclude::Motorway => "motorway",
            CarExclude::Ferry => "ferry",
        }
    }
}

/// The road classes that routing by bicycle may exclude.
#[derive(Clone, Copy, Debug, PartialEq, Eq, Structural)]
pub enum BicycleExclude {
    Ferry,
}

impl BicycleExclude {
    /// The class as a query writes it.
    pub open spec fn name(self) -> Seq<char> {
        match self {
            BicycleExclude::Ferry => "ferry"@,
        }
    }

    /// The class in lower case: `"ferry"`.
    pub fn as_str(&self) -> (s: &'static str)
        ensures
            s@ == self.name(),
    {
        match self {
            BicycleExclude::Ferry => "ferry",
        }
    }
}

/// Which segments a coordinate may be snapped to.
#[derive(Clone, Copy, Debug, PartialEq, Eq, Structural)]
pub enum Snapping {
    /// Accessible segments only: those from which a route may start.
    Default,
    /// Any segment.
    Any,
}

impl Snapping {
    /// The variant as a query writes it.
    pub open spec fn url_text(self) -> Seq<char> {
        match self {
            Snapping::Default => "default"@,
            Snapping::Any => "any"@,
        }
    }

    /// The variant in lower case: `"default"` or `"any"`.
    pub fn url_form(&self) -> (s: &'static str)
        ensures
            s@ == self.url_text(),
    {
        match self {
            Snapping::Default => "default",
            Snapping::Any => "any",
        }
    }
}

} // verus!

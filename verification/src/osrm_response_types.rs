//! The parts of which the services' responses are made.
//!
//! Distances, durations, weights, speeds and degrees are counted in
//! millionths of their unit. A location is a pair of longitude and latitude,
//! in that order.
//!
//! Each type's `default` is the placeholder that stands in for it where no
//! engine has been asked; `is_placeholder` says what that value holds.

use crate::request_types::{GeometryType, OverviewZoom};
use vstd::prelude::*;
use vstd::string::StringExecFns;

verus! {

/// A path as a line string of GeoJSON.
#[derive(Clone, Debug)]
pub struct GeoJsonLineString {
    /// The type tag of the object: `"LineString"`.
    pub kind: String,
    /// The positions of the line, each a longitude and a latitude.
    pub coordinates: Vec<[i64; 2]>,
}

impl GeoJsonLineString {
    /// Whether this is the placeholder line: four positions along the
    /// tenth parallel north.
    pub open spec fn is_placeholder(self) -> bool {
        &&& self.kind@ == "LineString"@
        &&& self.coordinates@.len() == 4
        &&& self.coordinates@[0]@ == seq![120_000_000i64, 10_000_000i64]
        &&& self.coordinates@[1]@ == seq![120_100_000i64, 10_000_000i64]
        &&& self.coordinates@[2]@ == seq![120_200_000i64, 10_000_000i64]
        &&& self.coordinates@[3]@ == seq![120_300_000i64, 10_000_000i64]
    }
}

impl Default for GeoJsonLineString {
    fn default() -> (res: Self)
        ensures
            res.is_placeholder(),
    {
        let mut coordinates: Vec<[i64; 2]> = Vec::new();
        coordinates.push([120_000_000, 10_000_000]);
        coordinates.push([120_100_000, 10_000_000]);
        coordinates.push([120_200_000, 10_000_000]);
        coordinates.push([120_300_000, 10_000_000]);
        let res = Self { kind: String::from_str("LineString"), coordinates };
        proof {
            assert(res.coordinates@[0]@ =~= seq![120_000_000i64, 10_000_000i64]);
            assert(res.coordinates@[1]@ =~= seq![120_100_000i64, 10_000_000i64]);
            assert(res.coordinates@[2]@ =~= seq![120_200_000i64, 10_000_000i64]);
            assert(res.coordinates@[3]@ =~= seq![120_300_000i64, 10_000_000i64]);
        }
        res
    }
}

/// The geometry of a path, in the encoding that the request chose.
#[derive(Clone, Debug)]
pub enum Geometry {
    /// An encoded polyline, of five or of six decimal places.
    Polyline(String),
    /// A line string of GeoJSON.
    GeoJson(GeoJsonLineString),
}

impl Geometry {
    /// Whether this is the placeholder geometry in the given encoding: the
    /// placeholder line for GeoJSON, one fixed polyline otherwise.
    pub open spec fn is_placeholder_in(self, encoding: GeometryType) -> bool {
        match encoding {
            GeometryType::GeoJSON => self matches Geometry::GeoJson(line) && line.is_placeholder(),
            _ => self matches Geometry::Polyline(p) && p@ == "{lu_IypwpAVrAvAdI"@,
        }
    }

    /// The placeholder geometry in the given encoding.
    pub fn placeholder(encoding: GeometryType) -> (res: Self)
        ensures
            res.is_placeholder_in(encoding),
    {
        match encoding {
            GeometryType::GeoJSON => Geometry::GeoJson(GeoJsonLineString::default()),
            _ => Geometry::Polyline(String::from_str("{lu_IypwpAVrAvAdI")),
        }
    }
}

/// The names of the data sources of an annotation.
#[derive(Clone, Debug)]
pub struct Metadata {
    pub datasource_names: Vec<String>,
}

impl Metadata {
    /// Whether this is the placeholder: the one source `"lua profile"`.
    pub open spec fn is_placeholder(self) -> bool {
        &&& self.datasource_names@.len() == 1
        &&& self.datasource_names@[0]@ == "lua profile"@
    }
}

impl Default for Metadata {
    fn default() -> (res: Self)
        ensures
            res.is_placeholder(),
    {
        let mut datasource_names: Vec<String> = Vec::new();
        datasource_names.push(String::from_str("lua profile"));
        Self { datasource_names }
    }
}

/// What is known of each segment of a leg.
#[derive(Clone, Debug)]
pub struct Annotation {
    /// The length of each segment.
    pub distance: Vec<i64>,
    /// The travel time over each segment.
    pub duration: Vec<i64>,
    /// For each segment the index of its data source.
    pub datasources: Vec<u64>,
    /// The identifier of each node along the leg.
    pub nodes: Vec<u64>,
    /// The weight of each segment.
    pub weight: Vec<i64>,
    /// The speed over each segment.
    pub speed: Vec<i64>,
    pub metadata: Metadata,
}

impl Annotation {
    /// Whether this is the placeholder: five segments between six nodes.
    pub open spec fn is_placeholder(self) -> bool {
        &&& self.distance@ == seq![5_000_000i64, 5_000_000i64, 10_000_000i64, 5_000_000i64, 5_000_000i64]
        &&& self.duration@ == seq![15_000_000i64, 15_000_000i64, 40_000_000i64, 15_000_000i64, 15_000_000i64]
        &&& self.datasources@ == seq![1u64, 0u64, 0u64, 0u64, 1u64]
        &&& self.nodes@ == seq![
            49772551u64,
            49772552u64,
            49786799u64,
            49786800u64,
            49786801u64,
            49786802u64,
        ]
        &&& self.weight@ == seq![15_000_000i64, 15_000_000i64, 40_000_000i64, 15_000_000i64, 15_000_000i64]
        &&& self.speed@.len() == 0
        &&& self.metadata.is_placeholder()
    }
}

impl Default for Annotation {
    fn default() -> (res: Self)
        ensures
            res.is_placeholder(),
    {
        let res = Self {
            distance: vec![5_000_000, 5_000_000, 10_000_000, 5_000_000, 5_000_000],
            duration: vec![15_000_000, 15_000_000, 40_000_000, 15_000_000, 15_000_000],
            datasources: vec![1, 0, 0, 0, 1],
            nodes: vec![49772551, 49772552, 49786799, 49786800, 49786801, 49786802],
            weight: vec![15_000_000, 15_000_000, 40_000_000, 15_000_000, 15_000_000],
            speed: Vec::new(),
            metadata: Metadata::default(),
        };
        proof {
            assert(res.distance@ =~= seq![5_000_000i64, 5_000_000i64, 10_000_000i64, 5_000_000i64, 5_000_000i64]);
            assert(res.duration@ =~= seq![15_000_000i64, 15_000_000i64, 40_000_000i64, 15_000_000i64, 15_000_000i64]);
            assert(res.datasources@ =~= seq![1u64, 0u64, 0u64, 0u64, 1u64]);
            assert(res.nodes@ =~= seq![
                49772551u64,
                49772552u64,
                49786799u64,
                49786800u64,
                49786801u64,
                49786802u64,
            ]);
            assert(res.weight@ =~= seq![15_000_000i64, 15_000_000i64, 40_000_000i64, 15_000_000i64, 15_000_000i64]);
        }
        res
    }
}

/// The side of the road on which traffic drives.
#[derive(Clone, Copy, Debug, PartialEq, Eq, Structural)]
pub enum DrivingSide {
    Right,
    Left,
}

/// The mode of travel over a step.
#[derive(Clone, Copy, Debug, PartialEq, Eq, Structural)]
pub enum DrivingMode {
    Inaccessible,
    Driving,
    Cycling,
    Walking,
    Ferry,
    Train,
    PushingBike,
    StepsUp,
    StepsDown,
    RiverUpstream,
    RiverDownstream,
    Route,
    Other,
}

/// The direction of a turn.
#[derive(Clone, Copy, Debug, PartialEq, Eq, Structural)]
pub enum Direction {
    Uturn,
    SharpRight,
    Right,
    SlightRight,
    Straight,
    SlightLeft,
    Left,
    SharpLeft,
    /// No change of direction is given.
    Unspecified,
    Other,
}

/// One lane at an intersection.
#[derive(Clone, Debug)]
pub struct Lane {
    /// The turns that the lane's markings show.
    pub indications: Vec<String>,
    /// Whether the lane may be taken for the maneuver.
    pub valid: bool,
}

impl Lane {
    /// Whether this is the placeholder: a lane marked left and straight
    /// that the maneuver may not take.
    pub open spec fn is_placeholder(self) -> bool {
        &&& self.indications@.len() == 2
        &&& self.indications@[0]@ == "left"@
        &&& self.indications@[1]@ == "straight"@
        &&& !self.valid
    }
}

impl Default for Lane {
    fn default() -> (res: Self)
        ensures
            res.is_placeholder(),
    {
        let mut indications: Vec<String> = Vec::new();
        indications.push(String::from_str("left"));
        indications.push(String::from_str("straight"));
        Self { indications, valid: false }
    }
}

/// A place where roads meet along a step.
#[derive(Clone, Debug)]
pub struct Intersection {
    pub location: [i64; 2],
    /// The bearings, in degrees, of the roads that meet here.
    pub bearings: Vec<u16>,
    /// The classes of the road that leaves the intersection.
    pub classes: Option<Vec<String>>,
    /// For each bearing whether the road may be entered.
    pub entry: Vec<bool>,
    /// The index, among the bearings, of the road by which the step
    /// arrives.
    pub incoming: Option<usize>,
    /// The index, among the bearings, of the road by which the step
    /// leaves.
    pub out: Option<usize>,
    pub lanes: Option<Vec<Lane>>,
}

impl Intersection {
    /// Whether this is the placeholder: four roads, entered by the first
    /// and left by the third, with one lane.
    pub open spec fn is_placeholder(self) -> bool {
        &&& self.location@ == seq![13_394_718i64, 52_543_096i64]
        &&& self.bearings@ == seq![60u16, 150u16, 240u16, 330u16]
        &&& self.classes matches Some(classes) && classes@.len() == 2 && classes@[0]@ == "toll"@
            && classes@[1]@ == "restricted"@
        &&& self.entry@ == seq![false, true, true, true]
        &&& self.incoming == Some(0usize)
        &&& self.out == Some(2usize)
        &&& self.lanes matches Some(lanes) && lanes@.len() == 1 && lanes@[0].is_placeholder()
    }
}

impl Default for Intersection {
    fn default() -> (res: Self)
        ensures
            res.is_placeholder(),
    {
        let mut classes: Vec<String> = Vec::new();
        classes.push(String::from_str("toll"));
        classes.push(String::from_str("restricted"));
        let mut lanes: Vec<Lane> = Vec::new();
        lanes.push(Lane::default());
        let res = Self {
            location: [13_394_718, 52_543_096],
            bearings: vec![60, 150, 240, 330],
            classes: Some(classes),
            entry: vec![false, true, true, true],
            incoming: Some(0),
            out: Some(2),
            lanes: Some(lanes),
        };
        proof {
            assert(res.location@ =~= seq![13_394_718i64, 52_543_096i64]);
            assert(res.bearings@ =~= seq![60u16, 150u16, 240u16, 330u16]);
            assert(res.entry@ =~= seq![false, true, true, true]);
        }
        res
    }
}

/// The turn that begins a step.
#[derive(Clone, Debug)]
pub struct StepManeuver {
    pub location: [i64; 2],
    /// The direction of travel before the maneuver, in degrees clockwise
    /// from north.
    pub bearing_before: i64,
    /// The direction of travel after the maneuver.
    pub bearing_after: i64,
    /// The type of the maneuver, such as `"turn"` or `"depart"`.
    pub kind: String,
    /// The direction of the change, such as `"right"`.
    pub modifier: Option<String>,
    /// The number of the exit to take, at a roundabout.
    pub exit: Option<u64>,
}

impl StepManeuver {
    /// Whether this is the placeholder: a turn to the right.
    pub open spec fn is_placeholder(self) -> bool {
        &&& self.location@ == seq![13_396_770i64, 52_543_660i64]
        &&& self.bearing_before == 0
        &&& self.bearing_after == 0
        &&& self.kind@ == "turn"@
        &&& self.modifier matches Some(m) && m@ == "right"@
        &&& self.exit is None
    }
}

impl Default for StepManeuver {
    fn default() -> (res: Self)
        ensures
            res.is_placeholder(),
    {
        let res = Self {
            location: [13_396_770, 52_543_660],
            bearing_before: 0,
            bearing_after: 0,
            kind: String::from_str("turn"),
            modifier: Some(String::from_str("right")),
            exit: None,
        };
        proof {
            assert(res.location@ =~= seq![13_396_770i64, 52_543_660i64]);
        }
        res
    }
}

/// One maneuver and the way to the next.
#[derive(Clone, Debug)]
pub struct RouteStep {
    pub distance: i64,
    pub duration: i64,
    pub weight: i64,
    /// The name of the road.
    pub name: String,
    /// The reference number or code of the road.
    pub reference: Option<String>,
    pub pronunciation: Option<String>,
    pub destinations: Option<String>,
    pub exits: Option<String>,
    pub rotary_name: Option<String>,
    pub rotary_pronunciation: Option<String>,
    pub mode: DrivingMode,
    pub maneuver: StepManeuver,
    pub geometry: Geometry,
    pub driving_side: DrivingSide,
    pub intersections: Vec<Intersection>,
}

impl RouteStep {
    /// Whether this is the placeholder: a drive along one named road past
    /// two intersections, its geometry a polyline.
    pub open spec fn is_placeholder(self) -> bool {
        self.is_placeholder_in(GeometryType::Polyline)
    }

    /// Whether this is the placeholder step with its geometry in the given
    /// encoding.
    pub open spec fn is_placeholder_in(self, encoding: GeometryType) -> bool {
        &&& self.distance == 152_300_000
        &&& self.duration == 15_600_000
        &&& self.weight == 15_600_000
        &&& self.name@ == "Lortzingstraße"@
        &&& self.reference is None
        &&& self.pronunciation is None
        &&& self.destinations is None
        &&& self.exits is None
        &&& self.rotary_name is None
        &&& self.rotary_pronunciation is None
        &&& self.mode == DrivingMode::Driving
        &&& self.maneuver.is_placeholder()
        &&& self.geometry.is_placeholder_in(encoding)
        &&& self.driving_side == DrivingSide::Right
        &&& self.intersections@.len() == 2
        &&& self.intersections@[0].is_placeholder()
        &&& self.intersections@[1].is_placeholder()
    }
}

impl RouteStep {
    /// The placeholder step with its geometry in the given encoding.
    pub fn placeholder(encoding: GeometryType) -> (res: Self)
        ensures
            res.is_placeholder_in(encoding),
    {
        let mut intersections: Vec<Intersection> = Vec::new();
        intersections.push(Intersection::default());
        intersections.push(Intersection::default());
        Self {
            geometry: Geometry::placeholder(encoding),
            mode: DrivingMode::Driving,
            duration: 15_600_000,
            weight: 15_600_000,
            intersections,
            name: String::from_str("Lortzingstraße"),
            distance: 152_300_000,
            maneuver: StepManeuver::default(),
            reference: None,
            pronunciation: None,
            destinations: None,
            exits: None,
            rotary_name: None,
            rotary_pronunciation: None,
            driving_side: DrivingSide::Right,
        }
    }
}

impl Default for RouteStep {
    fn default() -> (res: Self)
        ensures
            res.is_placeholder(),
    {
        RouteStep::placeholder(GeometryType::Polyline)
    }
}

/// The way between two waypoints.
#[derive(Clone, Debug)]
pub struct RouteLeg {
    pub distance: i64,
    pub duration: i64,
    pub weight: i64,
    /// The names of the main roads of the leg.
    pub summary: String,
    /// The steps of the leg; empty where the request asked for none.
    pub steps: Vec<RouteStep>,
    pub annotation: Option<Annotation>,
}

impl RouteLeg {
    /// Whether this is the placeholder: thirty metres in a hundred
    /// seconds, without steps and with the placeholder annotation.
    pub open spec fn is_placeholder(self) -> bool {
        self.is_placeholder_with(false, true, GeometryType::GeoJSON)
    }

    /// Whether this is the placeholder leg as a request shapes it: with
    /// one placeholder step where steps are asked for and none otherwise,
    /// and with the placeholder annotation where annotations are asked for
    /// and none otherwise.
    pub open spec fn is_placeholder_with(
        self,
        steps: bool,
        annotations: bool,
        encoding: GeometryType,
    ) -> bool {
        &&& self.distance == 30_000_000
        &&& self.duration == 100_000_000
        &&& self.weight == 100_000_000
        &&& self.summary@ == ""@
        &&& if steps {
            self.steps@.len() == 1 && self.steps@[0].is_placeholder_in(encoding)
        } else {
            self.steps@.len() == 0
        }
        &&& if annotations {
            self.annotation matches Some(a) && a.is_placeholder()
        } else {
            self.annotation is None
        }
    }

    /// The placeholder leg as a request shapes it.
    pub fn placeholder(steps: bool, annotations: bool, encoding: GeometryType) -> (res: Self)
        ensures
            res.is_placeholder_with(steps, annotations, encoding),
    {
        let mut all_steps: Vec<RouteStep> = Vec::new();
        if steps {
            all_steps.push(RouteStep::placeholder(encoding));
        }
        Self {
            distance: 30_000_000,
            duration: 100_000_000,
            weight: 100_000_000,
            summary: String::from_str(""),
            steps: all_steps,
            annotation: if annotations {
                Some(Annotation::default())
            } else {
                None
            },
        }
    }
}

impl Default for RouteLeg {
    fn default() -> (res: Self)
        ensures
            res.is_placeholder(),
    {
        RouteLeg::placeholder(false, true, GeometryType::GeoJSON)
    }
}

/// A route through the waypoints.
#[derive(Clone, Debug)]
pub struct Route {
    pub distance: i64,
    pub duration: i64,
    /// The overview geometry; `None` where the request asked for none.
    pub geometry: Option<Geometry>,
    pub weight: i64,
    /// The name of the weight that the profile computes.
    pub weight_name: String,
    pub legs: Vec<RouteLeg>,
}

impl Route {
    /// Whether this is the placeholder: ninety metres in three hundred
    /// seconds over two legs, with the placeholder line as geometry.
    pub open spec fn is_placeholder(self) -> bool {
        self.is_placeholder_with(2, false, true, GeometryType::GeoJSON, OverviewZoom::Simplified)
    }

    /// Whether this is the placeholder route as a request shapes it:
    /// `legs` legs, each shaped by `steps`, `annotations` and `encoding`,
    /// and an overview geometry in that encoding unless the overview is
    /// switched off.
    pub open spec fn is_placeholder_with(
        self,
        legs: nat,
        steps: bool,
        annotations: bool,
        encoding: GeometryType,
        overview: OverviewZoom,
    ) -> bool {
        &&& self.distance == 90_000_000
        &&& self.duration == 300_000_000
        &&& self.weight == 300_000_000
        &&& self.weight_name@ == "duration"@
        &&& if overview == OverviewZoom::False {
            self.geometry is None
        } else {
            self.geometry matches Some(g) && g.is_placeholder_in(encoding)
        }
        &&& self.legs@.len() == legs
        &&& forall|i: int|
            0 <= i < legs ==> (#[trigger] self.legs@[i]).is_placeholder_with(
                steps,
                annotations,
                encoding,
            )
    }

    /// The placeholder route as a request shapes it.
    pub fn placeholder(
        legs: usize,
        steps: bool,
        annotations: bool,
        encoding: GeometryType,
        overview: OverviewZoom,
    ) -> (res: Self)
        ensures
            res.is_placeholder_with(legs as nat, steps, annotations, encoding, overview),
    {
        let mut all_legs: Vec<RouteLeg> = Vec::new();
        let mut i: usize = 0;
        while i < legs
            invariant
                i <= legs,
                all_legs@.len() == i,
                forall|k: int|
                    0 <= k < i ==> (#[trigger] all_legs@[k]).is_placeholder_with(
                        steps,
                        annotations,
                        encoding,
                    ),
            decreases legs - i,
        {
            all_legs.push(RouteLeg::placeholder(steps, annotations, encoding));
            i += 1;
        }
        Self {
            distance: 90_000_000,
            duration: 300_000_000,
            weight: 300_000_000,
            weight_name: String::from_str("duration"),
            geometry: match overview {
                OverviewZoom::False => None,
                _ => Some(Geometry::placeholder(encoding)),
            },
            legs: all_legs,
        }
    }
}

impl Default for Route {
    fn default() -> (res: Self)
        ensures
            res.is_placeholder(),
    {
        Route::placeholder(2, false, true, GeometryType::GeoJSON, OverviewZoom::Simplified)
    }
}

/// A route that a trace was matched to.
#[derive(Clone, Debug)]
pub struct MatchRoute {
    pub distance: i64,
    pub duration: i64,
    pub geometry: Option<Geometry>,
    pub weight: i64,
    pub weight_name: String,
    pub legs: Vec<RouteLeg>,
    /// How sure the matching is, in millionths: from zero to one million.
    pub confidence: i64,
}

impl MatchRoute {
    /// Whether this is the placeholder: the placeholder route, matched
    /// with full confidence.
    pub open spec fn is_placeholder(self) -> bool {
        self.is_placeholder_with(2, false, true, GeometryType::GeoJSON, OverviewZoom::Simplified)
    }

    /// Whether this is the placeholder matching as a request shapes it:
    /// `legs` legs, each shaped by `steps`, `annotations` and `encoding`,
    /// and an overview geometry in that encoding unless the overview is
    /// switched off.
    pub open spec fn is_placeholder_with(
        self,
        legs: nat,
        steps: bool,
        annotations: bool,
        encoding: GeometryType,
        overview: OverviewZoom,
    ) -> bool {
        &&& self.distance == 90_000_000
        &&& self.duration == 300_000_000
        &&& self.weight == 300_000_000
        &&& self.weight_name@ == "duration"@
        &&& if overview == OverviewZoom::False {
            self.geometry is None
        } else {
            self.geometry matches Some(g) && g.is_placeholder_in(encoding)
        }
        &&& self.legs@.len() == legs
        &&& forall|i: int|
            0 <= i < legs ==> (#[trigger] self.legs@[i]).is_placeholder_with(
                steps,
                annotations,
                encoding,
            )
        &&& self.confidence == 1_000_000
    }

    /// The placeholder matching as a request shapes it.
    pub fn placeholder(
        legs: usize,
        steps: bool,
        annotations: bool,
        encoding: GeometryType,
        overview: OverviewZoom,
    ) -> (res: Self)
        ensures
            res.is_placeholder_with(legs as nat, steps, annotations, encoding, overview),
    {
        let mut all_legs: Vec<RouteLeg> = Vec::new();
        let mut i: usize = 0;
        while i < legs
            invariant
                i <= legs,
                all_legs@.len() == i,
                forall|k: int|
                    0 <= k < i ==> (#[trigger] all_legs@[k]).is_placeholder_with(
                        steps,
                        annotations,
                        encoding,
                    ),
            decreases legs - i,
        {
            all_legs.push(RouteLeg::placeholder(steps, annotations, encoding));
            i += 1;
        }
        Self {
            distance: 90_000_000,
            duration: 300_000_000,
            weight: 300_000_000,
            weight_name: String::from_str("duration"),
            geometry: match overview {
                OverviewZoom::False => None,
                _ => Some(Geometry::placeholder(encoding)),
            },
            legs: all_legs,
            confidence: 1_000_000,
        }
    }
}

impl Default for MatchRoute {
    fn default() -> (res: Self)
        ensures
            res.is_placeholder(),
    {
        MatchRoute::placeholder(2, false, true, GeometryType::GeoJSON, OverviewZoom::Simplified)
    }
}

/// A point as the engine snapped it to the road network.
#[derive(Clone, Debug)]
pub struct Waypoint {
    /// A token that stands for the snapped point in a later request;
    /// `None` where the request asked for no hints.
    pub hint: Option<String>,
    pub location: [i64; 2],
    /// The name of the road that the point was snapped to.
    pub name: String,
    /// How far the snapped point lies from the one given.
    pub distance: i64,
}

impl Waypoint {
    /// Whether this is the placeholder: a point on one street of Berlin.
    pub open spec fn is_placeholder(self) -> bool {
        &&& self.hint matches Some(h) && h@
            == "KSoKADRYroqUBAEAEAAAABkAAAAGAAAAAAAAABhnCQCLtwAA_0vMAKlYIQM8TMwArVghAwEAAQH1a66g"@
        &&& self.location@ == seq![13_388_799i64, 52_517_033i64]
        &&& self.name@ == "Friedrichstraße"@
        &&& self.distance == 4_152_629
    }
}

impl Default for Waypoint {
    fn default() -> (res: Self)
        ensures
            res.is_placeholder(),
    {
        let res = Self {
            hint: Some(
                String::from_str(
                    "KSoKADRYroqUBAEAEAAAABkAAAAGAAAAAAAAABhnCQCLtwAA_0vMAKlYIQM8TMwArVghAwEAAQH1a66g",
                ),
            ),
            location: [13_388_799, 52_517_033],
            distance: 4_152_629,
            name: String::from_str("Friedrichstraße"),
        };
        proof {
            assert(res.location@ =~= seq![13_388_799i64, 52_517_033i64]);
        }
        res
    }
}

/// A point of a trace as the engine matched it.
#[derive(Clone, Debug)]
pub struct MatchWaypoint {
    pub hint: Option<String>,
    pub location: [i64; 2],
    pub name: String,
    pub distance: i64,
    /// The index of the matching that the point belongs to.
    pub matchings_index: u64,
    /// The index of the point within that matching.
    pub waypoint_index: u64,
    /// How many other matchings the point could have belonged to.
    pub alternatives_count: u64,
}

impl MatchWaypoint {
    /// Whether this is the placeholder: the placeholder waypoint as the
    /// first point of the first matching.
    pub open spec fn is_placeholder(self) -> bool {
        &&& self.hint matches Some(h) && h@
            == "KSoKADRYroqUBAEAEAAAABkAAAAGAAAAAAAAABhnCQCLtwAA_0vMAKlYIQM8TMwArVghAwEAAQH1a66g"@
        &&& self.location@ == seq![13_388_799i64, 52_517_033i64]
        &&& self.name@ == "Friedrichstraße"@
        &&& self.distance == 4_152_629
        &&& self.matchings_index == 0
        &&& self.waypoint_index == 0
        &&& self.alternatives_count == 0
    }
}

impl Default for MatchWaypoint {
    fn default() -> (res: Self)
        ensures
            res.is_placeholder(),
    {
        let res = Self {
            hint: Some(
                String::from_str(
                    "KSoKADRYroqUBAEAEAAAABkAAAAGAAAAAAAAABhnCQCLtwAA_0vMAKlYIQM8TMwArVghAwEAAQH1a66g",
                ),
            ),
            location: [13_388_799, 52_517_033],
            distance: 4_152_629,
            name: String::from_str("Friedrichstraße"),
            matchings_index: 0,
            waypoint_index: 0,
            alternatives_count: 0,
        };
        proof {
            assert(res.location@ =~= seq![13_388_799i64, 52_517_033i64]);
        }
        res
    }
}

/// A point of a trip as the engine snapped and ordered it.
#[derive(Clone, Debug)]
pub struct TripWaypoint {
    pub hint: Option<String>,
    pub location: [i64; 2],
    pub name: String,
    pub distance: i64,
    /// The index of the trip that the point belongs to.
    pub trips_index: usize,
    /// The position of the point within that trip.
    pub waypoint_index: usize,
}

} // verus!

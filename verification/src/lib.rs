//! An interface to OSRM, the Open Source Routing Machine.
//!
//! ## Services
//!
//! - nearest: snap a [`Point`] to the nearest segments of the road network.
//! - table: the durations or distances, or both, between sources and
//!   destinations.
//! - route: the fastest route through points in the order given.
//! - match: the route that a recorded trace most likely took.
//! - trip: a short round through points in no particular order.
//!
//! A request is made with the builder of its service. The builder checks
//! what the engine would reject, and names the option at fault, before
//! anything is sent; a request exists only where its options break no rule.
//!
//! ## Engines
//!
//! - [`mock`]: answers every request with placeholders of the right shape.
//! - [`remote`]: writes the query that asks an engine over HTTP.
//! - [`native`]: flattens a request into the buffers that an engine in this
//!   process takes, and reads the status and the text of its answer.
//!
//! ## Numbers
//!
//! Degrees, metres, seconds and factors are integers that count millionths:
//! a latitude of `48.040437` degrees is `48_040_437`. Queries are written
//! with six decimal places, so nothing is lost on the way to the engine.
//!
//! ## Snapping
//!
//! Every service snaps the points it is given to the road network, however
//! far away the nearest segment may be. A response holds hints, unless they
//! are switched off; a hint handed back in a later request stands for the
//! snapped point and saves snapping it again.

use vstd::prelude::*;

pub use services::{matching, nearest, route, table, trip};

pub mod errors;
pub mod geometry;
pub mod mock;
pub mod native;
pub mod numeral;
pub mod osrm_response_types;
pub mod remote;
pub mod request_types;
pub mod services;
pub mod slots;
pub mod str_ops;
pub mod text;

verus! {

/// The algorithm with which the map files were prepared.
#[derive(Clone, Copy, Debug, PartialEq, Eq, Structural)]
pub enum Algorithm {
    /// Multi-level Dijkstra
    MLD,
    /// Contraction hierarchies
    CH,
}

impl Algorithm {
    /// The name of the variant in capitals, as the engine expects it.
    pub open spec fn name(self) -> Seq<char> {
        match self {
            Algorithm::MLD => "MLD"@,
            Algorithm::CH => "CH"@,
        }
    }

    /// Returns the variant's name in capitals: `"MLD"` or `"CH"`.
    pub fn as_str(&self) -> (s: &'static str)
        ensures
            s@ == self.name(),
    {
        match self {
            Algorithm::MLD => "MLD",
            Algorithm::CH => "CH",
        }
    }
}

/// A coordinate: latitude and longitude, each counted in millionths of a
/// degree.
///
/// [`new`](Self::new) accepts a latitude of at most ninety degrees either
/// side of the equator and a longitude of at most 180 degrees either side of
/// the prime meridian.
#[derive(Clone, Copy, Debug, PartialEq, Eq, Structural)]
pub struct Point {
    latitude: i64,
    longitude: i64,
}

impl Point {
    /// Whether a latitude and a longitude, in millionths of a degree, lie on
    /// the globe.
    pub open spec fn in_range(latitude: int, longitude: int) -> bool {
        -90_000_000 <= latitude <= 90_000_000 && -180_000_000 <= longitude <= 180_000_000
    }

    /// The latitude, in millionths of a degree.
    pub closed spec fn lat(self) -> int {
        self.latitude as int
    }

    /// The longitude, in millionths of a degree.
    pub closed spec fn lon(self) -> int {
        self.longitude as int
    }

    /// The point at the given latitude and longitude, or `None` where they
    /// do not lie on the globe.
    pub fn new(latitude: i64, longitude: i64) -> (res: Option<Self>)
        ensures
            res is Some <==> Self::in_range(latitude as int, longitude as int),
            res matches Some(p) ==> p.lat() == latitude && p.lon() == longitude,
    {
        if latitude < -90_000_000 || latitude > 90_000_000 || longitude < -180_000_000
            || longitude > 180_000_000 {
            return None;
        }
        Some(Self { latitude, longitude })
    }

    /// The point at the given latitude and longitude, unchecked. For values
    /// that are known to be valid, such as those of an earlier response; the
    /// engine rejects a point off the globe when the request is made.
    pub fn new_unchecked(latitude: i64, longitude: i64) -> (res: Self)
        ensures
            res.lat() == latitude,
            res.lon() == longitude,
    {
        Self { latitude, longitude }
    }

    /// The latitude, in millionths of a degree.
    pub fn latitude(&self) -> (res: i64)
        ensures
            res == self.lat(),
    {
        self.latitude
    }

    /// The longitude, in millionths of a degree.
    pub fn longitude(&self) -> (res: i64)
        ensures
            res == self.lon(),
    {
        self.longitude
    }
}

} // verus!

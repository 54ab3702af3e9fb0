use osrm_interface::errors::{NativeOsrmError, OsrmError};
use osrm_interface::native::{
    creation_failure, interpret, match_call, nearest_call, parse_failure, route_call, table_call,
    trip_call, MATCH_GENERATE_HINTS, MATCH_TIDY, ROUTE_ALTERNATIVES, ROUTE_ANNOTATIONS,
    ROUTE_CONTINUE_STRAIGHT, ROUTE_GENERATE_HINTS, ROUTE_SKIP_WAYPOINTS, ROUTE_STEPS,
    TRIP_GENERATE_HINTS, TRIP_ROUNDTRIP,
};
use osrm_interface::request_types::{
    Bearing, CarExclude, Exclude, GeometryType, OverviewZoom, Snapping,
};
use osrm_interface::services::matching::{MatchGapsBehaviour, MatchRequestBuilder};
use osrm_interface::services::nearest::NearestRequestBuilder;
use osrm_interface::services::route::{
    RouteRequestBuilder, RouteResponse, SimpleRouteResponse,
};
use osrm_interface::services::table::{
    TableAnnotation, TableFallbackCoordinate, TableRequestBuilder,
};
use osrm_interface::services::trip::{TripDestination, TripRequestBuilder, TripSource};
use osrm_interface::services::Approach;
use osrm_interface::osrm_response_types::Route;
use osrm_interface::Point;

fn three_points() -> [Point; 3] {
    [
        Point::new(48_040_437, 10_316_550).expect("Invalid point"),
        Point::new(49_006_101, 9_052_887).expect("Invalid point"),
        Point::new(48_942_296, -10_510_960).expect("Invalid point"),
    ]
}

#[test]
fn route_call_with_defaults() {
    let points = three_points();
    let request = RouteRequestBuilder::new(&points)
        .build()
        .expect("No points in request");
    let call = route_call(&request);
    assert_eq!(
        call.coordinates,
        [10_316_550, 48_040_437, 9_052_887, 49_006_101, -10_510_960, 48_942_296]
    );
    assert_eq!(call.flags, ROUTE_CONTINUE_STRAIGHT | ROUTE_GENERATE_HINTS);
    assert_eq!(call.flags, 24);
    assert_eq!(call.geometry, GeometryType::Polyline);
    assert_eq!(call.overview, OverviewZoom::Simplified);
    assert!(call.waypoints.is_empty());
    assert!(call.bearings.is_empty());
    assert_eq!(call.radiuses, [None, None, None]);
    assert!(call.hints.is_empty());
    assert!(call.approaches.is_empty());
    assert!(call.excludes.is_empty());
    assert_eq!(call.snapping, Snapping::Default);
}

#[test]
fn route_call_fills_what_is_not_set() {
    let points = three_points();
    let bearings = [None, Bearing::new(90, 45), None];
    let radiuses = [Some(5_000_000), None, None];
    let hints = [None, Some("hint"), None];
    let approaches = [Approach::Curb, Approach::Opposite, Approach::Unrestricted];
    let exclude = [Exclude::Car(CarExclude::Motorway)];
    let request = RouteRequestBuilder::new(&points)
        .alternatives(true)
        .steps(true)
        .annotations(true)
        .skip_waypoints(true)
        .waypoints(&[0, 2])
        .bearings(&bearings)
        .radiuses(&radiuses)
        .hints(&hints)
        .approaches(&approaches)
        .exclude(&exclude)
        .snapping(Snapping::Any)
        .build()
        .expect("Failed to build RouteRequest");
    let call = route_call(&request);
    assert_eq!(
        call.flags,
        ROUTE_ALTERNATIVES
            | ROUTE_STEPS
            | ROUTE_ANNOTATIONS
            | ROUTE_CONTINUE_STRAIGHT
            | ROUTE_GENERATE_HINTS
            | ROUTE_SKIP_WAYPOINTS
    );
    assert_eq!(call.flags, 63);
    assert_eq!(call.waypoints, [0, 2]);
    assert_eq!(
        call.bearings,
        [
            Bearing::default(),
            Bearing::new(90, 45).unwrap(),
            Bearing::new(0, 180).unwrap()
        ]
    );
    assert_eq!(call.radiuses, [Some(5_000_000), None, None]);
    assert_eq!(call.hints, ["", "hint", ""]);
    assert_eq!(call.approaches, approaches);
    assert_eq!(call.excludes, ["motorway"]);
    assert_eq!(call.snapping, Snapping::Any);
}

#[test]
fn trip_call_carries_the_trip() {
    let points = three_points();
    let request = TripRequestBuilder::new(&points)
        .source(TripSource::First)
        .destination(TripDestination::Last)
        .build()
        .expect("Failed to build trip request");
    let call = trip_call(&request);
    assert_eq!(call.flags, TRIP_GENERATE_HINTS | TRIP_ROUNDTRIP);
    assert_eq!(call.flags, 20);
    assert_eq!(call.source, TripSource::First);
    assert_eq!(call.destination, TripDestination::Last);
    assert_eq!(call.overview, OverviewZoom::False);
    assert_eq!(call.coordinates.len(), 6);
    assert_eq!(call.radiuses.len(), 3);
}

#[test]
fn match_call_carries_the_trace() {
    let points = three_points();
    let timestamps = [10u64, 20, 30];
    let request = MatchRequestBuilder::new(&points)
        .timestamps(&timestamps)
        .tidy(true)
        .waypoints(&[0, 2])
        .build()
        .expect("Failed to create match request");
    let call = match_call(&request);
    assert_eq!(call.flags, MATCH_TIDY | MATCH_GENERATE_HINTS);
    assert_eq!(call.flags, 9);
    assert_eq!(call.timestamps, timestamps);
    assert_eq!(call.gaps, MatchGapsBehaviour::Split);
    assert_eq!(call.waypoints, [0, 2]);
    assert_eq!(call.coordinates[0], 10_316_550);
    assert_eq!(call.coordinates[1], 48_040_437);
}

#[test]
fn nearest_call_carries_the_point() {
    let point = Point::new(48_040_437, 10_316_550).expect("Invalid point");
    let request = NearestRequestBuilder::new(&point, 5)
        .radius(100_000_000)
        .build()
        .expect("Failed to build nearest request");
    let call = nearest_call(&request);
    assert_eq!(call.longitude, 10_316_550);
    assert_eq!(call.latitude, 48_040_437);
    assert_eq!(call.number, 5);
    assert_eq!(call.radius, Some(100_000_000));
    assert_eq!(call.bearing, None);
    assert_eq!(call.approach, None);
    assert_eq!(call.snapping, None);
    assert!(call.excludes.is_empty());
}

#[test]
fn table_call_numbers_sources_before_destinations() {
    let points = three_points();
    let sources = &points[..1];
    let destinations = &points[1..];
    let request = TableRequestBuilder::new(sources, destinations)
        .build()
        .expect("Failed to create table request");
    let call = table_call(&request);
    assert_eq!(
        call.coordinates,
        [10_316_550, 48_040_437, 9_052_887, 49_006_101, -10_510_960, 48_942_296]
    );
    assert_eq!(call.sources, [0]);
    assert_eq!(call.destinations, [1, 2]);
    assert_eq!(call.annotations, TableAnnotation::Duration);
    assert_eq!(call.fallback_speed, 0);
    assert_eq!(call.fallback_coordinate, TableFallbackCoordinate::Input);
    assert_eq!(call.scale_factor, 0);
    assert!(call.bearings.is_empty());
    assert!(call.radiuses.is_empty());
    assert!(call.hints.is_empty());
    assert!(call.approaches.is_empty());
    assert!(call.generate_hints);
}

#[test]
fn table_call_fills_the_side_that_is_not_set() {
    let points = three_points();
    let sources = &points[..1];
    let destinations = &points[1..];
    let destination_bearings = [Bearing::new(10, 20), None];
    let source_radiuses = [Some(3_000_000)];
    let destination_hints = [None, Some("d1")];
    let source_approaches = [Approach::Curb];
    let request = TableRequestBuilder::new(sources, destinations)
        .fallback(TableFallbackCoordinate::Snapped, 13_500_000)
        .scale_factor(2_000_000)
        .destination_bearings(&destination_bearings)
        .source_radiuses(&source_radiuses)
        .destination_hints(&destination_hints)
        .source_approaches(&source_approaches)
        .build()
        .expect("Failed to create table request");
    let call = table_call(&request);
    assert_eq!(call.fallback_speed, 13_500_000);
    assert_eq!(call.fallback_coordinate, TableFallbackCoordinate::Snapped);
    assert_eq!(call.scale_factor, 2_000_000);
    assert_eq!(
        call.bearings,
        [
            Bearing::default(),
            Bearing::new(10, 20).unwrap(),
            Bearing::default()
        ]
    );
    assert_eq!(call.radiuses, [Some(3_000_000), None, None]);
    assert_eq!(call.hints, ["", "", "d1"]);
    assert_eq!(
        call.approaches,
        [
            Approach::Curb,
            Approach::Unrestricted,
            Approach::Unrestricted
        ]
    );
}

#[test]
fn the_answer_of_the_engine() {
    assert_eq!(
        interpret(0, Some("{\"code\":\"Ok\"}".to_string())),
        Ok("{\"code\":\"Ok\"}".to_string())
    );
    assert_eq!(
        interpret(1, Some("InvalidValue".to_string())),
        Err(OsrmError::Native(NativeOsrmError::FfiError(
            "OSRM error: InvalidValue".to_string()
        )))
    );
    assert_eq!(
        interpret(-3, None),
        Err(OsrmError::Native(NativeOsrmError::FfiError(
            "OSRM returned a null message".to_string()
        )))
    );
    assert_eq!(
        interpret(0, None),
        Err(OsrmError::EmptyResponse(
            "OSRM returned no result".to_string()
        ))
    );
    assert_eq!(
        interpret(0, Some(String::new())),
        Err(OsrmError::EmptyResponse(
            "OSRM returned no result".to_string()
        ))
    );
}

#[test]
fn the_errors_of_the_engine() {
    assert_eq!(
        creation_failure(Some("no such file".to_string())),
        OsrmError::Native(NativeOsrmError::Initialization(
            "Failure to create an OSRM instance: no such file".to_string()
        ))
    );
    assert_eq!(
        creation_failure(None),
        OsrmError::Native(NativeOsrmError::Initialization(
            "Failure to create an OSRM instance: unknown error".to_string()
        ))
    );
    assert_eq!(
        parse_failure("expected value".to_string()),
        OsrmError::Native(NativeOsrmError::JsonParse("expected value".to_string()))
    );
}

#[test]
fn a_route_summed_up() {
    let response = RouteResponse {
        code: "Ok".to_string(),
        routes: vec![Route::default(), Route::default()],
        waypoints: None,
    };
    let simple = SimpleRouteResponse::summarise(&response).expect("there is a route");
    assert_eq!(simple.code, "Ok");
    assert_eq!(simple.distance, 60_000_000);
    assert_eq!(simple.durations, 200_000_000);
    let longer = RouteResponse {
        code: "Ok".to_string(),
        routes: vec![Route::placeholder(
            5,
            false,
            false,
            GeometryType::Polyline,
            OverviewZoom::False,
        )],
        waypoints: None,
    };
    let simple = SimpleRouteResponse::summarise(&longer).expect("there is a route");
    assert_eq!(simple.distance, 150_000_000);
    assert_eq!(simple.durations, 500_000_000);

    let empty = RouteResponse {
        code: "NoRoute".to_string(),
        routes: Vec::new(),
        waypoints: None,
    };
    assert_eq!(
        SimpleRouteResponse::summarise(&empty).err(),
        Some(OsrmError::EmptyResponse(
            "No route was returned between those 2 points".to_string()
        ))
    );
}

use osrm_interface::mock::OsrmEngine;
use osrm_interface::osrm_response_types::{Geometry, Route};
use osrm_interface::request_types::{GeometryType, OverviewZoom};
use osrm_interface::services::matching::{MatchGapsBehaviour, MatchRequestBuilder};
use osrm_interface::services::nearest::NearestRequestBuilder;
use osrm_interface::services::route::RouteRequestBuilder;
use osrm_interface::services::table::{TableAnnotation, TableRequestBuilder};
use osrm_interface::services::trip::TripRequestBuilder;
use osrm_interface::Point;

fn four_points() -> [Point; 4] {
    [
        Point::new(48_040_437, 10_316_550).expect("Invalid point"),
        Point::new(49_006_101, 9_052_887).expect("Invalid point"),
        Point::new(48_942_296, 10_510_960).expect("Invalid point"),
        Point::new(51_248_931, 7_594_814).expect("Invalid point"),
    ]
}

#[test]
fn mock_route_of_four_points() {
    let engine = OsrmEngine::new();
    let points = four_points();
    let route_request = RouteRequestBuilder::new(&points)
        .build()
        .expect("No points in request");
    let response = engine
        .route(&route_request)
        .expect("Failed to route request");

    assert_eq!(response.code, "Ok", "Response code is not 'Ok'");
    assert_eq!(
        response.routes.iter().map(|r| r.legs.len()).sum::<usize>(),
        points.len() - 1,
        "Route response length is incorrect"
    );
    assert_eq!(response.routes.len(), 1);
    assert_eq!(response.routes[0].legs.len(), 3);
    let waypoints = response.waypoints.expect("waypoints are not skipped");
    assert_eq!(waypoints.len(), 4);
    for (waypoint, point) in waypoints.iter().zip(points.iter()) {
        assert_eq!(waypoint.location, [point.longitude(), point.latitude()]);
        assert_eq!(waypoint.hint.as_deref(), Some("Mock hint"));
        assert_eq!(waypoint.name, "Mock name");
        assert_eq!(waypoint.distance, 0);
    }
    for route in &response.routes {
        assert_eq!(route.distance, 90_000_000);
        assert_eq!(route.duration, 300_000_000);
        assert_eq!(route.weight, 300_000_000);
        assert_eq!(route.weight_name, "duration");
        assert!(matches!(route.geometry, Some(Geometry::Polyline(_))));
        for leg in &route.legs {
            assert_eq!(leg.distance, 30_000_000);
            assert!(leg.steps.is_empty());
            assert!(leg.annotation.is_none());
        }
    }
}

#[test]
fn mock_route_has_the_shape_that_was_asked_for() {
    let engine = OsrmEngine::new();
    let points = four_points();
    let request = RouteRequestBuilder::new(&points[..2])
        .steps(true)
        .annotations(true)
        .geometry(GeometryType::GeoJSON)
        .overview(OverviewZoom::Full)
        .generate_hints(false)
        .build()
        .expect("Failed to build RouteRequest");
    let response = engine.route(&request).expect("Failed to route request");
    assert_eq!(response.routes.len(), 1);
    let route = &response.routes[0];
    match &route.geometry {
        Some(Geometry::GeoJson(line)) => {
            assert_eq!(line.kind, "LineString");
            assert_eq!(line.coordinates.len(), 4);
            assert_eq!(line.coordinates[1], [120_100_000, 10_000_000]);
        }
        _ => panic!("Geometry should be GeoJson"),
    }
    for leg in &route.legs {
        assert_eq!(leg.steps.len(), 1);
        assert!(matches!(leg.steps[0].geometry, Geometry::GeoJson(_)));
        assert_eq!(leg.steps[0].name, "Lortzingstraße");
        let annotation = leg.annotation.as_ref().expect("annotations were asked for");
        assert_eq!(annotation.distance.len(), 5);
        assert_eq!(annotation.nodes.len(), 6);
        assert_eq!(annotation.metadata.datasource_names, ["lua profile"]);
    }
    let waypoints = response.waypoints.expect("waypoints are not skipped");
    assert!(waypoints.iter().all(|w| w.hint.is_none()));

    let request = RouteRequestBuilder::new(&points[..2])
        .overview(OverviewZoom::False)
        .skip_waypoints(true)
        .build()
        .expect("Failed to build RouteRequest");
    let response = engine.route(&request).expect("Failed to route request");
    assert!(response.routes[0].geometry.is_none());
    assert!(
        response.waypoints.is_none(),
        "Waypoints were returned despite skip_waypoints=true"
    );
}

#[test]
fn mock_table_of_two_by_three() {
    let engine = OsrmEngine::new();
    let sources = [
        Point::new(48_040_437, 10_316_550).expect("Invalid point"),
        Point::new(49_040_437, 10_216_550).expect("Invalid point"),
    ];
    let destinations = [
        Point::new(48_540_437, 10_816_550).expect("Invalid point"),
        Point::new(49_140_437, 10_416_550).expect("Invalid point"),
        Point::new(49_140_437, 10_516_550).expect("Invalid point"),
    ];
    let table_request = TableRequestBuilder::new(&sources, &destinations)
        .build()
        .expect("Failed to create table request");
    let response = engine
        .table(table_request)
        .expect("Failed to determine table");

    assert_eq!(response.code, "Ok", "Response code is not 'Ok'");
    assert_eq!(
        response.sources.len(),
        sources.len(),
        "Returned more sources than anticipated"
    );
    assert_eq!(
        response.destinations.len(),
        destinations.len(),
        "Returned more destinations than anticipated"
    );
    assert!(
        response.distances.is_none(),
        "Distances should be None by default"
    );
    let durations = response
        .durations
        .expect("Durations should be Some by default");
    assert_eq!(
        durations,
        vec![
            vec![Some(0), Some(1_000_000), Some(1_000_000)],
            vec![Some(1_000_000), Some(0), Some(1_000_000)],
        ]
    );
    assert_eq!(
        response.destinations[2].location,
        [10_516_550, 49_140_437]
    );
}

#[test]
fn mock_table_holds_the_tables_that_were_asked_for() {
    let engine = OsrmEngine::new();
    let points = four_points();
    let all = TableRequestBuilder::new(&points[..2], &points[2..])
        .annotations(TableAnnotation::All)
        .build()
        .expect("Failed to create table request");
    let response = engine.table(all).expect("Failed to determine table");
    assert!(response.distances.is_some(), "Distances should be Some");
    assert!(response.durations.is_some(), "Durations should be Some");
    assert_eq!(
        response.distances.unwrap(),
        vec![
            vec![Some(0), Some(2_000_000)],
            vec![Some(2_000_000), Some(0)],
        ]
    );

    let distance = TableRequestBuilder::new(&points[..2], &points[2..])
        .annotations(TableAnnotation::Distance)
        .build()
        .expect("Failed to create table request");
    let response = engine.table(distance).expect("Failed to determine table");
    assert!(response.distances.is_some());
    assert!(response.durations.is_none());

    let nothing = TableRequestBuilder::new(&points[..2], &points[2..])
        .annotations(TableAnnotation::Nothing)
        .build()
        .expect("Failed to create table request");
    let response = engine.table(nothing).expect("Failed to determine table");
    assert!(response.distances.is_none());
    assert!(response.durations.is_none());
}

#[test]
fn mock_trip() {
    let engine = OsrmEngine::new();
    let points = four_points();
    let trip_request = TripRequestBuilder::new(&points)
        .build()
        .expect("Failed to build trip request");
    let response = engine.trip(trip_request).expect("Failed navigate trip");
    assert_eq!(response.code, "Ok", "Response code is not 'Ok'");
    assert_eq!(
        response
            .trips
            .iter()
            .map(|r| r.legs.len())
            .sum::<usize>(),
        points.len(),
        "Route response length is incorrect"
    );
    assert_eq!(response.trips.len(), 1);
    let one_way = TripRequestBuilder::new(&points)
        .roundtrip(false)
        .build()
        .expect("Failed to build trip request");
    let one_way = engine.trip(one_way).expect("Failed navigate trip");
    assert_eq!(one_way.trips[0].legs.len(), 3);
    // a trip has no overview unless one is asked for
    assert!(response.trips.iter().all(|t| t.geometry.is_none()));
    let waypoints = response.waypoints.expect("waypoints are not skipped");
    assert_eq!(waypoints.len(), 4);
    for (i, waypoint) in waypoints.iter().enumerate() {
        assert_eq!(waypoint.trips_index, i);
        assert_eq!(waypoint.waypoint_index, i);
        assert_eq!(
            waypoint.location,
            [points[i].longitude(), points[i].latitude()]
        );
    }
}

#[test]
fn mock_match() {
    let engine = OsrmEngine::new();
    let points = four_points();
    let match_request = MatchRequestBuilder::new(&points)
        .gaps(MatchGapsBehaviour::Ignore)
        .build()
        .expect("Failed to create match request");
    let response = engine
        .matching(&match_request)
        .expect("Failed to match route");
    assert_eq!(response.code, "Ok", "Response code is not 'Ok'");
    assert_eq!(response.matchings.len(), 1);
    assert_eq!(response.matchings[0].legs.len(), 3);
    assert!(response.matchings.iter().all(|m| m.confidence == 1_000_000));
    assert_eq!(response.tracepoints.len(), 4);
    for (i, tracepoint) in response.tracepoints.iter().enumerate() {
        let tracepoint = tracepoint.as_ref().expect("every point is matched");
        assert_eq!(tracepoint.waypoint_index, i as u64);
        assert_eq!(tracepoint.matchings_index, 0);
        assert_eq!(tracepoint.alternatives_count, 0);
        assert_eq!(tracepoint.hint.as_deref(), Some("Mock hint"));
    }
    let skipped = MatchRequestBuilder::new(&points)
        .gaps(MatchGapsBehaviour::Ignore)
        .skip_waypoints(true)
        .build()
        .expect("Failed to create match request");
    let response = engine.matching(&skipped).expect("Failed to match route");
    assert!(response.tracepoints.is_empty());
}

#[test]
fn mock_nearest() {
    let engine = OsrmEngine::new();
    let point = Point::new(48_040_437, 10_316_550).expect("Invalid point");
    let request = NearestRequestBuilder::new(&point, 3)
        .build()
        .expect("Failed to build nearest request");
    let response = engine.nearest(&request).expect("Failed to find nearest");
    assert_eq!(response.code, "Ok", "Response code is not 'Ok'");
    assert_eq!(response.waypoints.len(), 1);
    assert_eq!(response.waypoints[0].location, [10_316_550, 48_040_437]);
}

#[test]
fn mock_simple_route() {
    let engine = OsrmEngine::new();
    let points = four_points();
    let response = engine
        .simple_route(points[0], points[1])
        .expect("Failed to route request");
    assert_eq!(response.code, "Ok");
    assert_eq!(response.distance, 0);
    assert_eq!(response.durations, 1_000_000);
}

#[test]
fn the_placeholder_route() {
    let route = Route::default();
    assert_eq!(route.distance, 90_000_000);
    assert_eq!(route.legs.len(), 2);
    assert!(matches!(route.geometry, Some(Geometry::GeoJson(_))));
    assert!(route.legs[0].annotation.is_some());
    assert!(route.legs[0].steps.is_empty());
}

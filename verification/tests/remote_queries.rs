use osrm_interface::errors::{OsrmError, RemoteOsrmError};
use osrm_interface::remote::{interpret, parse_failure, OsrmEngine, Profile};
use osrm_interface::request_types::{
    Bearing, BicycleExclude, CarExclude, Exclude, GeometryType, OverviewZoom, Snapping,
};
use osrm_interface::services::matching::{MatchGapsBehaviour, MatchRequestBuilder};
use osrm_interface::services::nearest::NearestRequestBuilder;
use osrm_interface::services::route::RouteRequestBuilder;
use osrm_interface::services::table::{
    TableAnnotation, TableFallbackCoordinate, TableRequestBuilder,
};
use osrm_interface::services::trip::{TripDestination, TripRequestBuilder, TripSource};
use osrm_interface::services::Approach;
use osrm_interface::Point;

fn engine() -> OsrmEngine {
    OsrmEngine::new("http://localhost:5000".to_string(), Profile::Car)
}

fn four_points() -> [Point; 4] {
    [
        Point::new(48_040_437, 10_316_550).expect("Invalid point"),
        Point::new(49_006_101, 9_052_887).expect("Invalid point"),
        Point::new(48_942_296, 10_510_960).expect("Invalid point"),
        Point::new(51_248_931, 7_594_814).expect("Invalid point"),
    ]
}

#[test]
fn route_query_with_defaults() {
    let points = four_points();
    let request = RouteRequestBuilder::new(&points)
        .build()
        .expect("No points in request");
    assert_eq!(
        engine().route_url(&request),
        "http://localhost:5000/route/v1/car/\
         10.316550,48.040437;9.052887,49.006101;10.510960,48.942296;7.594814,51.248931\
         ?alternatives=false&steps=false&geometries=polyline&overview=simplified\
         &annotations=false&continue_straight=true&generate_hints=true&skip_waypoints=false"
    );
}

#[test]
fn route_query_keeps_the_place_of_what_is_not_set() {
    let points = four_points();
    let bearings = [Bearing::new(180, 90), None, None, Bearing::new(0, 10)];
    let radiuses = [None, Some(12_500_000), None, None];
    let hints = [None, None, Some("abc"), None];
    let approaches = [
        Approach::Curb,
        Approach::Unrestricted,
        Approach::Opposite,
        Approach::Curb,
    ];
    let exclude = [
        Exclude::Car(CarExclude::Toll),
        Exclude::Car(CarExclude::Motorway),
    ];
    let request = RouteRequestBuilder::new(&points)
        .alternatives(true)
        .steps(true)
        .annotations(true)
        .geometry(GeometryType::GeoJSON)
        .overview(OverviewZoom::Full)
        .continue_straight(false)
        .generate_hints(false)
        .skip_waypoints(true)
        .waypoints(&[0, 3])
        .bearings(&bearings)
        .radiuses(&radiuses)
        .hints(&hints)
        .approaches(&approaches)
        .exclude(&exclude)
        .snapping(Snapping::Any)
        .build()
        .expect("Failed to build RouteRequest");
    assert_eq!(
        engine().route_url(&request),
        "http://localhost:5000/route/v1/car/\
         10.316550,48.040437;9.052887,49.006101;10.510960,48.942296;7.594814,51.248931\
         ?alternatives=true&steps=true&geometries=geojson&overview=full\
         &annotations=true&continue_straight=false&generate_hints=false&skip_waypoints=true\
         &waypoints=0;3&bearings=180,90;;;0,10&radiuses=;12.500000000000;;&hints=;;abc;\
         &approaches=curb;unrestricted;opposite;curb&exclude=toll,motorway&snapping=any"
    );
}

#[test]
fn building_twice_asks_with_the_same_query() {
    let points = four_points();
    let bearings = [None, Bearing::new(90, 45), None, None];
    let builder = RouteRequestBuilder::new(&points)
        .steps(true)
        .bearings(&bearings);
    let first = builder.build().expect("Failed to build RouteRequest");
    let second = builder.build().expect("Failed to build RouteRequest");
    let engine = engine();
    assert_eq!(engine.route_url(&first), engine.route_url(&second));
    assert_eq!(
        engine.route_url(&first),
        "http://localhost:5000/route/v1/car/\
         10.316550,48.040437;9.052887,49.006101;10.510960,48.942296;7.594814,51.248931\
         ?alternatives=false&steps=true&geometries=polyline&overview=simplified\
         &annotations=false&continue_straight=true&generate_hints=true&skip_waypoints=false\
         &bearings=;90,45;;"
    );
}

#[test]
fn trip_query() {
    let points = four_points();
    let request = TripRequestBuilder::new(&points[..2])
        .build()
        .expect("Failed to build trip request");
    let engine = OsrmEngine::new("https://router.example".to_string(), Profile::Bike);
    assert_eq!(
        engine.trip_url(&request),
        "https://router.example/trip/v1/bike/10.316550,48.040437;9.052887,49.006101\
         ?steps=false&geometries=polyline&overview=false&annotations=false&roundtrip=true\
         &source=any&destination=any&generate_hints=true&skip_waypoints=false"
    );
    let exclude = [Exclude::Bicycle(BicycleExclude::Ferry)];
    let request = TripRequestBuilder::new(&points[..2])
        .roundtrip(false)
        .source(TripSource::First)
        .destination(TripDestination::Last)
        .exclude(&exclude)
        .build()
        .expect("Failed to build trip request");
    assert_eq!(
        engine.trip_url(&request),
        "https://router.example/trip/v1/bike/10.316550,48.040437;9.052887,49.006101\
         ?steps=false&geometries=polyline&overview=false&annotations=false&roundtrip=false\
         &source=first&destination=last&generate_hints=true&skip_waypoints=false\
         &exclude=ferry"
    );
}

#[test]
fn match_query() {
    let points = [
        Point::new(51_791_585, 10_935_908).expect("Invalid point"),
        Point::new(51_791_029, 10_937_500).expect("Invalid point"),
        Point::new(51_788_558, 10_941_347).expect("Invalid point"),
    ];
    let bearings = [Bearing::new(180, 90), None, Bearing::new(180, 90)];
    let timestamps = [1_730_000_000u64, 1_730_000_008, 1_730_000_031];
    let request = MatchRequestBuilder::new(&points)
        .geometry(GeometryType::Polyline)
        .overview(OverviewZoom::False)
        .gaps(MatchGapsBehaviour::Split)
        .timestamps(&timestamps)
        .tidy(true)
        .waypoints(&[0, 2])
        .bearings(&bearings)
        .build()
        .expect("Failed to create match request");
    assert_eq!(
        engine().match_url(&request),
        "http://localhost:5000/match/v1/car/\
         10.935908,51.791585;10.937500,51.791029;10.941347,51.788558\
         ?steps=false&geometries=polyline&overview=false&annotations=false&gaps=split\
         &tidy=true&generate_hints=true&skip_waypoints=false\
         &timestamps=1730000000;1730000008;1730000031&waypoints=0;2&bearings=180,90;;180,90"
    );
}

#[test]
fn nearest_query() {
    let point = Point::new(48_040_437, -10_316_550).expect("Invalid point");
    let request = NearestRequestBuilder::new(&point, 3)
        .build()
        .expect("Failed to build nearest request");
    let engine = OsrmEngine::new("http://localhost:5000".to_string(), Profile::Foot);
    assert_eq!(
        engine.nearest_url(&request),
        "http://localhost:5000/nearest/v1/foot/-10.316550,48.040437?number=3"
    );
    let request = NearestRequestBuilder::new(&point, 1)
        .bearing(Bearing::new(90, 20).unwrap())
        .radius(250_000_000)
        .approach(Approach::Curb)
        .snapping(Snapping::Default)
        .build()
        .expect("Failed to build nearest request");
    assert_eq!(
        engine.nearest_url(&request),
        "http://localhost:5000/nearest/v1/foot/-10.316550,48.040437?number=1\
         &bearings=90,20&radiuses=250.000000000000&approaches=curb&snapping=default"
    );
}

#[test]
fn table_query_with_defaults() {
    let sources = [
        Point::new(48_040_437, 10_316_550).expect("Invalid point"),
        Point::new(49_040_437, 10_216_550).expect("Invalid point"),
    ];
    let destinations = [
        Point::new(48_540_437, 10_816_550).expect("Invalid point"),
        Point::new(49_140_437, 10_416_550).expect("Invalid point"),
        Point::new(49_140_437, 10_516_550).expect("Invalid point"),
    ];
    let request = TableRequestBuilder::new(&sources, &destinations)
        .build()
        .expect("Failed to create table request");
    assert_eq!(
        engine().table_url(&request),
        "http://localhost:5000/table/v1/car/\
         10.316550,48.040437;10.216550,49.040437;\
         10.816550,48.540437;10.416550,49.140437;10.516550,49.140437\
         ?sources=0;1&destinations=2;3;4&generate_hints=true&annotations=duration"
    );
}

#[test]
fn table_query_fills_the_side_that_is_not_set() {
    let sources = [
        Point::new(48_040_437, 10_316_550).expect("Invalid point"),
        Point::new(49_040_437, 10_216_550).expect("Invalid point"),
    ];
    let destinations = [
        Point::new(48_540_437, 10_816_550).expect("Invalid point"),
        Point::new(49_140_437, 10_416_550).expect("Invalid point"),
        Point::new(49_140_437, 10_516_550).expect("Invalid point"),
    ];
    let source_bearings = [Bearing::new(10, 20), None];
    let destination_radiuses = [Some(1_000_000), None, Some(2_500_000)];
    let source_hints = [None, Some("s1")];
    let destination_hints = [Some("d0"), None, None];
    let destination_approaches = [Approach::Curb, Approach::Opposite, Approach::Curb];
    let request = TableRequestBuilder::new(&sources, &destinations)
        .annotations(TableAnnotation::All)
        .fallback(TableFallbackCoordinate::Snapped, 13_500_000)
        .scale_factor(2_000_000)
        .generate_hints(false)
        .source_bearings(&source_bearings)
        .destination_radiuses(&destination_radiuses)
        .source_hints(&source_hints)
        .destination_hints(&destination_hints)
        .destination_approaches(&destination_approaches)
        .snapping(Snapping::Any)
        .build()
        .expect("Failed to create table request");
    assert_eq!(
        engine().table_url(&request),
        "http://localhost:5000/table/v1/car/\
         10.316550,48.040437;10.216550,49.040437;\
         10.816550,48.540437;10.416550,49.140437;10.516550,49.140437\
         ?sources=0;1&destinations=2;3;4&generate_hints=false\
         &fallback_speed=13.5&fallback_coordinate=snapped\
         &annotations=duration,distance&scale_factor=2\
         &bearings=10,20;;;;&radiuses=;;1.000000000000;;2.500000000000\
         &hints=;s1;d0;;&approaches=;;curb;opposite;curb&snapping=any"
    );
}

#[test]
fn the_outcome_of_the_call() {
    assert_eq!(
        interpret(Ok("{\"code\":\"Ok\"}".to_string())),
        Ok("{\"code\":\"Ok\"}".to_string())
    );
    assert_eq!(
        interpret(Ok(String::new())),
        Err(OsrmError::EmptyResponse(
            "The endpoint returned no result".to_string()
        ))
    );
    assert_eq!(
        interpret(Err("connection refused".to_string())),
        Err(OsrmError::Remote(RemoteOsrmError::EndpointError(
            "connection refused".to_string()
        )))
    );
    assert_eq!(
        parse_failure("missing field `code`".to_string()),
        OsrmError::Remote(RemoteOsrmError::JsonParse(
            "missing field `code`".to_string()
        ))
    );
}

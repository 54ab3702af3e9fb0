use osrm_interface::request_types::{Bearing, BicycleExclude, CarExclude, Exclude};
use osrm_interface::services::matching::{
    MatchGapsBehaviour, MatchRequestBuilder, MatchRequestError,
};
use osrm_interface::services::nearest::{NearestRequestBuilder, NearestRequestError};
use osrm_interface::services::route::{RouteRequestBuilder, RouteRequestError};
use osrm_interface::services::table::{
    TableAnnotation, TableFallbackCoordinate, TableRequestBuilder, TableRequestError,
};
use osrm_interface::services::trip::{TripRequestBuilder, TripRequestError};
use osrm_interface::services::{Approach, DimensionMismatch};
use osrm_interface::Point;

fn four_points() -> [Point; 4] {
    [
        Point::new(48_040_437, 10_316_550).expect("Invalid point"),
        Point::new(49_006_101, 9_052_887).expect("Invalid point"),
        Point::new(48_942_296, 10_510_960).expect("Invalid point"),
        Point::new(51_248_931, 7_594_814).expect("Invalid point"),
    ]
}

#[test]
fn test_invalid_point() {
    let point = Point::new(-91_000_000, 0);
    assert!(
        point.is_none(),
        "Point should return None for latitude < -90.0"
    );

    let point = Point::new(91_000_000, 0);
    assert!(
        point.is_none(),
        "Point should return None for latitude > 90.0"
    );

    let point = Point::new(0, -181_000_000);
    assert!(
        point.is_none(),
        "Point should return None for longitude < -180.0"
    );

    let point = Point::new(0, 181_000_000);
    assert!(
        point.is_none(),
        "Point should return None for latitude > 180.0"
    );
}

#[test]
fn test_invalid_route_request() {
    let points = [];
    let route_request = RouteRequestBuilder::new(&points).build();
    assert!(
        route_request.is_err(),
        "Request builder should return Error for zero points"
    );

    let points = [Point::new(48_040_437, 10_316_550).expect("Invalid point")];
    let route_request = RouteRequestBuilder::new(&points).build();
    assert!(
        route_request.is_err(),
        "Request should return Error for one point"
    );
}

#[test]
fn point_accepts_the_whole_globe_and_reads_back() {
    for (lat, lon) in [
        (90_000_000, 180_000_000),
        (-90_000_000, -180_000_000),
        (0, 0),
        (48_040_437, 10_316_550),
    ] {
        let p = Point::new(lat, lon).expect("a point on the globe");
        assert_eq!(p.latitude(), lat);
        assert_eq!(p.longitude(), lon);
    }
    assert!(Point::new(90_000_001, 0).is_none());
    assert!(Point::new(-90_000_001, 0).is_none());
    assert!(Point::new(0, 180_000_001).is_none());
    assert!(Point::new(0, -180_000_001).is_none());
    let unchecked = Point::new_unchecked(91_000_000, 181_000_000);
    assert_eq!(unchecked.latitude(), 91_000_000);
    assert_eq!(unchecked.longitude(), 181_000_000);
}

#[test]
fn bearing_rejects_either_value_out_of_range() {
    assert!(Bearing::new(0, 0).is_some());
    assert!(Bearing::new(360, 180).is_some());
    assert!(Bearing::new(361, 10).is_none());
    assert!(Bearing::new(10, 181).is_none());
    assert!(Bearing::new(-1, 10).is_none());
    assert!(Bearing::new(10, -1).is_none());
    assert!(Bearing::new(361, 181).is_none());
    let b = Bearing::new(180, 90).unwrap();
    assert_eq!(b.bearing(), 180);
    assert_eq!(b.range(), 90);
    assert_eq!(b.url_form(), "180,90");
    assert_eq!(Bearing::default(), Bearing::new(0, 180).unwrap());
    assert_eq!(Bearing::new_unchecked(-5, 400).url_form(), "-5,400");
}

#[test]
fn route_needs_two_points() {
    let points = four_points();
    assert_eq!(
        RouteRequestBuilder::new(&points[..0]).build().err(),
        Some(RouteRequestError::InsufficientPoints)
    );
    assert_eq!(
        RouteRequestBuilder::new(&points[..1]).build().err(),
        Some(RouteRequestError::InsufficientPoints)
    );
    assert!(RouteRequestBuilder::new(&points[..2]).build().is_ok());
    assert!(RouteRequestBuilder::new(&points).build().is_ok());
}

#[test]
fn trip_needs_two_points() {
    let points = four_points();
    assert_eq!(
        TripRequestBuilder::new(&points[..1]).build().err(),
        Some(TripRequestError::InsufficientPoints)
    );
    assert!(TripRequestBuilder::new(&points[..2]).build().is_ok());
}

#[test]
fn match_needs_two_points() {
    let points = four_points();
    assert_eq!(
        MatchRequestBuilder::new(&points[..1]).build().err(),
        Some(MatchRequestError::InsufficientPoints)
    );
    assert!(MatchRequestBuilder::new(&points[..2])
        .gaps(MatchGapsBehaviour::Ignore)
        .build()
        .is_ok());
}

#[test]
fn route_names_the_array_option_of_another_length() {
    let points = four_points();
    let three_bearings = [Bearing::new(0, 90), None, Bearing::new(180, 90)];
    assert_eq!(
        RouteRequestBuilder::new(&points)
            .bearings(&three_bearings)
            .build()
            .err(),
        Some(RouteRequestError::DimensionMismatch(
            DimensionMismatch::Bearings
        ))
    );
    let four_bearings = [Bearing::new(0, 90), None, Bearing::new(180, 90), None];
    assert!(RouteRequestBuilder::new(&points)
        .bearings(&four_bearings)
        .build()
        .is_ok());

    let radiuses = [Some(10_000_000), None];
    assert_eq!(
        RouteRequestBuilder::new(&points)
            .radiuses(&radiuses)
            .build()
            .err(),
        Some(RouteRequestError::DimensionMismatch(
            DimensionMismatch::Radiuses
        ))
    );
    let radiuses = [Some(10_000_000), None, Some(0), None];
    assert!(RouteRequestBuilder::new(&points)
        .radiuses(&radiuses)
        .build()
        .is_ok());

    let hints = [Some("a"), None, None, None, None];
    assert_eq!(
        RouteRequestBuilder::new(&points).hints(&hints).build().err(),
        Some(RouteRequestError::DimensionMismatch(DimensionMismatch::Hints))
    );
    assert!(RouteRequestBuilder::new(&points)
        .hints(&hints[..4])
        .build()
        .is_ok());

    let approaches = [Approach::Curb; 5];
    assert_eq!(
        RouteRequestBuilder::new(&points)
            .approaches(&approaches)
            .build()
            .err(),
        Some(RouteRequestError::DimensionMismatch(
            DimensionMismatch::Approaches
        ))
    );
    assert!(RouteRequestBuilder::new(&points)
        .approaches(&approaches[..4])
        .build()
        .is_ok());
}

#[test]
fn route_reports_the_first_rule_broken() {
    let points = four_points();
    let bearings = [None; 3];
    let radiuses = [Some(-1); 4];
    // the bearings are checked before the radiuses
    assert_eq!(
        RouteRequestBuilder::new(&points)
            .radiuses(&radiuses)
            .bearings(&bearings)
            .build()
            .err(),
        Some(RouteRequestError::DimensionMismatch(
            DimensionMismatch::Bearings
        ))
    );
    // and the number of points before everything
    assert_eq!(
        RouteRequestBuilder::new(&points[..1])
            .radiuses(&radiuses)
            .bearings(&bearings)
            .build()
            .err(),
        Some(RouteRequestError::InsufficientPoints)
    );
}

#[test]
fn negative_radius_is_refused() {
    let points = four_points();
    let radiuses = [Some(1), None, Some(-1), None];
    assert_eq!(
        RouteRequestBuilder::new(&points)
            .radiuses(&radiuses)
            .build()
            .err(),
        Some(RouteRequestError::NegativeRadius)
    );
    assert_eq!(
        TripRequestBuilder::new(&points)
            .radiuses(&radiuses)
            .build()
            .err(),
        Some(TripRequestError::NegativeRadius)
    );
    assert_eq!(
        MatchRequestBuilder::new(&points)
            .gaps(MatchGapsBehaviour::Ignore)
            .radiuses(&radiuses)
            .build()
            .err(),
        Some(MatchRequestError::NegativeRadius)
    );
    assert_eq!(
        TableRequestBuilder::new(&points, &points)
            .source_radiuses(&radiuses)
            .build()
            .err(),
        Some(TableRequestError::NegativeRadius)
    );
    assert_eq!(
        TableRequestBuilder::new(&points, &points)
            .destination_radiuses(&radiuses)
            .build()
            .err(),
        Some(TableRequestError::NegativeRadius)
    );
    assert_eq!(
        NearestRequestBuilder::new(&points[0], 1)
            .radius(-1)
            .build()
            .err(),
        Some(NearestRequestError::NegativeRadius)
    );
    assert!(NearestRequestBuilder::new(&points[0], 1)
        .radius(0)
        .build()
        .is_ok());
}

#[test]
fn excludes_are_of_one_profile() {
    let points = four_points();
    let mixed = [
        Exclude::Car(CarExclude::Toll),
        Exclude::Bicycle(BicycleExclude::Ferry),
    ];
    let cars = [
        Exclude::Car(CarExclude::Toll),
        Exclude::Car(CarExclude::Motorway),
        Exclude::Car(CarExclude::Ferry),
    ];
    let bicycles = [Exclude::Bicycle(BicycleExclude::Ferry)];
    let none: [Exclude; 0] = [];

    assert_eq!(
        RouteRequestBuilder::new(&points)
            .exclude(&mixed)
            .build()
            .err(),
        Some(RouteRequestError::DifferentExcludeTypes)
    );
    assert!(RouteRequestBuilder::new(&points)
        .exclude(&cars)
        .build()
        .is_ok());
    assert!(RouteRequestBuilder::new(&points)
        .exclude(&bicycles)
        .build()
        .is_ok());
    assert!(RouteRequestBuilder::new(&points)
        .exclude(&none)
        .build()
        .is_ok());
    assert_eq!(
        TripRequestBuilder::new(&points).exclude(&mixed).build().err(),
        Some(TripRequestError::DifferentExcludeTypes)
    );
    assert_eq!(
        MatchRequestBuilder::new(&points)
            .gaps(MatchGapsBehaviour::Ignore)
            .exclude(&mixed)
            .build()
            .err(),
        Some(MatchRequestError::DifferentExcludeTypes)
    );
    assert_eq!(
        TableRequestBuilder::new(&points, &points)
            .exclude(&mixed)
            .build()
            .err(),
        Some(TableRequestError::DifferentExcludeTypes)
    );
    assert_eq!(
        NearestRequestBuilder::new(&points[0], 3)
            .exclude(&mixed)
            .build()
            .err(),
        Some(NearestRequestError::DifferentExcludeTypes)
    );
    assert!(NearestRequestBuilder::new(&points[0], 3)
        .exclude(&cars)
        .build()
        .is_ok());
}

#[test]
fn match_split_needs_timestamps() {
    let points = four_points();
    assert_eq!(
        MatchRequestBuilder::new(&points).build().err(),
        Some(MatchRequestError::TimestampsRequiredForSplitBehaviour)
    );
    assert_eq!(
        MatchRequestBuilder::new(&points)
            .gaps(MatchGapsBehaviour::Split)
            .build()
            .err(),
        Some(MatchRequestError::TimestampsRequiredForSplitBehaviour)
    );
    let timestamps = [1_730_000_000u64, 1_730_000_010, 1_730_000_010, 1_730_000_025];
    assert!(MatchRequestBuilder::new(&points)
        .timestamps(&timestamps)
        .build()
        .is_ok());
}

#[test]
fn match_timestamps_are_as_many_as_the_points_and_ascend() {
    let points = four_points();
    let three = [1u64, 2, 3];
    assert_eq!(
        MatchRequestBuilder::new(&points)
            .timestamps(&three)
            .build()
            .err(),
        Some(MatchRequestError::DimensionMismatch(
            DimensionMismatch::Timestamps
        ))
    );
    let unsorted = [1u64, 3, 2, 4];
    assert_eq!(
        MatchRequestBuilder::new(&points)
            .timestamps(&unsorted)
            .build()
            .err(),
        Some(MatchRequestError::TimestampsNotSorted)
    );
    let ties = [5u64, 5, 5, 5];
    assert!(MatchRequestBuilder::new(&points)
        .timestamps(&ties)
        .build()
        .is_ok());
}

#[test]
fn waypoints_are_indices_of_points() {
    let points = four_points();
    let empty: [usize; 0] = [];
    assert_eq!(
        MatchRequestBuilder::new(&points)
            .gaps(MatchGapsBehaviour::Ignore)
            .waypoints(&empty)
            .build()
            .err(),
        Some(MatchRequestError::EmptyWaypoints)
    );
    let beyond = [0usize, 7, 4, 3];
    assert_eq!(
        MatchRequestBuilder::new(&points)
            .gaps(MatchGapsBehaviour::Ignore)
            .waypoints(&beyond)
            .build()
            .err(),
        Some(MatchRequestError::WaypointIndexOutOfBounds(7, 4))
    );
    let good = [0usize, 3];
    assert!(MatchRequestBuilder::new(&points)
        .gaps(MatchGapsBehaviour::Ignore)
        .waypoints(&good)
        .build()
        .is_ok());

    assert_eq!(
        RouteRequestBuilder::new(&points)
            .waypoints(&empty)
            .build()
            .err(),
        Some(RouteRequestError::EmptyWaypoints)
    );
    assert_eq!(
        RouteRequestBuilder::new(&points)
            .waypoints(&[4])
            .build()
            .err(),
        Some(RouteRequestError::WaypointIndexOutOfBounds(4, 4))
    );
    assert!(RouteRequestBuilder::new(&points)
        .waypoints(&good)
        .build()
        .is_ok());
    assert_eq!(
        TripRequestBuilder::new(&points)
            .waypoints(&empty)
            .build()
            .err(),
        Some(TripRequestError::EmptyWaypoints)
    );
    assert_eq!(
        TripRequestBuilder::new(&points)
            .waypoints(&beyond)
            .build()
            .err(),
        Some(TripRequestError::WaypointIndexOutOfBounds(7, 4))
    );
}

#[test]
fn table_needs_sources_and_destinations() {
    let points = four_points();
    assert_eq!(
        TableRequestBuilder::new(&points[..0], &points).build().err(),
        Some(TableRequestError::EmptySources)
    );
    assert_eq!(
        TableRequestBuilder::new(&points, &points[..0]).build().err(),
        Some(TableRequestError::EmptyDestinations)
    );
    assert_eq!(
        TableRequestBuilder::new(&points[..0], &points[..0])
            .build()
            .err(),
        Some(TableRequestError::EmptySources)
    );
    assert!(TableRequestBuilder::new(&points[..1], &points[..1])
        .build()
        .is_ok());
}

#[test]
fn table_fallback_and_scale_factor() {
    let points = four_points();
    let b = TableRequestBuilder::new(&points[..2], &points[2..]);
    assert_eq!(
        b.fallback(TableFallbackCoordinate::Input, 0).build().err(),
        Some(TableRequestError::NonPositiveFallbackSpeed)
    );
    assert_eq!(
        b.fallback(TableFallbackCoordinate::Input, -1_000_000)
            .build()
            .err(),
        Some(TableRequestError::NonPositiveFallbackSpeed)
    );
    assert!(b
        .fallback(TableFallbackCoordinate::Snapped, 1)
        .build()
        .is_ok());
    assert_eq!(
        b.fallback_speed(13_500_000).build().err(),
        Some(TableRequestError::IncompleteFallbackPair)
    );
    assert_eq!(
        b.fallback_coordinate(TableFallbackCoordinate::Input)
            .build()
            .err(),
        Some(TableRequestError::IncompleteFallbackPair)
    );
    assert_eq!(
        b.scale_factor(0).build().err(),
        Some(TableRequestError::NonPositiveScaleFactor)
    );
    assert!(b.scale_factor(1_500_000).build().is_ok());
    assert!(b
        .annotations(TableAnnotation::All)
        .scale_factor(1_500_000)
        .build()
        .is_ok());
    assert_eq!(
        b.annotations(TableAnnotation::Distance)
            .scale_factor(1_500_000)
            .build()
            .err(),
        Some(TableRequestError::ScaleFactorRequiresDuration)
    );
    assert_eq!(
        b.annotations(TableAnnotation::Nothing)
            .scale_factor(1_500_000)
            .build()
            .err(),
        Some(TableRequestError::ScaleFactorRequiresDuration)
    );
    // the speed is looked at before the factor, and both before the pair
    assert_eq!(
        b.fallback_speed(0).scale_factor(0).build().err(),
        Some(TableRequestError::NonPositiveFallbackSpeed)
    );
}

#[test]
fn table_array_options_follow_their_side() {
    let points = four_points();
    let sources = &points[..1];
    let destinations = &points[1..];
    let one_bearing = [Bearing::new(90, 10)];
    let three_bearings = [None, Bearing::new(90, 10), None];
    let b = TableRequestBuilder::new(sources, destinations);
    assert!(b
        .source_bearings(&one_bearing)
        .destination_bearings(&three_bearings)
        .build()
        .is_ok());
    assert_eq!(
        b.source_bearings(&three_bearings).build().err(),
        Some(TableRequestError::DimensionMismatch(
            DimensionMismatch::Bearings
        ))
    );
    assert_eq!(
        b.destination_bearings(&one_bearing).build().err(),
        Some(TableRequestError::DimensionMismatch(
            DimensionMismatch::Bearings
        ))
    );
    assert_eq!(
        b.source_radiuses(&[None, None]).build().err(),
        Some(TableRequestError::DimensionMismatch(
            DimensionMismatch::Radiuses
        ))
    );
    assert_eq!(
        b.destination_radiuses(&[None, None]).build().err(),
        Some(TableRequestError::DimensionMismatch(
            DimensionMismatch::Radiuses
        ))
    );
    assert_eq!(
        b.source_hints(&[None, None]).build().err(),
        Some(TableRequestError::DimensionMismatch(DimensionMismatch::Hints))
    );
    assert_eq!(
        b.destination_hints(&[None, None]).build().err(),
        Some(TableRequestError::DimensionMismatch(DimensionMismatch::Hints))
    );
    assert_eq!(
        b.source_approaches(&[Approach::Curb, Approach::Curb])
            .build()
            .err(),
        Some(TableRequestError::DimensionMismatch(
            DimensionMismatch::Approaches
        ))
    );
    assert_eq!(
        b.destination_approaches(&[Approach::Curb, Approach::Curb])
            .build()
            .err(),
        Some(TableRequestError::DimensionMismatch(
            DimensionMismatch::Approaches
        ))
    );
}

#[test]
fn a_request_holds_what_its_builder_held() {
    let points = four_points();
    let bearings = [Bearing::new(0, 90), None, None, None];
    let request = RouteRequestBuilder::new(&points)
        .steps(true)
        .alternatives(true)
        .continue_straight(false)
        .bearings(&bearings)
        .build()
        .expect("Failed to build RouteRequest");
    assert_eq!(request.points(), &points[..]);
    assert!(request.steps());
    assert!(request.alternatives());
    assert!(!request.continue_straight());
    assert!(!request.annotations());
    assert!(request.generate_hints());
    assert!(!request.skip_waypoints());
    assert_eq!(request.bearings(), Some(&bearings[..]));
    assert_eq!(request.radiuses(), None);
    assert_eq!(request.hints(), None);
    assert_eq!(request.snapping(), None);
}

#[test]
fn trip_and_match_name_the_array_option_of_another_length() {
    let points = four_points();
    let three_bearings = [Bearing::new(0, 90), None, Bearing::new(180, 90)];
    assert_eq!(
        TripRequestBuilder::new(&points)
            .bearings(&three_bearings)
            .build()
            .err(),
        Some(TripRequestError::DimensionMismatch(
            DimensionMismatch::Bearings
        ))
    );
    assert_eq!(
        TripRequestBuilder::new(&points)
            .approaches(&[Approach::Curb])
            .build()
            .err(),
        Some(TripRequestError::DimensionMismatch(
            DimensionMismatch::Approaches
        ))
    );
    assert_eq!(
        MatchRequestBuilder::new(&points)
            .gaps(MatchGapsBehaviour::Ignore)
            .bearings(&three_bearings)
            .build()
            .err(),
        Some(MatchRequestError::DimensionMismatch(
            DimensionMismatch::Bearings
        ))
    );
    assert_eq!(
        MatchRequestBuilder::new(&points)
            .gaps(MatchGapsBehaviour::Ignore)
            .hints(&[None])
            .build()
            .err(),
        Some(MatchRequestError::DimensionMismatch(DimensionMismatch::Hints))
    );
    let four_bearings = [Bearing::new(0, 90), None, Bearing::new(180, 90), None];
    assert!(TripRequestBuilder::new(&points)
        .bearings(&four_bearings)
        .build()
        .is_ok());
    assert!(MatchRequestBuilder::new(&points)
        .gaps(MatchGapsBehaviour::Ignore)
        .bearings(&four_bearings)
        .build()
        .is_ok());
}

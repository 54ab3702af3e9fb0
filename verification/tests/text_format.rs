use osrm_interface::numeral::parse_millionths;
use osrm_interface::request_types::{
    BicycleExclude, CarExclude, Exclude, GeometryType, OverviewZoom, Snapping,
};
use osrm_interface::remote::Profile;
use osrm_interface::services::matching::MatchGapsBehaviour;
use osrm_interface::services::table::{TableAnnotation, TableFallbackCoordinate};
use osrm_interface::services::trip::{TripDestination, TripSource};
use osrm_interface::services::{Approach, DimensionMismatch};
use osrm_interface::text::{
    bool_str, decimal_string, fixed12_string, fixed6_string, magnitude_of, shortest_string,
    signed_string,
};
use osrm_interface::Algorithm;

#[test]
fn decimal_numerals() {
    assert_eq!(decimal_string(0), "0");
    assert_eq!(decimal_string(7), "7");
    assert_eq!(decimal_string(10), "10");
    assert_eq!(decimal_string(1_730_000_000), "1730000000");
    assert_eq!(
        decimal_string(u128::MAX),
        "340282366920938463463374607431768211455"
    );
    assert_eq!(signed_string(0), "0");
    assert_eq!(signed_string(-1), "-1");
    assert_eq!(signed_string(i64::MAX), "9223372036854775807");
    assert_eq!(signed_string(i64::MIN), "-9223372036854775808");
    assert_eq!(magnitude_of(i64::MIN), 9_223_372_036_854_775_808u128);
    assert_eq!(magnitude_of(-5), 5);
    assert_eq!(magnitude_of(5), 5);
}

#[test]
fn six_decimal_places() {
    assert_eq!(fixed6_string(48_040_437), "48.040437");
    assert_eq!(fixed6_string(10_316_550), "10.316550");
    assert_eq!(fixed6_string(0), "0.000000");
    assert_eq!(fixed6_string(1), "0.000001");
    assert_eq!(fixed6_string(-1), "-0.000001");
    assert_eq!(fixed6_string(-500_000), "-0.500000");
    assert_eq!(fixed6_string(-180_000_000), "-180.000000");
    assert_eq!(fixed6_string(7_594_814), "7.594814");
    assert_eq!(fixed6_string(i64::MIN), "-9223372036854.775808");
}

#[test]
fn twelve_decimal_places() {
    assert_eq!(fixed12_string(12_500_000), "12.500000000000");
    assert_eq!(fixed12_string(0), "0.000000000000");
    assert_eq!(fixed12_string(1), "0.000001000000");
}

#[test]
fn as_few_decimal_places_as_needed() {
    assert_eq!(shortest_string(2_000_000), "2");
    assert_eq!(shortest_string(1_500_000), "1.5");
    assert_eq!(shortest_string(13_250_000), "13.25");
    assert_eq!(shortest_string(1), "0.000001");
    assert_eq!(shortest_string(100_000), "0.1");
    assert_eq!(shortest_string(-2_500_000), "-2.5");
    assert_eq!(shortest_string(0), "0");
    assert_eq!(shortest_string(1_000_010), "1.00001");
}

#[test]
fn booleans() {
    assert_eq!(bool_str(true), "true");
    assert_eq!(bool_str(false), "false");
}

#[test]
fn url_forms() {
    assert_eq!(Algorithm::MLD.as_str(), "MLD");
    assert_eq!(Algorithm::CH.as_str(), "CH");
    assert_eq!(GeometryType::Polyline.url_form(), "polyline");
    assert_eq!(GeometryType::Polyline6.url_form(), "polyline6");
    assert_eq!(GeometryType::GeoJSON.url_form(), "geojson");
    assert_eq!(OverviewZoom::Simplified.url_form(), "simplified");
    assert_eq!(OverviewZoom::Full.url_form(), "full");
    assert_eq!(OverviewZoom::False.url_form(), "false");
    assert_eq!(Snapping::Default.url_form(), "default");
    assert_eq!(Snapping::Any.url_form(), "any");
    assert_eq!(CarExclude::Toll.as_str(), "toll");
    assert_eq!(CarExclude::Motorway.as_str(), "motorway");
    assert_eq!(CarExclude::Ferry.as_str(), "ferry");
    assert_eq!(BicycleExclude::Ferry.as_str(), "ferry");
    assert_eq!(Exclude::Car(CarExclude::Motorway).as_str(), "motorway");
    assert_eq!(Exclude::Bicycle(BicycleExclude::Ferry).as_str(), "ferry");
    assert_eq!(Approach::Curb.url_form(), "curb");
    assert_eq!(Approach::Opposite.url_form(), "opposite");
    assert_eq!(Approach::Unrestricted.url_form(), "unrestricted");
    assert_eq!(MatchGapsBehaviour::Split.url_form(), "split");
    assert_eq!(MatchGapsBehaviour::Ignore.url_form(), "ignore");
    assert_eq!(TableAnnotation::Nothing.url_form(), "none");
    assert_eq!(TableAnnotation::Duration.url_form(), "duration");
    assert_eq!(TableAnnotation::Distance.url_form(), "distance");
    assert_eq!(TableAnnotation::All.url_form(), "duration,distance");
    assert_eq!(TableFallbackCoordinate::Input.url_form(), "input");
    assert_eq!(TableFallbackCoordinate::Snapped.url_form(), "snapped");
    assert_eq!(TripSource::Any.url_form(), "any");
    assert_eq!(TripSource::First.url_form(), "first");
    assert_eq!(TripDestination::Any.url_form(), "any");
    assert_eq!(TripDestination::Last.url_form(), "last");
    assert_eq!(Profile::Car.url_form(), "car");
    assert_eq!(Profile::Bike.url_form(), "bike");
    assert_eq!(Profile::Foot.url_form(), "foot");
    assert_eq!(DimensionMismatch::Timestamps.as_str(), "Timestamps");
    assert_eq!(DimensionMismatch::Approaches.as_str(), "Approaches");
}

#[test]
fn what_is_written_is_read_back() {
    for v in [
        0i64,
        1,
        -1,
        999_999,
        1_000_000,
        -1_000_001,
        48_040_437,
        -180_000_000,
        i64::MAX,
        -i64::MAX,
    ] {
        assert_eq!(parse_millionths(&fixed6_string(v)), Some(v));
        assert_eq!(parse_millionths(&fixed12_string(v)), Some(v));
        assert_eq!(parse_millionths(&shortest_string(v)), Some(v));
    }
    // the smallest number is written, and is too large to be read
    assert_eq!(parse_millionths(&fixed6_string(i64::MIN)), None);
}

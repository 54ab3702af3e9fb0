use osrm_interface::errors::{NativeOsrmError, OsrmError, RemoteOsrmError, RequestError};
use osrm_interface::services::matching::MatchRequestError;
use osrm_interface::services::nearest::NearestRequestError;
use osrm_interface::services::route::RouteRequestError;
use osrm_interface::services::table::TableRequestError;
use osrm_interface::services::trip::TripRequestError;
use osrm_interface::services::DimensionMismatch;

#[test]
fn route_errors_in_words() {
    assert_eq!(
        RouteRequestError::InsufficientPoints.message(),
        "Route requires at least 2 points"
    );
    assert_eq!(
        RouteRequestError::DimensionMismatch(DimensionMismatch::Bearings).message(),
        "Mismatch of dimensions between Points and Bearings"
    );
    assert_eq!(
        RouteRequestError::DimensionMismatch(DimensionMismatch::Radiuses).message(),
        "Mismatch of dimensions between Points and Radiuses"
    );
    assert_eq!(
        RouteRequestError::DifferentExcludeTypes.message(),
        "Exclude types are not all of the same type"
    );
    assert_eq!(
        RouteRequestError::NegativeRadius.message(),
        "Radii must be non-negative"
    );
    assert_eq!(
        RouteRequestError::EmptyWaypoints.message(),
        "Waypoints when non-None must have non-zero length"
    );
    assert_eq!(
        RouteRequestError::WaypointIndexOutOfBounds(7, 4).message(),
        "Waypoints contain index 7 which is out of bounds for points with size 4"
    );
}

#[test]
fn trip_and_match_errors_in_words() {
    assert_eq!(
        TripRequestError::InsufficientPoints.message(),
        "Trip requires at least 2 points"
    );
    assert_eq!(
        TripRequestError::DimensionMismatch(DimensionMismatch::Hints).message(),
        "Mismatch of dimensions between Points and Hints"
    );
    assert_eq!(
        MatchRequestError::InsufficientPoints.message(),
        "Match requires at least 2 points"
    );
    assert_eq!(
        MatchRequestError::DimensionMismatch(DimensionMismatch::Timestamps).message(),
        "Mismatch of dimensions between Points and Timestamps"
    );
    assert_eq!(
        MatchRequestError::TimestampsNotSorted.message(),
        "Timestamps must be increasing order"
    );
    assert_eq!(
        MatchRequestError::TimestampsRequiredForSplitBehaviour.message(),
        "Timestamps must be included for GapsBehaviour::Split"
    );
    assert_eq!(
        MatchRequestError::EmptyWaypoints.message(),
        "Waypoints when non-None must have non-zero length"
    );
    assert_eq!(
        MatchRequestError::WaypointIndexOutOfBounds(12, 10).message(),
        "Waypoints contain index 12 which is out of bounds for points with size 10"
    );
    assert_eq!(
        MatchRequestError::NegativeRadius.message(),
        "Radii must be non-negative"
    );
}

#[test]
fn table_and_nearest_errors_in_words() {
    assert_eq!(
        TableRequestError::EmptySources.message(),
        "No sources in table request"
    );
    assert_eq!(
        TableRequestError::EmptyDestinations.message(),
        "No destinations in table request"
    );
    assert_eq!(
        TableRequestError::NonPositiveFallbackSpeed.message(),
        "Fallback speed must be greater than 0.0"
    );
    assert_eq!(
        TableRequestError::NonPositiveScaleFactor.message(),
        "Scale factor must be greater than 0.0"
    );
    assert_eq!(
        TableRequestError::IncompleteFallbackPair.message(),
        "Fallback speed and coordinate are co-dependent and must both be specified, or both null"
    );
    assert_eq!(
        TableRequestError::ScaleFactorRequiresDuration.message(),
        "Scale factor multiplies duration, so annotations must be TableAnnotation::Duration, or TableAnnotation::All"
    );
    assert_eq!(
        TableRequestError::DimensionMismatch(DimensionMismatch::Approaches).message(),
        "Mismatch of dimensions between Points and Approaches"
    );
    assert_eq!(
        NearestRequestError::DifferentExcludeTypes.message(),
        "Exclude types are not all of the same type"
    );
    assert_eq!(
        NearestRequestError::NegativeRadius.message(),
        "Radii must be non-negative"
    );
}

#[test]
fn engine_errors_in_words() {
    assert_eq!(
        NativeOsrmError::Initialization("no map".to_string()).message(),
        "Failed to create OSRM instance: no map"
    );
    assert_eq!(
        NativeOsrmError::InvalidPath("a\0b".to_string()).message(),
        "Invalid path parameter: a\0b"
    );
    assert_eq!(
        NativeOsrmError::JsonParse("expected value".to_string()).message(),
        "Failed to parse OSRM response: expected value"
    );
    assert_eq!(
        NativeOsrmError::FfiError("OSRM error: NoRoute".to_string()).message(),
        "Internal FFI error: OSRM error: NoRoute"
    );
    assert_eq!(
        RemoteOsrmError::JsonParse("expected value".to_string()).message(),
        "Failed to parse OSRM response: expected value"
    );
    assert_eq!(
        RemoteOsrmError::EndpointError("timed out".to_string()).message(),
        "Endpoint error: timed out"
    );
    assert_eq!(
        OsrmError::EmptyResponse("nothing".to_string()).message(),
        "Request produced an empty response: nothing"
    );
    assert_eq!(
        OsrmError::Native(NativeOsrmError::FfiError("x".to_string())).message(),
        "Error from the native backend: Internal FFI error: x"
    );
    assert_eq!(
        OsrmError::Remote(RemoteOsrmError::EndpointError("y".to_string())).message(),
        "Error from the remote backend: Endpoint error: y"
    );
    assert_eq!(
        OsrmError::Request(RequestError::Trip(TripRequestError::NegativeRadius)).message(),
        "Invalid request: Radii must be non-negative"
    );
    assert_eq!(
        RequestError::Route(RouteRequestError::InsufficientPoints).message(),
        "Route requires at least 2 points"
    );
    assert_eq!(
        RequestError::Match(MatchRequestError::TimestampsNotSorted).message(),
        "Timestamps must be increasing order"
    );
    assert_eq!(
        RequestError::Table(TableRequestError::EmptySources).message(),
        "No sources in table request"
    );
    assert_eq!(
        RequestError::Nearest(NearestRequestError::NegativeRadius).message(),
        "Radii must be non-negative"
    );
}

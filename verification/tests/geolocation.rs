//! Tests of the geolocation adapter's verified pieces.

use nearby_stations::geolocation::LocationError;
use nearby_stations::geolocation::OneShot;
use nearby_stations::geolocation::classify_position_error;

#[test]
fn platform_codes_map_to_tagged_reasons() {
    assert_eq!(classify_position_error(1), LocationError::PermissionDenied);
    assert_eq!(classify_position_error(2), LocationError::PositionUnavailable);
    assert_eq!(classify_position_error(3), LocationError::Timeout);
}

#[test]
fn unknown_codes_fall_back_to_unavailable() {
    assert_eq!(classify_position_error(0), LocationError::PositionUnavailable);
    assert_eq!(classify_position_error(99), LocationError::PositionUnavailable);
}

#[test]
fn one_shot_fires_exactly_once() {
    let mut gate = OneShot::new();
    assert!(gate.try_fire());
    assert!(!gate.try_fire());
    assert!(!gate.try_fire());
}

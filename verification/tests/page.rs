//! Tests of the page state machine and its render function.

use nearby_stations::geolocation::LocationError;
use nearby_stations::page::Home;
use nearby_stations::page::HomeMsg;
use nearby_stations::page::PageError;
use nearby_stations::page::PageState;
use nearby_stations::page::RenderOutput;
use nearby_stations::query::QueryResponse;
use nearby_stations::query::ResponseData;
use nearby_stations::query::StationData;
use nearby_stations::query::TransportError;

fn named_response(name: &str) -> QueryResponse {
    QueryResponse {
        data: Some(ResponseData {
            nearby_stations: Some(vec![Some(StationData { name: Some(name.to_string()) })]),
        }),
    }
}

fn microdegrees(degrees: f64) -> i64 {
    (degrees * 1_000_000.0).round() as i64
}

/// A page that has mounted, rendered once and issued its geolocation
/// request.
fn awaiting_location() -> Home {
    let mut h = Home::create();
    assert!(h.rendered(true));
    h
}

#[test]
fn fresh_page_renders_loading() {
    let h = Home::create();
    assert_eq!(h.view(), RenderOutput::Loading);
}

#[test]
fn awaiting_location_renders_loading() {
    let h = awaiting_location();
    assert!(matches!(h.state, PageState::AwaitingLocation));
    assert_eq!(h.view(), RenderOutput::Loading);
}

#[test]
fn rendered_requests_location_only_once() {
    let mut h = Home::create();
    assert!(h.rendered(true));
    assert!(!h.rendered(true));
    assert!(!h.rendered(false));
}

#[test]
fn location_failure_renders_error() {
    let mut h = awaiting_location();
    let (render, action) =
        h.update(HomeMsg::GotError(PageError::Location(LocationError::Timeout)));
    assert!(render);
    assert!(action.is_none());
    assert!(matches!(h.state, PageState::LocationFailed));
    assert_eq!(h.view(), RenderOutput::ErrorIndicator);
}

#[test]
fn success_path_renders_station_name() {
    let mut h = awaiting_location();
    let (render, action) = h.update(HomeMsg::GotLocation(
        microdegrees(35.6),
        microdegrees(139.7),
    ));
    assert!(!render);
    let query = action.expect("a position must trigger the station query");
    assert_eq!(query.latitude_udeg, 35_600_000);
    assert_eq!(query.longitude_udeg, 139_700_000);
    assert!(matches!(h.state, PageState::AwaitingStation));

    let (render, action) = h.update(HomeMsg::GotStation(Some(named_response("Shibuya"))));
    assert!(render);
    assert!(action.is_none());
    assert!(matches!(h.state, PageState::Resolved));
    assert_eq!(h.view(), RenderOutput::StationName("Shibuya".to_string()));
}

#[test]
fn query_failure_renders_error_not_loading() {
    let mut h = awaiting_location();
    let _ = h.update(HomeMsg::GotLocation(microdegrees(35.6), microdegrees(139.7)));
    let (render, action) = h.update(HomeMsg::GotError(PageError::Transport(TransportError)));
    assert!(render);
    assert!(action.is_none());
    assert!(matches!(h.state, PageState::QueryFailed));
    assert_eq!(h.view(), RenderOutput::ErrorIndicator);
    assert_ne!(h.view(), RenderOutput::Loading);
}

#[test]
fn empty_result_renders_empty_state() {
    let mut h = awaiting_location();
    let _ = h.update(HomeMsg::GotLocation(microdegrees(35.6), microdegrees(139.7)));
    let resp = QueryResponse {
        data: Some(ResponseData { nearby_stations: Some(vec![]) }),
    };
    let (render, _) = h.update(HomeMsg::GotStation(Some(resp)));
    assert!(render);
    assert!(matches!(h.state, PageState::Resolved));
    assert_eq!(h.view(), RenderOutput::Empty);
}

#[test]
fn late_result_after_destroy_changes_nothing() {
    let mut h = awaiting_location();
    let _ = h.update(HomeMsg::GotLocation(microdegrees(35.6), microdegrees(139.7)));
    h.destroy();
    // The query is still in flight; its result arrives after teardown.
    let (render, action) = h.update(HomeMsg::GotStation(Some(named_response("Shibuya"))));
    assert!(!render);
    assert!(action.is_none());
    assert!(matches!(h.state, PageState::AwaitingStation));
    assert!(h.station.is_none());
    assert!(h.location_error.is_none());
}

#[test]
fn terminal_states_discard_further_events() {
    let mut h = awaiting_location();
    let _ = h.update(HomeMsg::GotError(PageError::Location(
        LocationError::PermissionDenied,
    )));
    assert!(matches!(h.state, PageState::LocationFailed));
    let (render, action) = h.update(HomeMsg::GotLocation(1, 2));
    assert!(!render);
    assert!(action.is_none());
    assert!(matches!(h.state, PageState::LocationFailed));
    assert_eq!(h.view(), RenderOutput::ErrorIndicator);
}

#[test]
fn transport_error_outside_query_is_discarded() {
    let mut h = awaiting_location();
    let (render, action) = h.update(HomeMsg::GotError(PageError::Transport(TransportError)));
    assert!(!render);
    assert!(action.is_none());
    assert!(matches!(h.state, PageState::AwaitingLocation));
    assert_eq!(h.view(), RenderOutput::Loading);
}

#[test]
fn absent_station_payload_keeps_waiting() {
    let mut h = awaiting_location();
    let _ = h.update(HomeMsg::GotLocation(microdegrees(35.6), microdegrees(139.7)));
    let (render, action) = h.update(HomeMsg::GotStation(None));
    assert!(render);
    assert!(action.is_none());
    assert!(matches!(h.state, PageState::AwaitingStation));
    assert_eq!(h.view(), RenderOutput::Loading);
}

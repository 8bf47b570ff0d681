use rtt_tui::matcher::MatchError;
use rtt_tui::service::{LivePosition, Role, ServiceCandidate, ServiceSnapshot, StopDetail, StopTime};
use rtt_tui::station::StationRef;
use rtt_tui::tracker::{App, AppError, TrackerState};

fn detail(dest: &str, departure: &str) -> StopDetail {
    StopDetail {
        description: "Source".to_string(),
        destination: vec![StopTime {
            tiploc: dest.to_string(),
            description: dest.to_string(),
            public_time: "1000".to_string(),
        }],
        booked_departure: Some(departure.to_string()),
        realtime_arrival: None,
        arrival_actual: false,
        realtime_departure: None,
        departure_actual: false,
        arrival_lateness: None,
        departure_lateness: None,
        platform: None,
        platform_changed: false,
        position: None,
        role: Role::Origin,
    }
}

fn snapshot(name: &str) -> ServiceSnapshot {
    ServiceSnapshot {
        atoc_name: name.to_string(),
        origin: Vec::new(),
        destination: Vec::new(),
        locations: Vec::new(),
    }
}

fn last_fetch(app: &App) -> Option<u64> {
    match &app.tracker {
        TrackerState::Tracking { last_fetch_ms, .. } => Some(*last_fetch_ms),
        TrackerState::Uninitialized => None,
    }
}

fn tracking_app(interval: u64, first_fetch: u64) -> App {
    let mut app = App::new(interval);
    app.load_destination(StationRef::Single("KGX".to_string()));
    let candidates = vec![ServiceCandidate {
        service_uid: "W12345".to_string(),
        location_detail: detail("KGX", "0830"),
    }];
    assert_eq!(app.find_service(candidates, "0830"), Ok(()));
    assert_eq!(app.refresh_service(snapshot("LNER"), first_fetch), Ok(()));
    app
}

#[test]
fn ticks_within_interval_fetch_nothing() {
    let mut app = tracking_app(30_000, 1_000);
    assert!(!app.on_tick(1_500));
    assert!(!app.on_tick(30_999));
    assert_eq!(last_fetch(&app), Some(1_000));
}

#[test]
fn tick_after_interval_fetches_once() {
    let mut app = tracking_app(30_000, 1_000);
    assert!(app.on_tick(31_000));
    assert_eq!(last_fetch(&app), Some(31_000));
    assert!(!app.on_tick(31_000));
    assert!(!app.on_tick(60_999));
    assert!(app.on_tick(61_000));
}

#[test]
fn refresh_replaces_snapshot() {
    let mut app = tracking_app(30_000, 1_000);
    assert!(app.on_tick(40_000));
    assert_eq!(app.refresh_service(snapshot("Grand Central"), 40_000), Ok(()));
    match &app.tracker {
        TrackerState::Tracking { snapshot, last_fetch_ms } => {
            assert_eq!(snapshot.atoc_name, "Grand Central");
            assert_eq!(*last_fetch_ms, 40_000);
        }
        TrackerState::Uninitialized => panic!("not tracking"),
    }
}

#[test]
fn uninitialized_tracker_never_ticks() {
    let mut app = App::new(0);
    assert!(!app.on_tick(1_000_000));
}

#[test]
fn keys_toggle_flags() {
    let mut app = App::new(30_000);
    app.on_key('x');
    assert!(!app.show_intermediary && !app.should_quit);
    app.on_key('i');
    assert!(app.show_intermediary);
    app.on_key('i');
    assert!(!app.show_intermediary);
    app.on_key('q');
    assert!(app.should_quit);
}

#[test]
fn service_needs_destination_first() {
    let mut app = App::new(30_000);
    let candidates = vec![ServiceCandidate {
        service_uid: "A".to_string(),
        location_detail: detail("KGX", "0830"),
    }];
    assert_eq!(app.find_service(candidates, "0830"), Err(AppError::DestinationNotLoaded));
    assert!(app.service_uid().is_none());
}

#[test]
fn matched_service_is_kept() {
    let mut app = App::new(30_000);
    app.load_destination(StationRef::Single("KGX".to_string()));
    let candidates = vec![
        ServiceCandidate { service_uid: "A".to_string(), location_detail: detail("KGX", "0700") },
        ServiceCandidate { service_uid: "B".to_string(), location_detail: detail("KGX", "0845") },
    ];
    assert_eq!(app.find_service(candidates, "0830"), Ok(()));
    assert_eq!(app.service_uid().map(|s| s.as_str()), Some("B"));
    let none = vec![ServiceCandidate { service_uid: "C".to_string(), location_detail: detail("EDB", "0830") }];
    assert_eq!(app.find_service(none, "0830"), Err(AppError::Match(MatchError::NoMatch)));
    assert_eq!(app.service_uid().map(|s| s.as_str()), Some("B"));
}

#[test]
fn snapshot_before_match_is_refused() {
    let mut app = App::new(30_000);
    assert_eq!(app.refresh_service(snapshot("LNER"), 5), Err(AppError::NoServiceMatched));
    assert!(matches!(app.tracker, TrackerState::Uninitialized));
}

#[test]
fn display_codes() {
    assert_eq!(Role::from_code(&"ORIGIN".to_string()), Role::Origin);
    assert_eq!(Role::from_code(&"DESTINATION".to_string()), Role::Destination);
    assert_eq!(Role::from_code(&"CALL".to_string()), Role::Call);
    assert_eq!(LivePosition::from_code(&"AT_PLAT".to_string()), Some(LivePosition::AtPlatform));
    assert_eq!(LivePosition::from_code(&"DEP_READY".to_string()), Some(LivePosition::ReadyToDepart));
    assert_eq!(LivePosition::from_code(&"ELSEWHERE".to_string()), None);
}

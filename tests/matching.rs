use rtt_tui::matcher::{best_match_index, match_service, parse_hhmm, MatchError};
use rtt_tui::service::{Role, ServiceCandidate, StopDetail, StopTime};
use rtt_tui::station::StationRef;

fn stop_time(tiploc: &str) -> StopTime {
    StopTime {
        tiploc: tiploc.to_string(),
        description: format!("{} station", tiploc),
        public_time: "0900".to_string(),
    }
}

fn candidate(uid: &str, dest: &str, departure: Option<&str>) -> ServiceCandidate {
    ServiceCandidate {
        service_uid: uid.to_string(),
        location_detail: StopDetail {
            description: "Source".to_string(),
            destination: vec![stop_time(dest)],
            booked_departure: departure.map(|d| d.to_string()),
            realtime_arrival: None,
            arrival_actual: false,
            realtime_departure: None,
            departure_actual: false,
            arrival_lateness: None,
            departure_lateness: None,
            platform: None,
            platform_changed: false,
            position: None,
            role: Role::Origin,
        },
    }
}

fn kgx() -> StationRef {
    StationRef::Single("KGX".to_string())
}

fn picked_uid(r: Result<ServiceCandidate, MatchError>) -> String {
    match r {
        Ok(c) => c.service_uid,
        Err(e) => panic!("no service picked: {:?}", e),
    }
}

#[test]
fn closest_departure_wins_over_earlier_one() {
    let candidates = vec![
        candidate("A0825", "KGX", Some("0825")),
        candidate("B0830", "KGX", Some("0830")),
        candidate("C0830", "EDB", Some("0830")),
    ];
    assert_eq!(picked_uid(match_service(candidates, &kgx(), "0828")), "B0830");
}

#[test]
fn equally_close_keeps_first_listed() {
    let candidates = vec![
        candidate("A", "KGX", Some("0825")),
        candidate("B", "KGX", Some("0831")),
        candidate("C", "KGX", Some("0825")),
    ];
    assert_eq!(picked_uid(match_service(candidates, &kgx(), "0828")), "A");
}

#[test]
fn candidate_without_departure_is_skipped() {
    let candidates = vec![
        candidate("NONE", "KGX", None),
        candidate("BAD", "KGX", Some("8x30")),
        candidate("FAR", "KGX", Some("1200")),
    ];
    assert_eq!(picked_uid(match_service(candidates, &kgx(), "0828")), "FAR");
}

#[test]
fn no_candidate_to_destination_is_no_match() {
    let candidates = vec![candidate("E", "EDB", Some("0828"))];
    assert!(matches!(match_service(candidates, &kgx(), "0828"), Err(MatchError::NoMatch)));
}

#[test]
fn empty_candidates_is_no_match() {
    assert!(matches!(match_service(Vec::new(), &kgx(), "0828"), Err(MatchError::NoMatch)));
}

#[test]
fn no_parsable_departure_is_no_match() {
    let candidates = vec![candidate("A", "KGX", None), candidate("B", "KGX", Some("late"))];
    assert!(matches!(match_service(candidates, &kgx(), "0828"), Err(MatchError::NoMatch)));
}

#[test]
fn unreadable_requested_time_is_rejected() {
    let candidates = vec![candidate("A", "KGX", Some("0828"))];
    assert!(matches!(
        match_service(candidates, &kgx(), "8:28"),
        Err(MatchError::InvalidDepartureTime)
    ));
}

#[test]
fn station_with_several_codes_matches_any() {
    let station = StationRef::Multi(vec!["KNGX".to_string(), "KGX".to_string()]);
    let candidates = vec![candidate("A", "EDB", Some("0828")), candidate("B", "KGX", Some("0900"))];
    assert_eq!(best_match_index(&candidates, &station, 508), Some(1));
    assert!(station.contains(&"KNGX".to_string()));
    assert!(!station.contains(&"EDB".to_string()));
}

#[test]
fn hhmm_is_minutes_after_midnight() {
    assert_eq!(parse_hhmm("0830"), Some(510));
    assert_eq!(parse_hhmm("0000"), Some(0));
    assert_eq!(parse_hhmm("2359"), Some(1439));
    assert_eq!(parse_hhmm("2400"), None);
    assert_eq!(parse_hhmm("0860"), None);
    assert_eq!(parse_hhmm("830"), None);
    assert_eq!(parse_hhmm("08300"), None);
}

#[test]
fn closeness_counts_minutes_across_the_hour() {
    // 0858 is 3 minutes from 0901 but 43 apart as plain numbers.
    let candidates = vec![candidate("A", "KGX", Some("0901")), candidate("B", "KGX", Some("0815"))];
    assert_eq!(picked_uid(match_service(candidates, &kgx(), "0858")), "A");
}

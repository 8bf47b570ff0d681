use vstd::prelude::*;

verus! {

/// The part a stop plays in a journey; it decides which of its times and
/// lateness figures are shown.
#[derive(Clone, Copy, PartialEq, Eq, Structural, Debug)]
pub enum Role {
    Origin,
    Call,
    Destination,
}

/// Where a train stands relative to a stop, as reported live.
#[derive(Clone, Copy, PartialEq, Eq, Structural, Debug)]
pub enum LivePosition {
    ApproachingStation,
    ApproachingPlatform,
    AtPlatform,
    PreparingToDepart,
    ReadyToDepart,
}

/// A station of a journey with its description and public time.
pub struct StopTime {
    pub tiploc: String,
    pub description: String,
    pub public_time: String,
}

/// One stop of a live journey.
pub struct StopDetail {
    pub description: String,
    /// The destinations of the service as seen from this stop; the first one
    /// is used for matching.
    pub destination: Vec<StopTime>,
    /// The booked public departure, as four digits `HHMM`.
    pub booked_departure: Option<String>,
    pub realtime_arrival: Option<String>,
    pub arrival_actual: bool,
    pub realtime_departure: Option<String>,
    pub departure_actual: bool,
    /// Minutes late (positive) or early (negative) against the public arrival.
    pub arrival_lateness: Option<i32>,
    /// Minutes late (positive) or early (negative) against the public departure.
    pub departure_lateness: Option<i32>,
    pub platform: Option<String>,
    pub platform_changed: bool,
    pub position: Option<LivePosition>,
    pub role: Role,
}

/// A scheduled service found by a station search, with its stop at that station.
pub struct ServiceCandidate {
    pub service_uid: String,
    pub location_detail: StopDetail,
}

/// The full live journey of one service.
pub struct ServiceSnapshot {
    pub atoc_name: String,
    pub origin: Vec<StopTime>,
    pub destination: Vec<StopTime>,
    pub locations: Vec<StopDetail>,
}

impl Role {
    /// The role named by an upstream display code; any code other than
    /// `ORIGIN` and `DESTINATION` is an intermediate call.
    pub fn from_code(code: &String) -> (r: Role)
        ensures
            code@ == "ORIGIN"@ ==> r == Role::Origin,
            code@ == "DESTINATION"@ ==> r == Role::Destination,
            code@ != "ORIGIN"@ && code@ != "DESTINATION"@ ==> r == Role::Call,
    {
        proof {
            reveal_strlit("ORIGIN");
            reveal_strlit("DESTINATION");
            assert("ORIGIN"@.len() == 6);
            assert("DESTINATION"@.len() == 11);
        }
        if *code == String::from_str("ORIGIN") {
            Role::Origin
        } else if *code == String::from_str("DESTINATION") {
            Role::Destination
        } else {
            Role::Call
        }
    }
}

impl LivePosition {
    /// The position named by an upstream code, if the code is a known one.
    pub fn from_code(code: &String) -> (r: Option<LivePosition>)
        ensures
            r == Some(LivePosition::ApproachingStation) <==> code@ == "APPR_STAT"@,
            r == Some(LivePosition::ApproachingPlatform) <==> code@ == "APPR_PLAT"@,
            r == Some(LivePosition::AtPlatform) <==> code@ == "AT_PLAT"@,
            r == Some(LivePosition::PreparingToDepart) <==> code@ == "DEP_PREP"@,
            r == Some(LivePosition::ReadyToDepart) <==> code@ == "DEP_READY"@,
    {
        proof {
            reveal_strlit("APPR_STAT");
            reveal_strlit("APPR_PLAT");
            reveal_strlit("AT_PLAT");
            reveal_strlit("DEP_PREP");
            reveal_strlit("DEP_READY");
            assert("APPR_STAT"@.len() == 9);
            assert("APPR_PLAT"@.len() == 9);
            assert("AT_PLAT"@.len() == 7);
            assert("DEP_PREP"@.len() == 8);
            assert("DEP_READY"@.len() == 9);
            assert("APPR_STAT"@[5] != "APPR_PLAT"@[5]);
            assert("APPR_STAT"@[0] != "DEP_READY"@[0]);
            assert("APPR_PLAT"@[0] != "DEP_READY"@[0]);
        }
        if *code == String::from_str("APPR_STAT") {
            Some(LivePosition::ApproachingStation)
        } else if *code == String::from_str("APPR_PLAT") {
            Some(LivePosition::ApproachingPlatform)
        } else if *code == String::from_str("AT_PLAT") {
            Some(LivePosition::AtPlatform)
        } else if *code == String::from_str("DEP_PREP") {
            Some(LivePosition::PreparingToDepart)
        } else if *code == String::from_str("DEP_READY") {
            Some(LivePosition::ReadyToDepart)
        } else {
            None
        }
    }
}

} // verus!

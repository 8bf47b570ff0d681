use vstd::prelude::*;
use crate::service::ServiceCandidate;
use crate::station::StationRef;

verus! {

/// Why no service could be picked.
#[derive(Clone, Copy, PartialEq, Eq, Structural, Debug)]
pub enum MatchError {
    /// The requested departure is not a four-digit 24-hour time `HHMM`.
    InvalidDepartureTime,
    /// No service to the destination has a usable booked departure.
    NoMatch,
}

pub open spec fn is_digit(c: char) -> bool {
    48 <= (c as u32) <= 57
}

pub open spec fn digit_value(c: char) -> int {
    (c as u32) as int - 48
}

/// Minutes after midnight of a time written `HHMM` (hours below 24, minutes
/// below 60), or `None` for any other text.
pub open spec fn spec_parse_hhmm(s: Seq<char>) -> Option<int> {
    if s.len() == 4 && (forall|i: int| 0 <= i < 4 ==> is_digit(#[trigger] s[i])) {
        let hours = digit_value(s[0]) * 10 + digit_value(s[1]);
        let minutes = digit_value(s[2]) * 10 + digit_value(s[3]);
        if hours < 24 && minutes < 60 {
            Some(hours * 60 + minutes)
        } else {
            None
        }
    } else {
        None
    }
}

/// Reads a time written `HHMM` as minutes after midnight.
pub fn parse_hhmm(s: &str) -> (r: Option<u32>)
    ensures
        match spec_parse_hhmm(s@) {
            Some(m) => r == Some(m as u32) && m < 1440,
            None => r.is_none(),
        },
{
    if s.unicode_len() != 4 {
        return None;
    }
    let c0 = s.get_char(0);
    let c1 = s.get_char(1);
    let c2 = s.get_char(2);
    let c3 = s.get_char(3);
    let (d0, d1, d2, d3) = (c0 as u32, c1 as u32, c2 as u32, c3 as u32);
    if d0 < 48 || d0 > 57 || d1 < 48 || d1 > 57 || d2 < 48 || d2 > 57 || d3 < 48 || d3 > 57 {
        proof {
            assert(!is_digit(s@[0]) || !is_digit(s@[1]) || !is_digit(s@[2]) || !is_digit(s@[3]));
        }
        return None;
    }
    proof {
        assert forall|i: int| 0 <= i < 4 implies is_digit(#[trigger] s@[i]) by {
            if i == 0 {} else if i == 1 {} else if i == 2 {} else {}
        }
    }
    let hours = (d0 - 48) * 10 + (d1 - 48);
    let minutes = (d2 - 48) * 10 + (d3 - 48);
    if hours < 24 && minutes < 60 {
        Some(hours * 60 + minutes)
    } else {
        None
    }
}

/// The first listed destination of the candidate is one of the station's codes.
pub open spec fn destination_matches(c: ServiceCandidate, destination: StationRef) -> bool {
    c.location_detail.destination@.len() > 0
        && destination.spec_contains(c.location_detail.destination@[0].tiploc@)
}

/// The candidate's booked departure in minutes after midnight, if it has a
/// readable one.
pub open spec fn booked_minutes(c: ServiceCandidate) -> Option<int> {
    match c.location_detail.booked_departure {
        Some(t) => spec_parse_hhmm(t@),
        None => None,
    }
}

/// The candidate runs to the destination and has a readable booked departure.
pub open spec fn eligible(c: ServiceCandidate, destination: StationRef) -> bool {
    destination_matches(c, destination) && booked_minutes(c).is_some()
}

pub open spec fn abs_diff(a: int, b: int) -> int {
    if a >= b { a - b } else { b - a }
}

/// Distance in minutes between the requested and the booked departure.
pub open spec fn closeness(requested: int, c: ServiceCandidate) -> int {
    abs_diff(requested, booked_minutes(c).unwrap())
}

/// Index `i` holds the eligible candidate closest to the requested time, and
/// every eligible candidate before it is strictly further away.
pub open spec fn is_best_match(
    candidates: Seq<ServiceCandidate>,
    destination: StationRef,
    requested: int,
    i: int,
) -> bool {
    &&& 0 <= i < candidates.len()
    &&& eligible(candidates[i], destination)
    &&& forall|j: int|
        0 <= j < candidates.len() && eligible(#[trigger] candidates[j], destination)
            ==> closeness(requested, candidates[i]) <= closeness(requested, candidates[j])
    &&& forall|j: int|
        0 <= j < i && eligible(#[trigger] candidates[j], destination)
            ==> closeness(requested, candidates[i]) < closeness(requested, candidates[j])
}

pub open spec fn has_eligible(candidates: Seq<ServiceCandidate>, destination: StationRef) -> bool {
    exists|j: int| 0 <= j < candidates.len() && eligible(#[trigger] candidates[j], destination)
}

/// Reads the candidate's booked departure in minutes.
fn candidate_minutes(c: &ServiceCandidate) -> (r: Option<u32>)
    ensures
        match booked_minutes(*c) {
            Some(m) => r == Some(m as u32) && m < 1440,
            None => r.is_none(),
        },
{
    match &c.location_detail.booked_departure {
        Some(t) => parse_hhmm(t.as_str()),
        None => None,
    }
}

fn runs_to(c: &ServiceCandidate, destination: &StationRef) -> (r: bool)
    ensures
        r == destination_matches(*c, *destination),
{
    if c.location_detail.destination.len() == 0 {
        false
    } else {
        destination.contains(&c.location_detail.destination[0].tiploc)
    }
}

/// The position of the candidate that best matches the requested departure
/// (given in minutes after midnight): the eligible one closest in time, the
/// first listed among equally close ones.
pub fn best_match_index(
    candidates: &Vec<ServiceCandidate>,
    destination: &StationRef,
    requested: u32,
) -> (r: Option<usize>)
    requires
        requested < 1440,
    ensures
        match r {
            Some(i) => is_best_match(candidates@, *destination, requested as int, i as int),
            None => !has_eligible(candidates@, *destination),
        },
{
    let mut best: Option<usize> = None;
    let mut best_closeness: u32 = 0;
    let mut i: usize = 0;
    while i < candidates.len()
        invariant
            i <= candidates@.len(),
            requested < 1440,
            match best {
                Some(b) => {
                    &&& b < i
                    &&& eligible(candidates@[b as int], *destination)
                    &&& best_closeness == closeness(requested as int, candidates@[b as int])
                    &&& forall|j: int|
                        0 <= j < i && eligible(#[trigger] candidates@[j], *destination)
                            ==> best_closeness <= closeness(requested as int, candidates@[j])
                    &&& forall|j: int|
                        0 <= j < b && eligible(#[trigger] candidates@[j], *destination)
                            ==> best_closeness < closeness(requested as int, candidates@[j])
                },
                None => forall|j: int|
                    0 <= j < i ==> !eligible(#[trigger] candidates@[j], *destination),
            },
        decreases candidates@.len() - i,
    {
        let c = &candidates[i];
        if runs_to(c, destination) {
            match candidate_minutes(c) {
                Some(m) => {
                    let d = if requested >= m { requested - m } else { m - requested };
                    let better = match best {
                        Some(_) => d < best_closeness,
                        None => true,
                    };
                    if better {
                        best = Some(i);
                        best_closeness = d;
                    }
                },
                None => {},
            }
        }
        i = i + 1;
    }
    best
}

/// Picks, among `candidates`, the service that runs to `destination` and
/// departs closest to `requested_departure` (`HHMM`); among equally close
/// ones the first listed wins. Candidates without a readable booked departure
/// are never picked.
pub fn match_service(
    candidates: Vec<ServiceCandidate>,
    destination: &StationRef,
    requested_departure: &str,
) -> (r: Result<ServiceCandidate, MatchError>)
    ensures
        spec_parse_hhmm(requested_departure@) is None ==> r == Err::<ServiceCandidate, MatchError>(
            MatchError::InvalidDepartureTime,
        ),
        spec_parse_hhmm(requested_departure@) is Some ==> {
            let req = spec_parse_hhmm(requested_departure@).unwrap();
            &&& r is Err <==> !has_eligible(candidates@, *destination)
            &&& r is Err ==> r == Err::<ServiceCandidate, MatchError>(MatchError::NoMatch)
            &&& r is Ok ==> exists|i: int|
                is_best_match(candidates@, *destination, req, i) && r == Ok::<
                    ServiceCandidate,
                    MatchError,
                >(#[trigger] candidates@[i])
        },
{
    let requested = match parse_hhmm(requested_departure) {
        Some(m) => m,
        None => {
            return Err(MatchError::InvalidDepartureTime);
        },
    };
    match best_match_index(&candidates, destination, requested) {
        Some(i) => {
            let ghost before = candidates@;
            let mut candidates = candidates;
            let chosen = candidates.remove(i);
            assert(is_best_match(before, *destination, requested as int, i as int));
            Ok(chosen)
        },
        None => Err(MatchError::NoMatch),
    }
}

/// Only one position can be the best match: the choice is determined by the
/// candidates, the destination and the requested time.
pub proof fn lemma_best_match_unique(
    candidates: Seq<ServiceCandidate>,
    destination: StationRef,
    requested: int,
    i: int,
    j: int,
)
    requires
        is_best_match(candidates, destination, requested, i),
        is_best_match(candidates, destination, requested, j),
    ensures
        i == j,
{
    if i < j {
        assert(eligible(candidates[i], destination));
    } else if j < i {
        assert(eligible(candidates[j], destination));
    }
}

} // verus!

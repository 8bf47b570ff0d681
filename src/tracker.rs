use vstd::prelude::*;
use crate::matcher::{has_eligible, is_best_match, match_service, spec_parse_hhmm, MatchError};
use crate::service::{ServiceCandidate, ServiceSnapshot};
use crate::station::StationRef;

verus! {

/// Whether live data of the tracked service is held yet.
pub enum TrackerState {
    /// No snapshot has been fetched.
    Uninitialized,
    /// The latest snapshot, and when (in milliseconds of a steady clock) its
    /// refresh was last started.
    Tracking { snapshot: ServiceSnapshot, last_fetch_ms: u64 },
}

/// Why a step of tracking could not be taken.
#[derive(Clone, Copy, PartialEq, Eq, Structural, Debug)]
pub enum AppError {
    /// A service was searched for before the destination was resolved.
    DestinationNotLoaded,
    /// Live data arrived before a service was matched.
    NoServiceMatched,
    /// No service could be matched.
    Match(MatchError),
}

/// The state of one tracking session: the resolved destination, the matched
/// service, its live data and the display flags.
pub struct App {
    pub destination: Option<StationRef>,
    pub location_service: Option<ServiceCandidate>,
    pub tracker: TrackerState,
    pub show_intermediary: bool,
    pub should_quit: bool,
    pub refresh_interval_ms: u64,
}

/// A refresh is due once `interval` has passed since the last one started.
pub open spec fn refresh_due(tracker: TrackerState, interval: u64, now: u64) -> bool {
    match tracker {
        TrackerState::Tracking { last_fetch_ms, .. } => now >= last_fetch_ms && now - last_fetch_ms
            >= interval,
        TrackerState::Uninitialized => false,
    }
}

/// The tracker with its last refresh moved to `now`.
pub open spec fn stamped(tracker: TrackerState, now: u64) -> TrackerState {
    match tracker {
        TrackerState::Tracking { snapshot, .. } => TrackerState::Tracking {
            snapshot,
            last_fetch_ms: now,
        },
        TrackerState::Uninitialized => TrackerState::Uninitialized,
    }
}

pub open spec fn last_fetch(tracker: TrackerState) -> Option<u64> {
    match tracker {
        TrackerState::Tracking { last_fetch_ms, .. } => Some(last_fetch_ms),
        TrackerState::Uninitialized => None,
    }
}

impl App {
    /// A session that refreshes live data every `refresh_interval_ms`
    /// milliseconds, with nothing resolved yet.
    pub fn new(refresh_interval_ms: u64) -> (r: App)
        ensures
            r.destination is None,
            r.location_service is None,
            r.tracker is Uninitialized,
            !r.show_intermediary,
            !r.should_quit,
            r.refresh_interval_ms == refresh_interval_ms,
    {
        App {
            destination: None,
            location_service: None,
            tracker: TrackerState::Uninitialized,
            show_intermediary: false,
            should_quit: false,
            refresh_interval_ms,
        }
    }

    /// `q` asks to quit, `i` shows or hides intermediate stops; any other key
    /// is ignored.
    pub fn on_key(&mut self, c: char)
        ensures
            c == 'q' ==> *final(self) == (App { should_quit: true, ..*old(self) }),
            c == 'i' ==> *final(self) == (App {
                show_intermediary: !old(self).show_intermediary,
                ..*old(self)
            }),
            c != 'q' && c != 'i' ==> *final(self) == *old(self),
    {
        if c == 'i' {
            self.show_intermediary = !self.show_intermediary;
        } else if c == 'q' {
            self.should_quit = true;
        }
    }

    /// Records the resolved destination station.
    pub fn load_destination(&mut self, destination: StationRef)
        ensures
            *final(self) == (App { destination: Some(destination), ..*old(self) }),
    {
        self.destination = Some(destination);
    }

    /// Matches the service to track among the source station's `candidates`
    /// against the loaded destination and the requested departure (`HHMM`).
    /// On any error the session is left as it was.
    pub fn find_service(&mut self, candidates: Vec<ServiceCandidate>, departure_time: &str) -> (r: Result<(), AppError>)
        ensures
            old(self).destination is None ==> r == Err::<(), AppError>(
                AppError::DestinationNotLoaded,
            ),
            old(self).destination is Some && spec_parse_hhmm(departure_time@) is None ==> r == Err::<
                (),
                AppError,
            >(AppError::Match(MatchError::InvalidDepartureTime)),
            old(self).destination is Some && spec_parse_hhmm(departure_time@) is Some ==> {
                let d = old(self).destination->0;
                let req = spec_parse_hhmm(departure_time@)->0;
                &&& r is Err <==> !has_eligible(candidates@, d)
                &&& r is Err ==> r == Err::<(), AppError>(AppError::Match(MatchError::NoMatch))
                &&& r is Ok ==> exists|i: int|
                    is_best_match(candidates@, d, req, i) && *final(self) == (App {
                        location_service: Some(#[trigger] candidates@[i]),
                        ..*old(self)
                    })
            },
            r is Err ==> *final(self) == *old(self),
    {
        let found = match &self.destination {
            Some(d) => match_service(candidates, d, departure_time),
            None => {
                return Err(AppError::DestinationNotLoaded);
            },
        };
        match found {
            Ok(c) => {
                self.location_service = Some(c);
                Ok(())
            },
            Err(e) => Err(AppError::Match(e)),
        }
    }

    /// The identifier of the matched service, whose live data is to be fetched.
    pub fn service_uid(&self) -> (r: Option<&String>)
        ensures
            match self.location_service {
                Some(c) => r == Some(&c.service_uid),
                None => r is None,
            },
    {
        match &self.location_service {
            Some(c) => Some(&c.service_uid),
            None => None,
        }
    }

    /// Takes a freshly fetched snapshot of the matched service, replacing the
    /// previous one whole; `fetched_at_ms` is when its fetch started.
    pub fn refresh_service(&mut self, snapshot: ServiceSnapshot, fetched_at_ms: u64) -> (r: Result<(), AppError>)
        ensures
            old(self).location_service is None ==> r == Err::<(), AppError>(
                AppError::NoServiceMatched,
            ) && *final(self) == *old(self),
            old(self).location_service is Some ==> r is Ok && *final(self) == (App {
                tracker: (TrackerState::Tracking { snapshot, last_fetch_ms: fetched_at_ms }),
                ..*old(self)
            }),
    {
        if self.location_service.is_none() {
            return Err(AppError::NoServiceMatched);
        }
        self.tracker = TrackerState::Tracking { snapshot, last_fetch_ms: fetched_at_ms };
        Ok(())
    }

    /// Called on every tick of the steady clock at `now_ms`: returns whether a
    /// refresh of the live data is to be fetched now, and if so counts it as
    /// started at `now_ms`. A failed fetch keeps the last snapshot; the next
    /// one is due a full interval later.
    pub fn on_tick(&mut self, now_ms: u64) -> (r: bool)
        ensures
            r == refresh_due(old(self).tracker, old(self).refresh_interval_ms, now_ms),
            r ==> *final(self) == (App { tracker: stamped(old(self).tracker, now_ms), ..*old(self) }),
            !r ==> *final(self) == *old(self),
    {
        let due = match &self.tracker {
            TrackerState::Tracking { last_fetch_ms, .. } => now_ms >= *last_fetch_ms && now_ms
                - *last_fetch_ms >= self.refresh_interval_ms,
            TrackerState::Uninitialized => false,
        };
        if due {
            let mut current = TrackerState::Uninitialized;
            std::mem::swap(&mut self.tracker, &mut current);
            self.tracker = match current {
                TrackerState::Tracking { snapshot, .. } => TrackerState::Tracking {
                    snapshot,
                    last_fetch_ms: now_ms,
                },
                TrackerState::Uninitialized => TrackerState::Uninitialized,
            };
        }
        due
    }
}

/// Ticks that come before a full interval has passed since the last refresh
/// started fetch nothing, however many there are: each leaves the state as it
/// was, so the next one sees the same last refresh.
pub proof fn lemma_no_refresh_within_interval(app: App, t1: u64, t2: u64)
    requires
        last_fetch(app.tracker) is Some,
        last_fetch(app.tracker)->0 <= t1 <= t2,
        t2 - last_fetch(app.tracker)->0 < app.refresh_interval_ms,
    ensures
        !refresh_due(app.tracker, app.refresh_interval_ms, t1),
        !refresh_due(app.tracker, app.refresh_interval_ms, t2),
{
}

/// A tick once a full interval has passed fetches exactly once: the refresh is
/// due, the last refresh moves to the tick's time, and with a positive interval
/// a further tick at that time fetches nothing.
pub proof fn lemma_one_refresh_after_interval(app: App, now: u64)
    requires
        last_fetch(app.tracker) is Some,
        last_fetch(app.tracker)->0 <= now,
        now - last_fetch(app.tracker)->0 >= app.refresh_interval_ms,
    ensures
        refresh_due(app.tracker, app.refresh_interval_ms, now),
        last_fetch(stamped(app.tracker, now)) == Some(now),
        app.refresh_interval_ms > 0 ==> !refresh_due(
            stamped(app.tracker, now),
            app.refresh_interval_ms,
            now,
        ),
{
}

} // verus!

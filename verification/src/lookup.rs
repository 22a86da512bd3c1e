//! Finding a station's stream address in the radio directory: a query at
//! once, and again every few seconds after a failed one, up to a limit.
use vstd::prelude::*;
use crate::event::AppEvent;
use crate::stations::ClassicalStations;
use crate::stream_url::{StreamUrl, parsed_url};

verus! {

/// How many queries a lookup makes at most.
pub const LOOKUP_ATTEMPTS: u8 = 12;

/// Seconds to wait before querying again after a failed query.
pub const RETRY_DELAY_SECS: u64 = 5;

/// A lookup queries at most 12 times, 5 seconds apart.
pub proof fn lemma_retry_policy()
    ensures
        LOOKUP_ATTEMPTS == 12,
        RETRY_DELAY_SECS == 5,
{
}

/// A lookup under way: the station and how many queries have failed so far.
#[derive(Debug)]
pub struct UrlLookup {
    station: ClassicalStations,
    failed: u8,
}

/// What comes after the reply to a query.
#[derive(Debug)]
pub enum LookupStep {
    /// Query again, after waiting `RETRY_DELAY_SECS`.
    Retry(UrlLookup),
    /// The lookup is over; post this event.
    Report(AppEvent),
}

impl UrlLookup {
    #[verifier::type_invariant]
    spec fn within_limit(self) -> bool {
        self.failed < LOOKUP_ATTEMPTS
    }

    /// The station looked for.
    pub closed spec fn spec_station(self) -> ClassicalStations {
        self.station
    }

    /// How many queries have failed so far.
    pub closed spec fn spec_failed(self) -> nat {
        self.failed as nat
    }

    /// Starts a lookup; its first query goes out at once.
    pub fn start(station: ClassicalStations) -> (l: UrlLookup)
        ensures
            l.spec_station() == station,
            l.spec_failed() == 0,
    {
        UrlLookup { station, failed: 0 }
    }

    /// The station looked for.
    pub fn station(&self) -> (s: ClassicalStations)
        ensures
            s == self.spec_station(),
    {
        self.station
    }

    /// How many queries have failed so far; always fewer than `LOOKUP_ATTEMPTS`.
    pub fn failed_attempts(&self) -> (n: u8)
        ensures
            n == self.spec_failed(),
            n < LOOKUP_ATTEMPTS,
    {
        proof {
            use_type_invariant(self);
        }
        self.failed
    }

    /// Takes the reply to a query: the address of the first station the
    /// directory found, or `None` where the directory or the query failed or
    /// found nothing. An address that parses ends the lookup with
    /// `NewStationUrl`; otherwise the lookup queries again, unless this was
    /// its last query, and then ends with `StationUrlFailed`.
    pub fn on_reply(self, reply: Option<String>) -> (step: LookupStep)
        ensures
            match reply {
                Some(t) if parsed_url(t@) is Some => step matches LookupStep::Report(AppEvent::NewStationUrl(s, u))
                    && s == self.spec_station() && Some(u@) == parsed_url(t@),
                _ => if self.spec_failed() + 1 < LOOKUP_ATTEMPTS {
                    step matches LookupStep::Retry(l) && l.spec_station() == self.spec_station()
                        && l.spec_failed() == self.spec_failed() + 1
                } else {
                    step matches LookupStep::Report(AppEvent::StationUrlFailed(s)) && s == self.spec_station()
                },
            },
    {
        proof {
            use_type_invariant(&self);
        }
        let found: Option<StreamUrl> = match &reply {
            Some(t) => StreamUrl::parse(t.as_str()),
            None => None,
        };
        match found {
            Some(u) => LookupStep::Report(AppEvent::NewStationUrl(self.station, u)),
            None => {
                let failed: u8 = self.failed + 1;
                if failed < LOOKUP_ATTEMPTS {
                    LookupStep::Retry(UrlLookup { station: self.station, failed })
                } else {
                    LookupStep::Report(AppEvent::StationUrlFailed(self.station))
                }
            },
        }
    }
}

} // verus!

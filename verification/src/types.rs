//! Orbitport's canonical types: the vocabulary every ground-station plugin maps
//! onto, and all the rest of the platform sees.

use vstd::prelude::*;

use crate::formats::{format_rfc3339, utc_representable, utc_rfc3339};

verus! {

/// An instant in UTC: whole seconds since the Unix epoch and the nanoseconds past
/// them (from one billion upwards for a leap second). Only instants that chrono's
/// `DateTime<Utc>` can represent are built.
#[derive(Clone, Copy, Debug, PartialEq, Eq, Structural)]
pub struct Timestamp {
    secs: i64,
    nanos: u32,
}

impl Timestamp {
    #[verifier::type_invariant]
    closed spec fn representable(self) -> bool {
        utc_representable(self.secs, self.nanos)
    }

    /// Seconds since the Unix epoch.
    pub closed spec fn spec_secs(self) -> i64 {
        self.secs
    }

    /// Nanoseconds past `spec_secs`.
    pub closed spec fn spec_nanos(self) -> u32 {
        self.nanos
    }

    /// The instant `secs` seconds and `nanos` nanoseconds after the Unix epoch, or
    /// `None` where chrono cannot represent it.
    pub fn from_unix(secs: i64, nanos: u32) -> (t: Option<Timestamp>)
        ensures
            t is Some <==> utc_representable(secs, nanos),
            t matches Some(t) ==> t.spec_secs() == secs && t.spec_nanos() == nanos,
    {
        let in_range = -8_334_601_228_800 <= secs && secs <= 8_210_266_876_799;
        if !in_range {
            return None;
        }
        // The lower bound is a whole number of minutes, so shifting by it keeps
        // the second within the minute and makes the count non-negative.
        let shifted = (secs + 8_334_601_228_800) as u64;
        assert(shifted % 60 == secs % 60);
        let last_second = shifted % 60 == 59;
        if nanos < 1_000_000_000 || (nanos < 2_000_000_000 && last_second) {
            Some(Timestamp { secs, nanos })
        } else {
            None
        }
    }

    pub fn secs(&self) -> (s: i64)
        ensures
            s == self.spec_secs(),
    {
        self.secs
    }

    pub fn nanos(&self) -> (n: u32)
        ensures
            n == self.spec_nanos(),
    {
        self.nanos
    }

    /// The RFC 3339 text of the instant, as chrono writes it for UTC
    /// (`2026-08-12T14:03:00+00:00`).
    pub fn to_rfc3339(&self) -> (text: String)
        ensures
            text@ == utc_rfc3339(self.spec_secs(), self.spec_nanos()),
    {
        proof {
            use_type_invariant(self);
        }
        format_rfc3339(self.secs, self.nanos)
    }
}

/// What a client asks a provider for: the passes of one satellite over a span
/// of time, optionally at one ground station.
#[derive(Clone, Debug)]
pub struct PassQuery {
    pub satellite_id: String,
    pub ground_station: Option<String>,
    pub from: Timestamp,
    pub to: Timestamp,
}

/// One contact window of a satellite over a ground station.
///
/// `max_elevation_deg` holds the peak elevation in degrees (0 to 90) as the
/// decimal text of the number, which the library carries through unchanged.
#[derive(Clone, Debug, PartialEq, Eq)]
pub struct Pass {
    pub id: String,
    pub satellite_id: String,
    pub ground_station: String,
    /// Acquisition of signal.
    pub aos: Timestamp,
    /// Loss of signal.
    pub los: Timestamp,
    pub max_elevation_deg: String,
}

/// A booked pass.
#[derive(Clone, Debug, PartialEq, Eq)]
pub struct Contact {
    pub id: String,
    pub pass_id: String,
    pub status: ContactStatus,
}

/// Where a booked contact stands.
#[derive(Clone, Copy, Debug, PartialEq, Eq, Structural)]
pub enum ContactStatus {
    Scheduled,
    InProgress,
    Completed,
    Failed,
}

/// The data a completed contact produced.
#[derive(Clone, Debug, PartialEq, Eq)]
pub struct Payload {
    pub contact_id: String,
    pub content_type: String,
    pub data: Vec<u8>,
}

} // verus!

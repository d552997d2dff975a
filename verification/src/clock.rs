//! Points in time, the clock, and the reading of expiry timestamps.

use crate::models::optional_text;
use vstd::prelude::*;

verus! {

/// A point in time: whole seconds since the Unix epoch, and nanoseconds since
/// the last full second. During a leap second the nanoseconds run past one
/// thousand million.
#[derive(Clone, Copy, Debug, PartialEq, Eq, Structural)]
pub struct Instant {
    pub secs: i64,
    pub nanos: u32,
}

impl Instant {
    /// Whether `self` lies strictly before `other`.
    pub open spec fn before(self, other: Instant) -> bool {
        self.secs < other.secs || (self.secs == other.secs && self.nanos < other.nanos)
    }

    /// Whether `self` lies strictly before `other`.
    pub fn is_before(&self, other: &Instant) -> (yes: bool)
        ensures
            yes == self.before(*other),
    {
        self.secs < other.secs || (self.secs == other.secs && self.nanos < other.nanos)
    }
}

/// The instant that an RFC 3339 date-and-time text denotes, as seconds and
/// nanoseconds; nothing if the text is not such a timestamp.
pub uninterp spec fn rfc3339_instant(text: Seq<char>) -> Option<(i64, u32)>;

/// `chrono::DateTime::parse_from_rfc3339`, the result taken apart with
/// `timestamp` and `timestamp_subsec_nanos`. Two such results compare by
/// seconds, then nanoseconds, exactly as the parsed values compare.
#[verifier::external_body]
fn parse_rfc3339(text: &str) -> (instant: Option<(i64, u32)>)
    ensures
        instant == rfc3339_instant(text@),
{
    match chrono::DateTime::parse_from_rfc3339(text) {
        Ok(time) => Some((time.timestamp(), time.timestamp_subsec_nanos())),
        Err(_) => None,
    }
}

/// `chrono::Utc::now`, taken apart with `timestamp` and
/// `timestamp_subsec_nanos`. The reading is built from the system clock's
/// distance to the epoch, whose fraction of a second is below one thousand
/// million nanoseconds; nothing is known of the seconds, which are the time.
/// A system clock set before 1970 makes `now` panic.
#[verifier::external_body]
fn read_clock() -> (now: (i64, u32))
    ensures
        now.1 < 1_000_000_000,
{
    let now = chrono::Utc::now();
    (now.timestamp(), now.timestamp_subsec_nanos())
}

/// The current time. The clock never reports a leap second: the nanoseconds
/// of a reading stay below one thousand million.
pub fn now() -> (instant: Instant)
    ensures
        instant.nanos < 1_000_000_000,
{
    let (secs, nanos) = read_clock();
    Instant { secs, nanos }
}

/// The instant that a timestamp text denotes.
pub open spec fn instant_of(text: Seq<char>) -> Option<Instant> {
    match rfc3339_instant(text) {
        Some((secs, nanos)) => Some(Instant { secs, nanos }),
        None => None,
    }
}

/// Reads an RFC 3339 timestamp.
pub fn parse_instant(text: &str) -> (instant: Option<Instant>)
    ensures
        instant == instant_of(text@),
{
    match parse_rfc3339(text) {
        Some((secs, nanos)) => Some(Instant { secs, nanos }),
        None => None,
    }
}

/// The instant at which a record expires, if it has an expiry and the expiry
/// is a timestamp.
pub open spec fn expiry_of(expires_at: Option<Seq<char>>) -> Option<Instant> {
    match expires_at {
        Some(text) => instant_of(text),
        None => None,
    }
}

/// Reads the expiry of a record.
pub fn read_expiry(expires_at: &Option<String>) -> (expiry: Option<Instant>)
    ensures
        expiry == expiry_of(optional_text(*expires_at)),
{
    match expires_at {
        Some(text) => parse_instant(text.as_str()),
        None => None,
    }
}

/// Whether a record with this expiry is dead at `now`: it has an expiry, the
/// expiry is a timestamp, and that timestamp lies strictly before `now`. An
/// expiry that cannot be read never expires.
pub open spec fn expired(expires_at: Option<Seq<char>>, now: Instant) -> bool {
    match expiry_of(expires_at) {
        Some(expiry) => expiry.before(now),
        None => false,
    }
}

/// Whether a record with this expiry is dead at `now`.
pub fn is_expired(expires_at: &Option<String>, now: Instant) -> (dead: bool)
    ensures
        dead == expired(optional_text(*expires_at), now),
{
    match read_expiry(expires_at) {
        Some(expiry) => expiry.is_before(&now),
        None => false,
    }
}

} // verus!

//! UTC timestamps and the calendar formatting that chrono performs for them.

use vstd::prelude::*;

verus! {

/// Earliest second that chrono can represent (year -262143, January 1st, UTC).
pub const MIN_SECS: i64 = -8334601315200i64;

/// Latest second that chrono can represent (year 262142, December 31st, 23:59:59 UTC).
pub const MAX_SECS: i64 = 8210266876799i64;

/// A point in UTC time: whole seconds since the Unix epoch and the nanoseconds past them.
#[derive(Clone, Copy, Debug, PartialEq, Eq, Structural)]
pub struct Timestamp {
    pub secs: i64,
    pub nanos: u32,
}

impl Timestamp {
    /// The timestamp lies in chrono's range and carries no leap-second nanoseconds.
    pub open spec fn wf(self) -> bool {
        &&& MIN_SECS <= self.secs <= MAX_SECS
        &&& self.nanos < 1_000_000_000
    }

    /// Milliseconds since the epoch, as chrono's `timestamp_millis` counts them.
    pub open spec fn millis(self) -> int {
        self.secs * 1000 + self.nanos / 1_000_000
    }

    /// Ordering of two instants: earlier or equal.
    pub open spec fn le(self, other: Self) -> bool {
        self.secs < other.secs || (self.secs == other.secs && self.nanos <= other.nanos)
    }

    /// Milliseconds since the epoch (`DateTime::timestamp_millis`).
    pub fn timestamp_millis(&self) -> (r: i64)
        requires
            self.wf(),
        ensures
            r == self.millis(),
    {
        self.secs * 1000 + (self.nanos / 1_000_000) as i64
    }

    /// Whether `self` is not later than `other`.
    pub fn is_le(&self, other: &Timestamp) -> (r: bool)
        ensures
            r == self.le(*other),
    {
        self.secs < other.secs || (self.secs == other.secs && self.nanos <= other.nanos)
    }

    /// The UTC hour boundary nearest to this instant: minutes, seconds and nanoseconds set to
    /// zero, moving to the next hour from half past on (exactly half past rounds up). In the
    /// last half hour that chrono can represent the next boundary does not exist, and the
    /// start of the hour is kept.
    pub open spec fn nearest_hour(self) -> Timestamp {
        let start = self.secs - self.secs % 3600;
        if self.secs % 3600 >= 1800 && start + 3600 <= MAX_SECS {
            Timestamp { secs: (start + 3600) as i64, nanos: 0 }
        } else {
            Timestamp { secs: start as i64, nanos: 0 }
        }
    }

    /// Rounds to the nearest UTC hour boundary (see `nearest_hour`).
    pub fn round_to_hour(&self) -> (r: Timestamp)
        requires
            self.wf(),
        ensures
            r.wf(),
            r == self.nearest_hour(),
            r.secs % 3600 == 0,
    {
        let rem = self.secs % 3600;
        let rem = if rem < 0 { rem + 3600 } else { rem };
        assert(rem == self.secs % 3600);
        let start = self.secs - rem;
        if rem >= 1800 && start <= MAX_SECS - 3600 {
            Timestamp { secs: start + 3600, nanos: 0 }
        } else {
            Timestamp { secs: start, nanos: 0 }
        }
    }
}

/// Text of chrono's `to_rfc3339_opts(SecondsFormat::Millis, true)` for an instant.
pub uninterp spec fn rfc3339_millis_text(secs: i64, nanos: u32) -> Seq<char>;

/// Text of chrono's `to_rfc3339_opts(SecondsFormat::Micros, true)` for an instant.
pub uninterp spec fn rfc3339_micros_text(secs: i64, nanos: u32) -> Seq<char>;

/// Text of chrono's `to_rfc3339()` for an instant.
pub uninterp spec fn rfc3339_text(secs: i64, nanos: u32) -> Seq<char>;

/// Text of chrono's `format(pattern)` for an instant in UTC.
pub uninterp spec fn strftime_text(secs: i64, nanos: u32, pattern: Seq<char>) -> Seq<char>;

/// What chrono's `DateTime::parse_from_rfc3339` reads from a text: the instant's seconds since
/// the epoch and its nanoseconds (which exceed 999999999 within a leap second), or `None`.
pub uninterp spec fn rfc3339_parsed(text: Seq<char>) -> Option<(i64, u32)>;

/// The seconds of the UTC years 0 to 9999, the years chrono's RFC 3339 writer prints with four
/// digits.
pub open spec fn four_digit_year(secs: i64) -> bool {
    -62167219200 <= secs <= 253402300799
}

/// Day of the year (1-based) of the UTC date that contains the given second.
pub uninterp spec fn ordinal_day(secs: i64) -> u32;

/// The current UTC time (`chrono::Utc::now`). chrono builds it with `from_timestamp(..).unwrap()`,
/// so it always lies in chrono's range; its value depends on the system clock.
#[verifier::external_body]
pub(crate) fn now() -> (t: Timestamp)
    ensures
        t.wf(),
{
    let n = chrono::Utc::now();
    Timestamp { secs: n.timestamp(), nanos: n.timestamp_subsec_nanos() }
}

/// chrono's `to_rfc3339_opts(SecondsFormat::Millis, true)` of the instant.
#[verifier::external_body]
pub(crate) fn rfc3339_millis(t: &Timestamp) -> (s: String)
    requires
        t.wf(),
    ensures
        s@ == rfc3339_millis_text(t.secs, t.nanos),
{
    chrono::DateTime::from_timestamp(t.secs, t.nanos)
        .unwrap()
        .to_rfc3339_opts(chrono::SecondsFormat::Millis, true)
}

/// chrono's `to_rfc3339_opts(SecondsFormat::Micros, true)` of the instant.
#[verifier::external_body]
pub(crate) fn rfc3339_micros(t: &Timestamp) -> (s: String)
    requires
        t.wf(),
    ensures
        s@ == rfc3339_micros_text(t.secs, t.nanos),
{
    chrono::DateTime::from_timestamp(t.secs, t.nanos)
        .unwrap()
        .to_rfc3339_opts(chrono::SecondsFormat::Micros, true)
}

/// chrono's `to_rfc3339()` of the instant.
#[verifier::external_body]
pub(crate) fn rfc3339(t: &Timestamp) -> (s: String)
    requires
        t.wf(),
    ensures
        s@ == rfc3339_text(t.secs, t.nanos),
{
    chrono::DateTime::from_timestamp(t.secs, t.nanos).unwrap().to_rfc3339()
}

/// The format patterns the library hands to chrono: the date with dashes or with dots, and the
/// hour. chrono turns a pattern it cannot parse into a formatting error, on which `to_string`
/// panics; each of these parses.
pub open spec fn known_pattern(pattern: Seq<char>) -> bool {
    pattern == "%Y-%m-%d"@ || pattern == "%Y.%m.%d"@ || pattern == "%H"@
}

/// chrono's `DateTime::parse_from_rfc3339`, as seconds and nanoseconds since the epoch. For
/// the years 0 to 9999 chrono's `to_rfc3339` writes a four-digit year, the offset `+00:00`
/// and every nonzero nanosecond digit, all of which the parser reads back, so such a text
/// gives the instant it was written from. Texts of other years (written with a sign) are not
/// covered by that clause.
#[verifier::external_body]
pub(crate) fn parse_rfc3339(text: &str) -> (r: Option<(i64, u32)>)
    ensures
        r == rfc3339_parsed(text@),
        forall|secs: i64, nanos: u32|
            four_digit_year(secs) && nanos < 1_000_000_000 && text@ == #[trigger] rfc3339_text(secs, nanos) ==> r == Some(
                (secs, nanos),
            ),
{
    match chrono::DateTime::parse_from_rfc3339(text) {
        Ok(d) => Some((d.timestamp(), d.timestamp_subsec_nanos())),
        Err(_) => None,
    }
}

/// chrono's `format(pattern).to_string()` of the instant in UTC, for one of the known patterns.
#[verifier::external_body]
pub(crate) fn strftime(t: &Timestamp, pattern: &str) -> (s: String)
    requires
        t.wf(),
        known_pattern(pattern@),
    ensures
        s@ == strftime_text(t.secs, t.nanos, pattern@),
{
    chrono::DateTime::from_timestamp(t.secs, t.nanos).unwrap().format(pattern).to_string()
}

/// chrono's `Datelike::ordinal` of the instant: the 1-based day of the year, at most 366.
#[verifier::external_body]
pub(crate) fn ordinal(t: &Timestamp) -> (d: u32)
    requires
        t.wf(),
    ensures
        d == ordinal_day(t.secs),
        1 <= d <= 366,
{
    chrono::Datelike::ordinal(&chrono::DateTime::from_timestamp(t.secs, t.nanos).unwrap())
}

} // verus!

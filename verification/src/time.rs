//! Points in time as the bot stores them (UTC, nanosecond precision), and
//! the calendar arithmetic that the cooldowns need.
use vstd::prelude::*;

verus! {

/// Seconds in one day.
pub const SECS_PER_DAY: i64 = 86400;

/// Nanoseconds in one second.
pub const NANOS_PER_SEC: i128 = 1_000_000_000;

/// Nanoseconds in one day.
pub const NANOS_PER_DAY: i128 = 86_400_000_000_000;

/// Nanoseconds in one hour.
pub const NANOS_PER_HOUR: i128 = 3_600_000_000_000;

/// Nanoseconds in one minute.
pub const NANOS_PER_MINUTE: i128 = 60_000_000_000;

/// First second that a UTC date-time can hold (January 1 of year -262143).
pub const MIN_SECS: i64 = -8334601228800;

/// Last second that a UTC date-time can hold (December 31 of year 262142).
pub const MAX_SECS: i64 = 8210266876799;

/// A UTC instant: whole seconds since the Unix epoch and the nanoseconds
/// past that second.
#[derive(Debug, Clone, Copy, PartialEq, Eq)]
pub struct Moment {
    pub secs: i64,
    pub nanos: u32,
}

impl Moment {
    /// The instant lies in the representable range and is not a leap second.
    pub open spec fn wf(self) -> bool {
        &&& MIN_SECS <= self.secs <= MAX_SECS
        &&& self.nanos < 1_000_000_000
    }

    /// Nanoseconds since the Unix epoch.
    pub open spec fn total(self) -> int {
        self.secs * 1_000_000_000 + self.nanos
    }

    /// Whether the fields describe a representable instant.
    pub fn is_valid(&self) -> (b: bool)
        ensures
            b == self.wf(),
    {
        MIN_SECS <= self.secs && self.secs <= MAX_SECS && self.nanos < 1_000_000_000
    }

    /// Nanoseconds since the Unix epoch.
    pub fn total_nanos(&self) -> (t: i128)
        ensures
            t == self.total(),
    {
        self.secs as i128 * NANOS_PER_SEC + self.nanos as i128
    }

    /// Whether `self` comes strictly after `other`.
    pub fn is_after(&self, other: &Moment) -> (b: bool)
        ensures
            b == (self.total() > other.total()),
    {
        self.total_nanos() > other.total_nanos()
    }

    /// The instant `days` whole days later (earlier when negative).
    pub fn plus_days(&self, days: i64) -> (m: Moment)
        requires
            self.wf(),
            -1_000_000_000 <= days <= 1_000_000_000,
            MIN_SECS <= self.secs + days * SECS_PER_DAY <= MAX_SECS,
        ensures
            m.wf(),
            m.total() == self.total() + days * NANOS_PER_DAY,
            m.nanos == self.nanos,
    {
        Moment { secs: self.secs + days * SECS_PER_DAY, nanos: self.nanos }
    }

    /// Signed span in nanoseconds from `self` to `later`.
    pub fn span_to(&self, later: &Moment) -> (d: i128)
        ensures
            d == later.total() - self.total(),
    {
        later.total_nanos() - self.total_nanos()
    }
}

/// Whole days in a span, rounded towards zero.
pub open spec fn spec_whole_days(span: int) -> int {
    if span >= 0 {
        span / NANOS_PER_DAY as int
    } else {
        -((-span) / NANOS_PER_DAY as int)
    }
}

/// Whole days in a span of nanoseconds, rounded towards zero.
pub fn whole_days(span: i128) -> (d: i64)
    requires
        -NANOS_PER_DAY * 1_000_000_000_000 <= span <= NANOS_PER_DAY * 1_000_000_000_000,
    ensures
        d == spec_whole_days(span as int),
{
    if span >= 0 {
        (span / NANOS_PER_DAY) as i64
    } else {
        let p: i128 = -span;
        let q: i128 = p / NANOS_PER_DAY;
        -(q as i64)
    }
}

/// A non-negative span split into whole hours and the whole minutes left
/// over after those hours.
pub fn hours_and_minutes(span: i128) -> (hm: (i64, i64))
    requires
        0 <= span <= NANOS_PER_DAY * 1_000_000_000_000,
    ensures
        hm.0 == span as int / NANOS_PER_HOUR as int,
        hm.1 == (span as int % NANOS_PER_HOUR as int) / NANOS_PER_MINUTE as int,
        0 <= hm.1 < 60,
{
    let hours: i128 = span / NANOS_PER_HOUR;
    let rest: i128 = span % NANOS_PER_HOUR;
    let minutes: i128 = rest / NANOS_PER_MINUTE;
    (hours as i64, minutes as i64)
}

/// The current instant of the system clock.
///
/// Calls `chrono::Utc::now`, which reads the system clock (and panics
/// before the Unix epoch), and takes its seconds and sub-second
/// nanoseconds. Claimed: the instant is not before the epoch, lies in the
/// representable range and is not a leap second (the clock reports a whole
/// `std::time::Duration`). Nothing is claimed about which instant it is.
#[verifier::external_body]
pub(crate) fn now() -> (m: Moment)
    ensures
        m.wf(),
        m.secs >= 0,
{
    let t = chrono::Utc::now();
    Moment { secs: t.timestamp(), nanos: t.timestamp_subsec_nanos() }
}

} // verus!

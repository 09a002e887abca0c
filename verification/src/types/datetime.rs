//! Points in time, held as nanoseconds since the Unix epoch (UTC).
use vstd::prelude::*;

verus! {

/// The earliest instant the calendar library represents: -9999-01-01T00:00:00Z.
pub open spec fn min_unix_nanos() -> int {
    -377_705_116_800_000_000_000
}

/// The latest instant the calendar library represents: 9999-12-31T23:59:59.999999999Z.
pub open spec fn max_unix_nanos() -> int {
    253_402_300_799_999_999_999
}

/// Whether an instant (in nanoseconds since the epoch) is one the calendar library
/// represents.
pub open spec fn in_calendar_range(nanos: int) -> bool {
    min_unix_nanos() <= nanos <= max_unix_nanos()
}

/// Reads the clock with `time::OffsetDateTime::now_utc` and returns the instant in
/// nanoseconds since the epoch. Claimed: the instant is one the library represents, as
/// every value of its type is. Which instant comes back depends on the clock and is not
/// stated.
#[verifier::external_body]
fn clock_now_unix_nanos() -> (n: i128)
    ensures
        in_calendar_range(n as int),
{
    ::time::OffsetDateTime::now_utc().unix_timestamp_nanos()
}

/// The text that `time::OffsetDateTime` shows, in UTC, for an instant (in nanoseconds
/// since the epoch).
pub uninterp spec fn offset_date_time_text(nanos: int) -> Seq<char>;

/// Builds the instant with `time::OffsetDateTime::from_unix_timestamp_nanos` (which fails
/// only outside the calendar's range) and calls `to_string` on it.
#[verifier::external_body]
fn offset_date_time_display(nanos: i128) -> (s: String)
    requires
        in_calendar_range(nanos as int),
    ensures
        s@ == offset_date_time_text(nanos as int),
{
    ::time::OffsetDateTime::from_unix_timestamp_nanos(nanos).expect("the instant is in range").to_string()
}

/// A point in time, compared by the instant it names.
#[derive(Clone, Copy, Debug, PartialEq, Eq, Structural, PartialOrd, Ord, Hash)]
pub struct DateTime {
    nanos: i128,
}

impl View for DateTime {
    type V = int;

    /// Nanoseconds since 1970-01-01T00:00:00Z.
    closed spec fn view(&self) -> int {
        self.nanos as int
    }
}

/// The date-time of an instant (which must be in the calendar's range).
pub closed spec fn date_time_of(nanos: i128) -> DateTime {
    DateTime { nanos }
}

/// The view of the date-time built from an instant is that instant.
pub broadcast proof fn lemma_date_time_of(nanos: i128)
    ensures
        (#[trigger] date_time_of(nanos))@ == nanos,
{
}

/// Two date-times are equal exactly when they name the same instant.
pub broadcast proof fn lemma_date_time_view_injective(a: DateTime, b: DateTime)
    ensures
        #[trigger] (a@) == #[trigger] (b@) <==> a == b,
{
}

impl DateTime {
    #[verifier::type_invariant]
    spec fn in_range(self) -> bool {
        in_calendar_range(self.nanos as int)
    }

    /// The current instant, read from the system clock.
    pub fn now_utc() -> (t: DateTime)
        ensures
            in_calendar_range(t@),
    {
        DateTime { nanos: clock_now_unix_nanos() }
    }

    /// 1970-01-01T00:00:00Z.
    pub fn unix_epoch() -> (t: DateTime)
        ensures
            t@ == 0,
    {
        DateTime { nanos: 0 }
    }

    /// The instant `nanos` nanoseconds after the epoch; it must be in the calendar's range.
    pub fn from_unix_nanos(nanos: i128) -> (t: DateTime)
        requires
            in_calendar_range(nanos as int),
        ensures
            t@ == nanos,
    {
        DateTime { nanos }
    }

    /// The instant `nanos` nanoseconds after the epoch, if it is in the calendar's range.
    pub fn try_from_unix_nanos(nanos: i128) -> (r: Option<DateTime>)
        ensures
            r is Some <==> in_calendar_range(nanos as int),
            r matches Some(t) ==> t@ == nanos,
    {
        if -377_705_116_800_000_000_000i128 <= nanos && nanos <= 253_402_300_799_999_999_999i128 {
            Some(DateTime { nanos })
        } else {
            None
        }
    }

    /// Nanoseconds since the epoch.
    pub fn unix_nanos(&self) -> (n: i128)
        ensures
            n == self@,
            in_calendar_range(n as int),
    {
        proof {
            use_type_invariant(self);
        }
        self.nanos
    }

    /// The text the calendar library shows for this instant, in UTC.
    pub fn to_text(&self) -> (s: String)
        ensures
            s@ == offset_date_time_text(self@),
    {
        proof {
            use_type_invariant(self);
        }
        offset_date_time_display(self.nanos)
    }

    /// Whether this instant comes strictly before `other`.
    pub fn is_before(&self, other: &DateTime) -> (b: bool)
        ensures
            b == (self@ < other@),
    {
        self.nanos < other.nanos
    }

    /// Whether this instant comes strictly after `other`.
    pub fn is_after(&self, other: &DateTime) -> (b: bool)
        ensures
            b == (self@ > other@),
    {
        self.nanos > other.nanos
    }
}

/// A count of seconds since the epoch.
#[derive(Clone, Copy, Debug, PartialEq, Eq, Structural, PartialOrd, Ord, Hash)]
pub struct Timestamp {
    seconds: i64,
}

impl View for Timestamp {
    type V = i64;

    closed spec fn view(&self) -> i64 {
        self.seconds
    }
}

impl Timestamp {
    pub fn from_i64(seconds: i64) -> (t: Timestamp)
        ensures
            t@ == seconds,
    {
        Timestamp { seconds }
    }

    pub fn value(&self) -> (n: i64)
        ensures
            n == self@,
    {
        self.seconds
    }
}

impl From<i64> for Timestamp {
    fn from(seconds: i64) -> (t: Timestamp) {
        Timestamp { seconds }
    }
}

impl vstd::std_specs::convert::FromSpecImpl<i64> for Timestamp {
    open spec fn obeys_from_spec() -> bool {
        true
    }

    open spec fn from_spec(v: i64) -> Timestamp {
        timestamp_of(v)
    }
}

/// The timestamp with the given number of seconds.
pub closed spec fn timestamp_of(seconds: i64) -> Timestamp {
    Timestamp { seconds }
}

} // verus!

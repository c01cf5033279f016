//! Instants in universal time.
use vstd::prelude::*;

verus! {

/// An instant: whole seconds since the Unix epoch and the nanoseconds beyond them.
#[derive(Clone, Copy, PartialEq, Eq, Structural, Debug)]
pub struct Timestamp {
    pub secs: i64,
    pub nanos: u32,
}

impl Timestamp {
    /// `self` lies before `other`.
    pub open spec fn before(self, other: Timestamp) -> bool {
        self.secs < other.secs || (self.secs == other.secs && self.nanos < other.nanos)
    }

    /// Nanoseconds since the epoch.
    pub open spec fn total_nanos(self) -> int {
        self.secs * 1_000_000_000 + self.nanos
    }

    pub fn is_before(self, other: Timestamp) -> (r: bool)
        ensures
            r == self.before(other),
    {
        self.secs < other.secs || (self.secs == other.secs && self.nanos < other.nanos)
    }
}

/// Whole seconds in a span of nanoseconds, rounded toward zero.
pub open spec fn whole_seconds(nanos: int) -> int {
    if nanos >= 0 {
        nanos / 1_000_000_000
    } else {
        -((-nanos) / 1_000_000_000)
    }
}

/// Whole seconds from `earlier` to `later`, rounded toward zero.
pub fn seconds_between(later: Timestamp, earlier: Timestamp) -> (r: i128)
    ensures
        r == whole_seconds(later.total_nanos() - earlier.total_nanos()),
        -0x4_0000_0000_0000_0000 < r < 0x4_0000_0000_0000_0000,
{
    let span: i128 = ((later.secs as i128) - (earlier.secs as i128)) * 1_000_000_000 + ((later.nanos as i128) - (
    earlier.nanos as i128));
    if span >= 0 {
        span / 1_000_000_000
    } else {
        -((-span) / 1_000_000_000)
    }
}

/// Nanoseconds from `earlier` to `later`.
pub fn nanos_between(later: Timestamp, earlier: Timestamp) -> (r: i128)
    ensures
        r == later.total_nanos() - earlier.total_nanos(),
{
    ((later.secs as i128) - (earlier.secs as i128)) * 1_000_000_000 + ((later.nanos as i128) - (earlier.nanos as i128))
}

/// The time that `chrono::NaiveDateTime::parse_from_str` reads from a text by a
/// format, taken as universal time.
pub uninterp spec fn naive_instant(text: Seq<char>, format: Seq<char>) -> Option<Timestamp>;

/// `chrono::NaiveDateTime::parse_from_str`, with the time taken as universal time
/// by its seconds and its nanoseconds. The result depends on text and format alone.
#[verifier::external_body]
pub(crate) fn parse_naive(text: &str, format: &str) -> (r: Option<Timestamp>)
    ensures
        r == naive_instant(text@, format@),
{
    match chrono::NaiveDateTime::parse_from_str(text, format) {
        Ok(naive) => {
            let t = naive.and_utc();
            Some(Timestamp { secs: t.timestamp(), nanos: t.timestamp_subsec_nanos() })
        },
        Err(_) => None,
    }
}

/// What `chrono::DateTime::parse_from_rfc3339` reads from a text: the instant, or
/// the text of its error.
pub uninterp spec fn rfc3339_instant(text: Seq<char>) -> Result<Timestamp, Seq<char>>;

/// What the outcome of reading a time says.
pub open spec fn instant_view(r: Result<Timestamp, String>) -> Result<Timestamp, Seq<char>> {
    match r {
        Ok(t) => Ok(t),
        Err(error) => Err(error@),
    }
}

/// `chrono::DateTime::parse_from_rfc3339`, with the instant taken by its seconds
/// and its nanoseconds. The result depends on the text alone.
#[verifier::external_body]
pub(crate) fn parse_rfc3339(text: &str) -> (r: Result<Timestamp, String>)
    ensures
        instant_view(r) == rfc3339_instant(text@),
{
    match chrono::DateTime::parse_from_rfc3339(text) {
        Ok(t) => Ok(Timestamp { secs: t.timestamp(), nanos: t.timestamp_subsec_nanos() }),
        Err(error) => Err(error.to_string()),
    }
}

/// First second that chrono's calendar can represent.
pub const MIN_SECONDS: i64 = -8_334_601_228_800;

/// Last second that chrono's calendar can represent.
pub const MAX_SECONDS: i64 = 8_210_266_876_799;

/// The instant of a Unix time, where the calendar reaches it.
pub open spec fn unix_instant(secs: i64) -> Option<Timestamp> {
    if MIN_SECONDS <= secs <= MAX_SECONDS {
        Some(Timestamp { secs, nanos: 0 })
    } else {
        None
    }
}

/// `chrono::DateTime::from_timestamp` with no nanoseconds: the instant, unless it
/// lies outside of chrono's calendar.
#[verifier::external_body]
pub(crate) fn from_unix(secs: i64) -> (r: Option<Timestamp>)
    ensures
        r == unix_instant(secs),
{
    chrono::DateTime::from_timestamp(secs, 0).map(
        |t| Timestamp { secs: t.timestamp(), nanos: t.timestamp_subsec_nanos() },
    )
}

/// The date of a Unix time, written by `chrono::DateTime::format` as year, month and
/// day with hyphens between them.
pub uninterp spec fn date_text(secs: i64) -> Seq<char>;

/// `chrono::DateTime::from_timestamp`, then `DateTime::format` with `%Y-%m-%d`. There
/// is no date outside of chrono's calendar; else it depends on the time alone.
#[verifier::external_body]
pub(crate) fn date_of(secs: i64) -> (r: Option<String>)
    ensures
        r is Some <==> unix_instant(secs) is Some,
        r is Some ==> r->0@ == date_text(secs),
{
    chrono::DateTime::from_timestamp(secs, 0).map(|t| t.format("%Y-%m-%d").to_string())
}

/// An instant lies before another where fewer nanoseconds have passed.
pub proof fn law_earlier_means_fewer_nanoseconds(a: Timestamp, b: Timestamp)
    requires
        a.nanos < 1_000_000_000 && b.nanos < 1_000_000_000,
    ensures
        a.before(b) <==> a.total_nanos() < b.total_nanos(),
        a == b <==> a.total_nanos() == b.total_nanos(),
{
}

/// A Unix time is the instant that many seconds after the epoch.
pub proof fn law_unix_times_count_seconds(secs: i64)
    requires
        unix_instant(secs) is Some,
    ensures
        unix_instant(secs)->0.total_nanos() == secs * 1_000_000_000,
{
}

/// Whole seconds are counted toward zero: a part of a second counts as none.
pub proof fn law_parts_of_seconds_do_not_count(seconds: nat, rest: nat)
    requires
        rest < 1_000_000_000,
    ensures
        whole_seconds((seconds * 1_000_000_000 + rest) as int) == seconds,
        whole_seconds(-((seconds * 1_000_000_000 + rest) as int)) == -(seconds as int),
{
}

/// The calendar reaches from the year 262144 before the common era to the year 262142 after its
/// start, both ends included.
pub proof fn law_the_calendar_has_two_ends(secs: i64)
    ensures
        unix_instant(secs) is Some <==> -8_334_601_228_800 <= secs <= 8_210_266_876_799,
{
}

} // verus!

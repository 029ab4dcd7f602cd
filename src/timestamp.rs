//! Points in time, with the offset from UTC in which they were observed.
use chrono::Datelike;
use vstd::prelude::*;

verus! {

#[verifier::external_type_specification]
#[verifier::external_body]
pub struct ExChronoParseError(chrono::ParseError);

/// Whether `chrono` can hold the instant `seconds` + `nanoseconds` after the Unix epoch.
pub uninterp spec fn chrono_accepts(seconds: i64, nanoseconds: u32) -> bool;

/// What `chrono` reads from an RFC 3339 text: seconds, nanoseconds and offset.
pub uninterp spec fn rfc3339_parsed(s: Seq<char>) -> Option<(i64, u32, i32)>;

/// The RFC 3339 text that `chrono` writes for an instant in an offset.
pub uninterp spec fn rfc3339_text(seconds: i64, nanoseconds: u32, offset: i32) -> Seq<char>;

/// The calendar date (year, month, day) of an instant in an offset, as `chrono` computes it.
pub uninterp spec fn calendar_date(seconds: i64, nanoseconds: u32, offset: i32) -> (i32, u32, u32);

/// The day of the week of an instant in an offset, counted from Monday as 0: the Unix epoch
/// fell on a Thursday.
pub open spec fn day_of_week(seconds: i64, offset: i32) -> int {
    ((seconds + offset) / 86_400 + 3) % 7
}

/// Whether an offset from UTC, in seconds, is one that `chrono` accepts.
pub open spec fn offset_ok(offset: i32) -> bool {
    -86_400 < offset < 86_400
}

/// Relies on `chrono::Utc::now`: the current time, which `chrono` holds.
#[verifier::external_body]
fn current_time() -> (r: (i64, u32))
    ensures
        chrono_accepts(r.0, r.1),
{
    let now = chrono::Utc::now();
    (now.timestamp(), now.timestamp_subsec_nanos())
}

/// Relies on `chrono::DateTime::from_timestamp`, which answers `None` for an instant it cannot
/// hold.
#[verifier::external_body]
fn accepts(seconds: i64, nanoseconds: u32) -> (r: bool)
    ensures
        r == chrono_accepts(seconds, nanoseconds),
{
    chrono::DateTime::from_timestamp(seconds, nanoseconds).is_some()
}

/// Relies on `chrono::DateTime::parse_from_rfc3339`; what it returns is a `DateTime`, which
/// `chrono` holds, in a valid offset.
#[verifier::external_body]
fn parse_rfc3339(s: &str) -> (r: Result<(i64, u32, i32), chrono::ParseError>)
    ensures
        r is Ok <==> rfc3339_parsed(s@) is Some,
        r matches Ok(p) ==> rfc3339_parsed(s@) == Some(p),
        r matches Ok(p) ==> chrono_accepts(p.0, p.1) && offset_ok(p.2),
{
    chrono::DateTime::parse_from_rfc3339(s).map(
        |t| (t.timestamp(), t.timestamp_subsec_nanos(), t.offset().local_minus_utc()),
    )
}

/// Relies on `chrono::DateTime::to_rfc3339`.
#[verifier::external_body]
fn format_rfc3339(seconds: i64, nanoseconds: u32, offset: i32) -> (r: String)
    requires
        chrono_accepts(seconds, nanoseconds),
        offset_ok(offset),
    ensures
        r@ == rfc3339_text(seconds, nanoseconds, offset),
{
    let zone = chrono::FixedOffset::east_opt(offset).unwrap();
    chrono::DateTime::from_timestamp(seconds, nanoseconds).unwrap().with_timezone(&zone).to_rfc3339()
}

/// Relies on `chrono`'s `Datelike::year`, `month` and `day`; a month lies in 1 to 12 and a
/// day in 1 to 31.
#[verifier::external_body]
fn local_date(seconds: i64, nanoseconds: u32, offset: i32) -> (r: (i32, u32, u32))
    requires
        chrono_accepts(seconds, nanoseconds),
        offset_ok(offset),
    ensures
        r == calendar_date(seconds, nanoseconds, offset),
        1 <= r.1 <= 12,
        1 <= r.2 <= 31,
{
    let zone = chrono::FixedOffset::east_opt(offset).unwrap();
    let t = chrono::DateTime::from_timestamp(seconds, nanoseconds).unwrap().with_timezone(&zone);
    (t.year(), t.month(), t.day())
}

/// Relies on `chrono`'s `Datelike::weekday` and `Weekday::num_days_from_monday`: the weekday
/// of the local date, which counts whole days from the epoch in the offset.
#[verifier::external_body]
fn local_weekday(seconds: i64, nanoseconds: u32, offset: i32) -> (r: u8)
    requires
        chrono_accepts(seconds, nanoseconds),
        offset_ok(offset),
    ensures
        r == day_of_week(seconds, offset),
{
    let zone = chrono::FixedOffset::east_opt(offset).unwrap();
    let t = chrono::DateTime::from_timestamp(seconds, nanoseconds).unwrap().with_timezone(&zone);
    t.weekday().num_days_from_monday() as u8
}

/// An instant: seconds and nanoseconds since the Unix epoch, observed at an offset from UTC in
/// seconds.
#[derive(Clone, Copy, Debug, PartialEq, Eq, Structural)]
pub struct Timestamp {
    pub seconds: i64,
    pub nanoseconds: u32,
    pub offset: i32,
}

/// A text that is no RFC 3339 timestamp.
#[derive(Debug)]
pub struct TimestampParseError(pub chrono::ParseError);

impl Timestamp {
    /// Whether this is an instant that the calendar functions can work on.
    pub open spec fn wf(&self) -> bool {
        chrono_accepts(self.seconds, self.nanoseconds) && offset_ok(self.offset)
    }

    /// The current time, in UTC.
    pub fn now() -> (r: Timestamp)
        ensures
            r.wf(),
            r.offset == 0,
    {
        let (seconds, nanoseconds) = current_time();
        Timestamp { seconds, nanoseconds, offset: 0 }
    }

    /// An instant from its parts, where the calendar can hold it.
    pub fn from_parts(seconds: i64, nanoseconds: u32, offset: i32) -> (r: Option<Timestamp>)
        ensures
            r is Some <==> chrono_accepts(seconds, nanoseconds) && offset_ok(offset),
            r matches Some(t) ==> t.seconds == seconds && t.nanoseconds == nanoseconds
                && t.offset == offset,
    {
        if -86_400 < offset && offset < 86_400 && accepts(seconds, nanoseconds) {
            Some(Timestamp { seconds, nanoseconds, offset })
        } else {
            None
        }
    }

    /// Reads an RFC 3339 timestamp.
    pub fn parse(source: &str) -> (r: Result<Timestamp, TimestampParseError>)
        ensures
            r is Ok <==> rfc3339_parsed(source@) is Some,
            r matches Ok(t) ==> t.wf() && rfc3339_parsed(source@) == Some(
                (t.seconds, t.nanoseconds, t.offset),
            ),
    {
        match parse_rfc3339(source) {
            Ok((seconds, nanoseconds, offset)) => Ok(Timestamp { seconds, nanoseconds, offset }),
            Err(e) => Err(TimestampParseError(e)),
        }
    }

    /// The RFC 3339 text of this instant.
    pub fn to_string(&self) -> (r: String)
        requires
            self.wf(),
        ensures
            r@ == rfc3339_text(self.seconds, self.nanoseconds, self.offset),
    {
        format_rfc3339(self.seconds, self.nanoseconds, self.offset)
    }

    /// The calendar date of this instant at its offset: year, month and day.
    pub fn date(&self) -> (r: (i32, u32, u32))
        requires
            self.wf(),
        ensures
            r == calendar_date(self.seconds, self.nanoseconds, self.offset),
            1 <= r.1 <= 12,
            1 <= r.2 <= 31,
    {
        local_date(self.seconds, self.nanoseconds, self.offset)
    }

    /// The day of the week of this instant at its offset, counted from Monday as 0.
    pub fn weekday(&self) -> (r: u8)
        requires
            self.wf(),
        ensures
            r == day_of_week(self.seconds, self.offset),
            r < 7,
    {
        local_weekday(self.seconds, self.nanoseconds, self.offset)
    }

    /// Milliseconds since the Unix epoch, rounded down.
    pub fn millis(&self) -> (r: i128)
        ensures
            r == self.seconds * 1000 + self.nanoseconds / 1_000_000,
    {
        self.seconds as i128 * 1000 + (self.nanoseconds / 1_000_000) as i128
    }
}

impl std::str::FromStr for Timestamp {
    type Err = TimestampParseError;

    fn from_str(source: &str) -> Result<Timestamp, TimestampParseError> {
        Timestamp::parse(source)
    }
}

} // verus!

//! The weekly schedule of an allowance: the day of the week on which it is paid.
use vstd::prelude::*;

verus! {

/// A day of the week.
#[derive(Clone, Copy, Debug, PartialEq, Eq, Structural)]
pub enum Weekday {
    Mon,
    Tue,
    Wed,
    Thu,
    Fri,
    Sat,
    Sun,
}

/// The number of a day, counted from Monday as 0.
pub open spec fn weekday_number(d: Weekday) -> nat {
    match d {
        Weekday::Mon => 0,
        Weekday::Tue => 1,
        Weekday::Wed => 2,
        Weekday::Thu => 3,
        Weekday::Fri => 4,
        Weekday::Sat => 5,
        Weekday::Sun => 6,
    }
}

/// The three-letter name of a day.
pub open spec fn weekday_abbreviation(n: nat) -> Seq<char> {
    if n == 0 {
        "Mon"@
    } else if n == 1 {
        "Tue"@
    } else if n == 2 {
        "Wed"@
    } else if n == 3 {
        "Thu"@
    } else if n == 4 {
        "Fri"@
    } else if n == 5 {
        "Sat"@
    } else {
        "Sun"@
    }
}

/// The lower-case English name of a day.
pub open spec fn weekday_full_name(n: nat) -> Seq<char> {
    if n == 0 {
        "monday"@
    } else if n == 1 {
        "tuesday"@
    } else if n == 2 {
        "wednesday"@
    } else if n == 3 {
        "thursday"@
    } else if n == 4 {
        "friday"@
    } else if n == 5 {
        "saturday"@
    } else {
        "sunday"@
    }
}

/// Whether `s` spells the lower-case `word`, with any of its letters in upper case.
pub open spec fn spells(s: Seq<char>, word: Seq<char>) -> bool {
    s.len() == word.len() && forall|i: int|
        0 <= i < s.len() ==> #[trigger] s[i] == word[i] || s[i] as u32 + 32 == word[i] as u32
}

/// Whether `s` names day `n`: its English name or the three first letters of it, in any case.
pub open spec fn names_day(s: Seq<char>, n: nat) -> bool {
    spells(s, weekday_full_name(n)) || spells(s, weekday_full_name(n).subrange(0, 3))
}

/// The day of the week that a text names, counted from Monday as 0.
pub open spec fn weekday_parsed(s: Seq<char>) -> Option<u8> {
    if names_day(s, 0) {
        Some(0)
    } else if names_day(s, 1) {
        Some(1)
    } else if names_day(s, 2) {
        Some(2)
    } else if names_day(s, 3) {
        Some(3)
    } else if names_day(s, 4) {
        Some(4)
    } else if names_day(s, 5) {
        Some(5)
    } else if names_day(s, 6) {
        Some(6)
    } else {
        None
    }
}

/// Relies on `chrono::Weekday`'s `FromStr`: it reads the three first letters of an English day
/// name, ASCII letters in any case, then the rest of the name if it follows in any case, and
/// accepts only when nothing is left; and on `Weekday::num_days_from_monday`.
#[verifier::external_body]
fn parse_weekday(s: &str) -> (r: Option<u8>)
    ensures
        r == weekday_parsed(s@),
{
    s.parse::<chrono::Weekday>().ok().map(|d| d.num_days_from_monday() as u8)
}

impl Weekday {
    /// The day with a number, counted from Monday as 0.
    pub fn from_number(n: u8) -> (r: Weekday)
        requires
            n < 7,
        ensures
            weekday_number(r) == n,
    {
        match n {
            0 => Weekday::Mon,
            1 => Weekday::Tue,
            2 => Weekday::Wed,
            3 => Weekday::Thu,
            4 => Weekday::Fri,
            5 => Weekday::Sat,
            _ => Weekday::Sun,
        }
    }
}

/// A schedule: the day of the week on which an allowance is paid.
#[derive(Clone, Copy, Debug, PartialEq, Eq, Structural)]
pub struct Schedule(pub Weekday);

/// A text that names no day of the week.
#[derive(Debug)]
pub struct ScheduleParseError(pub String);

impl PartialEq for ScheduleParseError {
    fn eq(&self, other: &ScheduleParseError) -> (r: bool) {
        self.0 == other.0
    }
}

impl vstd::std_specs::cmp::PartialEqSpecImpl for ScheduleParseError {
    open spec fn obeys_eq_spec() -> bool {
        true
    }

    open spec fn eq_spec(&self, other: &ScheduleParseError) -> bool {
        self.0@ == other.0@
    }
}

impl Schedule {
    /// Reads a day of the week, by its English name or its three first letters.
    pub fn parse(source: &str) -> (r: Result<Schedule, ScheduleParseError>)
        ensures
            r is Ok <==> weekday_parsed(source@) is Some,
            r matches Ok(s) ==> weekday_parsed(source@) == Some(weekday_number(s.0) as u8),
            r matches Err(e) ==> e.0@ == source@,
    {
        match parse_weekday(source) {
            Some(n) => Ok(Schedule(Weekday::from_number(n))),
            None => Err(ScheduleParseError(source.to_owned())),
        }
    }

    /// The three-letter name of the day.
    pub fn to_string(&self) -> (r: String)
        ensures
            r@ == weekday_abbreviation(weekday_number(self.0)),
    {
        match self.0 {
            Weekday::Mon => "Mon".to_owned(),
            Weekday::Tue => "Tue".to_owned(),
            Weekday::Wed => "Wed".to_owned(),
            Weekday::Thu => "Thu".to_owned(),
            Weekday::Fri => "Fri".to_owned(),
            Weekday::Sat => "Sat".to_owned(),
            Weekday::Sun => "Sun".to_owned(),
        }
    }
}

impl std::str::FromStr for Schedule {
    type Err = ScheduleParseError;

    fn from_str(source: &str) -> Result<Schedule, ScheduleParseError> {
        Schedule::parse(source)
    }
}

} // verus!

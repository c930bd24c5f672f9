use vstd::prelude::*;
use crate::error::ScheduleError;
use crate::text::{range_matches_ci, seq_matches_ci, trim_spec, trimmed_range};

verus! {

/// Canonical weekday identifier, the key into the remote timetable source.
#[derive(Debug, Clone, Copy, PartialEq, Eq, Structural)]
pub enum Weekday {
    Monday,
    Tuesday,
    Wednesday,
    Thursday,
    Friday,
    Saturday,
    Sunday,
}

impl Weekday {
    /// The remote source's file key for this weekday.
    pub fn to_json_file(&self) -> (r: &'static str)
        ensures
            r@ == match *self {
                Weekday::Monday => "monday.json"@,
                Weekday::Tuesday => "tuesday.json"@,
                Weekday::Wednesday => "wednesday.json"@,
                Weekday::Thursday => "thursday.json"@,
                Weekday::Friday => "friday.json"@,
                Weekday::Saturday => "saturday.json"@,
                Weekday::Sunday => "sunday.json"@,
            },
    {
        match *self {
            Weekday::Monday => "monday.json",
            Weekday::Tuesday => "tuesday.json",
            Weekday::Wednesday => "wednesday.json",
            Weekday::Thursday => "thursday.json",
            Weekday::Friday => "friday.json",
            Weekday::Saturday => "saturday.json",
            Weekday::Sunday => "sunday.json",
        }
    }
}

/// The weekday a day token names: the trimmed token must spell the English
/// or the Russian name of the day, ignoring letter case.
pub open spec fn parse_day_spec(s: Seq<char>) -> Option<Weekday> {
    let t = trim_spec(s);
    if seq_matches_ci(t, "monday"@) || seq_matches_ci(t, "понедельник"@) {
        Some(Weekday::Monday)
    } else if seq_matches_ci(t, "tuesday"@) || seq_matches_ci(t, "вторник"@) {
        Some(Weekday::Tuesday)
    } else if seq_matches_ci(t, "wednesday"@) || seq_matches_ci(t, "среда"@) {
        Some(Weekday::Wednesday)
    } else if seq_matches_ci(t, "thursday"@) || seq_matches_ci(t, "четверг"@) {
        Some(Weekday::Thursday)
    } else if seq_matches_ci(t, "friday"@) || seq_matches_ci(t, "пятница"@) {
        Some(Weekday::Friday)
    } else if seq_matches_ci(t, "saturday"@) || seq_matches_ci(t, "суббота"@) {
        Some(Weekday::Saturday)
    } else if seq_matches_ci(t, "sunday"@) || seq_matches_ci(t, "воскресенье"@) {
        Some(Weekday::Sunday)
    } else {
        None
    }
}

/// Parses an explicit day token; a token that names no weekday is rejected.
pub fn parse_day_token(token: &str) -> (r: Result<Weekday, ScheduleError>)
    ensures
        match r {
            Ok(d) => parse_day_spec(token@) == Some(d),
            Err(e) => e == ScheduleError::UnknownDay && parse_day_spec(token@) is None,
        },
{
    let (lo, hi) = trimmed_range(token);
    if range_matches_ci(token, lo, hi, "monday") || range_matches_ci(token, lo, hi, "понедельник") {
        Ok(Weekday::Monday)
    } else if range_matches_ci(token, lo, hi, "tuesday") || range_matches_ci(
        token,
        lo,
        hi,
        "вторник",
    ) {
        Ok(Weekday::Tuesday)
    } else if range_matches_ci(token, lo, hi, "wednesday") || range_matches_ci(
        token,
        lo,
        hi,
        "среда",
    ) {
        Ok(Weekday::Wednesday)
    } else if range_matches_ci(token, lo, hi, "thursday") || range_matches_ci(
        token,
        lo,
        hi,
        "четверг",
    ) {
        Ok(Weekday::Thursday)
    } else if range_matches_ci(token, lo, hi, "friday") || range_matches_ci(
        token,
        lo,
        hi,
        "пятница",
    ) {
        Ok(Weekday::Friday)
    } else if range_matches_ci(token, lo, hi, "saturday") || range_matches_ci(
        token,
        lo,
        hi,
        "суббота",
    ) {
        Ok(Weekday::Saturday)
    } else if range_matches_ci(token, lo, hi, "sunday") || range_matches_ci(
        token,
        lo,
        hi,
        "воскресенье",
    ) {
        Ok(Weekday::Sunday)
    } else {
        Err(ScheduleError::UnknownDay)
    }
}

impl Weekday {
    /// Relies on chrono's `Local::now` and `Datelike::weekday` for the
    /// weekday of the current local date.  The result depends on the clock,
    /// so nothing is promised of it beyond being one of the seven days.
    #[verifier::external_body]
    pub fn get_today() -> Weekday {
        match chrono::Datelike::weekday(&chrono::Local::now()) {
            chrono::Weekday::Mon => Weekday::Monday,
            chrono::Weekday::Tue => Weekday::Tuesday,
            chrono::Weekday::Wed => Weekday::Wednesday,
            chrono::Weekday::Thu => Weekday::Thursday,
            chrono::Weekday::Fri => Weekday::Friday,
            chrono::Weekday::Sat => Weekday::Saturday,
            chrono::Weekday::Sun => Weekday::Sunday,
        }
    }
}

/// Resolves an optional day token: an explicit token is parsed, an absent
/// one stands for the current local date's weekday.
pub fn resolve(token: Option<&str>) -> (r: Result<Weekday, ScheduleError>)
    ensures
        match token {
            Some(t) => r == parse_day_token_result(t@),
            None => r is Ok,
        },
{
    match token {
        Some(t) => parse_day_token(t),
        None => Ok(Weekday::get_today()),
    }
}

/// The result `parse_day_token` is bound to return for a given token.
pub open spec fn parse_day_token_result(s: Seq<char>) -> Result<Weekday, ScheduleError> {
    match parse_day_spec(s) {
        Some(d) => Ok(d),
        None => Err(ScheduleError::UnknownDay),
    }
}

/// The reply for a day token that names no weekday.
pub fn bad_argument_message(token: &str) -> (r: String)
    ensures
        r@ == "Bad argument: "@ + token@,
{
    let mut out = String::from_str("Bad argument: ");
    out.append(token);
    out
}

/// Two canonical tokens that open with different lower-case letters cannot
/// both be spelled by one string, however it is cased.
proof fn lemma_matches_ci_first_distinct(t: Seq<char>, a: Seq<char>, b: Seq<char>)
    requires
        a.len() > 0,
        crate::text::is_cased_lower(a[0]),
        crate::text::is_cased_lower(b[0]),
        a[0] != b[0],
    ensures
        !(seq_matches_ci(t, a) && seq_matches_ci(t, b)),
{
    if seq_matches_ci(t, a) && seq_matches_ci(t, b) {
        assert(crate::text::char_matches_ci(t[0], a[0]));
        assert(crate::text::char_matches_ci(t[0], b[0]));
        vstd::utf8::char_u32_cast(a[0], a[0] as u32);
        vstd::utf8::char_u32_cast(b[0], b[0] as u32);
        vstd::utf8::char_u32_cast(t[0], t[0] as u32);
    }
}

/// Law: a token that spells one of the fourteen canonical weekday names,
/// ignoring letter case and surrounding whitespace, parses to that name's
/// weekday; one that spells none of them parses to nothing.
pub proof fn lemma_parse_day_canonical(s: Seq<char>)
    ensures
        seq_matches_ci(trim_spec(s), "monday"@) ==> parse_day_spec(s) == Some(Weekday::Monday),
        seq_matches_ci(trim_spec(s), "понедельник"@) ==> parse_day_spec(s) == Some(
            Weekday::Monday,
        ),
        seq_matches_ci(trim_spec(s), "tuesday"@) ==> parse_day_spec(s) == Some(Weekday::Tuesday),
        seq_matches_ci(trim_spec(s), "вторник"@) ==> parse_day_spec(s) == Some(Weekday::Tuesday),
        seq_matches_ci(trim_spec(s), "wednesday"@) ==> parse_day_spec(s) == Some(
            Weekday::Wednesday,
        ),
        seq_matches_ci(trim_spec(s), "среда"@) ==> parse_day_spec(s) == Some(Weekday::Wednesday),
        seq_matches_ci(trim_spec(s), "thursday"@) ==> parse_day_spec(s) == Some(Weekday::Thursday),
        seq_matches_ci(trim_spec(s), "четверг"@) ==> parse_day_spec(s) == Some(Weekday::Thursday),
        seq_matches_ci(trim_spec(s), "friday"@) ==> parse_day_spec(s) == Some(Weekday::Friday),
        seq_matches_ci(trim_spec(s), "пятница"@) ==> parse_day_spec(s) == Some(Weekday::Friday),
        seq_matches_ci(trim_spec(s), "saturday"@) ==> parse_day_spec(s) == Some(Weekday::Saturday),
        seq_matches_ci(trim_spec(s), "суббота"@) ==> parse_day_spec(s) == Some(Weekday::Saturday),
        seq_matches_ci(trim_spec(s), "sunday"@) ==> parse_day_spec(s) == Some(Weekday::Sunday),
        seq_matches_ci(trim_spec(s), "воскресенье"@) ==> parse_day_spec(s) == Some(
            Weekday::Sunday,
        ),
        parse_day_spec(s) is None <==> !(seq_matches_ci(trim_spec(s), "monday"@)
            || seq_matches_ci(trim_spec(s), "понедельник"@) || seq_matches_ci(
            trim_spec(s),
            "tuesday"@,
        ) || seq_matches_ci(trim_spec(s), "вторник"@) || seq_matches_ci(
            trim_spec(s),
            "wednesday"@,
        ) || seq_matches_ci(trim_spec(s), "среда"@) || seq_matches_ci(trim_spec(s), "thursday"@)
            || seq_matches_ci(trim_spec(s), "четверг"@) || seq_matches_ci(
            trim_spec(s),
            "friday"@,
        ) || seq_matches_ci(trim_spec(s), "пятница"@) || seq_matches_ci(
            trim_spec(s),
            "saturday"@,
        ) || seq_matches_ci(trim_spec(s), "суббота"@) || seq_matches_ci(trim_spec(s), "sunday"@)
            || seq_matches_ci(trim_spec(s), "воскресенье"@)),
{
    reveal_strlit("monday");
    reveal_strlit("понедельник");
    reveal_strlit("tuesday");
    reveal_strlit("вторник");
    reveal_strlit("wednesday");
    reveal_strlit("среда");
    reveal_strlit("thursday");
    reveal_strlit("четверг");
    reveal_strlit("friday");
    reveal_strlit("пятница");
    reveal_strlit("saturday");
    reveal_strlit("суббота");
    reveal_strlit("sunday");
    reveal_strlit("воскресенье");
    let t = trim_spec(s);
    lemma_matches_ci_first_distinct(t, "вторник"@, "tuesday"@);
    lemma_matches_ci_first_distinct(t, "четверг"@, "tuesday"@);
    lemma_matches_ci_first_distinct(t, "четверг"@, "вторник"@);
    lemma_matches_ci_first_distinct(t, "friday"@, "monday"@);
    lemma_matches_ci_first_distinct(t, "пятница"@, "tuesday"@);
    lemma_matches_ci_first_distinct(t, "пятница"@, "вторник"@);
    lemma_matches_ci_first_distinct(t, "пятница"@, "четверг"@);
    lemma_matches_ci_first_distinct(t, "saturday"@, "thursday"@);
    lemma_matches_ci_first_distinct(t, "суббота"@, "tuesday"@);
    lemma_matches_ci_first_distinct(t, "суббота"@, "вторник"@);
    lemma_matches_ci_first_distinct(t, "суббота"@, "четверг"@);
    lemma_matches_ci_first_distinct(t, "суббота"@, "пятница"@);
    lemma_matches_ci_first_distinct(t, "sunday"@, "monday"@);
    lemma_matches_ci_first_distinct(t, "sunday"@, "friday"@);
    lemma_matches_ci_first_distinct(t, "воскресенье"@, "понедельник"@);
}

} // verus!

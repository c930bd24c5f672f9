use timetable_bot::error::ScheduleError;
use timetable_bot::weekday::{bad_argument_message, parse_day_token, resolve, Weekday};

#[test]
fn english_tokens_resolve() {
    assert_eq!(parse_day_token("monday"), Ok(Weekday::Monday));
    assert_eq!(parse_day_token("tuesday"), Ok(Weekday::Tuesday));
    assert_eq!(parse_day_token("wednesday"), Ok(Weekday::Wednesday));
    assert_eq!(parse_day_token("thursday"), Ok(Weekday::Thursday));
    assert_eq!(parse_day_token("friday"), Ok(Weekday::Friday));
    assert_eq!(parse_day_token("saturday"), Ok(Weekday::Saturday));
    assert_eq!(parse_day_token("sunday"), Ok(Weekday::Sunday));
}

#[test]
fn russian_tokens_resolve() {
    assert_eq!(parse_day_token("понедельник"), Ok(Weekday::Monday));
    assert_eq!(parse_day_token("вторник"), Ok(Weekday::Tuesday));
    assert_eq!(parse_day_token("среда"), Ok(Weekday::Wednesday));
    assert_eq!(parse_day_token("четверг"), Ok(Weekday::Thursday));
    assert_eq!(parse_day_token("пятница"), Ok(Weekday::Friday));
    assert_eq!(parse_day_token("суббота"), Ok(Weekday::Saturday));
    assert_eq!(parse_day_token("воскресенье"), Ok(Weekday::Sunday));
}

#[test]
fn matching_ignores_letter_case() {
    assert_eq!(parse_day_token("MONDAY"), Ok(Weekday::Monday));
    assert_eq!(parse_day_token("Friday"), Ok(Weekday::Friday));
    assert_eq!(parse_day_token("SaTuRdAy"), Ok(Weekday::Saturday));
    assert_eq!(parse_day_token("ПОНЕДЕЛЬНИК"), Ok(Weekday::Monday));
    assert_eq!(parse_day_token("Вторник"), Ok(Weekday::Tuesday));
    assert_eq!(parse_day_token("СУББОТА"), Ok(Weekday::Saturday));
}

#[test]
fn matching_trims_surrounding_whitespace() {
    assert_eq!(parse_day_token("  friday "), Ok(Weekday::Friday));
    assert_eq!(parse_day_token("\tсреда\n"), Ok(Weekday::Wednesday));
    assert_eq!(parse_day_token(" Sunday\r\n"), Ok(Weekday::Sunday));
}

#[test]
fn unknown_tokens_are_rejected() {
    assert_eq!(parse_day_token(""), Err(ScheduleError::UnknownDay));
    assert_eq!(parse_day_token("   "), Err(ScheduleError::UnknownDay));
    assert_eq!(parse_day_token("mon"), Err(ScheduleError::UnknownDay));
    assert_eq!(parse_day_token("funday"), Err(ScheduleError::UnknownDay));
    assert_eq!(parse_day_token("mondays"), Err(ScheduleError::UnknownDay));
    assert_eq!(parse_day_token("понедельники"), Err(ScheduleError::UnknownDay));
    assert_eq!(parse_day_token("mon day"), Err(ScheduleError::UnknownDay));
}

#[test]
fn day_keys_for_remote_source() {
    assert_eq!(Weekday::Monday.to_json_file(), "monday.json");
    assert_eq!(Weekday::Tuesday.to_json_file(), "tuesday.json");
    assert_eq!(Weekday::Wednesday.to_json_file(), "wednesday.json");
    assert_eq!(Weekday::Thursday.to_json_file(), "thursday.json");
    assert_eq!(Weekday::Friday.to_json_file(), "friday.json");
    assert_eq!(Weekday::Saturday.to_json_file(), "saturday.json");
    assert_eq!(Weekday::Sunday.to_json_file(), "sunday.json");
}

#[test]
fn resolve_uses_explicit_token() {
    assert_eq!(resolve(Some("tuesday")), Ok(Weekday::Tuesday));
    assert_eq!(resolve(Some("nonsense")), Err(ScheduleError::UnknownDay));
}

#[test]
fn resolve_without_token_uses_current_date() {
    assert!(resolve(None).is_ok());
}

#[test]
fn today_yields_one_of_the_seven_keys() {
    let key = Weekday::get_today().to_json_file();
    let keys = [
        "monday.json",
        "tuesday.json",
        "wednesday.json",
        "thursday.json",
        "friday.json",
        "saturday.json",
        "sunday.json",
    ];
    assert!(keys.contains(&key));
}

#[test]
fn bad_argument_reply_names_the_token() {
    assert_eq!(bad_argument_message("funday"), "Bad argument: funday");
}

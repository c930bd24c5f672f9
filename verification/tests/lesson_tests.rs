use timetable_bot::groups::UserGroups;
use timetable_bot::lesson::{
    filter_day_timetable, find_next_lesson, next_lesson_message, print_day, Lesson, TimeOfDay,
};

fn lesson(
    name: &str,
    lesson_type: &str,
    link: &str,
    password: Option<&str>,
    group: Option<&str>,
    start_m: u32,
    end_m: u32,
) -> Lesson {
    Lesson::new(
        name.to_string(),
        lesson_type.to_string(),
        link.to_string(),
        password.map(|p| p.to_string()),
        group.map(|g| g.to_string()),
        start_m,
        end_m,
    )
    .expect("the lesson fields are valid")
}

#[test]
fn format_lesson_escapes_plus_and_omits_password() {
    let l = lesson("Algo+", "lecture", "http://x", None, None, 545, 630);
    assert_eq!(l.print(), "09:05 \\- 10:30\t[Algo\\+](http://x) \\(lecture\\)");
}

#[test]
fn format_lesson_appends_password_when_set() {
    let l = lesson("Calculus", "seminar", "http://y", Some("pwd"), None, 600, 690);
    assert_eq!(
        l.print(),
        "10:00 \\- 11:30\t[Calculus](http://y) \\(seminar\\) Пароль: pwd"
    );
}

#[test]
fn format_lesson_zero_pads_early_times() {
    let l = lesson("Early", "lecture", "http://z", None, None, 5, 65);
    assert_eq!(l.print(), "00:05 \\- 01:05\t[Early](http://z) \\(lecture\\)");
}

#[test]
fn lesson_construction_checks_minutes() {
    assert!(Lesson::new("a".to_string(), "b".to_string(), "c".to_string(), None, None, 630, 545)
        .is_none());
    assert!(Lesson::new("a".to_string(), "b".to_string(), "c".to_string(), None, None, 600, 600)
        .is_none());
    assert!(Lesson::new("a".to_string(), "b".to_string(), "c".to_string(), None, None, 600, 1440)
        .is_none());
    assert!(Lesson::new("a".to_string(), "b".to_string(), "c".to_string(), None, None, 0, 1439)
        .is_some());
}

#[test]
fn format_day_of_no_lessons_is_the_sentinel() {
    assert_eq!(print_day(&[]), "В этот день нет уроков");
}

#[test]
fn format_day_joins_lines_in_input_order() {
    let a = lesson("First", "lecture", "http://a", None, None, 540, 600);
    let b = lesson("Second", "seminar", "http://b", None, None, 615, 660);
    let expected = format!("{}\n{}", a.print(), b.print());
    assert_eq!(print_day(&[a, b]), expected);
}

#[test]
fn is_next_within_grace_window() {
    let l = lesson("Algo", "lecture", "http://x", None, None, 600, 660);
    assert!(l.is_next(&TimeOfDay { hour: 9, minute: 58 }));
    assert!(!l.is_next(&TimeOfDay { hour: 10, minute: 5 }));
}

#[test]
fn is_next_boundary_of_grace_window() {
    let l = lesson("Algo", "lecture", "http://x", None, None, 600, 660);
    // 602 - 3 = 599 < 600, still next; 603 - 3 = 600, no longer next.
    assert!(l.is_next(&TimeOfDay { hour: 10, minute: 2 }));
    assert!(!l.is_next(&TimeOfDay { hour: 10, minute: 3 }));
}

#[test]
fn is_next_does_not_wrap_near_midnight() {
    let l = lesson("Night", "lecture", "http://x", None, None, 10, 70);
    assert!(l.is_next(&TimeOfDay { hour: 0, minute: 0 }));
    assert!(l.is_next(&TimeOfDay { hour: 0, minute: 2 }));
}

#[test]
fn filtering_matches_the_main_group() {
    let restricted = || lesson("Algo", "lecture", "http://x", None, Some("M4140"), 540, 600);

    let mut same = UserGroups::new();
    same.set_group("M4140".to_string()).unwrap();
    assert_eq!(filter_day_timetable(vec![restricted()], &same).len(), 1);

    let mut other = UserGroups::new();
    other.set_group("M4141".to_string()).unwrap();
    assert_eq!(filter_day_timetable(vec![restricted()], &other).len(), 0);

    let unset = UserGroups::new();
    assert_eq!(filter_day_timetable(vec![restricted()], &unset).len(), 1);
}

#[test]
fn unrestricted_lessons_pass_every_profile() {
    let open_lesson = || lesson("Open", "lecture", "http://x", None, None, 540, 600);
    let mut profile = UserGroups::new();
    assert_eq!(filter_day_timetable(vec![open_lesson()], &profile).len(), 1);
    profile.set_group("M4141".to_string()).unwrap();
    profile.set_combinatorics_group("Samoylova".to_string()).unwrap();
    profile.set_algorithms_group("Mishunin".to_string()).unwrap();
    assert_eq!(filter_day_timetable(vec![open_lesson()], &profile).len(), 1);
}

#[test]
fn filtering_value_outside_every_track_passes() {
    // Wednesday scenario: an open lesson and one restricted to a group
    // that no track of the profile accounts for; both stay, in order.
    let a = lesson("First", "lecture", "http://a", None, None, 540, 600);
    let b = lesson("Second", "seminar", "http://b", None, Some("X"), 615, 660);
    let expected = format!("{}\n{}", a.print(), b.print());
    let profile = UserGroups::new();
    let kept = filter_day_timetable(vec![a, b], &profile);
    assert_eq!(kept.len(), 2);
    assert_eq!(print_day(&kept), expected);
}

#[test]
fn filtering_value_shared_by_two_tracks() {
    let shared = || lesson("Algo", "practice", "http://x", None, Some("Korablinov"), 540, 600);

    let mut both = UserGroups::new();
    both.set_combinatorics_group("Samoylova".to_string()).unwrap();
    both.set_algorithms_group("Korablinov".to_string()).unwrap();
    assert_eq!(filter_day_timetable(vec![shared()], &both).len(), 1);

    let mut comb_only = UserGroups::new();
    comb_only.set_combinatorics_group("Korablinov".to_string()).unwrap();
    assert_eq!(filter_day_timetable(vec![shared()], &comb_only).len(), 1);

    let mut open_algo = UserGroups::new();
    open_algo.set_combinatorics_group("Samoylova".to_string()).unwrap();
    assert_eq!(filter_day_timetable(vec![shared()], &open_algo).len(), 1);

    let mut neither = UserGroups::new();
    neither.set_combinatorics_group("Samoylova".to_string()).unwrap();
    neither.set_algorithms_group("Mishunin".to_string()).unwrap();
    assert_eq!(filter_day_timetable(vec![shared()], &neither).len(), 0);
}

#[test]
fn next_lesson_is_the_first_upcoming_one() {
    let a = lesson("First", "lecture", "http://a", None, None, 540, 600);
    let b = lesson("Second", "seminar", "http://b", None, None, 615, 660);
    let lessons = vec![a, b];
    let at_nine = TimeOfDay { hour: 8, minute: 0 };
    let first = find_next_lesson(&lessons, &at_nine).expect("a lesson is upcoming");
    assert_eq!(first.print(), lessons[0].print());

    let mid_morning = TimeOfDay { hour: 9, minute: 30 };
    let second = find_next_lesson(&lessons, &mid_morning).expect("a lesson is upcoming");
    assert_eq!(second.print(), lessons[1].print());
}

#[test]
fn next_lesson_message_after_the_last_lesson() {
    let a = lesson("First", "lecture", "http://a", None, None, 540, 600);
    let lessons = vec![a];
    let evening = TimeOfDay { hour: 20, minute: 0 };
    assert!(find_next_lesson(&lessons, &evening).is_none());
    assert_eq!(next_lesson_message(&lessons, &evening), "Сегодня больше нет уроков");
}

#[test]
fn next_lesson_message_prints_the_upcoming_line() {
    let a = lesson("First", "lecture", "http://a", None, None, 540, 600);
    let expected = a.print();
    let lessons = vec![a];
    let early = TimeOfDay { hour: 8, minute: 0 };
    assert_eq!(next_lesson_message(&lessons, &early), expected);
}

#[test]
fn clock_reading_is_a_time_of_day() {
    let now = TimeOfDay::now();
    assert!(now.hour < 24);
    assert!(now.minute < 60);
}

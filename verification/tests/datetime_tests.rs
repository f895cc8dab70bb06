use eindhoven_events::civil::{CivilDate, CivilDateTime, CivilTime};
use eindhoven_events::datetime::{
    combine, parse_event_datetimes, resolve_event_datetimes, resolve_tokens, scan_fragments,
    tokens_from_captures, Tokens,
};

fn at(year: i32, month: u32, day: u32, hour: u32, minute: u32) -> CivilDateTime {
    CivilDateTime {
        date: CivilDate { year, month, day },
        time: CivilTime { hour, minute, second: 0, nanosecond: 0 },
    }
}

fn time(hour: u32, minute: u32) -> CivilTime {
    CivilTime { hour, minute, second: 0, nanosecond: 0 }
}

#[test]
fn listing_year_completes_the_date_line() {
    let (start, end) = parse_event_datetimes(
        Some("28 May 2025"),
        Some("Tuesday 28 May, Starts at 19:00 - 23:00"),
    );
    assert_eq!(start, Some(at(2025, 5, 28, 19, 0)));
    assert_eq!(end, Some(at(2025, 5, 28, 23, 0)));
}

#[test]
fn end_before_start_rolls_over_to_next_day() {
    let (start, end) = resolve_event_datetimes(Some("1 April"), Some("23:00 - 01:00"), 2025);
    assert_eq!(start, Some(at(2025, 4, 1, 23, 0)));
    assert_eq!(end, Some(at(2025, 4, 2, 1, 0)));
}

#[test]
fn rollover_from_the_date_line_itself() {
    let (start, end) =
        resolve_event_datetimes(None, Some("Tuesday 1 April, Starts at 23:00 - 01:00"), 2025);
    assert_eq!(start, Some(at(2025, 4, 1, 23, 0)));
    assert_eq!(end, Some(at(2025, 4, 2, 1, 0)));
}

#[test]
fn rollover_crosses_the_year() {
    let (start, end) = resolve_event_datetimes(None, Some("31 December, 22:00 - 02:00"), 2025);
    assert_eq!(start, Some(at(2025, 12, 31, 22, 0)));
    assert_eq!(end, Some(at(2026, 1, 1, 2, 0)));
}

#[test]
fn date_without_time_gives_nothing() {
    let (start, end) = resolve_event_datetimes(Some("28 May 2025"), Some("Tuesday 28 May"), 2025);
    assert_eq!(start, None);
    assert_eq!(end, None);
}

#[test]
fn time_without_date_gives_nothing() {
    let (start, end) = resolve_event_datetimes(None, Some("19:00 - 23:00"), 2025);
    assert_eq!(start, None);
    assert_eq!(end, None);
}

#[test]
fn nothing_in_gives_nothing_out() {
    assert_eq!(resolve_event_datetimes(None, None, 2025), (None, None));
}

#[test]
fn current_year_stands_in_for_a_missing_year() {
    let (start, end) = resolve_event_datetimes(Some("28 May"), Some("28 May, 19:00"), 2031);
    assert_eq!(start, Some(at(2031, 5, 28, 19, 0)));
    assert_eq!(end, None);
}

#[test]
fn year_of_the_date_line_wins_over_the_listing() {
    let (start, _) =
        resolve_event_datetimes(Some("28 May 2024"), Some("28 May 2026, 19:00"), 2031);
    assert_eq!(start, Some(at(2026, 5, 28, 19, 0)));
}

#[test]
fn abbreviated_month_is_read_too() {
    let (start, end) = resolve_event_datetimes(Some("3 Sep 2025"), Some("20:30 - 22:00"), 2000);
    assert_eq!(start, Some(at(2025, 9, 3, 20, 30)));
    assert_eq!(end, Some(at(2025, 9, 3, 22, 0)));
}

#[test]
fn a_day_that_does_not_exist_gives_nothing() {
    let (start, end) = resolve_event_datetimes(None, Some("31 April, 19:00 - 20:00"), 2025);
    assert_eq!(start, None);
    assert_eq!(end, None);
}

#[test]
fn an_hour_that_does_not_exist_gives_nothing() {
    let (start, end) = resolve_event_datetimes(None, Some("1 April, 25:00 - 20:00"), 2025);
    assert_eq!(start, None);
    assert_eq!(end, None);
}

#[test]
fn an_unreadable_end_leaves_the_start() {
    let (start, end) = resolve_event_datetimes(None, Some("1 April, 19:00 - 29:00"), 2025);
    assert_eq!(start, Some(at(2025, 4, 1, 19, 0)));
    assert_eq!(end, None);
}

#[test]
fn tokens_of_the_two_fragments() {
    let tokens =
        scan_fragments(Some("28 May 2025"), Some("Tuesday 28 May, Starts at 19:00 - 23:00"));
    assert_eq!(tokens.day_month.as_deref(), Some("28 May"));
    assert_eq!(tokens.year, Some(2025));
    assert_eq!(tokens.start.as_deref(), Some("19:00"));
    assert_eq!(tokens.end.as_deref(), Some("23:00"));
}

#[test]
fn tokens_of_a_bare_time_range() {
    let tokens = scan_fragments(Some("1 April"), Some("23:00 - 01:00"));
    assert_eq!(tokens.day_month.as_deref(), Some("1 April"));
    assert_eq!(tokens.year, None);
    assert_eq!(tokens.start.as_deref(), Some("23:00"));
    assert_eq!(tokens.end.as_deref(), Some("01:00"));
}

#[test]
fn tokens_from_given_captures() {
    let detail = Some(vec![
        Some("x".to_string()),
        Some(" 2 June ".to_string()),
        None,
        Some("10:00".to_string()),
        None,
    ]);
    let list = Some(vec![
        Some("y".to_string()),
        Some("3 July".to_string()),
        Some("2027".to_string()),
    ]);
    let tokens = tokens_from_captures(&detail, &None, &list);
    assert_eq!(tokens.day_month.as_deref(), Some("2 June"));
    assert_eq!(tokens.year, Some(2027));
    assert_eq!(tokens.start.as_deref(), Some("10:00"));
    assert_eq!(tokens.end, None);
}

#[test]
fn times_come_from_the_bare_range_only_without_a_full_reading() {
    let time_only = Some(vec![
        Some("x".to_string()),
        Some("11:00".to_string()),
        Some("12:00".to_string()),
    ]);
    let list = Some(vec![Some("y".to_string()), Some("3 July".to_string()), None]);
    let tokens = tokens_from_captures(&None, &time_only, &list);
    assert_eq!(tokens.day_month.as_deref(), Some("3 July"));
    assert_eq!(tokens.year, None);
    assert_eq!(tokens.start.as_deref(), Some("11:00"));
    assert_eq!(tokens.end.as_deref(), Some("12:00"));
}

#[test]
fn tokens_resolve_with_their_own_year() {
    let tokens = Tokens {
        day_month: Some("29 February".to_string()),
        year: Some(2024),
        start: Some("08:15".to_string()),
        end: None,
    };
    assert_eq!(resolve_tokens(&tokens, 2025), (Some(at(2024, 2, 29, 8, 15)), None));
}

#[test]
fn combine_keeps_equal_times_on_the_same_day() {
    let date = CivilDate { year: 2025, month: 4, day: 1 };
    let (start, end) = combine(Some(date), Some(time(10, 0)), Some(time(10, 0)));
    assert_eq!(start, Some(at(2025, 4, 1, 10, 0)));
    assert_eq!(end, Some(at(2025, 4, 1, 10, 0)));
}

#[test]
fn combine_without_start_gives_nothing() {
    let date = CivilDate { year: 2025, month: 4, day: 1 };
    assert_eq!(combine(Some(date), None, Some(time(10, 0))), (None, None));
    assert_eq!(combine(None, Some(time(9, 0)), Some(time(10, 0))), (None, None));
}

#[test]
fn combine_rolls_over_the_end_of_february() {
    let date = CivilDate { year: 2024, month: 2, day: 28 };
    let (_, end) = combine(Some(date), Some(time(23, 0)), Some(time(0, 30)));
    assert_eq!(end, Some(at(2024, 2, 29, 0, 30)));
    let date = CivilDate { year: 2025, month: 2, day: 28 };
    let (_, end) = combine(Some(date), Some(time(23, 0)), Some(time(0, 30)));
    assert_eq!(end, Some(at(2025, 3, 1, 0, 30)));
}

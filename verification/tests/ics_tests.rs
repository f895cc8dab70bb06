use eindhoven_events::civil::{CivilDate, CivilDateTime, CivilTime};
use eindhoven_events::ics::{
    describe_event, escape_text, format_stamp, generate_ics, generate_ics_at, keep_text, location,
    render_calendar, to_utc, to_utc_given, CalendarError, LocalOffset,
};
use eindhoven_events::models::Event;

fn at(year: i32, month: u32, day: u32, hour: u32, minute: u32) -> CivilDateTime {
    CivilDateTime {
        date: CivilDate { year, month, day },
        time: CivilTime { hour, minute, second: 0, nanosecond: 0 },
    }
}

fn stamp() -> CivilDateTime {
    CivilDateTime {
        date: CivilDate { year: 2025, month: 1, day: 2 },
        time: CivilTime { hour: 3, minute: 4, second: 5, nanosecond: 0 },
    }
}

fn event() -> Event {
    let mut event = Event::with_id("/en/events/jazz-night".to_string());
    event.title = "Jazz Night".to_string();
    event.start_datetime = Some(at(2025, 5, 28, 19, 0));
    event
}

fn text(chars: &Vec<char>) -> String {
    chars.iter().collect()
}

const HEAD: &str = "BEGIN:VCALENDAR\r\nVERSION:2.0\r\nPRODID:-//EindhovenEventViewer//NONSGML v1.0//EN\r\nCALSCALE:GREGORIAN\r\nBEGIN:VEVENT\r\n";
const TAIL: &str = "END:VEVENT\r\nEND:VCALENDAR\r\n";

#[test]
fn escaping_of_text_values() {
    assert_eq!(escape_text("a,b;c\\d\ne"), "a\\,b\\;c\\\\d\\ne");
    assert_eq!(escape_text("line one\r\nline two"), "line one\\nline two");
    assert_eq!(escape_text("lone\rreturn"), "lone\rreturn");
    assert_eq!(escape_text(""), "");
    assert_eq!(escape_text("plain text"), "plain text");
}

#[test]
fn escaping_agrees_with_a_chain_of_replacements() {
    let cases = [
        "a,b;c\\d\ne", "\r\n", "\r\r\n", "\n\r", "\\n", "\\;", ",,,", "a\r", "x\r\n\r\ny", "é,ß;",
    ];
    for case in cases {
        let expected = case
            .replace("\\", "\\\\")
            .replace(";", "\\;")
            .replace(",", "\\,")
            .replace("\r\n", "\n")
            .replace("\n", "\\n");
        assert_eq!(escape_text(case), expected, "{case:?}");
    }
}

#[test]
fn escaped_text_reads_back() {
    let plain = "Doors, bar; lounge \\ terrace\nSecond line";
    let escaped = escape_text(plain);
    let mut back = String::new();
    let mut chars = escaped.chars();
    while let Some(c) = chars.next() {
        if c == '\\' {
            match chars.next() {
                Some('n') | Some('N') => back.push('\n'),
                Some(other) => back.push(other),
                None => back.push('\\'),
            }
        } else {
            back.push(c);
        }
    }
    assert_eq!(back, plain);
}

#[test]
fn stamps() {
    assert_eq!(text(&format_stamp(&stamp())), "20250102T030405Z");
    let early = CivilDateTime {
        date: CivilDate { year: 33, month: 12, day: 31 },
        time: CivilTime { hour: 23, minute: 59, second: 59, nanosecond: 1_500_000_000 },
    };
    assert_eq!(text(&format_stamp(&early)), "00331231T235960Z");
    assert_eq!(text(&format_stamp(&at(-5, 1, 1, 0, 0))), "-00050101T000000Z");
    assert_eq!(text(&format_stamp(&at(12345, 1, 1, 0, 0))), "+123450101T000000Z");
}

#[test]
fn stamps_agree_with_chrono() {
    let leap = CivilDateTime {
        date: CivilDate { year: 2016, month: 12, day: 31 },
        time: CivilTime { hour: 23, minute: 59, second: 59, nanosecond: 1_000_000_000 },
    };
    let cases = [
        at(2025, 5, 28, 17, 0),
        at(1, 1, 1, 0, 0),
        at(9999, 12, 31, 23, 59),
        at(0, 1, 1, 0, 0),
        at(-5, 1, 1, 0, 0),
        at(-12345, 6, 7, 8, 9),
        at(10000, 1, 1, 0, 0),
        at(262142, 12, 31, 23, 59),
        leap,
    ];
    for case in cases {
        let time = &case.time;
        let theirs = chrono::NaiveDate::from_ymd_opt(case.date.year, case.date.month, case.date.day)
            .unwrap()
            .and_hms_nano_opt(time.hour, time.minute, time.second, time.nanosecond)
            .unwrap()
            .format("%Y%m%dT%H%M%SZ")
            .to_string();
        assert_eq!(text(&format_stamp(&case)), theirs);
    }
}

#[test]
fn summer_time_is_two_hours_ahead() {
    assert_eq!(to_utc(&at(2025, 5, 28, 19, 0)), Some(at(2025, 5, 28, 17, 0)));
}

#[test]
fn winter_time_is_one_hour_ahead() {
    assert_eq!(to_utc(&at(2025, 1, 15, 20, 0)), Some(at(2025, 1, 15, 19, 0)));
}

#[test]
fn utc_may_fall_on_the_day_before() {
    assert_eq!(to_utc(&at(2025, 6, 1, 0, 30)), Some(at(2025, 5, 31, 22, 30)));
    assert_eq!(to_utc(&at(2025, 1, 1, 0, 30)), Some(at(2024, 12, 31, 23, 30)));
}

#[test]
fn skipped_and_repeated_hours_have_no_utc_reading() {
    assert_eq!(to_utc(&at(2025, 3, 30, 2, 30)), None);
    assert_eq!(to_utc(&at(2025, 10, 26, 2, 30)), None);
    assert_eq!(to_utc(&at(2025, 3, 30, 1, 59)), Some(at(2025, 3, 30, 0, 59)));
    assert_eq!(to_utc(&at(2025, 3, 30, 3, 0)), Some(at(2025, 3, 30, 1, 0)));
}

#[test]
fn what_is_no_date_has_no_utc_reading() {
    assert_eq!(to_utc(&at(2025, 2, 30, 12, 0)), None);
    assert_eq!(to_utc(&at(2025, 2, 3, 24, 0)), None);
}

#[test]
fn utc_given_an_offset() {
    let evening = at(2025, 5, 28, 19, 0);
    assert_eq!(to_utc_given(&evening, LocalOffset::Single(7200)), Some(at(2025, 5, 28, 17, 0)));
    assert_eq!(to_utc_given(&evening, LocalOffset::Single(-3600)), Some(at(2025, 5, 28, 20, 0)));
    assert_eq!(to_utc_given(&evening, LocalOffset::Missing), None);
    assert_eq!(to_utc_given(&evening, LocalOffset::Ambiguous(7200, 3600)), None);
    assert_eq!(to_utc_given(&evening, LocalOffset::Ambiguous(3600, 3600)), None);
    assert_eq!(to_utc_given(&evening, LocalOffset::Single(86400)), None);
    assert_eq!(to_utc_given(&at(2025, 13, 28, 19, 0), LocalOffset::Single(0)), None);
}

#[test]
fn generation_without_start_fails() {
    let mut event = event();
    event.start_datetime = None;
    event.end_datetime = Some(at(2025, 5, 28, 23, 0));
    assert_eq!(generate_ics_at(&event, &stamp()), Err(CalendarError::MissingStart));
    assert_eq!(generate_ics(&event), Err(CalendarError::MissingStart));
}

#[test]
fn generation_with_unresolvable_times_fails() {
    let mut event = event();
    event.start_datetime = Some(at(2025, 3, 30, 2, 30));
    assert_eq!(generate_ics_at(&event, &stamp()), Err(CalendarError::UnresolvableStart));
    event.start_datetime = Some(at(2025, 10, 26, 1, 0));
    event.end_datetime = Some(at(2025, 10, 26, 2, 30));
    assert_eq!(generate_ics_at(&event, &stamp()), Err(CalendarError::UnresolvableEnd));
}

#[test]
fn errors_in_words() {
    assert_eq!(
        CalendarError::MissingStart.describe(),
        "cannot generate calendar entry without a start time"
    );
    assert!(CalendarError::UnresolvableStart.describe().contains("start"));
    assert!(CalendarError::UnresolvableEnd.describe().contains("end"));
}

#[test]
fn smallest_document() {
    let expected = format!(
        "{HEAD}UID:/en/events/jazz-night\r\nDTSTAMP:20250102T030405Z\r\nDTSTART:20250528T170000Z\r\nSUMMARY:Jazz Night\r\nLOCATION:Eindhoven\r\n{TAIL}"
    );
    assert_eq!(generate_ics_at(&event(), &stamp()), Ok(expected));
}

#[test]
fn full_document() {
    let mut event = event();
    event.title = "Jazz; Night, live".to_string();
    event.end_datetime = Some(at(2025, 5, 28, 23, 0));
    event.full_url = Some(" https://www.thisiseindhoven.com/en/events/jazz-night ".to_string());
    event.ticket_url = Some("https://tickets.example.org/jazz?a=1,2".to_string());
    event.short_description = Some("short".to_string());
    event.full_description = Some("  An evening, with music;\nand more.  ".to_string());
    event.list_price = Some("€ 10".to_string());
    event.price = Some(" € 12,50 ".to_string());
    event.list_specific_location = Some("Stratumseind".to_string());
    event.specific_location_name = Some("Jazz Club".to_string());
    event.address = Some("Jazz Club, Street 1, 5611 AB, Eindhoven".to_string());
    let expected = format!(
        "{HEAD}UID:/en/events/jazz-night\r\nDTSTAMP:20250102T030405Z\r\nDTSTART:20250528T170000Z\r\nDTEND:20250528T210000Z\r\nSUMMARY:Jazz\\; Night\\, live\r\nLOCATION:Jazz Club\\, Street 1\\, 5611 AB\\, Eindhoven\r\nURL:https://www.thisiseindhoven.com/en/events/jazz-night\r\nX-TICKET-URL:https://tickets.example.org/jazz?a=1,2\r\nDESCRIPTION:An evening\\, with music\\;\\nand more.\\n\\nPrice: € 12\\,50\\n\\nMore Info: https://www.thisiseindhoven.com/en/events/jazz-night\\n\\nBuy Tickets: https://tickets.example.org/jazz?a=1\\,2\r\n{TAIL}"
    );
    assert_eq!(generate_ics_at(&event, &stamp()), Ok(expected));
}

#[test]
fn generated_now_has_the_same_lines_but_for_the_stamp() {
    let fixed = generate_ics_at(&event(), &stamp()).unwrap();
    let now = generate_ics(&event()).unwrap();
    let fixed_lines: Vec<&str> = fixed.split("\r\n").collect();
    let now_lines: Vec<&str> = now.split("\r\n").collect();
    assert_eq!(fixed_lines.len(), now_lines.len());
    for (a, b) in fixed_lines.iter().zip(now_lines.iter()) {
        if a.starts_with("DTSTAMP:") {
            assert!(b.starts_with("DTSTAMP:"));
            assert_eq!(b.len(), "DTSTAMP:20250102T030405Z".len());
        } else {
            assert_eq!(a, b);
        }
    }
}

#[test]
fn end_that_is_not_later_than_start_is_left_out() {
    let mut event = event();
    event.end_datetime = Some(at(2025, 5, 28, 19, 0));
    let document = generate_ics_at(&event, &stamp()).unwrap();
    assert!(!document.contains("DTEND"));
    event.end_datetime = Some(at(2025, 5, 28, 18, 0));
    let document = generate_ics_at(&event, &stamp()).unwrap();
    assert!(!document.contains("DTEND"));
    event.end_datetime = Some(at(2025, 5, 29, 1, 0));
    let document = generate_ics_at(&event, &stamp()).unwrap();
    assert!(document.contains("DTEND:20250528T230000Z\r\n"));
}

#[test]
fn location_takes_the_most_specific_text() {
    let mut event = event();
    assert_eq!(text(&location(&event)), "Eindhoven");
    event.list_specific_location = Some("Centre".to_string());
    assert_eq!(text(&location(&event)), "Centre");
    event.specific_location_name = Some("Club".to_string());
    assert_eq!(text(&location(&event)), "Club");
    event.address = Some("Club, Street 1".to_string());
    assert_eq!(text(&location(&event)), "Club, Street 1");
    event.address = Some(String::new());
    assert_eq!(text(&location(&event)), "");
    let document = generate_ics_at(&event, &stamp()).unwrap();
    assert!(!document.contains("LOCATION"));
}

#[test]
fn description_parts_in_order() {
    let mut event = event();
    assert!(describe_event(&event).is_empty());
    event.short_description = Some("Short".to_string());
    event.list_price = Some("Free".to_string());
    event.full_url = Some("https://example.org/e".to_string());
    event.ticket_url = Some("https://example.org/t".to_string());
    let parts: Vec<String> = describe_event(&event).iter().map(text).collect();
    assert_eq!(
        parts,
        vec![
            "Short".to_string(),
            "Price: Free".to_string(),
            "More Info: https://example.org/e".to_string(),
            "Buy Tickets: https://example.org/t".to_string(),
        ]
    );
}

#[test]
fn placeholders_and_blanks_are_left_out_of_the_description() {
    let mut event = event();
    event.full_description = Some("  N/a ".to_string());
    event.short_description = Some("Short".to_string());
    event.price = Some("   ".to_string());
    event.list_price = Some("€ 5".to_string());
    event.full_url = Some("  ".to_string());
    event.ticket_url = None;
    assert!(describe_event(&event).is_empty());
    let document = generate_ics_at(&event, &stamp()).unwrap();
    assert!(!document.contains("DESCRIPTION"));
    assert!(!document.contains("URL"));
}

#[test]
fn keeping_text() {
    let chars: Vec<char> = "N/A".chars().collect();
    assert_eq!(keep_text(chars.clone(), "n/a"), None);
    assert_eq!(keep_text(chars.clone(), "N/A"), Some(chars.clone()));
    assert_eq!(keep_text(Vec::new(), ""), None);
    let chars: Vec<char> = "Free".chars().collect();
    assert_eq!(keep_text(chars.clone(), "free"), Some(chars));
}

#[test]
fn rendering_with_given_times() {
    let event = event();
    let document =
        render_calendar(&event, &stamp(), &at(2025, 5, 28, 17, 0), Some(at(2025, 5, 28, 18, 0)));
    assert!(document.starts_with(HEAD));
    assert!(document.ends_with(TAIL));
    assert!(document.contains("\r\nDTSTART:20250528T170000Z\r\nDTEND:20250528T180000Z\r\n"));
    assert_eq!(document.matches("BEGIN:VEVENT").count(), 1);
}

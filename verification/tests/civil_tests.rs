use chrono::{Datelike, Timelike};
use eindhoven_events::civil::{
    leap_year, month_length, time_from_seconds, CivilDate, CivilDateTime, CivilTime,
};

fn date(year: i32, month: u32, day: u32) -> CivilDate {
    CivilDate { year, month, day }
}

fn moment(year: i32, month: u32, day: u32, hour: u32, minute: u32, second: u32) -> CivilDateTime {
    CivilDateTime {
        date: date(year, month, day),
        time: CivilTime { hour, minute, second, nanosecond: 0 },
    }
}

#[test]
fn leap_years_follow_the_gregorian_rule() {
    assert!(leap_year(2024));
    assert!(!leap_year(2025));
    assert!(!leap_year(1900));
    assert!(leap_year(2000));
    assert!(leap_year(-4));
    assert!(!leap_year(-100));
    assert!(leap_year(-400));
}

#[test]
fn months_have_their_lengths() {
    assert_eq!(month_length(2025, 1), 31);
    assert_eq!(month_length(2025, 2), 28);
    assert_eq!(month_length(2024, 2), 29);
    assert_eq!(month_length(2025, 4), 30);
    assert_eq!(month_length(2025, 12), 31);
    assert_eq!(month_length(2025, 0), 0);
    assert_eq!(month_length(2025, 13), 0);
}

#[test]
fn validity_of_dates() {
    assert!(date(2025, 5, 28).valid());
    assert!(date(2024, 2, 29).valid());
    assert!(!date(2025, 2, 29).valid());
    assert!(!date(2025, 4, 31).valid());
    assert!(!date(2025, 0, 1).valid());
    assert!(!date(2025, 1, 0).valid());
    assert!(!date(262143, 1, 1).valid());
    assert!(date(262142, 12, 31).valid());
    assert!(date(-262143, 1, 1).valid());
    assert!(!date(-262144, 12, 31).valid());
}

#[test]
fn next_and_previous_day() {
    assert_eq!(date(2025, 5, 28).succ(), Some(date(2025, 5, 29)));
    assert_eq!(date(2025, 5, 31).succ(), Some(date(2025, 6, 1)));
    assert_eq!(date(2025, 12, 31).succ(), Some(date(2026, 1, 1)));
    assert_eq!(date(2024, 2, 28).succ(), Some(date(2024, 2, 29)));
    assert_eq!(date(262142, 12, 31).succ(), None);
    assert_eq!(date(2025, 5, 28).pred(), Some(date(2025, 5, 27)));
    assert_eq!(date(2025, 3, 1).pred(), Some(date(2025, 2, 28)));
    assert_eq!(date(2024, 3, 1).pred(), Some(date(2024, 2, 29)));
    assert_eq!(date(2025, 1, 1).pred(), Some(date(2024, 12, 31)));
    assert_eq!(date(-262143, 1, 1).pred(), None);
}

#[test]
fn next_day_agrees_with_chrono() {
    let mut day = date(2023, 12, 25);
    let mut theirs = chrono::NaiveDate::from_ymd_opt(2023, 12, 25).unwrap();
    for _ in 0..800 {
        day = day.succ().unwrap();
        theirs = theirs.succ_opt().unwrap();
        assert_eq!((day.year, day.month, day.day), (theirs.year(), theirs.month(), theirs.day()));
    }
}

#[test]
fn times_of_day() {
    let t = CivilTime { hour: 19, minute: 30, second: 15, nanosecond: 0 };
    assert!(t.valid());
    assert_eq!(t.seconds(), 19 * 3600 + 30 * 60 + 15);
    assert_eq!(time_from_seconds(70215, 0), t);
    assert!(!CivilTime { hour: 24, minute: 0, second: 0, nanosecond: 0 }.valid());
    assert!(!CivilTime { hour: 0, minute: 60, second: 0, nanosecond: 0 }.valid());
    let earlier = CivilTime { hour: 1, minute: 0, second: 0, nanosecond: 0 };
    assert!(earlier.before(&t));
    assert!(!t.before(&earlier));
    assert!(!t.before(&t));
}

#[test]
fn order_of_dates_and_times() {
    let a = moment(2025, 5, 28, 19, 0, 0);
    let b = moment(2025, 5, 28, 23, 0, 0);
    let c = moment(2025, 5, 29, 1, 0, 0);
    assert!(a.before(&b));
    assert!(b.before(&c));
    assert!(a.before(&c));
    assert!(!c.before(&a));
    assert!(!a.before(&a));
    assert!(moment(2024, 12, 31, 23, 59, 59).before(&moment(2025, 1, 1, 0, 0, 0)));
}

#[test]
fn shifting_by_an_offset() {
    assert_eq!(
        moment(2025, 5, 28, 19, 0, 0).minus_seconds(7200),
        Some(moment(2025, 5, 28, 17, 0, 0))
    );
    assert_eq!(
        moment(2025, 1, 1, 0, 30, 0).minus_seconds(3600),
        Some(moment(2024, 12, 31, 23, 30, 0))
    );
    assert_eq!(
        moment(2025, 2, 28, 23, 30, 0).minus_seconds(-3600),
        Some(moment(2025, 3, 1, 0, 30, 0))
    );
    assert_eq!(moment(-262143, 1, 1, 0, 0, 0).minus_seconds(1), None);
    assert_eq!(moment(262142, 12, 31, 23, 59, 59).minus_seconds(-1), None);
}

#[test]
fn shifting_agrees_with_chrono() {
    let starts = [
        moment(2025, 5, 28, 19, 0, 0),
        moment(2025, 1, 1, 0, 30, 0),
        moment(2024, 2, 29, 23, 59, 59),
        moment(2023, 12, 31, 12, 0, 1),
        moment(1, 1, 1, 0, 0, 0),
        moment(-4, 3, 1, 0, 0, 0),
    ];
    let offsets = [0, 1, -1, 3600, 7200, -3600, 43200, 86399, -86399];
    for start in starts {
        let naive = chrono::NaiveDate::from_ymd_opt(start.date.year, start.date.month, start.date.day)
            .unwrap()
            .and_hms_opt(start.time.hour, start.time.minute, start.time.second)
            .unwrap();
        for offset in offsets {
            let theirs = naive - chrono::Duration::seconds(offset as i64);
            let ours = start.minus_seconds(offset).unwrap();
            assert_eq!(
                (ours.date.year, ours.date.month, ours.date.day),
                (theirs.year(), theirs.month(), theirs.day())
            );
            assert_eq!(
                (ours.time.hour, ours.time.minute, ours.time.second, ours.time.nanosecond),
                (theirs.hour(), theirs.minute(), theirs.second(), theirs.nanosecond())
            );
        }
    }
}

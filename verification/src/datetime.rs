//! Resolving the start and end of an event from two scraped text fragments:
//! the short date of the listing and the longer date line of the event's
//! own page.
//!
//! The fragments are searched with regular expressions and the tokens found
//! are read by chrono. Both are outside this crate; their results are named
//! here ([`regex_captures`], [`chrono_date`], [`chrono_time`]) and everything
//! that is done with them is stated over those names.

use crate::civil::{next_day, CivilDate, CivilDateTime, CivilTime, MAX_YEAR, MIN_YEAR};
use crate::decimal::{integer_text, parse_i32, parse_i32_text, push_integer};
use crate::text::{chars_of, string_of, trim_chars, trimmed};
use chrono::{Datelike, NaiveDate, NaiveTime, Timelike};
use regex::Regex;
use vstd::prelude::*;
use vstd::string::*;

verus! {

/// The date line of an event's page: an optional weekday, day and month, an
/// optional year, and an optional start and end time.
pub const DETAIL_PATTERN: &'static str =
    r"(?i)(?:(?:Mon|Tue|Wed|Thu|Fri|Sat|Sun)\w*\s+)?(\d{1,2}\s+\w+)(?:\s+(\d{4}))?(?:\s*,\s*)?(?:(?:Starts at\s+)?(\d{2}:\d{2}))?(?:\s*-\s*(\d{2}:\d{2}))?";

/// A bare time or time range.
pub const TIME_PATTERN: &'static str = r"(\d{2}:\d{2})(?:\s*-\s*(\d{2}:\d{2}))?";

/// Day and month with an optional year.
pub const DATE_PATTERN: &'static str = r"(\d{1,2}\s+\w+)(?:\s+(\d{4}))?";

/// Day, full month name, year.
pub const LONG_DATE_FORMAT: &'static str = "%d %B %Y";

/// Day, abbreviated month name, year.
pub const SHORT_DATE_FORMAT: &'static str = "%d %b %Y";

/// Hours and minutes.
pub const TIME_FORMAT: &'static str = "%H:%M";

/// What the first match of the regular expression `pattern` in `text`
/// captures: one entry for each group, group 0 being the whole match, and
/// `None` for a group that took no part. `None` when nothing matches or
/// `pattern` is no regular expression.
pub uninterp spec fn regex_captures(pattern: Seq<char>, text: Seq<char>) -> Option<
    Seq<Option<Seq<char>>>,
>;

/// The date that chrono reads from `text` under `format`.
pub uninterp spec fn chrono_date(text: Seq<char>, format: Seq<char>) -> Option<CivilDate>;

/// The time of day that chrono reads from `text` under `format`.
pub uninterp spec fn chrono_time(text: Seq<char>, format: Seq<char>) -> Option<CivilTime>;

/// The texts of a list of captured groups.
pub open spec fn groups_text(groups: Seq<Option<String>>) -> Seq<Option<Seq<char>>> {
    Seq::new(
        groups.len(),
        |i: int|
            match groups[i] {
                Some(s) => Some(s@),
                None => None,
            },
    )
}

/// The texts of the outcome of a search.
pub open spec fn captures_text(found: Option<Vec<Option<String>>>) -> Option<
    Seq<Option<Seq<char>>>,
> {
    match found {
        Some(groups) => Some(groups_text(groups@)),
        None => None,
    }
}

/// The text of an optional string slice.
pub open spec fn optional_str(value: Option<&str>) -> Option<Seq<char>> {
    match value {
        Some(s) => Some(s@),
        None => None,
    }
}

/// `Regex::new` and `Regex::captures` of the regex crate: compiles `pattern`,
/// searches `text` once and copies out what each group captured. The result
/// is [`regex_captures`] of the two texts; a pattern that does not compile
/// gives `None`, as does a text without a match.
#[verifier::external_body]
fn search(pattern: &str, text: &str) -> (found: Option<Vec<Option<String>>>)
    ensures
        captures_text(found) == regex_captures(pattern@, text@),
{
    let expression = match Regex::new(pattern) {
        Ok(expression) => expression,
        Err(_) => return None,
    };
    let captures = expression.captures(text)?;
    let mut groups = Vec::new();
    for group in captures.iter() {
        groups.push(match group {
            Some(found) => Some(found.as_str().to_string()),
            None => None,
        });
    }
    Some(groups)
}

/// `NaiveDate::parse_from_str` of chrono, with the date handed back as year,
/// month and day. The result is [`chrono_date`] of the two texts, and a date
/// that chrono hands out is a day of the calendar.
#[verifier::external_body]
fn read_date(text: &str, format: &str) -> (date: Option<CivilDate>)
    ensures
        date == chrono_date(text@, format@),
        date matches Some(d) ==> d.is_valid(),
{
    match NaiveDate::parse_from_str(text, format) {
        Ok(d) => Some(CivilDate { year: d.year(), month: d.month(), day: d.day() }),
        Err(_) => None,
    }
}

/// `NaiveTime::parse_from_str` of chrono, with the time handed back field by
/// field. The result is [`chrono_time`] of the two texts, and a time that
/// chrono hands out is a time of day. Under [`TIME_FORMAT`], which has no
/// field for seconds, chrono takes the seconds and their fraction to be
/// zero.
#[verifier::external_body]
fn read_time(text: &str, format: &str) -> (time: Option<CivilTime>)
    ensures
        time == chrono_time(text@, format@),
        time matches Some(t) ==> t.is_valid(),
        time matches Some(t) ==> (format@ == TIME_FORMAT@ ==> t.is_whole_minute()),
{
    match NaiveTime::parse_from_str(text, format) {
        Ok(t) => Some(
            CivilTime {
                hour: t.hour(),
                minute: t.minute(),
                second: t.second(),
                nanosecond: t.nanosecond(),
            },
        ),
        Err(_) => None,
    }
}

/// The tokens found in the two fragments.
pub struct Tokens {
    pub day_month: Option<String>,
    pub year: Option<i32>,
    pub start: Option<String>,
    pub end: Option<String>,
}

/// What [`Tokens`] holds, as plain text and values.
pub struct TokensView {
    pub day_month: Option<Seq<char>>,
    pub year: Option<i32>,
    pub start: Option<Seq<char>>,
    pub end: Option<Seq<char>>,
}

impl View for Tokens {
    type V = TokensView;

    open spec fn view(&self) -> TokensView {
        TokensView {
            day_month: crate::text::optional_text(self.day_month),
            year: self.year,
            start: crate::text::optional_text(self.start),
            end: crate::text::optional_text(self.end),
        }
    }
}

/// The trimmed text of group `index`, when the search matched and the group
/// took part in the match.
pub open spec fn group(found: Option<Seq<Option<Seq<char>>>>, index: int) -> Option<Seq<char>> {
    match found {
        Some(groups) => if 0 <= index < groups.len() {
            match groups[index] {
                Some(t) => Some(trimmed(t)),
                None => None,
            }
        } else {
            None
        },
        None => None,
    }
}

/// The year that a captured group denotes.
pub open spec fn year_in(token: Option<Seq<char>>) -> Option<i32> {
    match token {
        Some(t) => parse_i32_text(t),
        None => None,
    }
}

/// The tokens that three searches yield: `detail` is the search of the page's
/// date line for [`DETAIL_PATTERN`], `time_only` its search for
/// [`TIME_PATTERN`], `list` the search of the listing's date for
/// [`DATE_PATTERN`].
///
/// Day and month come from the date line, else from the listing. The year
/// comes from the date line, else from the listing. The times come from the
/// date line: from its full reading where there is one, else from its bare
/// time range.
pub open spec fn tokens_of(
    detail: Option<Seq<Option<Seq<char>>>>,
    time_only: Option<Seq<Option<Seq<char>>>>,
    list: Option<Seq<Option<Seq<char>>>>,
) -> TokensView {
    TokensView {
        day_month: match group(detail, 1) {
            Some(d) => Some(d),
            None => group(list, 1),
        },
        year: match year_in(group(detail, 2)) {
            Some(y) => Some(y),
            None => year_in(group(list, 2)),
        },
        start: if detail is Some {
            group(detail, 3)
        } else {
            group(time_only, 1)
        },
        end: if detail is Some {
            group(detail, 4)
        } else {
            group(time_only, 2)
        },
    }
}

/// The search of an optional fragment: nothing is found in a fragment that
/// is absent.
pub open spec fn search_in(pattern: Seq<char>, fragment: Option<Seq<char>>) -> Option<
    Seq<Option<Seq<char>>>,
> {
    match fragment {
        Some(text) => regex_captures(pattern, text),
        None => None,
    }
}

/// The tokens of the two fragments.
pub open spec fn fragment_tokens(list: Option<Seq<char>>, detail: Option<Seq<char>>) -> TokensView {
    tokens_of(
        search_in(DETAIL_PATTERN@, detail),
        search_in(TIME_PATTERN@, detail),
        search_in(DATE_PATTERN@, list),
    )
}

/// Day and month followed by a space and the year.
pub open spec fn dated_text(day_month: Seq<char>, year: i32) -> Seq<char> {
    day_month + seq![' '] + integer_text(year as int)
}

/// The date that `text` denotes: read with the full month name first, then
/// with the abbreviated one.
pub open spec fn date_of(text: Seq<char>) -> Option<CivilDate> {
    match chrono_date(text, LONG_DATE_FORMAT@) {
        Some(d) => Some(d),
        None => chrono_date(text, SHORT_DATE_FORMAT@),
    }
}

/// The time that an optional token denotes.
pub open spec fn time_of(token: Option<Seq<char>>) -> Option<CivilTime> {
    match token {
        Some(t) => chrono_time(t, TIME_FORMAT@),
        None => None,
    }
}

/// The start and end of an event with the given date, start time and end
/// time.
///
/// Without a date or without a start time there is neither start nor end. An
/// end time earlier than the start time belongs to the following day.
pub open spec fn combined(date: Option<CivilDate>, start: Option<CivilTime>, end: Option<CivilTime>) -> (
    Option<CivilDateTime>,
    Option<CivilDateTime>,
) {
    match (date, start) {
        (Some(d), Some(s)) => (
            Some(CivilDateTime { date: d, time: s }),
            match end {
                Some(e) => Some(
                    CivilDateTime {
                        date: if e.is_before(s) {
                            match next_day(d) {
                                Some(n) => n,
                                None => d,
                            }
                        } else {
                            d
                        },
                        time: e,
                    },
                ),
                None => None,
            },
        ),
        _ => (None, None),
    }
}

/// The start and end that the tokens denote when `current_year` stands in
/// for a year that no fragment gave.
pub open spec fn resolved_from(tokens: TokensView, current_year: i32) -> (
    Option<CivilDateTime>,
    Option<CivilDateTime>,
) {
    let year = match tokens.year {
        Some(y) => y,
        None => current_year,
    };
    let date = match tokens.day_month {
        Some(dm) => date_of(dated_text(dm, year)),
        None => None,
    };
    combined(date, time_of(tokens.start), time_of(tokens.end))
}

/// The start and end of an event, from the listing's date and the date line
/// of the event's page.
pub open spec fn resolved(list: Option<Seq<char>>, detail: Option<Seq<char>>, current_year: i32) -> (
    Option<CivilDateTime>,
    Option<CivilDateTime>,
) {
    resolved_from(fragment_tokens(list, detail), current_year)
}

/// Without a start time there is neither start nor end, whatever else the
/// fragments hold.
pub proof fn lemma_no_start_time_no_timestamps(tokens: TokensView, current_year: i32)
    requires
        tokens.start is None,
    ensures
        resolved_from(tokens, current_year) == (None::<CivilDateTime>, None::<CivilDateTime>),
{
}

/// Without day and month there is neither start nor end, whatever times the
/// fragments hold.
pub proof fn lemma_no_date_no_timestamps(tokens: TokensView, current_year: i32)
    requires
        tokens.day_month is None,
    ensures
        resolved_from(tokens, current_year) == (None::<CivilDateTime>, None::<CivilDateTime>),
{
}

/// An end exists only together with a start, is never earlier than it, and
/// lies on the same or the following day.
pub proof fn lemma_end_follows_start(
    date: Option<CivilDate>,
    start: Option<CivilTime>,
    end: Option<CivilTime>,
)
    requires
        date matches Some(d) ==> d.is_valid(),
    ensures
        combined(date, start, end).1 matches Some(e) ==> {
            &&& combined(date, start, end).0 matches Some(s)
            &&& date matches Some(d)
            &&& !e.is_before(s) || next_day(d) is None
            &&& e.date == d || Some(e.date) == next_day(d)
        },
{
}

/// Executable form of [`group`].
pub fn group_text(found: &Option<Vec<Option<String>>>, index: usize) -> (token: Option<String>)
    ensures
        crate::text::optional_text(token) == group(captures_text(*found), index as int),
{
    match found {
        Some(groups) => {
            if index < groups.len() {
                match &groups[index] {
                    Some(s) => {
                        let chars = chars_of(s.as_str());
                        let kept = trim_chars(&chars);
                        Some(string_of(&kept))
                    },
                    None => None,
                }
            } else {
                None
            }
        },
        None => None,
    }
}

/// Executable form of [`year_in`].
pub fn year_of_token(token: &Option<String>) -> (year: Option<i32>)
    ensures
        year == year_in(crate::text::optional_text(*token)),
{
    match token {
        Some(s) => {
            let chars = chars_of(s.as_str());
            parse_i32(&chars)
        },
        None => None,
    }
}

/// The tokens that three searches yield. See [`tokens_of`].
pub fn tokens_from_captures(
    detail: &Option<Vec<Option<String>>>,
    time_only: &Option<Vec<Option<String>>>,
    list: &Option<Vec<Option<String>>>,
) -> (tokens: Tokens)
    ensures
        tokens@ == tokens_of(captures_text(*detail), captures_text(*time_only), captures_text(*list)),
{
    let day_month = match group_text(detail, 1) {
        Some(d) => Some(d),
        None => group_text(list, 1),
    };
    let year = match year_of_token(&group_text(detail, 2)) {
        Some(y) => Some(y),
        None => year_of_token(&group_text(list, 2)),
    };
    let start = if detail.is_some() {
        group_text(detail, 3)
    } else {
        group_text(time_only, 1)
    };
    let end = if detail.is_some() {
        group_text(detail, 4)
    } else {
        group_text(time_only, 2)
    };
    Tokens { day_month, year, start, end }
}

/// Searches an optional fragment for `pattern`.
fn search_fragment(pattern: &str, fragment: Option<&str>) -> (found: Option<Vec<Option<String>>>)
    ensures
        captures_text(found) == search_in(pattern@, optional_str(fragment)),
{
    match fragment {
        Some(text) => search(pattern, text),
        None => None,
    }
}

/// The tokens of the two fragments.
pub fn scan_fragments(list_date: Option<&str>, detail: Option<&str>) -> (tokens: Tokens)
    ensures
        tokens@ == fragment_tokens(optional_str(list_date), optional_str(detail)),
{
    let from_detail = search_fragment(DETAIL_PATTERN, detail);
    let from_time = search_fragment(TIME_PATTERN, detail);
    let from_list = search_fragment(DATE_PATTERN, list_date);
    tokens_from_captures(&from_detail, &from_time, &from_list)
}

/// The start and end of an event with the given date, start time and end
/// time. See [`combined`].
pub fn combine(date: Option<CivilDate>, start: Option<CivilTime>, end: Option<CivilTime>) -> (both: (
    Option<CivilDateTime>,
    Option<CivilDateTime>,
))
    requires
        date matches Some(d) ==> d.is_valid(),
        start matches Some(s) ==> s.is_valid(),
        end matches Some(e) ==> e.is_valid(),
    ensures
        both == combined(date, start, end),
        both.0 matches Some(s) ==> s.is_valid(),
        both.1 matches Some(e) ==> e.is_valid(),
{
    match (date, start) {
        (Some(d), Some(s)) => {
            let finish = match end {
                Some(e) => {
                    let day = if e.before(&s) {
                        match d.succ() {
                            Some(n) => n,
                            None => d,
                        }
                    } else {
                        d
                    };
                    Some(CivilDateTime { date: day, time: e })
                },
                None => None,
            };
            (Some(CivilDateTime { date: d, time: s }), finish)
        },
        _ => (None, None),
    }
}

/// Reads a date written as day, month name and year.
fn read_dated_text(text: &str) -> (date: Option<CivilDate>)
    ensures
        date == date_of(text@),
        date matches Some(d) ==> d.is_valid(),
{
    match read_date(text, LONG_DATE_FORMAT) {
        Some(d) => Some(d),
        None => read_date(text, SHORT_DATE_FORMAT),
    }
}

/// Reads an optional time token.
fn read_time_token(token: &Option<String>) -> (time: Option<CivilTime>)
    ensures
        time == time_of(crate::text::optional_text(*token)),
        time matches Some(t) ==> t.is_valid() && t.is_whole_minute(),
{
    match token {
        Some(t) => read_time(t.as_str(), TIME_FORMAT),
        None => None,
    }
}

/// The start and end that the tokens denote. See [`resolved_from`].
pub fn resolve_tokens(tokens: &Tokens, current_year: i32) -> (both: (
    Option<CivilDateTime>,
    Option<CivilDateTime>,
))
    ensures
        both == resolved_from(tokens@, current_year),
        both.0 matches Some(s) ==> s.is_valid() && s.time.is_whole_minute(),
        both.1 matches Some(e) ==> e.is_valid() && e.time.is_whole_minute(),
{
    let year = match tokens.year {
        Some(y) => y,
        None => current_year,
    };
    let date = match &tokens.day_month {
        Some(dm) => {
            let mut text = chars_of(dm.as_str());
            text.push(' ');
            push_integer(&mut text, year as i64);
            let dated = string_of(&text);
            assert(dated@ =~= dated_text(dm@, year));
            read_dated_text(dated.as_str())
        },
        None => None,
    };
    let start = read_time_token(&tokens.start);
    let end = read_time_token(&tokens.end);
    combine(date, start, end)
}

/// The start and end of an event, with `current_year` standing in for a year
/// that no fragment gives. See [`resolved`].
pub fn resolve_event_datetimes(
    list_date: Option<&str>,
    detail: Option<&str>,
    current_year: i32,
) -> (both: (Option<CivilDateTime>, Option<CivilDateTime>))
    ensures
        both == resolved(optional_str(list_date), optional_str(detail), current_year),
        both.0 matches Some(s) ==> s.is_valid() && s.time.is_whole_minute(),
        both.1 matches Some(e) ==> e.is_valid() && e.time.is_whole_minute(),
{
    let tokens = scan_fragments(list_date, detail);
    resolve_tokens(&tokens, current_year)
}

/// The start and end of an event, with the year of today's date standing in
/// for a year that no fragment gives.
pub fn parse_event_datetimes(list_date: Option<&str>, detail: Option<&str>) -> (both: (
    Option<CivilDateTime>,
    Option<CivilDateTime>,
))
    ensures
        exists|year: i32|
            MIN_YEAR <= year <= MAX_YEAR && both == resolved(
                optional_str(list_date),
                optional_str(detail),
                year,
            ),
        both.0 matches Some(s) ==> s.is_valid() && s.time.is_whole_minute(),
        both.1 matches Some(e) ==> e.is_valid() && e.time.is_whole_minute(),
{
    let year = crate::clock::utc_now().civil.date.year;
    resolve_event_datetimes(list_date, detail, year)
}

} // verus!

//! Writing one event as an iCalendar document with a single `VEVENT`.
//!
//! The event's wall-clock times are read in a fixed civil time zone and
//! written as UTC. Which UTC offset the zone has at a given wall-clock time
//! is decided by the chrono-tz crate ([`zone_offsets`]); the lower-case form
//! of a text is the standard library's ([`lowercase_of`]). Everything else
//! is stated here outright.

use crate::civil::{shifted_back, CivilDateTime};
use crate::decimal::{padded_text, push_padded};
use crate::models::{Event, EventView};
use crate::text::{
    append_range, append_str, chars_of, first_present, first_string, join_chars, joined,
    lowercase_of, optional_text, string_of, texts, to_lowercase, trim_chars, trim_nonempty,
    trimmed, trimmed_nonempty,
};
use chrono::offset::LocalResult;
use chrono::{NaiveDate, Offset, TimeZone};
use chrono_tz::Tz;
use vstd::prelude::*;
use vstd::string::*;

verus! {

/// The civil time zone in which the events' times are given.
pub const SOURCE_ZONE: &'static str = "Europe/Amsterdam";

/// Location of an event that names none.
pub const DEFAULT_LOCATION: &'static str = "Eindhoven";

/// What opens the document, up to and including the start of the event.
pub const HEADER: &'static str =
    "BEGIN:VCALENDAR\r\nVERSION:2.0\r\nPRODID:-//EindhovenEventViewer//NONSGML v1.0//EN\r\nCALSCALE:GREGORIAN\r\nBEGIN:VEVENT\r\n";

/// What closes the event and the document.
pub const FOOTER: &'static str = "END:VEVENT\r\nEND:VCALENDAR\r\n";

/// Why no calendar document could be written.
#[derive(Clone, Copy, Debug, PartialEq, Eq, Structural)]
pub enum CalendarError {
    /// The event has no start time.
    MissingStart,
    /// The start is no wall-clock time that the zone has exactly once.
    UnresolvableStart,
    /// The end is no wall-clock time that the zone has exactly once.
    UnresolvableEnd,
}

impl CalendarError {
    /// The error in words.
    pub fn describe(&self) -> (message: String)
        ensures
            message@ == match *self {
                CalendarError::MissingStart => "cannot generate calendar entry without a start time"@,
                CalendarError::UnresolvableStart => "the start time does not exist or is ambiguous in the event's time zone"@,
                CalendarError::UnresolvableEnd => "the end time does not exist or is ambiguous in the event's time zone"@,
            },
    {
        match self {
            CalendarError::MissingStart => String::from_str(
                "cannot generate calendar entry without a start time",
            ),
            CalendarError::UnresolvableStart => String::from_str(
                "the start time does not exist or is ambiguous in the event's time zone",
            ),
            CalendarError::UnresolvableEnd => String::from_str(
                "the end time does not exist or is ambiguous in the event's time zone",
            ),
        }
    }
}

/// How a time zone maps a wall-clock time to UTC offsets, in seconds east
/// of Greenwich.
#[derive(Clone, Copy, Debug, PartialEq, Eq, Structural)]
pub enum LocalOffset {
    /// The zone has the wall-clock time exactly once, at this offset.
    Single(i32),
    /// The zone has the wall-clock time twice: at the earlier instant with
    /// the first offset, at the later one with the second.
    Ambiguous(i32, i32),
    /// The zone skips the wall-clock time, or there is no such zone or no
    /// such date and time.
    Missing,
}

/// The UTC offsets that the time zone named `zone` has at the wall-clock
/// time `local`, as the chrono-tz crate decides them. `Missing` also where
/// `zone` names no time zone, and where `local` is no date and time.
pub uninterp spec fn zone_offsets(zone: Seq<char>, local: CivilDateTime) -> LocalOffset;

/// `TimeZone::offset_from_local_datetime` of chrono, for the chrono-tz time
/// zone that `zone` names (`Tz::from_str`), on the date and time that `local`
/// spells out (`NaiveDate::from_ymd_opt`, `NaiveDate::and_hms_nano_opt`).
/// The three outcomes are handed back as they come: the result is
/// [`zone_offsets`], and an offset is always less than a day.
#[verifier::external_body]
fn offsets_at(zone: &str, local: &CivilDateTime) -> (found: LocalOffset)
    ensures
        found == zone_offsets(zone@, *local),
        found matches LocalOffset::Single(o) ==> -86400 < o < 86400,
        found matches LocalOffset::Ambiguous(a, b) ==> -86400 < a < 86400 && -86400 < b < 86400,
{
    let (date, time) = (&local.date, &local.time);
    let naive = match NaiveDate::from_ymd_opt(date.year, date.month, date.day) {
        Some(day) => day.and_hms_nano_opt(time.hour, time.minute, time.second, time.nanosecond),
        None => None,
    };
    match (zone.parse::<Tz>(), naive) {
        (Ok(tz), Some(naive)) => match tz.offset_from_local_datetime(&naive) {
            LocalResult::Single(o) => LocalOffset::Single(o.fix().local_minus_utc()),
            LocalResult::Ambiguous(a, b) => {
                LocalOffset::Ambiguous(a.fix().local_minus_utc(), b.fix().local_minus_utc())
            },
            LocalResult::None => LocalOffset::Missing,
        },
        _ => LocalOffset::Missing,
    }
}

/// What one character of a text becomes in a calendar text value, given the
/// text it stands in: backslash, semicolon and comma get a backslash in
/// front, a line feed is written as backslash and `n`, and a carriage
/// return directly before a line feed is dropped.
pub open spec fn escaped_at(s: Seq<char>, i: int) -> Seq<char> {
    let c = s[i];
    if c == '\\' {
        seq!['\\', '\\']
    } else if c == ';' {
        seq!['\\', ';']
    } else if c == ',' {
        seq!['\\', ',']
    } else if c == '\r' && i + 1 < s.len() && s[i + 1] == '\n' {
        seq![]
    } else if c == '\n' {
        seq!['\\', 'n']
    } else {
        seq![c]
    }
}

/// `s[from..]` as a calendar text value.
pub open spec fn escaped_from(s: Seq<char>, from: int) -> Seq<char>
    decreases s.len() - from,
{
    if 0 <= from < s.len() {
        escaped_at(s, from) + escaped_from(s, from + 1)
    } else {
        seq![]
    }
}

/// `s` as a calendar text value.
pub open spec fn escaped(s: Seq<char>) -> Seq<char> {
    escaped_from(s, 0)
}

/// The text that a calendar text value stands for: a backslash and the
/// character after it stand for that character, or for a line feed where it
/// is `n` or `N`.
pub open spec fn unescaped(t: Seq<char>) -> Seq<char>
    decreases t.len(),
{
    if t.len() == 0 {
        seq![]
    } else if t[0] == '\\' && t.len() >= 2 {
        seq![
            if t[1] == 'n' || t[1] == 'N' {
                '\n'
            } else {
                t[1]
            },
        ] + unescaped(t.skip(2))
    } else {
        seq![t[0]] + unescaped(t.skip(1))
    }
}

/// `s[from..]` with every carriage return that stands directly before a line
/// feed left out.
pub open spec fn line_ends_folded_from(s: Seq<char>, from: int) -> Seq<char>
    decreases s.len() - from,
{
    if 0 <= from < s.len() {
        if s[from] == '\r' && from + 1 < s.len() && s[from + 1] == '\n' {
            line_ends_folded_from(s, from + 1)
        } else {
            seq![s[from]] + line_ends_folded_from(s, from + 1)
        }
    } else {
        seq![]
    }
}

/// `s` with every carriage return that stands directly before a line feed
/// left out.
pub open spec fn line_ends_folded(s: Seq<char>) -> Seq<char> {
    line_ends_folded_from(s, 0)
}

/// Whether no carriage return in `s` stands directly before a line feed.
pub open spec fn has_plain_line_ends(s: Seq<char>) -> bool {
    forall|i: int| 0 <= i && i + 1 < s.len() ==> !(#[trigger] s[i] == '\r' && s[i + 1] == '\n')
}

/// Reading back what was written from index `from` on.
proof fn lemma_round_trip_from(s: Seq<char>, from: int)
    requires
        0 <= from <= s.len(),
    ensures
        unescaped(escaped_from(s, from)) == line_ends_folded_from(s, from),
    decreases s.len() - from,
{
    if from < s.len() {
        lemma_round_trip_from(s, from + 1);
        let head = escaped_at(s, from);
        let rest = escaped_from(s, from + 1);
        let all = head + rest;
        if head.len() == 2 {
            assert(all.skip(2) =~= rest);
            assert(all[0] == '\\');
        } else if head.len() == 1 {
            assert(all.skip(1) =~= rest);
            assert(all[0] == s[from]);
        } else {
            assert(all =~= rest);
        }
    }
}

/// Without a carriage return before a line feed there is nothing to leave
/// out.
proof fn lemma_plain_line_ends_fold_to_self(s: Seq<char>, from: int)
    requires
        0 <= from <= s.len(),
        has_plain_line_ends(s),
    ensures
        line_ends_folded_from(s, from) == s.subrange(from, s.len() as int),
    decreases s.len() - from,
{
    if from < s.len() {
        lemma_plain_line_ends_fold_to_self(s, from + 1);
        assert(!(s[from] == '\r' && from + 1 < s.len() && s[from + 1] == '\n'));
        assert(seq![s[from]] + s.subrange(from + 1, s.len() as int) =~= s.subrange(
            from,
            s.len() as int,
        ));
    } else {
        assert(s.subrange(from, s.len() as int) =~= seq![]);
    }
}

/// Reading back what was written as a calendar text value gives the text
/// again, but for the carriage returns that stood directly before a line
/// feed: those are gone.
pub proof fn lemma_escape_round_trip(s: Seq<char>)
    ensures
        unescaped(escaped(s)) == line_ends_folded(s),
        has_plain_line_ends(s) ==> unescaped(escaped(s)) == s,
{
    lemma_round_trip_from(s, 0);
    if has_plain_line_ends(s) {
        lemma_plain_line_ends_fold_to_self(s, 0);
        assert(s.subrange(0, s.len() as int) =~= s);
    }
}

/// What is written from index `from` on holds no bare separator.
proof fn lemma_no_bare_separator_from(s: Seq<char>, from: int)
    requires
        0 <= from <= s.len(),
    ensures
        forall|k: int|
            0 <= k < escaped_from(s, from).len() ==> {
                &&& #[trigger] escaped_from(s, from)[k] != '\n'
                &&& (escaped_from(s, from)[k] == ',' || escaped_from(s, from)[k] == ';') ==> k > 0
                    && escaped_from(s, from)[k - 1] == '\\'
            },
    decreases s.len() - from,
{
    if from < s.len() {
        lemma_no_bare_separator_from(s, from + 1);
        let head = escaped_at(s, from);
        let rest = escaped_from(s, from + 1);
        let t = head + rest;
        assert forall|k: int| 0 <= k < t.len() implies {
            &&& #[trigger] t[k] != '\n'
            &&& (t[k] == ',' || t[k] == ';') ==> k > 0 && t[k - 1] == '\\'
        } by {
            if k >= head.len() {
                assert(t[k] == rest[k - head.len()]);
                if k - head.len() > 0 {
                    assert(t[k - 1] == rest[k - head.len() - 1]);
                }
            }
        }
    }
}

/// A calendar text value holds no line feed, and every comma and semicolon
/// in it follows a backslash.
pub proof fn lemma_escaped_has_no_bare_separator(s: Seq<char>)
    ensures
        forall|k: int|
            0 <= k < escaped(s).len() ==> {
                &&& #[trigger] escaped(s)[k] != '\n'
                &&& (escaped(s)[k] == ',' || escaped(s)[k] == ';') ==> k > 0 && escaped(s)[k - 1]
                    == '\\'
            },
{
    lemma_no_bare_separator_from(s, 0);
}

/// Appends `chars` as a calendar text value.
pub fn push_escaped(out: &mut Vec<char>, chars: &Vec<char>)
    ensures
        final(out)@ == old(out)@ + escaped(chars@),
{
    let mut i: usize = 0;
    assert(out@ + escaped_from(chars@, 0) =~= old(out)@ + escaped(chars@));
    while i < chars.len()
        invariant
            i <= chars.len(),
            out@ + escaped_from(chars@, i as int) == old(out)@ + escaped(chars@),
        decreases chars.len() - i,
    {
        let ghost before = out@;
        let c = chars[i];
        if c == '\\' {
            out.push('\\');
            out.push('\\');
        } else if c == ';' {
            out.push('\\');
            out.push(';');
        } else if c == ',' {
            out.push('\\');
            out.push(',');
        } else if c == '\r' && i + 1 < chars.len() && chars[i + 1] == '\n' {
        } else if c == '\n' {
            out.push('\\');
            out.push('n');
        } else {
            out.push(c);
        }
        assert(out@ =~= before + escaped_at(chars@, i as int));
        assert(out@ + escaped_from(chars@, i + 1) =~= before + escaped_from(chars@, i as int));
        i += 1;
    }
    assert(out@ + escaped_from(chars@, i as int) =~= out@);
}

/// `text` as a calendar text value. See [`escaped`].
pub fn escape_text(text: &str) -> (out: String)
    ensures
        out@ == escaped(text@),
{
    let chars = chars_of(text);
    let mut out: Vec<char> = Vec::new();
    push_escaped(&mut out, &chars);
    assert(out@ =~= escaped(chars@));
    string_of(&out)
}

/// The year as a calendar date shows it: four digits, and a sign in front
/// of a year before 0 or after 9999.
pub open spec fn year_text(year: int) -> Seq<char> {
    if 0 <= year <= 9999 {
        padded_text(year as nat, 4)
    } else if year < 0 {
        seq!['-'] + padded_text((-year) as nat, 4)
    } else {
        seq!['+'] + padded_text(year as nat, 4)
    }
}

/// The second as a calendar time shows it: a leap second reads 60.
pub open spec fn shown_second(second: u32, nanosecond: u32) -> nat {
    if nanosecond >= 1_000_000_000 {
        (second + 1) as nat
    } else {
        second as nat
    }
}

/// A UTC date and time in calendar form: `YYYYMMDD`, `T`, `HHMMSS`, `Z`.
pub open spec fn stamp_text(t: CivilDateTime) -> Seq<char> {
    year_text(t.date.year as int) + padded_text(t.date.month as nat, 2) + padded_text(
        t.date.day as nat,
        2,
    ) + seq!['T'] + padded_text(t.time.hour as nat, 2) + padded_text(t.time.minute as nat, 2)
        + padded_text(shown_second(t.time.second, t.time.nanosecond), 2) + seq!['Z']
}

/// A UTC date and time in calendar form. See [`stamp_text`].
pub fn format_stamp(t: &CivilDateTime) -> (out: Vec<char>)
    ensures
        out@ == stamp_text(*t),
{
    let mut out: Vec<char> = Vec::new();
    let year = t.date.year;
    if 0 <= year && year <= 9999 {
        push_padded(&mut out, year as u64, 4);
    } else if year < 0 {
        out.push('-');
        push_padded(&mut out, (-(year as i64)) as u64, 4);
    } else {
        out.push('+');
        push_padded(&mut out, year as u64, 4);
    }
    assert(out@ =~= year_text(year as int));
    push_padded(&mut out, t.date.month as u64, 2);
    push_padded(&mut out, t.date.day as u64, 2);
    out.push('T');
    push_padded(&mut out, t.time.hour as u64, 2);
    push_padded(&mut out, t.time.minute as u64, 2);
    let second: u64 = if t.time.nanosecond >= 1_000_000_000 {
        t.time.second as u64 + 1
    } else {
        t.time.second as u64
    };
    push_padded(&mut out, second, 2);
    out.push('Z');
    assert(out@ =~= stamp_text(*t));
    out
}

/// The UTC reading of a wall-clock time of the source zone, given how the
/// zone maps that time: only a time that the zone has exactly once has a
/// UTC reading. `None` also for a time that is none, and where the UTC
/// reading leaves the calendar.
pub open spec fn utc_given(local: CivilDateTime, offsets: LocalOffset) -> Option<CivilDateTime> {
    match offsets {
        LocalOffset::Single(o) => if local.is_valid() && -86400 < o < 86400 {
            shifted_back(local, o as int)
        } else {
            None
        },
        LocalOffset::Ambiguous(_, _) => None,
        LocalOffset::Missing => None,
    }
}

/// A wall-clock time that the zone skips or has twice has no UTC reading.
pub proof fn lemma_only_a_single_mapping_has_a_utc_reading(
    local: CivilDateTime,
    offsets: LocalOffset,
)
    ensures
        utc_given(local, offsets) is Some ==> offsets is Single,
        utc_given(local, offsets) matches Some(utc) ==> offsets matches LocalOffset::Single(o)
            && Some(utc) == shifted_back(local, o as int),
{
}

/// The UTC reading of a wall-clock time of the source zone.
pub open spec fn utc_of(local: CivilDateTime) -> Option<CivilDateTime> {
    utc_given(local, zone_offsets(SOURCE_ZONE@, local))
}

/// The UTC reading of a wall-clock time, given how the zone maps that
/// time. See [`utc_given`].
pub fn to_utc_given(local: &CivilDateTime, offsets: LocalOffset) -> (utc: Option<CivilDateTime>)
    ensures
        utc == utc_given(*local, offsets),
{
    match offsets {
        LocalOffset::Single(o) => {
            if local.valid() && -86400 < o && o < 86400 {
                local.minus_seconds(o)
            } else {
                None
            }
        },
        LocalOffset::Ambiguous(_, _) => None,
        LocalOffset::Missing => None,
    }
}

/// The UTC reading of a wall-clock time of the source zone.
pub fn to_utc(local: &CivilDateTime) -> (utc: Option<CivilDateTime>)
    ensures
        utc == utc_of(*local),
{
    to_utc_given(local, offsets_at(SOURCE_ZONE, local))
}

/// Where the event takes place: its address, else the venue named on its
/// page, else the location of the listing, else the default.
pub open spec fn location_of(event: EventView) -> Seq<char> {
    match first_present(
        event.address,
        first_present(event.specific_location_name, event.list_specific_location),
    ) {
        Some(l) => l,
        None => DEFAULT_LOCATION@,
    }
}

/// A trimmed text, unless nothing is left of it or its lower-case form
/// `lowered` reads `n/a`.
pub open spec fn kept(text: Seq<char>, lowered: Seq<char>) -> Option<Seq<char>> {
    if text.len() > 0 && lowered != "n/a"@ {
        Some(text)
    } else {
        None
    }
}

/// A text worth showing: trimmed, and dropped where nothing is left or it
/// reads `n/a` in any letter case.
pub open spec fn shown_text(text: Option<Seq<char>>) -> Option<Seq<char>> {
    match text {
        Some(t) => kept(trimmed(t), lowercase_of(trimmed(t))),
        None => None,
    }
}

/// One part of the description: `label` and the text, where there is one.
pub open spec fn labelled(label: Seq<char>, text: Option<Seq<char>>) -> Seq<Seq<char>> {
    match text {
        Some(t) => seq![label + t],
        None => seq![],
    }
}

/// The parts of the description, in order: the description text of the
/// event's page (else of the listing), the price of the event's page (else
/// of the listing), the event's link and the ticket link.
pub open spec fn description_parts(event: EventView) -> Seq<Seq<char>> {
    labelled(seq![], shown_text(first_present(event.full_description, event.short_description)))
        + labelled("Price: "@, shown_text(first_present(event.price, event.list_price)))
        + labelled("More Info: "@, trimmed_nonempty(event.full_url)) + labelled(
        "Buy Tickets: "@,
        trimmed_nonempty(event.ticket_url),
    )
}

/// One content line: name, value, line end.
pub open spec fn line(name: Seq<char>, value: Seq<char>) -> Seq<char> {
    name + value + "\r\n"@
}

/// A content line that is there only with a value.
pub open spec fn optional_line(name: Seq<char>, value: Option<Seq<char>>) -> Seq<char> {
    match value {
        Some(v) => line(name, v),
        None => seq![],
    }
}

/// The description line: the parts, an empty line between neighbours, as
/// one text value; nothing without parts.
pub open spec fn description_line(event: EventView) -> Seq<char> {
    let parts = description_parts(event);
    if parts.len() > 0 {
        line("DESCRIPTION:"@, escaped(joined(parts, "\n\n"@)))
    } else {
        seq![]
    }
}

/// The location line; nothing where the location is empty.
pub open spec fn location_line(event: EventView) -> Seq<char> {
    if location_of(event).len() > 0 {
        line("LOCATION:"@, escaped(location_of(event)))
    } else {
        seq![]
    }
}

/// The calendar document of an event, given the texts of its time stamps.
pub open spec fn calendar_text(
    event: EventView,
    stamp: Seq<char>,
    start: Seq<char>,
    end: Option<Seq<char>>,
) -> Seq<char> {
    HEADER@ + line("UID:"@, escaped(event.id)) + line("DTSTAMP:"@, stamp) + line("DTSTART:"@, start)
        + optional_line("DTEND:"@, end) + line("SUMMARY:"@, escaped(event.title)) + location_line(
        event,
    ) + optional_line("URL:"@, trimmed_nonempty(event.full_url)) + optional_line(
        "X-TICKET-URL:"@,
        trimmed_nonempty(event.ticket_url),
    ) + description_line(event) + FOOTER@
}

/// The end to write: the event's end, where it is later than its start.
pub open spec fn end_to_write(event: EventView) -> Option<CivilDateTime> {
    match (event.start_datetime, event.end_datetime) {
        (Some(s), Some(e)) => if s.is_valid() && e.is_valid() && s.is_before(e) {
            Some(e)
        } else {
            None
        },
        _ => None,
    }
}

/// The calendar document of an event written at `stamp` (UTC), or the
/// reason why there is none.
///
/// The event must have a start, and the start (and the end, where one is
/// written) must be a wall-clock time that the source zone has exactly
/// once.
pub open spec fn calendar_of(event: EventView, stamp: CivilDateTime) -> Result<
    Seq<char>,
    CalendarError,
> {
    match event.start_datetime {
        None => Err(CalendarError::MissingStart),
        Some(start) => match utc_of(start) {
            None => Err(CalendarError::UnresolvableStart),
            Some(start_utc) => match end_to_write(event) {
                None => Ok(
                    calendar_text(event, stamp_text(stamp), stamp_text(start_utc), None),
                ),
                Some(end) => match utc_of(end) {
                    None => Err(CalendarError::UnresolvableEnd),
                    Some(end_utc) => Ok(
                        calendar_text(
                            event,
                            stamp_text(stamp),
                            stamp_text(start_utc),
                            Some(stamp_text(end_utc)),
                        ),
                    ),
                },
            },
        },
    }
}

/// What an outcome holds, as plain text.
pub open spec fn outcome_text(outcome: Result<String, CalendarError>) -> Result<
    Seq<char>,
    CalendarError,
> {
    match outcome {
        Ok(text) => Ok(text@),
        Err(e) => Err(e),
    }
}

/// A trimmed text, unless nothing is left of it or its lower-case form reads
/// `n/a`. See [`kept`].
pub fn keep_text(text: Vec<char>, lowered: &str) -> (out: Option<Vec<char>>)
    ensures
        match out {
            Some(t) => kept(text@, lowered@) == Some(t@),
            None => kept(text@, lowered@) is None,
        },
{
    let placeholder = chars_of("n/a");
    let low = chars_of(lowered);
    if text.len() > 0 && !crate::text::same_chars(&low, &placeholder) {
        Some(text)
    } else {
        None
    }
}

/// A text worth showing. See [`shown_text`].
fn text_to_show(text: &Option<String>) -> (out: Option<Vec<char>>)
    ensures
        match out {
            Some(t) => shown_text(optional_text(*text)) == Some(t@),
            None => shown_text(optional_text(*text)) is None,
        },
{
    match text {
        Some(t) => {
            let chars = chars_of(t.as_str());
            let kept_chars = trim_chars(&chars);
            let as_string = string_of(&kept_chars);
            let lowered = to_lowercase(as_string.as_str());
            keep_text(kept_chars, lowered.as_str())
        },
        None => None,
    }
}

/// A link worth showing: trimmed, and dropped where nothing is left.
fn link_to_show(link: &Option<String>) -> (out: Option<Vec<char>>)
    ensures
        match out {
            Some(t) => trimmed_nonempty(optional_text(*link)) == Some(t@),
            None => trimmed_nonempty(optional_text(*link)) is None,
        },
{
    match trim_nonempty(link) {
        Some(kept) => Some(chars_of(kept.as_str())),
        None => None,
    }
}

/// Appends one part of the description, where there is a text for it.
fn push_part(parts: &mut Vec<Vec<char>>, label: &str, text: &Option<Vec<char>>)
    ensures
        texts(final(parts)@) == texts(old(parts)@) + labelled(
            label@,
            match *text {
                Some(t) => Some(t@),
                None => None,
            },
        ),
{
    match text {
        Some(t) => {
            let mut part = chars_of(label);
            append_range(&mut part, t, 0, t.len());
            assert(t@.subrange(0, t.len() as int) =~= t@);
            let ghost before = texts(parts@);
            parts.push(part);
            assert(texts(parts@) =~= before + seq![label@ + t@]);
        },
        None => {
            assert(texts(parts@) =~= texts(parts@) + Seq::<Seq<char>>::empty());
        },
    }
}

/// Appends one content line.
fn push_line(out: &mut Vec<char>, name: &str, value: &Vec<char>)
    ensures
        final(out)@ == old(out)@ + line(name@, value@),
{
    append_str(out, name);
    append_range(out, value, 0, value.len());
    assert(value@.subrange(0, value.len() as int) =~= value@);
    append_str(out, "\r\n");
    assert(out@ =~= old(out)@ + line(name@, value@));
}

/// Appends one content line whose value is written as a text value.
fn push_text_line(out: &mut Vec<char>, name: &str, value: &Vec<char>)
    ensures
        final(out)@ == old(out)@ + line(name@, escaped(value@)),
{
    append_str(out, name);
    push_escaped(out, value);
    append_str(out, "\r\n");
    assert(out@ =~= old(out)@ + line(name@, escaped(value@)));
}

/// Appends a content line that is there only with a value.
fn push_optional_line(out: &mut Vec<char>, name: &str, value: &Option<Vec<char>>)
    ensures
        final(out)@ == old(out)@ + optional_line(
            name@,
            match *value {
                Some(v) => Some(v@),
                None => None,
            },
        ),
{
    match value {
        Some(v) => push_line(out, name, v),
        None => {
            assert(out@ =~= out@ + Seq::<char>::empty());
        },
    }
}

/// Where the event takes place. See [`location_of`].
pub fn location(event: &Event) -> (place: Vec<char>)
    ensures
        place@ == location_of(event@),
{
    match first_string(
        &event.address,
        first_string(&event.specific_location_name, &event.list_specific_location),
    ) {
        Some(l) => chars_of(l.as_str()),
        None => chars_of(DEFAULT_LOCATION),
    }
}

/// The parts of the description. See [`description_parts`].
pub fn describe_event(event: &Event) -> (parts: Vec<Vec<char>>)
    ensures
        texts(parts@) == description_parts(event@),
{
    let mut parts: Vec<Vec<char>> = Vec::new();
    assert(texts(parts@) =~= Seq::<Seq<char>>::empty());
    let text = text_to_show(first_string(&event.full_description, &event.short_description));
    push_part(&mut parts, "", &text);
    proof {
        reveal_strlit("");
        assert(""@ =~= Seq::<char>::empty());
    }
    let price = text_to_show(first_string(&event.price, &event.list_price));
    push_part(&mut parts, "Price: ", &price);
    let more = link_to_show(&event.full_url);
    push_part(&mut parts, "More Info: ", &more);
    let tickets = link_to_show(&event.ticket_url);
    push_part(&mut parts, "Buy Tickets: ", &tickets);
    assert(texts(parts@) =~= description_parts(event@));
    parts
}

/// The calendar document of an event, given its time stamp, its start and
/// the end to write, all three in UTC. See [`calendar_text`].
pub fn render_calendar(
    event: &Event,
    stamp: &CivilDateTime,
    start: &CivilDateTime,
    end: Option<CivilDateTime>,
) -> (out: String)
    ensures
        out@ == calendar_text(
            event@,
            stamp_text(*stamp),
            stamp_text(*start),
            match end {
                Some(e) => Some(stamp_text(e)),
                None => None,
            },
        ),
{
    let mut out = chars_of(HEADER);
    push_text_line(&mut out, "UID:", &chars_of(event.id.as_str()));
    push_line(&mut out, "DTSTAMP:", &format_stamp(stamp));
    push_line(&mut out, "DTSTART:", &format_stamp(start));
    let end_text = match end {
        Some(e) => Some(format_stamp(&e)),
        None => None,
    };
    push_optional_line(&mut out, "DTEND:", &end_text);
    push_text_line(&mut out, "SUMMARY:", &chars_of(event.title.as_str()));
    let place = location(event);
    if place.len() > 0 {
        push_text_line(&mut out, "LOCATION:", &place);
    } else {
        assert(out@ =~= out@ + location_line(event@));
    }
    push_optional_line(&mut out, "URL:", &link_to_show(&event.full_url));
    push_optional_line(&mut out, "X-TICKET-URL:", &link_to_show(&event.ticket_url));
    let parts = describe_event(event);
    if parts.len() > 0 {
        let text = join_chars(&parts, "\n\n");
        push_text_line(&mut out, "DESCRIPTION:", &text);
    } else {
        assert(out@ =~= out@ + description_line(event@));
    }
    append_str(&mut out, FOOTER);
    string_of(&out)
}

/// The calendar document of an event written at `stamp` (UTC), or the
/// reason why there is none. See [`calendar_of`].
pub fn generate_ics_at(event: &Event, stamp: &CivilDateTime) -> (outcome: Result<
    String,
    CalendarError,
>)
    ensures
        outcome_text(outcome) == calendar_of(event@, *stamp),
        outcome == Err::<String, CalendarError>(CalendarError::MissingStart)
            <==> event.start_datetime is None,
{
    let start = match event.start_datetime {
        Some(start) => start,
        None => return Err(CalendarError::MissingStart),
    };
    let start_utc = match to_utc(&start) {
        Some(utc) => utc,
        None => return Err(CalendarError::UnresolvableStart),
    };
    let end_utc = match event.end_datetime {
        Some(end) => {
            if start.valid() && end.valid() && start.before(&end) {
                match to_utc(&end) {
                    Some(utc) => Some(utc),
                    None => return Err(CalendarError::UnresolvableEnd),
                }
            } else {
                None
            }
        },
        None => None,
    };
    Ok(render_calendar(event, stamp, &start_utc, end_utc))
}

/// The calendar document of an event, stamped with the current time, or the
/// reason why there is none: an event without a start has no document.
pub fn generate_ics(event: &Event) -> (outcome: Result<String, CalendarError>)
    ensures
        exists|stamp: CivilDateTime|
            stamp.is_valid() && outcome_text(outcome) == calendar_of(event@, stamp),
        outcome == Err::<String, CalendarError>(CalendarError::MissingStart)
            <==> event.start_datetime is None,
{
    let now = crate::clock::utc_now();
    generate_ics_at(event, &now.civil)
}

} // verus!

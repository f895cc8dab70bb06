//! The event record and the progress report of a listing scrape.

use crate::civil::CivilDateTime;
use crate::text::optional_text;
use vstd::prelude::*;
use vstd::string::*;

verus! {

/// Title of an event that has none yet.
pub open spec fn untitled() -> Seq<char> {
    "N/A"@
}

/// One event, from the listing and, once visited, from its own page.
///
/// Coordinates are kept as the decimal texts they were published as.
#[derive(Clone, Debug)]
pub struct Event {
    pub id: String,
    pub title: String,
    pub url_suffix: Option<String>,
    pub full_url: Option<String>,
    pub date_time_summary: Option<String>,
    pub list_date: Option<String>,
    pub start_datetime: Option<CivilDateTime>,
    pub end_datetime: Option<CivilDateTime>,
    pub datetime_str_raw_detail: Option<String>,
    pub short_description: Option<String>,
    pub full_description: Option<String>,
    pub image_url: Option<String>,
    pub list_specific_location: Option<String>,
    pub specific_location_name: Option<String>,
    pub address: Option<String>,
    pub latitude: Option<String>,
    pub longitude: Option<String>,
    pub list_price: Option<String>,
    pub price: Option<String>,
    pub ticket_url: Option<String>,
    pub detail_page_content: Option<String>,
}

/// What an [`Event`] holds, as plain text and values.
pub struct EventView {
    pub id: Seq<char>,
    pub title: Seq<char>,
    pub url_suffix: Option<Seq<char>>,
    pub full_url: Option<Seq<char>>,
    pub date_time_summary: Option<Seq<char>>,
    pub list_date: Option<Seq<char>>,
    pub start_datetime: Option<CivilDateTime>,
    pub end_datetime: Option<CivilDateTime>,
    pub datetime_str_raw_detail: Option<Seq<char>>,
    pub short_description: Option<Seq<char>>,
    pub full_description: Option<Seq<char>>,
    pub image_url: Option<Seq<char>>,
    pub list_specific_location: Option<Seq<char>>,
    pub specific_location_name: Option<Seq<char>>,
    pub address: Option<Seq<char>>,
    pub latitude: Option<Seq<char>>,
    pub longitude: Option<Seq<char>>,
    pub list_price: Option<Seq<char>>,
    pub price: Option<Seq<char>>,
    pub ticket_url: Option<Seq<char>>,
    pub detail_page_content: Option<Seq<char>>,
}

impl View for Event {
    type V = EventView;

    open spec fn view(&self) -> EventView {
        EventView {
            id: self.id@,
            title: self.title@,
            url_suffix: optional_text(self.url_suffix),
            full_url: optional_text(self.full_url),
            date_time_summary: optional_text(self.date_time_summary),
            list_date: optional_text(self.list_date),
            start_datetime: self.start_datetime,
            end_datetime: self.end_datetime,
            datetime_str_raw_detail: optional_text(self.datetime_str_raw_detail),
            short_description: optional_text(self.short_description),
            full_description: optional_text(self.full_description),
            image_url: optional_text(self.image_url),
            list_specific_location: optional_text(self.list_specific_location),
            specific_location_name: optional_text(self.specific_location_name),
            address: optional_text(self.address),
            latitude: optional_text(self.latitude),
            longitude: optional_text(self.longitude),
            list_price: optional_text(self.list_price),
            price: optional_text(self.price),
            ticket_url: optional_text(self.ticket_url),
            detail_page_content: optional_text(self.detail_page_content),
        }
    }
}

/// An event with the given id and title and nothing else.
pub open spec fn bare_event(id: Seq<char>, title: Seq<char>) -> EventView {
    EventView {
        id,
        title,
        url_suffix: None,
        full_url: None,
        date_time_summary: None,
        list_date: None,
        start_datetime: None,
        end_datetime: None,
        datetime_str_raw_detail: None,
        short_description: None,
        full_description: None,
        image_url: None,
        list_specific_location: None,
        specific_location_name: None,
        address: None,
        latitude: None,
        longitude: None,
        list_price: None,
        price: None,
        ticket_url: None,
        detail_page_content: None,
    }
}

/// Whether a text has the shape of an id in hyphenated form: 36 characters,
/// with a hyphen after the 8th, 12th, 16th and 20th of the other 32.
pub open spec fn is_hyphenated(id: Seq<char>) -> bool {
    &&& id.len() == 36
    &&& id[8] == '-'
    &&& id[13] == '-'
    &&& id[18] == '-'
    &&& id[23] == '-'
}

/// `Uuid::new_v4` of the uuid crate, written out in its usual hyphenated
/// form. The value is random; what holds of every one is its shape.
#[verifier::external_body]
fn random_id() -> (id: String)
    ensures
        is_hyphenated(id@),
{
    uuid::Uuid::new_v4().to_string()
}

impl Event {
    /// An event with the given id, the placeholder title and nothing else.
    pub fn with_id(id: String) -> (event: Event)
        ensures
            event@ == bare_event(id@, untitled()),
    {
        let title = String::from_str("N/A");
        assert(title@ =~= untitled());
        Event {
            id,
            title,
            url_suffix: None,
            full_url: None,
            date_time_summary: None,
            list_date: None,
            start_datetime: None,
            end_datetime: None,
            datetime_str_raw_detail: None,
            short_description: None,
            full_description: None,
            image_url: None,
            list_specific_location: None,
            specific_location_name: None,
            address: None,
            latitude: None,
            longitude: None,
            list_price: None,
            price: None,
            ticket_url: None,
            detail_page_content: None,
        }
    }
}

impl Default for Event {
    /// An event with a fresh random id, the placeholder title and nothing
    /// else.
    fn default() -> (event: Event)
        ensures
            event@ == bare_event(event.id@, untitled()),
            is_hyphenated(event.id@),
    {
        Event::with_id(random_id())
    }
}

/// The state of a listing scrape, reported after each page and once at the
/// end.
#[derive(Clone, Debug)]
pub struct ScrapingProgress {
    pub current_page: u32,
    pub total_pages_estimate: u32,
    pub events_on_current_page: u32,
    pub total_events_scraped: u32,
    pub message: String,
}

/// What a [`ScrapingProgress`] holds, as plain text and values.
pub struct ScrapingProgressView {
    pub current_page: u32,
    pub total_pages_estimate: u32,
    pub events_on_current_page: u32,
    pub total_events_scraped: u32,
    pub message: Seq<char>,
}

impl View for ScrapingProgress {
    type V = ScrapingProgressView;

    open spec fn view(&self) -> ScrapingProgressView {
        ScrapingProgressView {
            current_page: self.current_page,
            total_pages_estimate: self.total_pages_estimate,
            events_on_current_page: self.events_on_current_page,
            total_events_scraped: self.total_events_scraped,
            message: self.message@,
        }
    }
}

} // verus!

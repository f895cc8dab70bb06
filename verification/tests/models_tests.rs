use eindhoven_events::models::{Event, ScrapingProgress};

#[test]
fn a_default_event_is_empty_but_for_id_and_title() {
    let event = Event::default();
    assert_eq!(event.title, "N/A");
    assert_eq!(event.id.len(), 36);
    assert_eq!(event.id.matches('-').count(), 4);
    for at in [8, 13, 18, 23] {
        assert_eq!(event.id.as_bytes()[at], b'-');
    }
    assert!(event.url_suffix.is_none());
    assert!(event.full_url.is_none());
    assert!(event.date_time_summary.is_none());
    assert!(event.list_date.is_none());
    assert!(event.start_datetime.is_none());
    assert!(event.end_datetime.is_none());
    assert!(event.datetime_str_raw_detail.is_none());
    assert!(event.short_description.is_none());
    assert!(event.full_description.is_none());
    assert!(event.image_url.is_none());
    assert!(event.list_specific_location.is_none());
    assert!(event.specific_location_name.is_none());
    assert!(event.address.is_none());
    assert!(event.latitude.is_none());
    assert!(event.longitude.is_none());
    assert!(event.list_price.is_none());
    assert!(event.price.is_none());
    assert!(event.ticket_url.is_none());
    assert!(event.detail_page_content.is_none());
}

#[test]
fn default_events_have_ids_of_their_own() {
    assert_ne!(Event::default().id, Event::default().id);
}

#[test]
fn an_event_with_a_given_id() {
    let event = Event::with_id("/en/events/x".to_string());
    assert_eq!(event.id, "/en/events/x");
    assert_eq!(event.title, "N/A");
    assert!(event.url_suffix.is_none());
}

#[test]
fn progress_holds_its_fields() {
    let progress = ScrapingProgress {
        current_page: 2,
        total_pages_estimate: 7,
        events_on_current_page: 12,
        total_events_scraped: 24,
        message: "Scraping page 2...".to_string(),
    };
    assert_eq!(progress.current_page, 2);
    assert_eq!(progress.total_pages_estimate, 7);
    assert_eq!(progress.events_on_current_page, 12);
    assert_eq!(progress.total_events_scraped, 24);
    assert_eq!(progress.message, "Scraping page 2...");
}

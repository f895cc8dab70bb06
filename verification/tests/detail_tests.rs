use eindhoven_events::civil::{CivilDate, CivilDateTime, CivilTime};
use eindhoven_events::detail::{
    apply_detail, apply_detail_page, assemble_address, enrich_event, find_ticket_link,
    is_ticket_text, join_text_nodes, AddressSnapshot, ButtonSnapshot, DetailSnapshot,
    HeroSnapshot, TextSnapshot,
};
use eindhoven_events::listing::LabelSnapshot;
use eindhoven_events::models::Event;

const PAGE: &str = r#"<!DOCTYPE html>
<html><body>
<div class="card-hero-metadata__content">
  <h1> Jazz Night Deluxe </h1>
  <div class="text">
    <p>Full description here.</p>
    <p>Second paragraph.</p>
    <ul class="list-with-icons">
      <li><span class="tie-icon-calendar"></span> Wednesday 28 May, Starts at 19:00 - 23:00 </li>
      <li><span class="tie-icon-euro"></span> € 15 <b>not counted</b> incl. drink</li>
      <li><span class="tie-icon-pin"></span>
          Jazz Club
      </li>
      <li><span class="tie-icon-pin">ignored</span></li>
    </ul>
  </div>
  <div class="card-hero-metadata__buttons-inner">
    <a class="button" href="/en/more">More information</a>
    <a class="button" href="   ">Tickets</a>
    <a class="button" href=" https://tickets.example.org/jazz ">BUY TICKETS now</a>
    <a class="button" href="https://tickets.example.org/other">Tickets</a>
  </div>
</div>
<div itemprop="address" itemtype="https://schema.org/PostalAddress">
  <span itemprop="streetAddress"> Street 1 </span>
  <span itemprop="postalCode">5611 AB</span>
  <span itemprop="addressLocality">Eindhoven</span>
</div>
<div class="maps-container" data-src="https://maps.example.org/embed?center=51.4416,5.4697"></div>
</body></html>"#;

fn some(text: &str) -> Option<String> {
    Some(text.to_string())
}

fn at(year: i32, month: u32, day: u32, hour: u32, minute: u32) -> CivilDateTime {
    CivilDateTime {
        date: CivilDate { year, month, day },
        time: CivilTime { hour, minute, second: 0, nanosecond: 0 },
    }
}

fn listed() -> Event {
    let mut event = Event::with_id("/en/events/jazz-night".to_string());
    event.title = "Jazz Night".to_string();
    event.url_suffix = some("/en/events/jazz-night");
    event.full_url = some("https://www.thisiseindhoven.com/en/events/jazz-night");
    event.list_date = some("28 May 2025");
    event.list_specific_location = some("Stratumseind");
    event.list_price = some("€ 12,50");
    event.short_description = some("Live music all evening.");
    event
}

fn item(text: &str, calendar: bool, euro: bool, pin: bool) -> LabelSnapshot {
    LabelSnapshot { text: text.to_string(), pin, calendar, euro }
}

fn empty_detail() -> DetailSnapshot {
    DetailSnapshot { hero: None, address: None, map_reference: None, buttons: Vec::new() }
}

fn button(text: &str, href: Option<&str>) -> ButtonSnapshot {
    ButtonSnapshot { text: text.to_string(), href: href.map(str::to_string) }
}

#[test]
fn the_page_of_an_event() {
    let outcome = apply_detail_page(listed(), PAGE, 2031);
    assert_eq!(
        outcome.map_reference,
        some("https://maps.example.org/embed?center=51.4416,5.4697")
    );
    let event = outcome.event;
    assert_eq!(event.id, "/en/events/jazz-night");
    assert_eq!(event.title, "Jazz Night Deluxe");
    assert_eq!(event.full_description, some("Full description here."));
    assert_eq!(event.short_description, some("Live music all evening."));
    assert_eq!(
        event.datetime_str_raw_detail,
        some("Wednesday 28 May, Starts at 19:00 - 23:00")
    );
    assert_eq!(event.start_datetime, Some(at(2025, 5, 28, 19, 0)));
    assert_eq!(event.end_datetime, Some(at(2025, 5, 28, 23, 0)));
    assert_eq!(event.price, some("€ 15 incl. drink"));
    assert_eq!(event.list_price, some("€ 12,50"));
    assert_eq!(event.specific_location_name, some("Jazz Club"));
    assert_eq!(event.address, some("Jazz Club, Street 1, 5611 AB, Eindhoven"));
    assert_eq!(event.ticket_url, some("https://tickets.example.org/jazz"));
    assert_eq!(event.latitude, None);
}

#[test]
fn a_page_without_anything_leaves_the_event_as_it_was() {
    let outcome = apply_detail_page(listed(), "<html><body></body></html>", 2031);
    assert_eq!(outcome.map_reference, None);
    let event = outcome.event;
    assert_eq!(event.title, "Jazz Night");
    assert_eq!(event.full_description, None);
    assert_eq!(event.start_datetime, None);
    assert_eq!(event.address, None);
    assert_eq!(event.ticket_url, None);
    assert_eq!(event.list_date, some("28 May 2025"));
}

#[test]
fn todays_year_stands_in_on_the_page_too() {
    let mut event = listed();
    event.list_date = some("28 May");
    let outcome = enrich_event(event, PAGE);
    let start = outcome.event.start_datetime.unwrap();
    assert_eq!((start.date.month, start.date.day), (5, 28));
    assert_eq!((start.time.hour, start.time.minute), (19, 0));
    assert!(start.date.year >= 2025);
}

#[test]
fn text_of_a_line_item() {
    let nodes = vec![
        None,
        some("  "),
        some(" € 15 "),
        None,
        some("\n"),
        some("incl. drink\t"),
    ];
    assert_eq!(join_text_nodes(&nodes), "€ 15 incl. drink");
    assert_eq!(join_text_nodes(&Vec::new()), "");
    assert_eq!(join_text_nodes(&vec![some(" ")]), "");
    assert_eq!(join_text_nodes(&vec![None, None]), "");
    assert_eq!(join_text_nodes(&vec![some("a"), None, some("b")]), "a b");
}

#[test]
fn items_count_by_their_first_icon() {
    let mut detail = empty_detail();
    detail.hero = Some(HeroSnapshot {
        heading: None,
        text: Some(TextSnapshot {
            paragraph: None,
            items: vec![
                item("1 April, 23:00 - 01:00", true, true, true),
                item("€ 5", false, true, true),
                item("Venue", false, false, true),
                item("", true, false, false),
                item("no icon", false, false, false),
            ],
        }),
    });
    let mut event = listed();
    event.full_description = some("kept");
    let out = apply_detail(event, &detail, 2031);
    assert_eq!(out.title, "Jazz Night");
    assert_eq!(out.full_description, some("kept"));
    assert_eq!(out.datetime_str_raw_detail, some("1 April, 23:00 - 01:00"));
    assert_eq!(out.start_datetime, Some(at(2025, 4, 1, 23, 0)));
    assert_eq!(out.end_datetime, Some(at(2025, 4, 2, 1, 0)));
    assert_eq!(out.price, some("€ 5"));
    assert_eq!(out.specific_location_name, some("Venue"));
    assert_eq!(out.address, None);
}

#[test]
fn a_date_line_that_cannot_be_resolved_clears_start_and_end() {
    let mut detail = empty_detail();
    detail.hero = Some(HeroSnapshot {
        heading: some(""),
        text: Some(TextSnapshot {
            paragraph: some("new"),
            items: vec![item("to be announced", true, false, false)],
        }),
    });
    let mut event = listed();
    event.list_date = None;
    event.start_datetime = Some(at(2025, 1, 1, 10, 0));
    event.end_datetime = Some(at(2025, 1, 1, 11, 0));
    let out = apply_detail(event, &detail, 2031);
    assert_eq!(out.title, "");
    assert_eq!(out.full_description, some("new"));
    assert_eq!(out.datetime_str_raw_detail, some("to be announced"));
    assert_eq!(out.start_datetime, None);
    assert_eq!(out.end_datetime, None);
}

#[test]
fn address_starts_from_the_most_specific_location() {
    let address = AddressSnapshot {
        street: some("Street 1"),
        postal_code: some("5611 AB"),
        locality: some("Eindhoven"),
    };
    assert_eq!(
        assemble_address(&some("Club"), &address),
        some("Club, Street 1, 5611 AB, Eindhoven")
    );
    assert_eq!(assemble_address(&None, &address), some("Street 1, 5611 AB, Eindhoven"));
    let mut detail = empty_detail();
    detail.address = Some(address);
    let out = apply_detail(listed(), &detail, 2031);
    assert_eq!(out.address, some("Stratumseind, Street 1, 5611 AB, Eindhoven"));
}

#[test]
fn address_parts_are_not_repeated() {
    let address = AddressSnapshot {
        street: some("Eindhoven"),
        postal_code: some("Eindhoven"),
        locality: some("Eindhoven"),
    };
    assert_eq!(assemble_address(&some("Eindhoven"), &address), some("Eindhoven"));
    let address = AddressSnapshot { street: some("Street 1"), postal_code: None, locality: some("Street 1") };
    assert_eq!(assemble_address(&some("Club"), &address), some("Club, Street 1"));
}

#[test]
fn an_empty_address_block_keeps_the_address() {
    let address = AddressSnapshot { street: None, postal_code: None, locality: None };
    assert_eq!(assemble_address(&None, &address), None);
    let mut detail = empty_detail();
    detail.address = Some(address);
    let mut event = listed();
    event.list_specific_location = None;
    event.address = some("as before");
    assert_eq!(apply_detail(event, &detail, 2031).address, some("as before"));
}

#[test]
fn ticket_texts() {
    assert!(is_ticket_text("buy ticket"));
    assert!(is_ticket_text("get your tickets"));
    assert!(is_ticket_text("buy tickets here"));
    assert!(!is_ticket_text("ticket"));
    assert!(!is_ticket_text("more information"));
    assert!(!is_ticket_text("Buy Tickets"));
    assert!(!is_ticket_text(""));
}

#[test]
fn first_ticket_button_that_leads_somewhere_wins() {
    let buttons = vec![
        button("Website", Some("https://example.org")),
        button("TICKETS", None),
        button("Tickets", Some("  ")),
        button("Buy Ticket", Some(" https://t.example.org/1 ")),
        button("Tickets", Some("https://t.example.org/2")),
    ];
    assert_eq!(find_ticket_link(&buttons), some("https://t.example.org/1"));
    assert_eq!(find_ticket_link(&vec![button("Website", Some("https://example.org"))]), None);
    assert_eq!(find_ticket_link(&Vec::new()), None);
}

#[test]
fn a_page_without_ticket_button_keeps_the_ticket_link() {
    let mut event = listed();
    event.ticket_url = some("https://old.example.org");
    let out = apply_detail(event, &empty_detail(), 2031);
    assert_eq!(out.ticket_url, some("https://old.example.org"));
    assert_eq!(out.title, "Jazz Night");
}

#[test]
fn the_first_map_and_the_first_button_region_count() {
    let outcome = apply_detail_page(
        listed(),
        r#"<html><body>
<div class="maps-container" data-src="one"></div>
<div class="maps-container" data-src="two"></div>
<div class="card-hero-metadata__buttons-inner"><a class="button" href="/en/more">More</a></div>
<div class="card-hero-metadata__buttons-inner">
  <a class="button" href="https://tickets.example.org/late">Tickets</a>
</div>
</body></html>"#,
        2031,
    );
    assert_eq!(outcome.map_reference, some("one"));
    assert_eq!(outcome.event.ticket_url, listed().ticket_url);
    assert_eq!(outcome.event.title, listed().title);
}

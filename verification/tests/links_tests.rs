use eindhoven_events::links::{
    choose_source, make_absolute_url, parse_image_url_from_srcset, parse_source_entry,
    parse_source_set, SourceEntry, WidthHint,
};

const BASE: &str = "https://www.thisiseindhoven.com";

fn entry(url: &str, width: WidthHint) -> SourceEntry {
    SourceEntry { url: url.to_string(), width }
}

#[test]
fn absolute_links_stay_as_they_are() {
    assert_eq!(
        make_absolute_url(BASE, "https://cdn.example.org/a.jpg").as_deref(),
        Some("https://cdn.example.org/a.jpg")
    );
    assert_eq!(
        make_absolute_url(BASE, "http://cdn.example.org/a b.jpg").as_deref(),
        Some("http://cdn.example.org/a b.jpg")
    );
}

#[test]
fn protocol_relative_links_get_the_scheme() {
    assert_eq!(
        make_absolute_url(BASE, "//cdn.example.org/a.jpg").as_deref(),
        Some("https://cdn.example.org/a.jpg")
    );
}

#[test]
fn relative_links_are_resolved_against_the_base() {
    assert_eq!(
        make_absolute_url(BASE, "/en/events/x").as_deref(),
        Some("https://www.thisiseindhoven.com/en/events/x")
    );
    assert_eq!(
        make_absolute_url("https://example.org/a/b.html", "c.png").as_deref(),
        Some("https://example.org/a/c.png")
    );
    assert_eq!(
        make_absolute_url("https://example.org/a/b/", "../c.png").as_deref(),
        Some("https://example.org/a/c.png")
    );
}

#[test]
fn a_base_that_is_no_url_resolves_nothing() {
    assert_eq!(make_absolute_url("not a url", "c.png"), None);
    assert_eq!(
        make_absolute_url("not a url", "https://example.org/c.png").as_deref(),
        Some("https://example.org/c.png")
    );
}

#[test]
fn widest_source_is_chosen_and_resolved() {
    assert_eq!(
        parse_image_url_from_srcset("a.jpg 400w, b.jpg 800w, c.jpg", BASE).as_deref(),
        Some("https://www.thisiseindhoven.com/b.jpg")
    );
}

#[test]
fn first_source_is_chosen_without_widths() {
    assert_eq!(
        parse_image_url_from_srcset("/img/a.jpg, /img/b.jpg 2x", BASE).as_deref(),
        Some("https://www.thisiseindhoven.com/img/a.jpg")
    );
}

#[test]
fn width_wins_over_an_earlier_source_without_width() {
    assert_eq!(
        parse_image_url_from_srcset("c.jpg, a.jpg 400w", BASE).as_deref(),
        Some("https://www.thisiseindhoven.com/a.jpg")
    );
}

#[test]
fn first_of_equal_widths_is_chosen() {
    assert_eq!(
        parse_image_url_from_srcset("a.jpg 800w, b.jpg 800w", BASE).as_deref(),
        Some("https://www.thisiseindhoven.com/a.jpg")
    );
}

#[test]
fn empty_or_unusable_source_sets_give_nothing() {
    assert_eq!(parse_image_url_from_srcset("", BASE), None);
    assert_eq!(parse_image_url_from_srcset(" , ,", BASE), None);
    assert_eq!(parse_image_url_from_srcset("a.jpg xw", BASE), None);
    assert_eq!(parse_image_url_from_srcset("a.jpg w, b.jpg 1.5w", BASE), None);
}

#[test]
fn every_width_that_reads_as_a_number_counts() {
    assert_eq!(
        parse_image_url_from_srcset("a.jpg 0w", BASE).as_deref(),
        Some("https://www.thisiseindhoven.com/a.jpg")
    );
    assert_eq!(
        parse_image_url_from_srcset("c.jpg, a.jpg 0w", BASE).as_deref(),
        Some("https://www.thisiseindhoven.com/a.jpg")
    );
    assert_eq!(
        parse_image_url_from_srcset("a.jpg xw, b.jpg -5w", BASE).as_deref(),
        Some("https://www.thisiseindhoven.com/b.jpg")
    );
    assert_eq!(
        parse_image_url_from_srcset("a.jpg -5w, b.jpg 0w, c.jpg", BASE).as_deref(),
        Some("https://www.thisiseindhoven.com/b.jpg")
    );
}

#[test]
fn entries_of_a_source_set() {
    let entries = parse_source_set("a.jpg 400w, b.jpg 1.5x ,, c.jpg  800ww extra ,d.jpg w");
    let seen: Vec<(String, WidthHint)> =
        entries.into_iter().map(|e| (e.url, e.width)).collect();
    assert_eq!(
        seen,
        vec![
            ("a.jpg".to_string(), WidthHint::Declared(Some(400))),
            ("b.jpg".to_string(), WidthHint::Undeclared),
            ("c.jpg".to_string(), WidthHint::Declared(Some(800))),
            ("d.jpg".to_string(), WidthHint::Declared(None)),
        ]
    );
}

#[test]
fn one_entry() {
    let piece: Vec<char> = "  pic.png   640w ".chars().collect();
    let entry = parse_source_entry(&piece).unwrap();
    assert_eq!(entry.url, "pic.png");
    assert_eq!(entry.width, WidthHint::Declared(Some(640)));
    let blank: Vec<char> = "   ".chars().collect();
    assert!(parse_source_entry(&blank).is_none());
}

#[test]
fn choosing_among_entries() {
    assert_eq!(choose_source(&Vec::new()), None);
    let entries = vec![
        entry("a", WidthHint::Undeclared),
        entry("b", WidthHint::Declared(Some(100))),
        entry("c", WidthHint::Declared(Some(300))),
        entry("d", WidthHint::Declared(Some(300))),
        entry("e", WidthHint::Declared(None)),
    ];
    assert_eq!(choose_source(&entries), Some(2));
    let entries = vec![
        entry("a", WidthHint::Declared(Some(0))),
        entry("b", WidthHint::Declared(None)),
        entry("c", WidthHint::Undeclared),
        entry("d", WidthHint::Undeclared),
    ];
    assert_eq!(choose_source(&entries), Some(0));
    let entries = vec![
        entry("a", WidthHint::Declared(None)),
        entry("b", WidthHint::Undeclared),
        entry("c", WidthHint::Undeclared),
    ];
    assert_eq!(choose_source(&entries), Some(1));
    let entries = vec![entry("a", WidthHint::Declared(Some(-1)))];
    assert_eq!(choose_source(&entries), Some(0));
    let entries = vec![entry("a", WidthHint::Declared(None))];
    assert_eq!(choose_source(&entries), None);
}

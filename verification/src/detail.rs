//! The page of one event: what it adds to the event that the listing gave.
//!
//! As with the listing, the page is first copied out as a
//! [`DetailSnapshot`]; the rules work on that record alone.

use crate::civil::{CivilDateTime, MAX_YEAR, MIN_YEAR};
use crate::datetime::{resolve_event_datetimes, resolved};
use crate::html::{
    attribute, attribute_value, children_text, element_children, first_selected_text,
    first_shown_text, first_text, parse_document, parsed_document, select_all,
    select_all_in_document, select_first_text, selected, selected_in_document, trimmed_text,
};
use crate::listing::{
    label_view_of, labels_view, LabelSnapshot, LabelView, PARAGRAPH_SELECTOR,
};
use crate::models::{Event, EventView};
use crate::text::{
    chars_of, contains, copy_optional, first_present, first_string, has_infix, join_chars, joined,
    lowercase_of, optional_text, optional_texts, same_chars, string_of, texts, to_lowercase,
    trim_chars, trim_nonempty, trimmed, trimmed_nonempty,
};
use scraper::{ElementRef, Html};
use vstd::prelude::*;
use vstd::string::*;

verus! {

/// The region of the page that holds the heading and the facts.
pub const HERO_SELECTOR: &'static str = "div.card-hero-metadata__content";

/// The heading of the page.
pub const PAGE_HEADING_SELECTOR: &'static str = "h1";

/// The text region below the heading.
pub const TEXT_SELECTOR: &'static str = "div.text";

/// The line items of the text region.
pub const ITEM_SELECTOR: &'static str = "ul.list-with-icons > li";

/// The postal address of the venue.
pub const ADDRESS_SELECTOR: &'static str =
    "div[itemprop='address'][itemtype='https://schema.org/PostalAddress']";

/// The street of a postal address.
pub const STREET_SELECTOR: &'static str = "span[itemprop='streetAddress']";

/// The postal code of a postal address.
pub const POSTAL_CODE_SELECTOR: &'static str = "span[itemprop='postalCode']";

/// The locality of a postal address.
pub const LOCALITY_SELECTOR: &'static str = "span[itemprop='addressLocality']";

/// The container of an embedded map.
pub const MAP_SELECTOR: &'static str = "div.maps-container[data-src]";

/// The region that holds the page's buttons.
pub const BUTTONS_SELECTOR: &'static str = "div.card-hero-metadata__buttons-inner";

/// A button that leads somewhere.
pub const BUTTON_SELECTOR: &'static str = "a.button[href]";

/// The text region of the page: its first paragraph and its line items. The
/// text of a line item is the text that stands directly in it.
#[derive(Debug)]
pub struct TextSnapshot {
    pub paragraph: Option<String>,
    pub items: Vec<LabelSnapshot>,
}

/// What a [`TextSnapshot`] holds, as plain text and values.
pub struct TextView {
    pub paragraph: Option<Seq<char>>,
    pub items: Seq<LabelView>,
}

impl View for TextSnapshot {
    type V = TextView;

    open spec fn view(&self) -> TextView {
        TextView { paragraph: optional_text(self.paragraph), items: labels_view(self.items@) }
    }
}

/// The region with the heading and the facts.
#[derive(Debug)]
pub struct HeroSnapshot {
    pub heading: Option<String>,
    pub text: Option<TextSnapshot>,
}

/// What a [`HeroSnapshot`] holds, as plain text and values.
pub struct HeroView {
    pub heading: Option<Seq<char>>,
    pub text: Option<TextView>,
}

impl View for HeroSnapshot {
    type V = HeroView;

    open spec fn view(&self) -> HeroView {
        HeroView {
            heading: optional_text(self.heading),
            text: match self.text {
                Some(t) => Some(t@),
                None => None,
            },
        }
    }
}

/// The postal address of the venue, part by part.
#[derive(Debug)]
pub struct AddressSnapshot {
    pub street: Option<String>,
    pub postal_code: Option<String>,
    pub locality: Option<String>,
}

/// What an [`AddressSnapshot`] holds, as plain text.
pub struct AddressView {
    pub street: Option<Seq<char>>,
    pub postal_code: Option<Seq<char>>,
    pub locality: Option<Seq<char>>,
}

impl View for AddressSnapshot {
    type V = AddressView;

    open spec fn view(&self) -> AddressView {
        AddressView {
            street: optional_text(self.street),
            postal_code: optional_text(self.postal_code),
            locality: optional_text(self.locality),
        }
    }
}

/// A button: what it says and where it leads.
#[derive(Debug)]
pub struct ButtonSnapshot {
    pub text: String,
    pub href: Option<String>,
}

/// What a [`ButtonSnapshot`] holds, as plain text.
pub struct ButtonView {
    pub text: Seq<char>,
    pub href: Option<Seq<char>>,
}

impl View for ButtonSnapshot {
    type V = ButtonView;

    open spec fn view(&self) -> ButtonView {
        ButtonView { text: self.text@, href: optional_text(self.href) }
    }
}

/// What a list of buttons holds.
pub open spec fn buttons_view(list: Seq<ButtonSnapshot>) -> Seq<ButtonView> {
    Seq::new(list.len(), |i: int| list[i]@)
}

/// The page of one event, copied out.
#[derive(Debug)]
pub struct DetailSnapshot {
    pub hero: Option<HeroSnapshot>,
    pub address: Option<AddressSnapshot>,
    /// The address that the embedded map is loaded from.
    pub map_reference: Option<String>,
    pub buttons: Vec<ButtonSnapshot>,
}

/// What a [`DetailSnapshot`] holds, as plain text and values.
pub struct DetailView {
    pub hero: Option<HeroView>,
    pub address: Option<AddressView>,
    pub map_reference: Option<Seq<char>>,
    pub buttons: Seq<ButtonView>,
}

impl View for DetailSnapshot {
    type V = DetailView;

    open spec fn view(&self) -> DetailView {
        DetailView {
            hero: match self.hero {
                Some(h) => Some(h@),
                None => None,
            },
            address: match self.address {
                Some(a) => Some(a@),
                None => None,
            },
            map_reference: optional_text(self.map_reference),
            buttons: buttons_view(self.buttons@),
        }
    }
}

/// The texts of the text nodes from index `from` on, each trimmed, without
/// those of which nothing is left. A node that is no text counts for
/// nothing.
pub open spec fn kept_texts_from(nodes: Seq<Option<Seq<char>>>, from: int) -> Seq<Seq<char>>
    decreases nodes.len() - from,
{
    if 0 <= from < nodes.len() {
        match nodes[from] {
            Some(text) => if trimmed(text).len() > 0 {
                seq![trimmed(text)] + kept_texts_from(nodes, from + 1)
            } else {
                kept_texts_from(nodes, from + 1)
            },
            None => kept_texts_from(nodes, from + 1),
        }
    } else {
        seq![]
    }
}

/// The text of a line item, given the nodes that stand directly in it, each
/// with its text where it is a text node: the texts each trimmed, the empty
/// ones left out, a space between neighbours.
pub open spec fn item_text(nodes: Seq<Option<Seq<char>>>) -> Seq<char> {
    joined(kept_texts_from(nodes, 0), " "@)
}

/// The text of a line item. See [`item_text`].
pub fn join_text_nodes(nodes: &Vec<Option<String>>) -> (text: String)
    ensures
        text@ == item_text(optional_texts(nodes@)),
{
    let ghost all = optional_texts(nodes@);
    let mut kept: Vec<Vec<char>> = Vec::new();
    let mut i: usize = 0;
    assert(texts(kept@) + kept_texts_from(all, 0) =~= kept_texts_from(all, 0));
    while i < nodes.len()
        invariant
            i <= nodes.len(),
            all == optional_texts(nodes@),
            all.len() == nodes.len(),
            texts(kept@) + kept_texts_from(all, i as int) == kept_texts_from(all, 0),
        decreases nodes.len() - i,
    {
        assert(all[i as int] == optional_text(nodes[i as int]));
        match &nodes[i] {
            Some(node) => {
                let chars = chars_of(node.as_str());
                let part = trim_chars(&chars);
                let ghost before = texts(kept@);
                if part.len() > 0 {
                    kept.push(part);
                    assert(texts(kept@) =~= before.push(trimmed(node@)));
                    assert(texts(kept@) + kept_texts_from(all, i + 1) =~= before + kept_texts_from(
                        all,
                        i as int,
                    ));
                }
            },
            None => {},
        }
        i += 1;
    }
    assert(texts(kept@) + kept_texts_from(all, i as int) =~= texts(kept@));
    let out = join_chars(&kept, " ");
    string_of(&out)
}

/// What the line items of a page say.
pub struct ItemFacts {
    pub raw: Option<Seq<char>>,
    pub start: Option<CivilDateTime>,
    pub end: Option<CivilDateTime>,
    pub price: Option<Seq<char>>,
    pub venue: Option<Seq<char>>,
}

/// The facts after one more line item. An item without text says nothing.
/// Else it counts as what its first icon says, a calendar before a euro
/// sign before a pin; a date line is kept as it stands and resolved
/// together with the date of the listing.
pub open spec fn with_item(
    facts: ItemFacts,
    item: LabelView,
    list_date: Option<Seq<char>>,
    current_year: i32,
) -> ItemFacts {
    if item.text.len() == 0 {
        facts
    } else if item.calendar {
        ItemFacts {
            raw: Some(item.text),
            start: resolved(list_date, Some(item.text), current_year).0,
            end: resolved(list_date, Some(item.text), current_year).1,
            ..facts
        }
    } else if item.euro {
        ItemFacts { price: Some(item.text), ..facts }
    } else if item.pin {
        ItemFacts { venue: Some(item.text), ..facts }
    } else {
        facts
    }
}

/// The facts after the first `upto` line items, starting from `facts`.
pub open spec fn item_facts(
    items: Seq<LabelView>,
    facts: ItemFacts,
    list_date: Option<Seq<char>>,
    current_year: i32,
    upto: int,
) -> ItemFacts
    decreases upto,
{
    if upto <= 0 || upto > items.len() {
        facts
    } else {
        with_item(
            item_facts(items, facts, list_date, current_year, upto - 1),
            items[upto - 1],
            list_date,
            current_year,
        )
    }
}

/// The parts so far, and one more where it is there and not among them yet.
pub open spec fn with_part(parts: Seq<Seq<char>>, part: Option<Seq<char>>) -> Seq<Seq<char>> {
    match part {
        Some(p) => if parts.contains(p) {
            parts
        } else {
            parts.push(p)
        },
        None => parts,
    }
}

/// The parts of the address: the venue, then street, postal code and
/// locality, each only once.
pub open spec fn address_parts(venue: Option<Seq<char>>, address: AddressView) -> Seq<Seq<char>> {
    with_part(
        with_part(with_part(with_part(seq![], venue), address.street), address.postal_code),
        address.locality,
    )
}

/// The address of the event: the parts with a comma and a space between
/// neighbours; none without parts.
pub open spec fn assembled_address(venue: Option<Seq<char>>, address: AddressView) -> Option<
    Seq<char>,
> {
    let parts = address_parts(venue, address);
    if parts.len() > 0 {
        Some(joined(parts, ", "@))
    } else {
        None
    }
}

/// Whether a button with this text, in lower case, sells tickets.
pub open spec fn sells_tickets(lowered: Seq<char>) -> bool {
    has_infix(lowered, "buy ticket"@) || has_infix(lowered, "tickets"@)
}

/// Where the first button from index `from` on that sells tickets and leads
/// somewhere leads to.
pub open spec fn ticket_link_from(buttons: Seq<ButtonView>, from: int) -> Option<Seq<char>>
    decreases buttons.len() - from,
{
    if 0 <= from < buttons.len() {
        if sells_tickets(lowercase_of(buttons[from].text)) && trimmed_nonempty(buttons[from].href)
            is Some {
            trimmed_nonempty(buttons[from].href)
        } else {
            ticket_link_from(buttons, from + 1)
        }
    } else {
        None
    }
}

/// The facts that the event brings along.
pub open spec fn known_facts(event: EventView) -> ItemFacts {
    ItemFacts {
        raw: event.datetime_str_raw_detail,
        start: event.start_datetime,
        end: event.end_datetime,
        price: event.price,
        venue: event.specific_location_name,
    }
}

/// The facts of the event once the page has been read.
pub open spec fn page_facts(event: EventView, detail: DetailView, current_year: i32) -> ItemFacts {
    match detail.hero {
        Some(hero) => match hero.text {
            Some(text) => item_facts(
                text.items,
                known_facts(event),
                event.list_date,
                current_year,
                text.items.len() as int,
            ),
            None => known_facts(event),
        },
        None => known_facts(event),
    }
}

/// The event with what its page adds.
///
/// The heading of the page replaces the title. The first paragraph becomes
/// the full description. The line items give the date line, start and end,
/// price and venue. Where the page has a postal address, the address is
/// assembled from the venue (else the location of the listing) and the
/// parts of the postal address. The first button that sells tickets gives
/// the ticket link. What the page does not say stays as it was.
pub open spec fn enriched(event: EventView, detail: DetailView, current_year: i32) -> EventView {
    let facts = page_facts(event, detail, current_year);
    EventView {
        title: match detail.hero {
            Some(hero) => match hero.heading {
                Some(h) => h,
                None => event.title,
            },
            None => event.title,
        },
        full_description: match detail.hero {
            Some(hero) => match hero.text {
                Some(text) => first_present(text.paragraph, event.full_description),
                None => event.full_description,
            },
            None => event.full_description,
        },
        datetime_str_raw_detail: facts.raw,
        start_datetime: facts.start,
        end_datetime: facts.end,
        price: facts.price,
        specific_location_name: facts.venue,
        address: match detail.address {
            Some(a) => first_present(
                assembled_address(first_present(facts.venue, event.list_specific_location), a),
                event.address,
            ),
            None => event.address,
        },
        ticket_url: first_present(ticket_link_from(detail.buttons, 0), event.ticket_url),
        ..event
    }
}

/// What the page does not touch: id, links, image and what the listing
/// said.
pub proof fn lemma_enriched_keeps_listing(event: EventView, detail: DetailView, current_year: i32)
    ensures
        enriched(event, detail, current_year).id == event.id,
        enriched(event, detail, current_year).url_suffix == event.url_suffix,
        enriched(event, detail, current_year).full_url == event.full_url,
        enriched(event, detail, current_year).image_url == event.image_url,
        enriched(event, detail, current_year).list_date == event.list_date,
        enriched(event, detail, current_year).date_time_summary == event.date_time_summary,
        enriched(event, detail, current_year).short_description == event.short_description,
        enriched(event, detail, current_year).list_specific_location
            == event.list_specific_location,
        enriched(event, detail, current_year).list_price == event.list_price,
        enriched(event, detail, current_year).latitude == event.latitude,
        enriched(event, detail, current_year).longitude == event.longitude,
{
}

/// Whether a button with this text, in lower case, sells tickets. See
/// [`sells_tickets`].
pub fn is_ticket_text(lowered: &str) -> (b: bool)
    ensures
        b == sells_tickets(lowered@),
{
    let chars = chars_of(lowered);
    let buy = chars_of("buy ticket");
    let tickets = chars_of("tickets");
    contains(&chars, &buy) || contains(&chars, &tickets)
}

/// Where the first button that sells tickets leads to. See
/// [`ticket_link_from`].
pub fn find_ticket_link(buttons: &Vec<ButtonSnapshot>) -> (link: Option<String>)
    ensures
        optional_text(link) == ticket_link_from(buttons_view(buttons@), 0),
{
    let ghost all = buttons_view(buttons@);
    let mut i: usize = 0;
    while i < buttons.len()
        invariant
            i <= buttons.len(),
            all == buttons_view(buttons@),
            all.len() == buttons.len(),
            ticket_link_from(all, i as int) == ticket_link_from(all, 0),
        decreases buttons.len() - i,
    {
        assert(all[i as int] == buttons[i as int]@);
        let lowered = to_lowercase(buttons[i].text.as_str());
        if is_ticket_text(lowered.as_str()) {
            let href = trim_nonempty(&buttons[i].href);
            if href.is_some() {
                return href;
            }
        }
        i += 1;
    }
    None
}

/// Adds `part` to `parts` where it is there and not among them yet. See
/// [`with_part`].
fn push_part(parts: &mut Vec<Vec<char>>, part: &Option<String>)
    ensures
        texts(final(parts)@) == with_part(texts(old(parts)@), optional_text(*part)),
{
    match part {
        Some(p) => {
            let chars = chars_of(p.as_str());
            let ghost all = texts(parts@);
            let mut i: usize = 0;
            while i < parts.len()
                invariant
                    i <= parts.len(),
                    all == texts(parts@),
                    all == texts(old(parts)@),
                    all.len() == parts.len(),
                    chars@ == p@,
                    optional_text(*part) == Some(p@),
                    forall|k: int| 0 <= k < i ==> all[k] != p@,
                decreases parts.len() - i,
            {
                assert(all[i as int] == parts[i as int]@);
                if same_chars(&parts[i], &chars) {
                    assert(all[i as int] == p@);
                    assert(all.contains(p@));
                    return ;
                }
                i += 1;
            }
            assert(!all.contains(p@));
            parts.push(chars);
            assert(texts(parts@) =~= all.push(p@));
        },
        None => {},
    }
}

/// The address of the event. See [`assembled_address`].
pub fn assemble_address(venue: &Option<String>, address: &AddressSnapshot) -> (out: Option<String>)
    ensures
        optional_text(out) == assembled_address(optional_text(*venue), address@),
{
    let mut parts: Vec<Vec<char>> = Vec::new();
    assert(texts(parts@) =~= Seq::<Seq<char>>::empty());
    push_part(&mut parts, venue);
    push_part(&mut parts, &address.street);
    push_part(&mut parts, &address.postal_code);
    push_part(&mut parts, &address.locality);
    if parts.len() > 0 {
        let joined_parts = join_chars(&parts, ", ");
        Some(string_of(&joined_parts))
    } else {
        None
    }
}

/// The event with what its page adds. See [`enriched`].
pub fn apply_detail(event: Event, detail: &DetailSnapshot, current_year: i32) -> (out: Event)
    ensures
        out@ == enriched(event@, detail@, current_year),
{
    let mut out = event;
    let ghost before = out@;
    match &detail.hero {
        Some(hero) => {
            match &hero.heading {
                Some(h) => {
                    out.title = h.clone();
                },
                None => {},
            }
            match &hero.text {
                Some(text) => {
                    match &text.paragraph {
                        Some(p) => {
                            out.full_description = Some(p.clone());
                        },
                        None => {},
                    }
                    let ghost items = labels_view(text.items@);
                    let ghost title = out.title@;
                    let ghost description = optional_text(out.full_description);
                    let mut i: usize = 0;
                    while i < text.items.len()
                        invariant
                            i <= text.items.len(),
                            items == labels_view(text.items@),
                            items.len() == text.items.len(),
                            out@ == (EventView {
                                title,
                                full_description: description,
                                datetime_str_raw_detail: optional_text(
                                    out.datetime_str_raw_detail,
                                ),
                                start_datetime: out.start_datetime,
                                end_datetime: out.end_datetime,
                                price: optional_text(out.price),
                                specific_location_name: optional_text(
                                    out.specific_location_name,
                                ),
                                ..before
                            }),
                            item_facts(
                                items,
                                known_facts(before),
                                before.list_date,
                                current_year,
                                i as int,
                            ) == (ItemFacts {
                                raw: optional_text(out.datetime_str_raw_detail),
                                start: out.start_datetime,
                                end: out.end_datetime,
                                price: optional_text(out.price),
                                venue: optional_text(out.specific_location_name),
                            }),
                        decreases text.items.len() - i,
                    {
                        let item = &text.items[i];
                        assert(items[i as int] == item@);
                        if item.text.as_str().unicode_len() > 0 {
                            if item.calendar {
                                let list_date: Option<&str> = match &out.list_date {
                                    Some(d) => Some(d.as_str()),
                                    None => None,
                                };
                                let both = resolve_event_datetimes(
                                    list_date,
                                    Some(item.text.as_str()),
                                    current_year,
                                );
                                out.datetime_str_raw_detail = Some(item.text.clone());
                                out.start_datetime = both.0;
                                out.end_datetime = both.1;
                            } else if item.euro {
                                out.price = Some(item.text.clone());
                            } else if item.pin {
                                out.specific_location_name = Some(item.text.clone());
                            }
                        }
                        i += 1;
                    }
                },
                None => {},
            }
        },
        None => {},
    }
    match &detail.address {
        Some(a) => {
            let found = assemble_address(
                first_string(&out.specific_location_name, &out.list_specific_location),
                a,
            );
            match found {
                Some(address) => {
                    out.address = Some(address);
                },
                None => {},
            }
        },
        None => {},
    }
    match find_ticket_link(&detail.buttons) {
        Some(link) => {
            out.ticket_url = Some(link);
        },
        None => {},
    }
    out
}

/// The line items that the given elements are, each with the text that
/// stands directly in it.
pub open spec fn item_views_of(elements: Seq<ElementRef>) -> Seq<LabelView> {
    Seq::new(
        elements.len(),
        |i: int| label_view_of(elements[i], item_text(element_children(elements[i]))),
    )
}

/// What the text region of a page holds: the text of its first paragraph
/// and its line items.
pub open spec fn text_view_of(element: ElementRef) -> TextView {
    TextView {
        paragraph: first_selected_text(element, PARAGRAPH_SELECTOR@),
        items: item_views_of(selected(element, ITEM_SELECTOR@)),
    }
}

/// What the region with the heading and the facts holds: the text of its
/// first heading and its first text region.
pub open spec fn hero_view_of(element: ElementRef) -> HeroView {
    let regions = selected(element, TEXT_SELECTOR@);
    HeroView {
        heading: first_selected_text(element, PAGE_HEADING_SELECTOR@),
        text: if regions.len() > 0 {
            Some(text_view_of(regions[0]))
        } else {
            None
        },
    }
}

/// What a postal address block holds, part by part; an empty part counts as
/// none.
pub open spec fn address_view_of(element: ElementRef) -> AddressView {
    AddressView {
        street: first_shown_text(element, STREET_SELECTOR@),
        postal_code: first_shown_text(element, POSTAL_CODE_SELECTOR@),
        locality: first_shown_text(element, LOCALITY_SELECTOR@),
    }
}

/// What the given buttons say and where they lead, in order.
pub open spec fn button_views_of(elements: Seq<ElementRef>) -> Seq<ButtonView> {
    Seq::new(
        elements.len(),
        |i: int|
            ButtonView {
                text: trimmed_text(elements[i]),
                href: attribute_value(elements[i], "href"@),
            },
    )
}

/// What the page of an event holds: its first hero region, its first postal
/// address block, the address that its first map is loaded from, and the
/// buttons of its first button region.
pub open spec fn detail_view_of(document: Html) -> DetailView {
    let heroes = selected_in_document(document, HERO_SELECTOR@);
    let blocks = selected_in_document(document, ADDRESS_SELECTOR@);
    let maps = selected_in_document(document, MAP_SELECTOR@);
    let containers = selected_in_document(document, BUTTONS_SELECTOR@);
    DetailView {
        hero: if heroes.len() > 0 {
            Some(hero_view_of(heroes[0]))
        } else {
            None
        },
        address: if blocks.len() > 0 {
            Some(address_view_of(blocks[0]))
        } else {
            None
        },
        map_reference: if maps.len() > 0 {
            attribute_value(maps[0], "data-src"@)
        } else {
            None
        },
        buttons: if containers.len() > 0 {
            button_views_of(selected(containers[0], BUTTON_SELECTOR@))
        } else {
            Seq::empty()
        },
    }
}

/// What the page with the given HTML holds.
pub open spec fn page_detail(html: Seq<char>) -> DetailView {
    detail_view_of(parsed_document(html))
}

/// The text region of the page.
fn snapshot_text(element: &ElementRef) -> (text: TextSnapshot)
    ensures
        text@ == text_view_of(*element),
{
    let mut items: Vec<LabelSnapshot> = Vec::new();
    let found = select_all(element, ITEM_SELECTOR);
    let mut i: usize = 0;
    while i < found.len()
        invariant
            i <= found.len(),
            items@.len() == i,
            forall|k: int|
                0 <= k < i ==> (#[trigger] items@[k])@ == label_view_of(
                    found@[k],
                    item_text(element_children(found@[k])),
                ),
        decreases found.len() - i,
    {
        let text = join_text_nodes(&children_text(&found[i]));
        items.push(crate::listing::snapshot_label(&found[i], text));
        i += 1;
    }
    assert(labels_view(items@) =~= item_views_of(found@));
    TextSnapshot { paragraph: first_text(element, PARAGRAPH_SELECTOR), items }
}

/// The page of one event, copied out of its HTML.
pub(crate) fn snapshot_detail(html: &str) -> (detail: DetailSnapshot)
    ensures
        detail@ == page_detail(html@),
{
    let document = parse_document(html);
    let heroes = select_all_in_document(&document, HERO_SELECTOR);
    let hero = if heroes.len() > 0 {
        let regions = select_all(&heroes[0], TEXT_SELECTOR);
        let text = if regions.len() > 0 {
            Some(snapshot_text(&regions[0]))
        } else {
            None
        };
        Some(HeroSnapshot { heading: first_text(&heroes[0], PAGE_HEADING_SELECTOR), text })
    } else {
        None
    };
    let blocks = select_all_in_document(&document, ADDRESS_SELECTOR);
    let address = if blocks.len() > 0 {
        Some(
            AddressSnapshot {
                street: select_first_text(&blocks[0], STREET_SELECTOR),
                postal_code: select_first_text(&blocks[0], POSTAL_CODE_SELECTOR),
                locality: select_first_text(&blocks[0], LOCALITY_SELECTOR),
            },
        )
    } else {
        None
    };
    let maps = select_all_in_document(&document, MAP_SELECTOR);
    let map_reference = if maps.len() > 0 {
        attribute(&maps[0], "data-src")
    } else {
        None
    };
    let mut buttons: Vec<ButtonSnapshot> = Vec::new();
    let containers = select_all_in_document(&document, BUTTONS_SELECTOR);
    if containers.len() > 0 {
        let links = select_all(&containers[0], BUTTON_SELECTOR);
        let mut i: usize = 0;
        while i < links.len()
            invariant
                i <= links.len(),
                buttons@.len() == i,
                forall|k: int|
                    0 <= k < i ==> (#[trigger] buttons@[k])@ == (ButtonView {
                        text: trimmed_text(links@[k]),
                        href: attribute_value(links@[k], "href"@),
                    }),
            decreases links.len() - i,
        {
            buttons.push(
                ButtonSnapshot {
                    text: crate::html::get_element_text(&links[i]),
                    href: attribute(&links[i], "href"),
                },
            );
            i += 1;
        }
        assert(buttons_view(buttons@) =~= button_views_of(links@));
    } else {
        assert(buttons_view(buttons@) =~= Seq::empty());
    }
    DetailSnapshot { hero, address, map_reference, buttons }
}

/// An event after its page has been read, and the map reference of the
/// page, from which coordinates may be taken.
#[derive(Debug)]
pub struct DetailOutcome {
    pub event: Event,
    pub map_reference: Option<String>,
}

/// The event with what the HTML of its page adds, with `current_year`
/// standing in for a year that neither the listing nor the page gives. The
/// page is copied out as the parser reports it, and applied by the rules of
/// [`enriched`].
pub fn apply_detail_page(event: Event, html: &str, current_year: i32) -> (outcome: DetailOutcome)
    ensures
        outcome.event@ == enriched(event@, page_detail(html@), current_year),
        optional_text(outcome.map_reference) == page_detail(html@).map_reference,
{
    let detail = snapshot_detail(html);
    let out = apply_detail(event, &detail, current_year);
    let map_reference = copy_optional(&detail.map_reference);
    DetailOutcome { event: out, map_reference }
}

/// The event with what the HTML of its page adds, with the year of today's
/// date standing in for a year that neither the listing nor the page gives.
pub fn enrich_event(event: Event, html: &str) -> (outcome: DetailOutcome)
    ensures
        exists|year: i32|
            MIN_YEAR <= year <= MAX_YEAR && outcome.event@ == enriched(
                event@,
                page_detail(html@),
                year,
            ),
        optional_text(outcome.map_reference) == page_detail(html@).map_reference,
{
    let year = crate::clock::utc_now().civil.date.year;
    apply_detail_page(event, html, year)
}

} // verus!

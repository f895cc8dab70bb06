//! The listing of events: what one result card says, and how a scrape walks
//! the pages of the listing.
//!
//! A card is first copied out of the page as a [`CardSnapshot`], a record of
//! the attributes and texts that the rules below look at. The rules
//! themselves work on that record alone.

use crate::html::{
    attribute, attribute_value, first_selected_text, first_text, get_element_text, has_match,
    parse_document, parsed_document, select_all, select_all_in_document, selected,
    selected_in_document, trimmed_text,
};
use crate::links::{absolute_url, best_source, make_absolute_url, parse_image_url_from_srcset};
use crate::models::{bare_event, Event, EventView};
use crate::text::{
    append_str, chars_of, copy_optional, first_present, has_prefix, optional_text, starts_with,
    string_of, strings_text, trim_nonempty, trimmed_nonempty,
};
use scraper::ElementRef;
use vstd::prelude::*;
use vstd::string::*;

verus! {

/// Origin of the site.
pub const BASE_URL: &'static str = "https://www.thisiseindhoven.com";

/// What the link of an event's page starts with.
pub const EVENT_PATH_PREFIX: &'static str = "/en/events/";

/// Title of a card that shows none.
pub const PLACEHOLDER_TITLE: &'static str = "Title N/A";

/// A result card.
pub const CARD_SELECTOR: &'static str = "a.result-card.result-card-generic";

/// The picture of a card.
pub const PICTURE_SELECTOR: &'static str = "picture.result-card-generic__picture";

/// The sources of a picture.
pub const SOURCE_SELECTOR: &'static str = "source[srcset]";

/// The image of a card, by its class.
pub const CARD_IMAGE_SELECTOR: &'static str = "img.result-card-generic__image";

/// Any image.
pub const IMAGE_SELECTOR: &'static str = "img";

/// The content region of a card.
pub const CONTENT_SELECTOR: &'static str = "div.result-card-generic__content";

/// The heading of a card.
pub const HEADING_SELECTOR: &'static str = "h3.result-card-generic__title";

/// A paragraph.
pub const PARAGRAPH_SELECTOR: &'static str = "p";

/// The date tag of a card.
pub const TAG_SELECTOR: &'static str = "span.tag > span";

/// The region of a card that holds its labels.
pub const LABELS_SELECTOR: &'static str = "div.meta-labels-wrap";

/// One label.
pub const LABEL_SELECTOR: &'static str = "div.meta-label";

/// The icon of a location.
pub const PIN_SELECTOR: &'static str = "span.tie-icon-pin";

/// The icon of a date.
pub const CALENDAR_SELECTOR: &'static str = "span.tie-icon-calendar";

/// The icon of a price.
pub const EURO_SELECTOR: &'static str = "span.tie-icon-euro";

/// The link to the next page of the listing.
pub const NEXT_PAGE_SELECTOR: &'static str = "a.pagination__next";

/// The attributes of an image element.
#[derive(Debug)]
pub struct ImageSnapshot {
    pub data_srcset: Option<String>,
    pub srcset: Option<String>,
    pub src: Option<String>,
    pub alt: Option<String>,
}

/// What an [`ImageSnapshot`] holds, as plain text.
pub struct ImageView {
    pub data_srcset: Option<Seq<char>>,
    pub srcset: Option<Seq<char>>,
    pub src: Option<Seq<char>>,
    pub alt: Option<Seq<char>>,
}

impl View for ImageSnapshot {
    type V = ImageView;

    open spec fn view(&self) -> ImageView {
        ImageView {
            data_srcset: optional_text(self.data_srcset),
            srcset: optional_text(self.srcset),
            src: optional_text(self.src),
            alt: optional_text(self.alt),
        }
    }
}

/// A label or line item: its text, and which icons it shows.
#[derive(Debug)]
pub struct LabelSnapshot {
    pub text: String,
    pub pin: bool,
    pub calendar: bool,
    pub euro: bool,
}

/// What a [`LabelSnapshot`] holds, as plain text and values.
pub struct LabelView {
    pub text: Seq<char>,
    pub pin: bool,
    pub calendar: bool,
    pub euro: bool,
}

impl View for LabelSnapshot {
    type V = LabelView;

    open spec fn view(&self) -> LabelView {
        LabelView { text: self.text@, pin: self.pin, calendar: self.calendar, euro: self.euro }
    }
}

/// The content region of a card: the texts of its heading, first paragraph
/// and date tag, and its labels.
#[derive(Debug)]
pub struct ContentSnapshot {
    pub heading: Option<String>,
    pub paragraph: Option<String>,
    pub tag: Option<String>,
    pub labels: Vec<LabelSnapshot>,
}

/// What a [`ContentSnapshot`] holds, as plain text and values.
pub struct ContentView {
    pub heading: Option<Seq<char>>,
    pub paragraph: Option<Seq<char>>,
    pub tag: Option<Seq<char>>,
    pub labels: Seq<LabelView>,
}

impl View for ContentSnapshot {
    type V = ContentView;

    open spec fn view(&self) -> ContentView {
        ContentView {
            heading: optional_text(self.heading),
            paragraph: optional_text(self.paragraph),
            tag: optional_text(self.tag),
            labels: labels_view(self.labels@),
        }
    }
}

/// One result card: its link, the source sets of its picture, its image
/// elements in the order in which they are consulted, and its content
/// region.
#[derive(Debug)]
pub struct CardSnapshot {
    pub href: Option<String>,
    pub picture_sources: Vec<String>,
    pub images: Vec<ImageSnapshot>,
    pub content: Option<ContentSnapshot>,
}

/// What a [`CardSnapshot`] holds, as plain text and values.
pub struct CardView {
    pub href: Option<Seq<char>>,
    pub picture_sources: Seq<Seq<char>>,
    pub images: Seq<ImageView>,
    pub content: Option<ContentView>,
}

impl View for CardSnapshot {
    type V = CardView;

    open spec fn view(&self) -> CardView {
        CardView {
            href: optional_text(self.href),
            picture_sources: strings_text(self.picture_sources@),
            images: images_view(self.images@),
            content: match self.content {
                Some(c) => Some(c@),
                None => None,
            },
        }
    }
}

/// What a list of labels holds.
pub open spec fn labels_view(list: Seq<LabelSnapshot>) -> Seq<LabelView> {
    Seq::new(list.len(), |i: int| list[i]@)
}

/// What a list of images holds.
pub open spec fn images_view(list: Seq<ImageSnapshot>) -> Seq<ImageView> {
    Seq::new(list.len(), |i: int| list[i]@)
}

/// What a list of cards holds.
pub open spec fn cards_view(list: Seq<CardSnapshot>) -> Seq<CardView> {
    Seq::new(list.len(), |i: int| list[i]@)
}

/// What a list of events holds.
pub open spec fn events_view(list: Seq<Event>) -> Seq<EventView> {
    Seq::new(list.len(), |i: int| list[i]@)
}

/// The image that the picture's sources from index `from` on stand for: the
/// first source set that yields one decides.
pub open spec fn picture_image(sources: Seq<Seq<char>>, from: int) -> Option<Seq<char>>
    decreases sources.len() - from,
{
    if 0 <= from < sources.len() {
        match best_source(sources[from], BASE_URL@) {
            Some(url) => Some(url),
            None => picture_image(sources, from + 1),
        }
    } else {
        None
    }
}

/// The image that an image element stands for: the best of its source set
/// (`data-srcset` before `srcset`) where it has one, else its `src`.
pub open spec fn image_of(image: ImageView) -> Option<Seq<char>> {
    match first_present(image.data_srcset, image.srcset) {
        Some(set) => best_source(set, BASE_URL@),
        None => match image.src {
            Some(src) => absolute_url(BASE_URL@, src),
            None => None,
        },
    }
}

/// What the image elements from index `from` on give: the image of the first
/// element that stands for one, and the first alternative text that is not
/// blank among the elements up to and including that one.
pub open spec fn scanned_images(images: Seq<ImageView>, from: int) -> (
    Option<Seq<char>>,
    Option<Seq<char>>,
)
    decreases images.len() - from,
{
    if 0 <= from < images.len() {
        let alt = trimmed_nonempty(images[from].alt);
        match image_of(images[from]) {
            Some(url) => (Some(url), alt),
            None => {
                let later = scanned_images(images, from + 1);
                (later.0, first_present(alt, later.1))
            },
        }
    } else {
        (None, None)
    }
}

/// The image of a card and the title that its images suggest. The picture
/// is consulted first; the image elements only where the picture gives no
/// image.
pub open spec fn card_image(card: CardView) -> (Option<Seq<char>>, Option<Seq<char>>) {
    match picture_image(card.picture_sources, 0) {
        Some(url) => (Some(url), None),
        None => scanned_images(card.images, 0),
    }
}

/// The title of a card: its heading, else the title that its images
/// suggest, else the placeholder.
pub open spec fn card_title(card: CardView) -> Seq<char> {
    let heading = match card.content {
        Some(c) => c.heading,
        None => None,
    };
    match first_present(heading, card_image(card).1) {
        Some(t) => t,
        None => PLACEHOLDER_TITLE@,
    }
}

/// What the labels of a card say.
pub struct LabelFacts {
    pub location: Option<Seq<char>>,
    pub date: Option<Seq<char>>,
    pub price: Option<Seq<char>>,
    pub summary: Option<Seq<char>>,
}

/// The facts after one more label. A label counts as what its first icon
/// says, a pin before a calendar before a euro sign; a date also serves as
/// the date summary where there is none yet.
pub open spec fn with_label(facts: LabelFacts, label: LabelView) -> LabelFacts {
    if label.pin {
        LabelFacts { location: Some(label.text), ..facts }
    } else if label.calendar {
        LabelFacts {
            date: Some(label.text),
            summary: first_present(facts.summary, Some(label.text)),
            ..facts
        }
    } else if label.euro {
        LabelFacts { price: Some(label.text), ..facts }
    } else {
        facts
    }
}

/// The facts after the first `upto` labels, starting from the date summary
/// `summary`.
pub open spec fn label_facts(labels: Seq<LabelView>, summary: Option<Seq<char>>, upto: int) -> LabelFacts
    decreases upto,
{
    if upto <= 0 || upto > labels.len() {
        LabelFacts { location: None, date: None, price: None, summary }
    } else {
        with_label(label_facts(labels, summary, upto - 1), labels[upto - 1])
    }
}

/// What the content region of a card says, beyond the title.
pub open spec fn content_facts(content: Option<ContentView>) -> LabelFacts {
    match content {
        Some(c) => label_facts(c.labels, c.tag, c.labels.len() as int),
        None => LabelFacts { location: None, date: None, price: None, summary: None },
    }
}

/// The event that a card stands for; none for a card without a link, or
/// with a link to something other than an event.
pub open spec fn summarized(card: CardView) -> Option<EventView> {
    match card.href {
        Some(href) => if has_prefix(href, EVENT_PATH_PREFIX@) {
            let facts = content_facts(card.content);
            Some(
                EventView {
                    url_suffix: Some(href),
                    full_url: Some(BASE_URL@ + href),
                    image_url: card_image(card).0,
                    short_description: match card.content {
                        Some(c) => c.paragraph,
                        None => None,
                    },
                    date_time_summary: facts.summary,
                    list_date: facts.date,
                    list_specific_location: facts.location,
                    list_price: facts.price,
                    ..bare_event(href, card_title(card))
                },
            )
        } else {
            None
        },
        None => None,
    }
}

/// The id of an event from the listing is the link of its card, and a card
/// yields an event exactly if its link leads to an event.
pub proof fn lemma_id_is_link(card: CardView)
    ensures
        summarized(card) is Some <==> card.href is Some && has_prefix(
            card.href.unwrap(),
            EVENT_PATH_PREFIX@,
        ),
        summarized(card) matches Some(event) ==> {
            &&& card.href == Some(event.id)
            &&& event.url_suffix == Some(event.id)
            &&& event.full_url == Some(BASE_URL@ + event.id)
        },
{
}

/// The image that the sources of a picture stand for. See
/// [`picture_image`].
pub fn image_from_picture(sources: &Vec<String>) -> (url: Option<String>)
    ensures
        optional_text(url) == picture_image(strings_text(sources@), 0),
{
    let mut i: usize = 0;
    let ghost all = strings_text(sources@);
    while i < sources.len()
        invariant
            i <= sources.len(),
            all == strings_text(sources@),
            all.len() == sources.len(),
            picture_image(all, i as int) == picture_image(all, 0),
        decreases sources.len() - i,
    {
        assert(all[i as int] == sources[i as int]@);
        let found = parse_image_url_from_srcset(sources[i].as_str(), BASE_URL);
        if found.is_some() {
            return found;
        }
        i += 1;
    }
    None
}

/// The image that an image element stands for. See [`image_of`].
pub fn image_from_element(image: &ImageSnapshot) -> (url: Option<String>)
    ensures
        optional_text(url) == image_of(image@),
{
    match &image.data_srcset {
        Some(set) => parse_image_url_from_srcset(set.as_str(), BASE_URL),
        None => match &image.srcset {
            Some(set) => parse_image_url_from_srcset(set.as_str(), BASE_URL),
            None => match &image.src {
                Some(src) => make_absolute_url(BASE_URL, src.as_str()),
                None => None,
            },
        },
    }
}

/// What the image elements give. See [`scanned_images`].
pub fn scan_images(images: &Vec<ImageSnapshot>) -> (found: (Option<String>, Option<String>))
    ensures
        (optional_text(found.0), optional_text(found.1)) == scanned_images(
            images_view(images@),
            0,
        ),
{
    let mut title: Option<String> = None;
    let mut i: usize = 0;
    let ghost all = images_view(images@);
    while i < images.len()
        invariant
            i <= images.len(),
            all == images_view(images@),
            all.len() == images.len(),
            scanned_images(all, 0) == (
                scanned_images(all, i as int).0,
                first_present(optional_text(title), scanned_images(all, i as int).1),
            ),
        decreases images.len() - i,
    {
        assert(all[i as int] == images[i as int]@);
        let url = image_from_element(&images[i]);
        if title.is_none() {
            title = trim_nonempty(&images[i].alt);
        }
        if url.is_some() {
            return (url, title);
        }
        i += 1;
    }
    (None, title)
}

/// The image of a card and the title that its images suggest. See
/// [`card_image`].
pub fn image_of_card(card: &CardSnapshot) -> (found: (Option<String>, Option<String>))
    ensures
        (optional_text(found.0), optional_text(found.1)) == card_image(card@),
{
    match image_from_picture(&card.picture_sources) {
        Some(url) => (Some(url), None),
        None => scan_images(&card.images),
    }
}

/// The event that a card stands for. See [`summarized`].
pub fn summarize_card(card: &CardSnapshot) -> (event: Option<Event>)
    ensures
        match event {
            Some(e) => summarized(card@) == Some(e@),
            None => summarized(card@) is None,
        },
{
    let href = match &card.href {
        Some(href) => href,
        None => return None,
    };
    let link = chars_of(href.as_str());
    let prefix = chars_of(EVENT_PATH_PREFIX);
    if !starts_with(&link, &prefix) {
        return None;
    }
    let mut event = Event::with_id(href.clone());
    event.url_suffix = Some(href.clone());
    let mut full = chars_of(BASE_URL);
    append_str(&mut full, href.as_str());
    event.full_url = Some(string_of(&full));
    let (image, suggested) = image_of_card(card);
    event.image_url = image;
    let mut heading: Option<String> = None;
    match &card.content {
        Some(content) => {
            heading = copy_optional(&content.heading);
            event.short_description = copy_optional(&content.paragraph);
            event.date_time_summary = copy_optional(&content.tag);
            let ghost labels = labels_view(content.labels@);
            let ghost tag = optional_text(content.tag);
            let mut i: usize = 0;
            while i < content.labels.len()
                invariant
                    i <= content.labels.len(),
                    labels == labels_view(content.labels@),
                    labels.len() == content.labels.len(),
                    label_facts(labels, tag, i as int) == (LabelFacts {
                        location: optional_text(event.list_specific_location),
                        date: optional_text(event.list_date),
                        price: optional_text(event.list_price),
                        summary: optional_text(event.date_time_summary),
                    }),
                    event@ == (EventView {
                        list_specific_location: optional_text(event.list_specific_location),
                        list_date: optional_text(event.list_date),
                        list_price: optional_text(event.list_price),
                        date_time_summary: optional_text(event.date_time_summary),
                        url_suffix: Some(href@),
                        full_url: Some(BASE_URL@ + href@),
                        image_url: card_image(card@).0,
                        short_description: optional_text(content.paragraph),
                        ..bare_event(href@, crate::models::untitled())
                    }),
                decreases content.labels.len() - i,
            {
                let label = &content.labels[i];
                assert(labels[i as int] == label@);
                if label.pin {
                    event.list_specific_location = Some(label.text.clone());
                } else if label.calendar {
                    event.list_date = Some(label.text.clone());
                    if event.date_time_summary.is_none() {
                        event.date_time_summary = Some(label.text.clone());
                    }
                } else if label.euro {
                    event.list_price = Some(label.text.clone());
                }
                i += 1;
            }
        },
        None => {},
    }
    event.title = match heading {
        Some(h) => h,
        None => match suggested {
            Some(s) => s,
            None => String::from_str(PLACEHOLDER_TITLE),
        },
    };
    Some(event)
}

/// What an image element gives for the attributes that the rules look at.
pub open spec fn image_view_of(element: ElementRef) -> ImageView {
    ImageView {
        data_srcset: attribute_value(element, "data-srcset"@),
        srcset: attribute_value(element, "srcset"@),
        src: attribute_value(element, "src"@),
        alt: attribute_value(element, "alt"@),
    }
}

/// The label with the given text and the icons found below `element`.
pub open spec fn label_view_of(element: ElementRef, text: Seq<char>) -> LabelView {
    LabelView {
        text,
        pin: selected(element, PIN_SELECTOR@).len() > 0,
        calendar: selected(element, CALENDAR_SELECTOR@).len() > 0,
        euro: selected(element, EURO_SELECTOR@).len() > 0,
    }
}

/// The labels that the given elements are, each with its trimmed text.
pub open spec fn label_views_of(elements: Seq<ElementRef>) -> Seq<LabelView> {
    Seq::new(elements.len(), |i: int| label_view_of(elements[i], trimmed_text(elements[i])))
}

/// What the content region of a card holds: the texts of its first heading,
/// paragraph and date tag, and the labels of its first label region.
pub open spec fn content_view_of(element: ElementRef) -> ContentView {
    let wraps = selected(element, LABELS_SELECTOR@);
    ContentView {
        heading: first_selected_text(element, HEADING_SELECTOR@),
        paragraph: first_selected_text(element, PARAGRAPH_SELECTOR@),
        tag: first_selected_text(element, TAG_SELECTOR@),
        labels: if wraps.len() > 0 {
            label_views_of(selected(wraps[0], LABEL_SELECTOR@))
        } else {
            Seq::empty()
        },
    }
}

/// The source sets of the elements from index `from` on, in order, those
/// without one left out.
pub open spec fn source_sets_from(sources: Seq<ElementRef>, from: int) -> Seq<Seq<char>>
    decreases sources.len() - from,
{
    if 0 <= from < sources.len() {
        match attribute_value(sources[from], "srcset"@) {
            Some(set) => seq![set] + source_sets_from(sources, from + 1),
            None => source_sets_from(sources, from + 1),
        }
    } else {
        seq![]
    }
}

/// The image elements of a card in the order in which they are consulted:
/// the first one with the card's image class, then the first one of all.
pub open spec fn card_images_of(element: ElementRef) -> Seq<ImageView> {
    let by_class = selected(element, CARD_IMAGE_SELECTOR@);
    let any = selected(element, IMAGE_SELECTOR@);
    let first = if by_class.len() > 0 {
        seq![image_view_of(by_class[0])]
    } else {
        seq![]
    };
    if any.len() > 0 {
        first.push(image_view_of(any[0]))
    } else {
        first
    }
}

/// What a card element holds: its link, the source sets of its first
/// picture, its image elements and its first content region.
pub open spec fn card_view_of(element: ElementRef) -> CardView {
    let pictures = selected(element, PICTURE_SELECTOR@);
    let regions = selected(element, CONTENT_SELECTOR@);
    CardView {
        href: attribute_value(element, "href"@),
        picture_sources: if pictures.len() > 0 {
            source_sets_from(selected(pictures[0], SOURCE_SELECTOR@), 0)
        } else {
            seq![]
        },
        images: card_images_of(element),
        content: if regions.len() > 0 {
            Some(content_view_of(regions[0]))
        } else {
            None
        },
    }
}

/// What the given card elements hold, in order.
pub open spec fn card_views_of(elements: Seq<ElementRef>) -> Seq<CardView> {
    Seq::new(elements.len(), |i: int| card_view_of(elements[i]))
}

/// The cards of the page with the given HTML, in the order in which the
/// page yields them.
pub open spec fn page_cards(html: Seq<char>) -> Seq<CardView> {
    card_views_of(selected_in_document(parsed_document(html), CARD_SELECTOR@))
}

/// Whether the page with the given HTML links to a next page.
pub open spec fn page_has_next(html: Seq<char>) -> bool {
    selected_in_document(parsed_document(html), NEXT_PAGE_SELECTOR@).len() > 0
}

/// The attributes of an image element that the rules look at.
fn snapshot_image(element: &ElementRef) -> (image: ImageSnapshot)
    ensures
        image@ == image_view_of(*element),
{
    ImageSnapshot {
        data_srcset: attribute(element, "data-srcset"),
        srcset: attribute(element, "srcset"),
        src: attribute(element, "src"),
        alt: attribute(element, "alt"),
    }
}

/// The text and icons of a label.
pub(crate) fn snapshot_label(element: &ElementRef, text: String) -> (label: LabelSnapshot)
    ensures
        label@ == label_view_of(*element, text@),
{
    LabelSnapshot {
        text,
        pin: has_match(element, PIN_SELECTOR),
        calendar: has_match(element, CALENDAR_SELECTOR),
        euro: has_match(element, EURO_SELECTOR),
    }
}

/// The content region of a card.
fn snapshot_content(element: &ElementRef) -> (content: ContentSnapshot)
    ensures
        content@ == content_view_of(*element),
{
    let mut labels: Vec<LabelSnapshot> = Vec::new();
    let wraps = select_all(element, LABELS_SELECTOR);
    if wraps.len() > 0 {
        let found = select_all(&wraps[0], LABEL_SELECTOR);
        let mut i: usize = 0;
        while i < found.len()
            invariant
                i <= found.len(),
                labels@.len() == i,
                forall|k: int|
                    0 <= k < i ==> (#[trigger] labels@[k])@ == label_view_of(
                        found@[k],
                        trimmed_text(found@[k]),
                    ),
            decreases found.len() - i,
        {
            let text = get_element_text(&found[i]);
            labels.push(snapshot_label(&found[i], text));
            i += 1;
        }
        assert(labels_view(labels@) =~= label_views_of(found@));
    } else {
        assert(labels_view(labels@) =~= Seq::empty());
    }
    ContentSnapshot {
        heading: first_text(element, HEADING_SELECTOR),
        paragraph: first_text(element, PARAGRAPH_SELECTOR),
        tag: first_text(element, TAG_SELECTOR),
        labels,
    }
}

/// One result card, copied out of the page.
fn snapshot_card(element: &ElementRef) -> (card: CardSnapshot)
    ensures
        card@ == card_view_of(*element),
{
    let mut picture_sources: Vec<String> = Vec::new();
    let pictures = select_all(element, PICTURE_SELECTOR);
    if pictures.len() > 0 {
        let sources = select_all(&pictures[0], SOURCE_SELECTOR);
        let mut i: usize = 0;
        assert(strings_text(picture_sources@) + source_sets_from(sources@, 0) =~= source_sets_from(
            sources@,
            0,
        ));
        while i < sources.len()
            invariant
                i <= sources.len(),
                strings_text(picture_sources@) + source_sets_from(sources@, i as int)
                    == source_sets_from(sources@, 0),
            decreases sources.len() - i,
        {
            let ghost before = strings_text(picture_sources@);
            match attribute(&sources[i], "srcset") {
                Some(set) => {
                    picture_sources.push(set);
                    assert(strings_text(picture_sources@) =~= before.push(set@));
                    assert(strings_text(picture_sources@) + source_sets_from(sources@, i + 1)
                        =~= before + source_sets_from(sources@, i as int));
                },
                None => {},
            }
            i += 1;
        }
        assert(strings_text(picture_sources@) + source_sets_from(sources@, i as int)
            =~= strings_text(picture_sources@));
    } else {
        assert(strings_text(picture_sources@) =~= seq![]);
    }
    let mut images: Vec<ImageSnapshot> = Vec::new();
    let by_class = select_all(element, CARD_IMAGE_SELECTOR);
    if by_class.len() > 0 {
        images.push(snapshot_image(&by_class[0]));
    }
    let any = select_all(element, IMAGE_SELECTOR);
    if any.len() > 0 {
        images.push(snapshot_image(&any[0]));
    }
    assert(images_view(images@) =~= card_images_of(*element));
    let regions = select_all(element, CONTENT_SELECTOR);
    let content = if regions.len() > 0 {
        Some(snapshot_content(&regions[0]))
    } else {
        None
    };
    CardSnapshot { href: attribute(element, "href"), picture_sources, images, content }
}

/// The events that the cards from index `from` on stand for, in order.
pub open spec fn summarized_from(cards: Seq<CardView>, from: int) -> Seq<EventView>
    decreases cards.len() - from,
{
    if 0 <= from < cards.len() {
        match summarized(cards[from]) {
            Some(event) => seq![event] + summarized_from(cards, from + 1),
            None => summarized_from(cards, from + 1),
        }
    } else {
        seq![]
    }
}

/// A count as a 32-bit number; counts beyond its range read as the largest.
pub open spec fn clipped(count: int) -> u32 {
    if count > u32::MAX {
        u32::MAX
    } else if count < 0 {
        0
    } else {
        count as u32
    }
}

/// Executable form of [`clipped`].
pub fn clip(count: usize) -> (n: u32)
    ensures
        n == clipped(count as int),
{
    if count > u32::MAX as usize {
        u32::MAX
    } else {
        count as u32
    }
}

/// What one page of the listing holds.
#[derive(Debug)]
pub struct ListPage {
    /// The events of the cards that lead to an event, in page order.
    pub events: Vec<Event>,
    /// The number of cards on the page, whether or not they lead to an
    /// event.
    pub cards_found: u32,
    /// Whether the page links to a next page.
    pub has_next: bool,
}

/// Whether `page` is what the given cards make.
pub open spec fn is_page_of(page: ListPage, cards: Seq<CardView>, has_next: bool) -> bool {
    &&& events_view(page.events@) == summarized_from(cards, 0)
    &&& page.cards_found == clipped(cards.len() as int)
    &&& page.has_next == has_next
}

/// The events that the cards stand for. See [`summarized_from`].
pub fn summarize_cards(cards: &Vec<CardSnapshot>) -> (events: Vec<Event>)
    ensures
        events_view(events@) == summarized_from(cards_view(cards@), 0),
{
    let mut events: Vec<Event> = Vec::new();
    let ghost all = cards_view(cards@);
    let mut i: usize = 0;
    assert(events_view(events@) + summarized_from(all, 0) =~= summarized_from(all, 0));
    while i < cards.len()
        invariant
            i <= cards.len(),
            all == cards_view(cards@),
            all.len() == cards.len(),
            events_view(events@) + summarized_from(all, i as int) == summarized_from(all, 0),
        decreases cards.len() - i,
    {
        assert(all[i as int] == cards[i as int]@);
        let ghost before = events_view(events@);
        match summarize_card(&cards[i]) {
            Some(event) => {
                events.push(event);
                assert(events_view(events@) =~= before.push(event@));
                assert(events_view(events@) + summarized_from(all, i + 1) =~= before
                    + summarized_from(all, i as int));
            },
            None => {},
        }
        i += 1;
    }
    assert(events_view(events@) + summarized_from(all, i as int) =~= events_view(events@));
    events
}

/// The page that the given cards make.
pub fn page_from_cards(cards: &Vec<CardSnapshot>, has_next: bool) -> (page: ListPage)
    ensures
        is_page_of(page, cards_view(cards@), has_next),
{
    ListPage { events: summarize_cards(cards), cards_found: clip(cards.len()), has_next }
}

/// The events of the cards from index `from` on have the links of their
/// cards as ids.
proof fn lemma_ids_are_links_from(cards: Seq<CardView>, from: int)
    requires
        0 <= from <= cards.len(),
    ensures
        forall|k: int|
            0 <= k < summarized_from(cards, from).len() ==> {
                &&& has_prefix(#[trigger] summarized_from(cards, from)[k].id, EVENT_PATH_PREFIX@)
                &&& summarized_from(cards, from)[k].url_suffix == Some(
                    summarized_from(cards, from)[k].id,
                )
            },
        summarized_from(cards, from).len() <= cards.len() - from,
    decreases cards.len() - from,
{
    if from < cards.len() {
        lemma_ids_are_links_from(cards, from + 1);
        lemma_id_is_link(cards[from]);
        let rest = summarized_from(cards, from + 1);
        let all = summarized_from(cards, from);
        match summarized(cards[from]) {
            Some(event) => {
                assert forall|k: int| 0 <= k < all.len() implies {
                    &&& has_prefix(#[trigger] all[k].id, EVENT_PATH_PREFIX@)
                    &&& all[k].url_suffix == Some(all[k].id)
                } by {
                    if k > 0 {
                        assert(all[k] == rest[k - 1]);
                    }
                }
            },
            None => {},
        }
    }
}

/// Every event of a page has the link of its card as id, that link leads to
/// an event, and a page has no more events than cards.
pub proof fn lemma_page_ids_are_links(cards: Seq<CardView>)
    ensures
        forall|k: int|
            0 <= k < summarized_from(cards, 0).len() ==> {
                &&& has_prefix(#[trigger] summarized_from(cards, 0)[k].id, EVENT_PATH_PREFIX@)
                &&& summarized_from(cards, 0)[k].url_suffix == Some(summarized_from(cards, 0)[k].id)
            },
        summarized_from(cards, 0).len() <= cards.len(),
{
    lemma_ids_are_links_from(cards, 0);
}

/// One page of the listing, read from its HTML: the cards are copied out of
/// the page as the parser reports them, and turned into events by the rules
/// of [`summarized`].
pub fn read_list_page(html: &str) -> (page: ListPage)
    ensures
        is_page_of(page, page_cards(html@), page_has_next(html@)),
{
    let document = parse_document(html);
    let found = select_all_in_document(&document, CARD_SELECTOR);
    let mut cards: Vec<CardSnapshot> = Vec::new();
    let mut i: usize = 0;
    while i < found.len()
        invariant
            i <= found.len(),
            cards@.len() == i,
            forall|k: int| 0 <= k < i ==> (#[trigger] cards@[k])@ == card_view_of(found@[k]),
        decreases found.len() - i,
    {
        cards.push(snapshot_card(&found[i]));
        i += 1;
    }
    assert(cards_view(cards@) =~= page_cards(html@));
    let has_next = select_all_in_document(&document, NEXT_PAGE_SELECTOR).len() > 0;
    page_from_cards(&cards, has_next)
}

} // verus!

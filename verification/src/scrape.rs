//! Walking the pages of the listing: which page to fetch next, what to
//! report after each page, and when to stop.
//!
//! Fetching is the caller's: it asks for the next page to fetch, fetches it,
//! has it read by [`crate::listing::read_list_page`] and hands the result
//! back, until there is no next page.

use crate::decimal::{decimal_text, push_decimal};
use crate::listing::{events_view, ListPage, BASE_URL};
use crate::models::{Event, ScrapingProgress, ScrapingProgressView};
use crate::text::{append_str, chars_of, string_of};
use vstd::prelude::*;
use vstd::string::*;

verus! {

/// What follows the origin in the address of a page of the listing, up to
/// the page number.
pub const LIST_PATH: &'static str = "/en/events?page=";

/// How many pages beyond the current one a scrape expects while it goes on.
pub const PAGE_LOOKAHEAD: u32 = 5;

/// The address of page `page` of the listing.
pub open spec fn page_address(page: u32) -> Seq<char> {
    BASE_URL@ + LIST_PATH@ + decimal_text(page as nat)
}

/// The address of page `page` of the listing.
pub fn page_url(page: u32) -> (url: String)
    ensures
        url@ == page_address(page),
{
    let mut out = chars_of(BASE_URL);
    append_str(&mut out, LIST_PATH);
    push_decimal(&mut out, page as u64);
    string_of(&out)
}

/// The sum of two counts, or the largest count where the sum is beyond it.
pub open spec fn capped_sum(a: u32, b: u32) -> u32 {
    if a + b > u32::MAX {
        u32::MAX
    } else {
        (a + b) as u32
    }
}

/// A scrape of the listing in progress.
#[derive(Debug)]
pub struct ListScrape {
    /// The page to fetch next; once the last page has been seen, that page
    /// itself.
    pub page: u32,
    /// The cards seen so far.
    pub total_events_scraped: u32,
    /// The events found so far, in listing order.
    pub events: Vec<Event>,
    /// Whether the last page has been seen.
    pub finished: bool,
}

/// The report after a page: the page, the estimate of the number of pages,
/// the cards on the page and the cards so far.
pub open spec fn page_report(page: u32, cards: u32, total: u32) -> ScrapingProgressView {
    ScrapingProgressView {
        current_page: page,
        total_pages_estimate: if cards == 0 {
            page
        } else {
            capped_sum(page, PAGE_LOOKAHEAD)
        },
        events_on_current_page: cards,
        total_events_scraped: total,
        message: "Scraping page "@ + decimal_text(page as nat) + "..."@,
    }
}

/// The report at the end of a scrape whose state holds `page`: it names the
/// page before that one, both as the current page and as the number of
/// pages.
pub open spec fn final_report(page: u32, total: u32) -> ScrapingProgressView {
    ScrapingProgressView {
        current_page: (page - 1) as u32,
        total_pages_estimate: (page - 1) as u32,
        events_on_current_page: 0,
        total_events_scraped: total,
        message: "Scraping complete."@,
    }
}

/// The report for a result set of `count` events that came from the cache.
pub open spec fn cache_report(count: u32) -> ScrapingProgressView {
    ScrapingProgressView {
        current_page: 0,
        total_pages_estimate: 0,
        events_on_current_page: count,
        total_events_scraped: count,
        message: "Loaded from cache."@,
    }
}

/// The report for a result set of `count` events that came from the cache.
pub fn cached_progress(count: usize) -> (progress: ScrapingProgress)
    ensures
        progress@ == cache_report(crate::listing::clipped(count as int)),
{
    let n = crate::listing::clip(count);
    ScrapingProgress {
        current_page: 0,
        total_pages_estimate: 0,
        events_on_current_page: n,
        total_events_scraped: n,
        message: String::from_str("Loaded from cache."),
    }
}

impl ListScrape {
    /// Whether the scrape is in a state that [`ListScrape::start`] and
    /// [`ListScrape::absorb`] lead to: pages count from 1.
    pub open spec fn is_valid(&self) -> bool {
        self.page >= 1
    }

    /// The page to fetch next: none once the last page has been seen, and
    /// none beyond the limit.
    pub open spec fn next_page_of(&self, page_limit: Option<u32>) -> Option<u32> {
        if self.finished {
            None
        } else {
            match page_limit {
                Some(limit) => if self.page > limit {
                    None
                } else {
                    Some(self.page)
                },
                None => Some(self.page),
            }
        }
    }

    /// A scrape that has seen nothing yet and starts with page 1.
    pub fn start() -> (scrape: ListScrape)
        ensures
            scrape.is_valid(),
            scrape.page == 1,
            scrape.total_events_scraped == 0,
            scrape.events@.len() == 0,
            !scrape.finished,
    {
        ListScrape { page: 1, total_events_scraped: 0, events: Vec::new(), finished: false }
    }

    /// The page to fetch next. See [`ListScrape::next_page_of`].
    pub fn next_page(&self, page_limit: Option<u32>) -> (page: Option<u32>)
        ensures
            page == self.next_page_of(page_limit),
    {
        if self.finished {
            None
        } else {
            match page_limit {
                Some(limit) => {
                    if self.page > limit {
                        None
                    } else {
                        Some(self.page)
                    }
                },
                None => Some(self.page),
            }
        }
    }

    /// Takes in the page that was fetched last and reports on it.
    ///
    /// The events of the page follow the events found so far. A page without
    /// cards is taken to be past the end of the listing; a page without a
    /// link to a next page is the last one. Otherwise the scrape moves on to
    /// the following page.
    pub fn absorb(&mut self, page: ListPage) -> (progress: ScrapingProgress)
        requires
            old(self).is_valid(),
        ensures
            final(self).is_valid(),
            events_view(final(self).events@) == events_view(old(self).events@) + events_view(
                page.events@,
            ),
            final(self).total_events_scraped == capped_sum(
                old(self).total_events_scraped,
                page.cards_found,
            ),
            progress@ == page_report(
                old(self).page,
                page.cards_found,
                final(self).total_events_scraped,
            ),
            final(self).finished == (old(self).finished || page.cards_found == 0 || !page.has_next
                || old(self).page == u32::MAX),
            final(self).page == if page.cards_found > 0 && page.has_next && old(self).page
                < u32::MAX {
                (old(self).page + 1) as u32
            } else {
                old(self).page
            },
    {
        let ghost before = events_view(self.events@);
        let ghost added = events_view(page.events@);
        let mut page = page;
        let cards = page.cards_found;
        let has_next = page.has_next;
        self.events.append(&mut page.events);
        assert(events_view(self.events@) =~= before + added);
        self.total_events_scraped = self.total_events_scraped.saturating_add(cards);
        let current = self.page;
        let estimate = if cards == 0 {
            current
        } else {
            current.saturating_add(PAGE_LOOKAHEAD)
        };
        let mut message = chars_of("Scraping page ");
        push_decimal(&mut message, current as u64);
        append_str(&mut message, "...");
        if cards == 0 || !has_next || current == u32::MAX {
            self.finished = true;
        } else {
            self.page = current + 1;
        }
        ScrapingProgress {
            current_page: current,
            total_pages_estimate: estimate,
            events_on_current_page: cards,
            total_events_scraped: self.total_events_scraped,
            message: string_of(&message),
        }
    }

    /// The report at the end of the scrape. See [`final_report`].
    pub fn completion(&self) -> (progress: ScrapingProgress)
        requires
            self.is_valid(),
        ensures
            progress@ == final_report(self.page, self.total_events_scraped),
    {
        ScrapingProgress {
            current_page: self.page - 1,
            total_pages_estimate: self.page - 1,
            events_on_current_page: 0,
            total_events_scraped: self.total_events_scraped,
            message: String::from_str("Scraping complete."),
        }
    }

    /// The events found, in listing order.
    pub fn into_events(self) -> (events: Vec<Event>)
        ensures
            events == self.events,
    {
        self.events
    }
}

/// A scrape without a page limit goes on exactly until a page is empty or
/// has no link to a next page; with a limit it also stops after the page
/// with that number.
pub proof fn lemma_scrape_stops(scrape: ListScrape, page_limit: Option<u32>)
    ensures
        scrape.next_page_of(page_limit) is None <==> scrape.finished || (page_limit matches Some(
            limit,
        ) && scrape.page > limit),
        scrape.next_page_of(page_limit) matches Some(p) ==> p == scrape.page,
{
}

} // verus!

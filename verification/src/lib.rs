//! Extraction, normalization and calendar export of event listings.
//!
//! - [`listing`] and [`detail`] turn the pages of the site into events;
//!   [`scrape`] walks the pages of the listing.
//! - [`datetime`] resolves the start and end of an event from the date texts
//!   of the site; [`civil`] holds the dates and times it works with.
//! - [`links`] makes links absolute and picks an image from a source set.
//! - [`geo`] finds the coordinates of an event.
//! - [`cache`] decides whether a stored result set may still be used.
//! - [`ics`] writes an event as a calendar document.
//! - [`text`], [`decimal`] and [`html`] are what the others are built from.

pub mod cache;
pub mod civil;
mod clock;
pub mod datetime;
pub mod decimal;
pub mod detail;
pub mod geo;
pub mod html;
pub mod ics;
pub mod links;
pub mod listing;
pub mod models;
pub mod scrape;
pub mod text;

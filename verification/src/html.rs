//! Reading parsed HTML: selecting elements and taking their text and
//! attributes.
//!
//! Parsing and selector matching are the scraper crate's. A document and its
//! elements are opaque here: what scraper reports of them is known only by
//! name. What is read from them is copied into plain strings, and everything
//! else in this crate works on those.

use crate::text::{chars_of, optional_text, optional_texts, string_of, trim_chars, trimmed};
use scraper::{ElementRef, Html, Selector};
use vstd::prelude::*;
use vstd::string::*;

verus! {

/// `scraper::Html`, a parsed document. What it holds is visible here only
/// through [`document_selection`].
#[verifier::external_type_specification]
#[verifier::external_body]
pub struct ExHtml(scraper::Html);

/// `scraper::ElementRef`, an element of a parsed document: a place in that
/// document, whatever the address it is kept at. What it holds is visible
/// here only through [`element_selection`], [`attribute_value`],
/// [`element_text`] and [`element_children`].
#[verifier::external_type_specification]
#[verifier::external_body]
pub struct ExElementRef<'a>(scraper::ElementRef<'a>);

/// `scraper::Selector`, a compiled CSS selector. Nothing of what it holds is
/// visible here; [`compiled_selector`] says which text it comes from.
#[verifier::external_type_specification]
#[verifier::external_body]
pub struct ExSelector(scraper::Selector);

/// The document that scraper's parser makes of a text.
pub uninterp spec fn parsed_document(text: Seq<char>) -> Html;

/// The selector that scraper compiles a text to; `None` where the text is
/// not a selector.
pub uninterp spec fn compiled_selector(css: Seq<char>) -> Option<Selector>;

/// The elements of a document that match a selector, in the order in which
/// the parser added them to the document.
pub uninterp spec fn document_selection(document: Html, selector: Selector) -> Seq<
    ElementRef<'static>,
>;

/// The descendants of an element that match a selector, in document order.
pub uninterp spec fn element_selection(element: ElementRef, selector: Selector) -> Seq<ElementRef>;

/// The value of an element's attribute of the given name; `None` where the
/// element has no such attribute.
pub uninterp spec fn attribute_value(element: ElementRef, name: Seq<char>) -> Option<Seq<char>>;

/// The text nodes below an element, joined in document order.
pub uninterp spec fn element_text(element: ElementRef) -> Seq<char>;

/// The children of an element itself, in document order: for a child that
/// is a text node its text, for any other child `None`.
pub uninterp spec fn element_children(element: ElementRef) -> Seq<Option<Seq<char>>>;

/// `Html::parse_document` of scraper. Any text parses to some document, and
/// the same text to the same one: [`parsed_document`].
#[verifier::external_body]
pub(crate) fn parse_document(text: &str) -> (document: Html)
    ensures
        document == parsed_document(text@),
{
    Html::parse_document(text)
}

/// `Selector::parse` of scraper; `None` where `css` is not a selector. The
/// outcome depends on the text alone: [`compiled_selector`].
#[verifier::external_body]
pub(crate) fn compile_selector(css: &str) -> (selector: Option<Selector>)
    ensures
        selector == compiled_selector(css@),
{
    match Selector::parse(css) {
        Ok(selector) => Some(selector),
        Err(_) => None,
    }
}

/// `Html::select` of scraper, run to its end: the elements of the document
/// that match, in the order in which the parser added them, which is
/// [`document_selection`].
#[verifier::external_body]
pub(crate) fn document_matches<'a>(document: &'a Html, selector: &Selector) -> (found: Vec<
    ElementRef<'a>,
>)
    ensures
        found@ == document_selection(*document, *selector),
{
    document.select(selector).collect()
}

/// `ElementRef::select` of scraper, run to its end: the descendants of the
/// element that match, in document order, which is [`element_selection`].
#[verifier::external_body]
pub(crate) fn element_matches<'a>(element: &ElementRef<'a>, selector: &Selector) -> (found: Vec<
    ElementRef<'a>,
>)
    ensures
        found@ == element_selection(*element, *selector),
{
    element.select(selector).collect()
}

/// `ElementRef::attr` of scraper: the value of the attribute, if the element
/// has it, which is [`attribute_value`].
#[verifier::external_body]
pub(crate) fn attribute(element: &ElementRef, name: &str) -> (value: Option<String>)
    ensures
        optional_text(value) == attribute_value(*element, name@),
{
    match element.attr(name) {
        Some(value) => Some(value.to_string()),
        None => None,
    }
}

/// `ElementRef::text` of scraper, collected: the text nodes below the
/// element, joined in document order, which is [`element_text`].
#[verifier::external_body]
pub(crate) fn text_content(element: &ElementRef) -> (text: String)
    ensures
        text@ == element_text(*element),
{
    element.text().collect()
}

/// The children of the element itself, in document order
/// (`NodeRef::children` of ego-tree, as scraper hands it on), each with its
/// text where it is a text node (`Node::as_text` of scraper), which is
/// [`element_children`].
#[verifier::external_body]
pub(crate) fn children_text(element: &ElementRef) -> (nodes: Vec<Option<String>>)
    ensures
        optional_texts(nodes@) == element_children(*element),
{
    let mut nodes = Vec::new();
    for node in element.children() {
        nodes.push(
            match node.value().as_text() {
                Some(text) => Some(text.to_string()),
                None => None,
            },
        );
    }
    nodes
}

/// The descendants of `element` that match `css`, in document order; none
/// where `css` is not a selector.
pub open spec fn selected<'a>(element: ElementRef<'a>, css: Seq<char>) -> Seq<ElementRef<'a>> {
    match compiled_selector(css) {
        Some(selector) => element_selection(element, selector),
        None => Seq::empty(),
    }
}

/// The elements of `document` that match `css`, in the order in which the
/// parser added them; none where `css` is not a selector.
pub open spec fn selected_in_document(document: Html, css: Seq<char>) -> Seq<ElementRef<'static>> {
    match compiled_selector(css) {
        Some(selector) => document_selection(document, selector),
        None => Seq::empty(),
    }
}

/// The text below `element`, without leading and trailing white space.
pub open spec fn trimmed_text(element: ElementRef) -> Seq<char> {
    trimmed(element_text(element))
}

/// The trimmed text of the first descendant of `element` that matches
/// `css`; `None` where nothing matches.
pub open spec fn first_selected_text(element: ElementRef, css: Seq<char>) -> Option<Seq<char>> {
    if selected(element, css).len() > 0 {
        Some(trimmed_text(selected(element, css)[0]))
    } else {
        None
    }
}

/// As [`first_selected_text`], but an empty text counts as none.
pub open spec fn first_shown_text(element: ElementRef, css: Seq<char>) -> Option<Seq<char>> {
    match first_selected_text(element, css) {
        Some(text) => if text.len() > 0 {
            Some(text)
        } else {
            None
        },
        None => None,
    }
}

/// The descendants of `element` that match `css`, in document order; none
/// where `css` is not a selector.
pub(crate) fn select_all<'a>(element: &ElementRef<'a>, css: &str) -> (found: Vec<ElementRef<'a>>)
    ensures
        found@ == selected(*element, css@),
{
    match compile_selector(css) {
        Some(selector) => element_matches(element, &selector),
        None => Vec::new(),
    }
}

/// The elements of `document` that match `css`, in the order in which the
/// parser added them; none where `css` is not a selector.
pub(crate) fn select_all_in_document<'a>(document: &'a Html, css: &str) -> (found: Vec<
    ElementRef<'a>,
>)
    ensures
        found@ == selected_in_document(*document, css@),
{
    match compile_selector(css) {
        Some(selector) => document_matches(document, &selector),
        None => Vec::new(),
    }
}

/// The text of the first descendant of `element` that matches `css`.
pub(crate) fn first_text(element: &ElementRef, css: &str) -> (text: Option<String>)
    ensures
        optional_text(text) == first_selected_text(*element, css@),
{
    let found = select_all(element, css);
    if found.len() > 0 {
        Some(get_element_text(&found[0]))
    } else {
        None
    }
}

/// Whether some descendant of `element` matches `css`.
pub(crate) fn has_match(element: &ElementRef, css: &str) -> (found: bool)
    ensures
        found == (selected(*element, css@).len() > 0),
{
    select_all(element, css).len() > 0
}

/// The text below an element, without leading and trailing white space.
pub fn get_element_text(element_ref: &ElementRef) -> (text: String)
    ensures
        text@ == trimmed_text(*element_ref),
        trimmed(text@) == text@,
{
    let raw = text_content(element_ref);
    let chars = chars_of(raw.as_str());
    let kept = trim_chars(&chars);
    proof {
        crate::text::lemma_trimmed_is_stable(chars@);
    }
    string_of(&kept)
}

/// The text of the first descendant of `element` that matches
/// `selector_str`, unless that text is empty. `None` also where
/// `selector_str` is not a selector or matches nothing.
pub fn select_first_text(element: &ElementRef, selector_str: &str) -> (text: Option<String>)
    ensures
        optional_text(text) == first_shown_text(*element, selector_str@),
{
    match compile_selector(selector_str) {
        Some(selector) => {
            let found = element_matches(element, &selector);
            if found.len() > 0 {
                let text = get_element_text(&found[0]);
                if text.as_str().unicode_len() > 0 {
                    Some(text)
                } else {
                    None
                }
            } else {
                None
            }
        },
        None => None,
    }
}

} // verus!

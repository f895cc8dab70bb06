//! Links and image source sets: making a link absolute and choosing the
//! best candidate of a source set.

use crate::decimal::{parse_i32, parse_i32_text};
use crate::text::{
    append_str, chars_of, has_prefix, optional_text, split, split_chars, split_words, starts_with,
    string_of, texts, words,
};
use url::Url;
use vstd::prelude::*;
use vstd::string::*;

verus! {

/// The serialization of the URL that `path` resolves to against the absolute
/// URL `base`, as the url crate computes it; `None` where `base` is no
/// absolute URL or `path` does not resolve against it.
pub uninterp spec fn url_join(base: Seq<char>, path: Seq<char>) -> Option<Seq<char>>;

/// `Url::parse` on `base`, `Url::join` with `path`, and the result written
/// out: [`url_join`] of the two texts.
#[verifier::external_body]
fn join_url(base: &str, path: &str) -> (joined: Option<String>)
    ensures
        optional_text(joined) == url_join(base@, path@),
{
    match Url::parse(base) {
        Ok(base_url) => match base_url.join(path) {
            Ok(url) => Some(url.to_string()),
            Err(_) => None,
        },
        Err(_) => None,
    }
}

/// The absolute form of `path`: unchanged when it starts with `http://` or
/// `https://`, with `https:` in front when it starts with `//`, and else
/// resolved against `base`.
pub open spec fn absolute_url(base: Seq<char>, path: Seq<char>) -> Option<Seq<char>> {
    if has_prefix(path, "http://"@) || has_prefix(path, "https://"@) {
        Some(path)
    } else if has_prefix(path, "//"@) {
        Some("https:"@ + path)
    } else {
        url_join(base, path)
    }
}

/// The absolute form of `path`. See [`absolute_url`].
pub fn make_absolute_url(base: &str, path: &str) -> (url: Option<String>)
    ensures
        optional_text(url) == absolute_url(base@, path@),
{
    let chars = chars_of(path);
    let http = chars_of("http://");
    let https = chars_of("https://");
    let relative = chars_of("//");
    if starts_with(&chars, &http) || starts_with(&chars, &https) {
        Some(string_of(&chars))
    } else if starts_with(&chars, &relative) {
        let mut out = chars_of("https:");
        append_str(&mut out, path);
        Some(string_of(&out))
    } else {
        join_url(base, path)
    }
}

/// What an entry of a source set says about its width.
#[derive(Clone, Copy, Debug, PartialEq, Eq, Structural)]
pub enum WidthHint {
    /// The entry has no width descriptor.
    Undeclared,
    /// The entry has a width descriptor; the width is `None` where it could
    /// not be read as a number.
    Declared(Option<i32>),
}

/// One entry of a source set.
#[derive(Debug)]
pub struct SourceEntry {
    pub url: String,
    pub width: WidthHint,
}

/// What a [`SourceEntry`] holds, as plain text and values.
pub struct SourceEntryView {
    pub url: Seq<char>,
    pub width: WidthHint,
}

impl View for SourceEntry {
    type V = SourceEntryView;

    open spec fn view(&self) -> SourceEntryView {
        SourceEntryView { url: self.url@, width: self.width }
    }
}

/// What a list of entries holds.
pub open spec fn entries_view(entries: Seq<SourceEntry>) -> Seq<SourceEntryView> {
    Seq::new(entries.len(), |i: int| entries[i]@)
}

/// The length of `s` once every `c` at its end is dropped.
pub open spec fn end_without(s: Seq<char>, c: char, to: int) -> int
    decreases to,
{
    if 0 < to <= s.len() && s[to - 1] == c {
        end_without(s, c, to - 1)
    } else {
        to
    }
}

/// The entry that one comma-separated piece of a source set denotes: its
/// first word is the address; its second word, when it ends in `w`, is the
/// width descriptor. A piece without words denotes nothing.
pub open spec fn entry_of(piece: Seq<char>) -> Option<SourceEntryView> {
    let w = words(piece);
    if w.len() == 0 {
        None
    } else {
        Some(
            SourceEntryView {
                url: w[0],
                width: if w.len() > 1 && w[1].len() > 0 && w[1].last() == 'w' {
                    WidthHint::Declared(
                        parse_i32_text(
                            w[1].subrange(0, end_without(w[1], 'w', w[1].len() as int)),
                        ),
                    )
                } else {
                    WidthHint::Undeclared
                },
            },
        )
    }
}

/// The entries that the pieces from index `from` on denote.
pub open spec fn entries_from(pieces: Seq<Seq<char>>, from: int) -> Seq<SourceEntryView>
    decreases pieces.len() - from,
{
    if 0 <= from < pieces.len() {
        match entry_of(pieces[from]) {
            Some(e) => seq![e] + entries_from(pieces, from + 1),
            None => entries_from(pieces, from + 1),
        }
    } else {
        seq![]
    }
}

/// The entries of a source set.
pub open spec fn source_entries(source_set: Seq<char>) -> Seq<SourceEntryView> {
    entries_from(split(source_set, ','), 0)
}

/// The width that an entry declares, where its descriptor reads as a
/// number.
pub open spec fn declared_width(entry: SourceEntryView) -> Option<int> {
    match entry.width {
        WidthHint::Declared(Some(w)) => Some(w as int),
        _ => None,
    }
}

/// The choice among the first `upto` entries, and the largest width that
/// one of them declares (`None` where none declares a width).
pub open spec fn choice_among(entries: Seq<SourceEntryView>, upto: int) -> (
    Option<int>,
    Option<int>,
)
    decreases upto,
{
    if upto <= 0 || upto > entries.len() {
        (None, None)
    } else {
        let (best, widest) = choice_among(entries, upto - 1);
        let entry = entries[upto - 1];
        match declared_width(entry) {
            Some(w) => if widest is None || w > widest.unwrap() {
                (Some(upto - 1), Some(w))
            } else {
                (best, widest)
            },
            None => if entry.width is Undeclared && best is None {
                (Some(upto - 1), widest)
            } else {
                (best, widest)
            },
        }
    }
}

/// The index of the entry to use: the first one with the largest declared
/// width; where no entry declares a width, the first one without a width
/// descriptor.
pub open spec fn chosen_index(entries: Seq<SourceEntryView>) -> Option<int> {
    choice_among(entries, entries.len() as int).0
}

/// What [`choice_among`] computes, said outright.
proof fn lemma_choice_among(entries: Seq<SourceEntryView>, upto: int)
    requires
        0 <= upto <= entries.len(),
    ensures
        ({
            let (best, widest) = choice_among(entries, upto);
            match widest {
                Some(v) => {
                    &&& best matches Some(i)
                    &&& 0 <= i < upto
                    &&& declared_width(entries[i]) == Some(v)
                    &&& forall|j: int|
                        0 <= j < i ==> #[trigger] declared_width(entries[j]) != Some(v)
                    &&& forall|j: int|
                        0 <= j < upto ==> (#[trigger] declared_width(entries[j]) matches Some(w)
                            ==> w <= v)
                },
                None => {
                    &&& forall|j: int|
                        0 <= j < upto ==> #[trigger] declared_width(entries[j]) is None
                    &&& match best {
                        Some(i) => {
                            &&& 0 <= i < upto
                            &&& entries[i].width is Undeclared
                            &&& forall|j: int|
                                0 <= j < i ==> !(#[trigger] entries[j].width is Undeclared)
                        },
                        None => forall|j: int|
                            0 <= j < upto ==> !(#[trigger] entries[j].width is Undeclared),
                    }
                },
            }
        }),
    decreases upto,
{
    if upto > 0 {
        lemma_choice_among(entries, upto - 1);
    }
}

/// Where some entry declares a width, the chosen entry has the largest
/// declared width and is the first to have it. Where none does, the chosen
/// entry is the first one without a width descriptor. Nothing is chosen
/// only where every entry has a descriptor that does not read as a number.
pub proof fn lemma_chosen_index(entries: Seq<SourceEntryView>)
    ensures
        match chosen_index(entries) {
            Some(i) => {
                &&& 0 <= i < entries.len()
                &&& forall|j: int|
                    0 <= j < entries.len() ==> (#[trigger] declared_width(entries[j]) matches Some(
                        w,
                    ) ==> declared_width(entries[i]) matches Some(v) && w <= v)
                &&& declared_width(entries[i]) is Some ==> forall|j: int|
                    0 <= j < i ==> #[trigger] declared_width(entries[j]) != declared_width(
                        entries[i],
                    )
                &&& declared_width(entries[i]) is None ==> {
                    &&& entries[i].width is Undeclared
                    &&& forall|j: int| 0 <= j < i ==> !(#[trigger] entries[j].width is Undeclared)
                }
            },
            None => forall|j: int|
                0 <= j < entries.len() ==> (#[trigger] entries[j]).width == WidthHint::Declared(
                    None,
                ),
        },
{
    lemma_choice_among(entries, entries.len() as int);
    if chosen_index(entries) is None {
        assert forall|j: int| 0 <= j < entries.len() implies (#[trigger] entries[j]).width
            == WidthHint::Declared(None) by {
            assert(declared_width(entries[j]) is None);
            assert(!(entries[j].width is Undeclared));
        }
    }
}

/// A source set of one entry whose width reads as a number has that entry
/// chosen, whatever the width.
pub proof fn lemma_single_declared_entry_is_chosen(entry: SourceEntryView)
    requires
        declared_width(entry) is Some,
    ensures
        chosen_index(seq![entry]) == Some(0int),
{
    let entries = seq![entry];
    assert(choice_among(entries, 0) == (None::<int>, None::<int>));
    assert(choice_among(entries, 1).0 == Some(0int));
}

/// The address of the chosen entry of a source set.
pub open spec fn chosen_source(source_set: Seq<char>) -> Option<Seq<char>> {
    let entries = source_entries(source_set);
    match chosen_index(entries) {
        Some(i) => Some(entries[i].url),
        None => None,
    }
}

/// The image that a source set stands for: its chosen entry, made absolute.
pub open spec fn best_source(source_set: Seq<char>, base: Seq<char>) -> Option<Seq<char>> {
    match chosen_source(source_set) {
        Some(url) => absolute_url(base, url),
        None => None,
    }
}

/// The index reached by [`end_without`].
fn strip_end(chars: &Vec<char>, c: char) -> (end: usize)
    ensures
        end == end_without(chars@, c, chars.len() as int),
        end <= chars.len(),
{
    let mut i: usize = chars.len();
    while 0 < i && chars[i - 1] == c
        invariant
            i <= chars.len(),
            end_without(chars@, c, chars.len() as int) == end_without(chars@, c, i as int),
        decreases i,
    {
        i -= 1;
    }
    i
}

/// The entry that one piece of a source set denotes. See [`entry_of`].
pub fn parse_source_entry(piece: &Vec<char>) -> (entry: Option<SourceEntry>)
    ensures
        match entry {
            Some(e) => entry_of(piece@) == Some(e@),
            None => entry_of(piece@) is None,
        },
{
    let parts = split_words(piece);
    assert(texts(parts@).len() == parts.len());
    if parts.len() == 0 {
        return None;
    }
    assert(texts(parts@)[0] == parts[0]@);
    let url = string_of(&parts[0]);
    let mut width = WidthHint::Undeclared;
    if parts.len() > 1 {
        assert(texts(parts@)[1] == parts[1]@);
        let second = &parts[1];
        if second.len() > 0 && second[second.len() - 1] == 'w' {
            let end = strip_end(second, 'w');
            let digits = crate::text::slice_chars(second, 0, end);
            width = WidthHint::Declared(parse_i32(&digits));
        }
    }
    Some(SourceEntry { url, width })
}

/// The entries of a source set. See [`source_entries`].
pub fn parse_source_set(source_set: &str) -> (entries: Vec<SourceEntry>)
    ensures
        entries_view(entries@) == source_entries(source_set@),
{
    let chars = chars_of(source_set);
    let pieces = split_chars(&chars, ',');
    let mut entries: Vec<SourceEntry> = Vec::new();
    let mut i: usize = 0;
    assert(texts(pieces@).len() == pieces.len());
    while i < pieces.len()
        invariant
            i <= pieces.len(),
            texts(pieces@) == split(source_set@, ','),
            texts(pieces@).len() == pieces.len(),
            entries_view(entries@) + entries_from(texts(pieces@), i as int) == source_entries(
                source_set@,
            ),
        decreases pieces.len() - i,
    {
        assert(texts(pieces@)[i as int] == pieces[i as int]@);
        let ghost before = entries_view(entries@);
        match parse_source_entry(&pieces[i]) {
            Some(entry) => {
                entries.push(entry);
                assert(entries_view(entries@) =~= before.push(entry@));
                assert(entries_view(entries@) + entries_from(texts(pieces@), i + 1) =~= before
                    + entries_from(texts(pieces@), i as int));
            },
            None => {},
        }
        i += 1;
    }
    assert(entries_view(entries@) + entries_from(texts(pieces@), i as int) =~= entries_view(
        entries@,
    ));
    entries
}

/// The index of the entry to use. See [`chosen_index`] and
/// [`lemma_chosen_index`].
pub fn choose_source(entries: &Vec<SourceEntry>) -> (index: Option<usize>)
    ensures
        match index {
            Some(i) => chosen_index(entries_view(entries@)) == Some(i as int) && i < entries.len(),
            None => chosen_index(entries_view(entries@)) is None,
        },
{
    let mut best: Option<usize> = None;
    let mut widest: Option<i32> = None;
    let mut i: usize = 0;
    let ghost all = entries_view(entries@);
    while i < entries.len()
        invariant
            i <= entries.len(),
            all == entries_view(entries@),
            all.len() == entries.len(),
            match widest {
                Some(v) => choice_among(all, i as int).1 == Some(v as int),
                None => choice_among(all, i as int).1 is None,
            },
            match best {
                Some(b) => choice_among(all, i as int).0 == Some(b as int) && b < i,
                None => choice_among(all, i as int).0 is None,
            },
        decreases entries.len() - i,
    {
        assert(all[i as int] == entries[i as int]@);
        match entries[i].width {
            WidthHint::Declared(Some(w)) => {
                let wider = match widest {
                    Some(v) => w > v,
                    None => true,
                };
                if wider {
                    widest = Some(w);
                    best = Some(i);
                }
            },
            WidthHint::Declared(None) => {},
            WidthHint::Undeclared => {
                if best.is_none() {
                    best = Some(i);
                }
            },
        }
        i += 1;
    }
    best
}

/// The image that a source set stands for, made absolute against
/// `base_url_for_relative`. See [`best_source`].
pub fn parse_image_url_from_srcset(srcset: &str, base_url_for_relative: &str) -> (url: Option<
    String,
>)
    ensures
        optional_text(url) == best_source(srcset@, base_url_for_relative@),
{
    let entries = parse_source_set(srcset);
    match choose_source(&entries) {
        Some(i) => {
            assert(entries_view(entries@)[i as int] == entries[i as int]@);
            make_absolute_url(base_url_for_relative, entries[i].url.as_str())
        },
        None => None,
    }
}

} // verus!

//! Text helpers shared by the extraction, resolution and serialization code.
//!
//! Text is modelled as `Seq<char>`. The executable helpers work on `Vec<char>`
//! buffers and index ranges; the scanning functions are stated over an index
//! into the text, so that a loop can follow them step by step.

use vstd::prelude::*;
use vstd::std_specs::iter::IteratorSpec;
use vstd::string::*;

verus! {

/// `String::push` of the standard library: the character is appended, and
/// nothing else about the string changes.
pub assume_specification[ String::push ](s: &mut String, c: char)
    ensures
        final(s)@ == old(s)@.push(c),
;

/// The characters of `text`, in order.
pub fn chars_of(text: &str) -> (chars: Vec<char>)
    ensures
        chars@ == text@,
{
    broadcast use vstd::string::group_string_axioms;

    let mut chars: Vec<char> = Vec::new();
    let mut it = text.chars();
    loop
        invariant
            chars@ + it.remaining() == text@,
        ensures
            chars@ == text@,
        decreases text@.len() - chars@.len(),
    {
        match it.next() {
            Some(c) => {
                chars.push(c);
                assert(chars@ + it.remaining() =~= text@);
            },
            None => {
                assert(chars@ + it.remaining() =~= chars@);
                break ;
            },
        }
    }
    chars
}

/// The string made of `chars[from..to]`.
pub fn substring(chars: &Vec<char>, from: usize, to: usize) -> (s: String)
    requires
        from <= to <= chars.len(),
    ensures
        s@ == chars@.subrange(from as int, to as int),
{
    let mut s = String::new();
    let mut i: usize = from;
    while i < to
        invariant
            from <= i <= to <= chars.len(),
            s@ == chars@.subrange(from as int, i as int),
        decreases to - i,
    {
        s.push(chars[i]);
        i += 1;
        assert(s@ =~= chars@.subrange(from as int, i as int));
    }
    s
}

/// The string made of all of `chars`.
pub fn string_of(chars: &Vec<char>) -> (s: String)
    ensures
        s@ == chars@,
{
    let s = substring(chars, 0, chars.len());
    assert(chars@.subrange(0, chars.len() as int) =~= chars@);
    s
}

/// Appends `chars[from..to]` to `out`.
pub fn append_range(out: &mut Vec<char>, chars: &Vec<char>, from: usize, to: usize)
    requires
        from <= to <= chars.len(),
    ensures
        final(out)@ == old(out)@ + chars@.subrange(from as int, to as int),
{
    let mut i: usize = from;
    while i < to
        invariant
            from <= i <= to <= chars.len(),
            out@ == old(out)@ + chars@.subrange(from as int, i as int),
        decreases to - i,
    {
        out.push(chars[i]);
        i += 1;
        assert(out@ =~= old(out)@ + chars@.subrange(from as int, i as int));
    }
}

/// Appends the characters of `text` to `out`.
pub fn append_str(out: &mut Vec<char>, text: &str)
    ensures
        final(out)@ == old(out)@ + text@,
{
    let chars = chars_of(text);
    append_range(out, &chars, 0, chars.len());
    assert(chars@.subrange(0, chars.len() as int) =~= chars@);
}

/// Whether two buffers hold the same text.
pub fn same_chars(a: &Vec<char>, b: &Vec<char>) -> (same: bool)
    ensures
        same == (a@ == b@),
{
    if a.len() != b.len() {
        return false;
    }
    let mut i: usize = 0;
    while i < a.len()
        invariant
            i <= a.len(),
            a.len() == b.len(),
            a@.take(i as int) == b@.take(i as int),
        decreases a.len() - i,
    {
        if a[i] != b[i] {
            return false;
        }
        i += 1;
        assert(a@.take(i as int) =~= a@.take(i - 1).push(a@[i - 1]));
        assert(b@.take(i as int) =~= b@.take(i - 1).push(b@[i - 1]));
    }
    assert(a@.take(a.len() as int) =~= a@);
    assert(b@.take(b.len() as int) =~= b@);
    true
}

/// The characters that count as white space: the Unicode `White_Space` set.
pub open spec fn is_whitespace(c: char) -> bool {
    let u = c as u32;
    (0x09 <= u <= 0x0D) || u == 0x20 || u == 0x85 || u == 0xA0 || u == 0x1680 || (0x2000 <= u
        <= 0x200A) || u == 0x2028 || u == 0x2029 || u == 0x202F || u == 0x205F || u == 0x3000
}

/// Executable form of [`is_whitespace`].
pub fn whitespace_char(c: char) -> (b: bool)
    ensures
        b == is_whitespace(c),
{
    let u: u32 = c as u32;
    (0x09 <= u && u <= 0x0D) || u == 0x20 || u == 0x85 || u == 0xA0 || u == 0x1680 || (0x2000 <= u
        && u <= 0x200A) || u == 0x2028 || u == 0x2029 || u == 0x202F || u == 0x205F || u == 0x3000
}

/// The first index at or after `from` that holds no white space (or the
/// length of `s` when only white space is left).
pub open spec fn skip_whitespace(s: Seq<char>, from: int) -> int
    decreases s.len() - from,
{
    if 0 <= from < s.len() && is_whitespace(s[from]) {
        skip_whitespace(s, from + 1)
    } else {
        from
    }
}

/// The end of `s[from..to]` once trailing white space is dropped.
pub open spec fn skip_whitespace_back(s: Seq<char>, from: int, to: int) -> int
    decreases to,
{
    if from < to <= s.len() && 0 < to && is_whitespace(s[to - 1]) {
        skip_whitespace_back(s, from, to - 1)
    } else {
        to
    }
}

/// The first index at or after `from` that holds white space (or the length
/// of `s` when none is left).
pub open spec fn skip_word(s: Seq<char>, from: int) -> int
    decreases s.len() - from,
{
    if 0 <= from < s.len() && !is_whitespace(s[from]) {
        skip_word(s, from + 1)
    } else {
        from
    }
}

/// `s` without its leading and trailing white space.
pub open spec fn trimmed(s: Seq<char>) -> Seq<char> {
    let a = skip_whitespace(s, 0);
    s.subrange(a, skip_whitespace_back(s, a, s.len() as int))
}

/// [`skip_whitespace`] stops within the text, on the first character that is
/// no white space.
pub proof fn lemma_skip_whitespace_bounds(s: Seq<char>, from: int)
    requires
        0 <= from <= s.len(),
    ensures
        from <= skip_whitespace(s, from) <= s.len(),
        forall|k: int| from <= k < skip_whitespace(s, from) ==> is_whitespace(#[trigger] s[k]),
        skip_whitespace(s, from) < s.len() ==> !is_whitespace(s[skip_whitespace(s, from)]),
    decreases s.len() - from,
{
    if from < s.len() && is_whitespace(s[from]) {
        lemma_skip_whitespace_bounds(s, from + 1);
    }
}

/// [`skip_whitespace_back`] stops within the range, behind the last character
/// that is no white space.
pub proof fn lemma_skip_whitespace_back_bounds(s: Seq<char>, from: int, to: int)
    requires
        0 <= from <= to <= s.len(),
    ensures
        from <= skip_whitespace_back(s, from, to) <= to,
        forall|k: int|
            skip_whitespace_back(s, from, to) <= k < to ==> is_whitespace(#[trigger] s[k]),
        from < skip_whitespace_back(s, from, to) ==> !is_whitespace(
            s[skip_whitespace_back(s, from, to) - 1],
        ),
    decreases to,
{
    if from < to && is_whitespace(s[to - 1]) {
        lemma_skip_whitespace_back_bounds(s, from, to - 1);
    }
}

/// [`skip_word`] stops within the text, on the first white space, and moves
/// on from a character that is none.
pub proof fn lemma_skip_word_bounds(s: Seq<char>, from: int)
    requires
        0 <= from <= s.len(),
    ensures
        from <= skip_word(s, from) <= s.len(),
        forall|k: int| from <= k < skip_word(s, from) ==> !is_whitespace(#[trigger] s[k]),
        skip_word(s, from) < s.len() ==> is_whitespace(s[skip_word(s, from)]),
        from < s.len() && !is_whitespace(s[from]) ==> from < skip_word(s, from),
    decreases s.len() - from,
{
    if from < s.len() && !is_whitespace(s[from]) {
        lemma_skip_word_bounds(s, from + 1);
    }
}

/// Trimming leaves a text that starts and ends with something other than
/// white space, so trimming twice changes nothing more.
pub proof fn lemma_trimmed_is_stable(s: Seq<char>)
    ensures
        trimmed(trimmed(s)) == trimmed(s),
        trimmed(s).len() > 0 ==> !is_whitespace(trimmed(s)[0]) && !is_whitespace(trimmed(s).last()),
{
    let a = skip_whitespace(s, 0);
    lemma_skip_whitespace_bounds(s, 0);
    let b = skip_whitespace_back(s, a, s.len() as int);
    lemma_skip_whitespace_back_bounds(s, a, s.len() as int);
    let t = s.subrange(a, b);
    if t.len() > 0 {
        assert(t[0] == s[a]);
        assert(t.last() == s[b - 1]);
        assert(skip_whitespace(t, 0) == 0);
        assert(skip_whitespace_back(t, 0, t.len() as int) == t.len());
        assert(t.subrange(0, t.len() as int) =~= t);
    } else {
        assert(skip_whitespace(t, 0) == 0);
        assert(t.subrange(0, 0) =~= t);
    }
}

/// The index reached by [`skip_whitespace`].
pub fn whitespace_end(chars: &Vec<char>, from: usize) -> (to: usize)
    requires
        from <= chars.len(),
    ensures
        to == skip_whitespace(chars@, from as int),
        from <= to <= chars.len(),
{
    let mut i: usize = from;
    while i < chars.len() && whitespace_char(chars[i])
        invariant
            from <= i <= chars.len(),
            skip_whitespace(chars@, from as int) == skip_whitespace(chars@, i as int),
        decreases chars.len() - i,
    {
        i += 1;
    }
    i
}

/// The index reached by [`skip_whitespace_back`].
pub fn whitespace_start_back(chars: &Vec<char>, from: usize, to: usize) -> (end: usize)
    requires
        from <= to <= chars.len(),
    ensures
        end == skip_whitespace_back(chars@, from as int, to as int),
        from <= end <= to,
{
    let mut i: usize = to;
    while from < i && whitespace_char(chars[i - 1])
        invariant
            from <= i <= to <= chars.len(),
            skip_whitespace_back(chars@, from as int, to as int) == skip_whitespace_back(
                chars@,
                from as int,
                i as int,
            ),
        decreases i,
    {
        i -= 1;
    }
    i
}

/// The index reached by [`skip_word`].
pub fn word_end(chars: &Vec<char>, from: usize) -> (to: usize)
    requires
        from <= chars.len(),
    ensures
        to == skip_word(chars@, from as int),
        from <= to <= chars.len(),
{
    let mut i: usize = from;
    while i < chars.len() && !whitespace_char(chars[i])
        invariant
            from <= i <= chars.len(),
            skip_word(chars@, from as int) == skip_word(chars@, i as int),
        decreases chars.len() - i,
    {
        i += 1;
    }
    i
}

/// `chars` without leading and trailing white space.
pub fn trim_chars(chars: &Vec<char>) -> (out: Vec<char>)
    ensures
        out@ == trimmed(chars@),
{
    let a = whitespace_end(chars, 0);
    let b = whitespace_start_back(chars, a, chars.len());
    let mut out: Vec<char> = Vec::new();
    append_range(&mut out, chars, a, b);
    assert(out@ =~= chars@.subrange(a as int, b as int));
    out
}

/// `text` without leading and trailing white space.
pub fn trim(text: &str) -> (out: String)
    ensures
        out@ == trimmed(text@),
{
    let chars = chars_of(text);
    let a = whitespace_end(&chars, 0);
    let b = whitespace_start_back(&chars, a, chars.len());
    substring(&chars, a, b)
}

/// The texts of a list of strings.
pub open spec fn strings_text(list: Seq<String>) -> Seq<Seq<char>> {
    Seq::new(list.len(), |i: int| list[i]@)
}

/// The texts of a list of strings of which some may be absent.
pub open spec fn optional_texts(list: Seq<Option<String>>) -> Seq<Option<Seq<char>>> {
    Seq::new(list.len(), |i: int| optional_text(list[i]))
}

/// The texts held by a sequence of buffers.
pub open spec fn texts(buffers: Seq<Vec<char>>) -> Seq<Seq<char>> {
    Seq::new(buffers.len(), |i: int| buffers[i]@)
}

/// A copy of `chars[from..to]`.
pub fn slice_chars(chars: &Vec<char>, from: usize, to: usize) -> (out: Vec<char>)
    requires
        from <= to <= chars.len(),
    ensures
        out@ == chars@.subrange(from as int, to as int),
{
    let mut out: Vec<char> = Vec::new();
    append_range(&mut out, chars, from, to);
    assert(out@ =~= chars@.subrange(from as int, to as int));
    out
}

/// The first index at or after `from` that holds `c` (or the length of `s`
/// when there is none).
pub open spec fn find_char(s: Seq<char>, c: char, from: int) -> int
    decreases s.len() - from,
{
    if 0 <= from < s.len() && s[from] != c {
        find_char(s, c, from + 1)
    } else {
        from
    }
}

/// The pieces of `s[from..]` between occurrences of `sep`. There is always at
/// least one piece; a separator at the very end leaves an empty last piece.
pub open spec fn split_from(s: Seq<char>, sep: char, from: int) -> Seq<Seq<char>>
    decreases s.len() - from,
{
    let to = find_char(s, sep, from);
    if 0 <= from <= to < s.len() {
        seq![s.subrange(from, to)] + split_from(s, sep, to + 1)
    } else {
        seq![s.subrange(from, s.len() as int)]
    }
}

/// The pieces of `s` between occurrences of `sep`.
pub open spec fn split(s: Seq<char>, sep: char) -> Seq<Seq<char>> {
    split_from(s, sep, 0)
}

/// The maximal runs of characters other than white space in `s[from..]`.
pub open spec fn words_from(s: Seq<char>, from: int) -> Seq<Seq<char>>
    decreases s.len() - from,
{
    let a = skip_whitespace(s, from);
    let b = skip_word(s, a);
    if 0 <= from <= a < b <= s.len() {
        seq![s.subrange(a, b)] + words_from(s, b)
    } else {
        seq![]
    }
}

/// The maximal runs of characters other than white space in `s`.
pub open spec fn words(s: Seq<char>) -> Seq<Seq<char>> {
    words_from(s, 0)
}

/// The index reached by [`find_char`].
pub fn position_of(chars: &Vec<char>, c: char, from: usize) -> (to: usize)
    requires
        from <= chars.len(),
    ensures
        to == find_char(chars@, c, from as int),
        from <= to <= chars.len(),
{
    let mut i: usize = from;
    while i < chars.len() && chars[i] != c
        invariant
            from <= i <= chars.len(),
            find_char(chars@, c, from as int) == find_char(chars@, c, i as int),
        decreases chars.len() - i,
    {
        i += 1;
    }
    i
}

/// The pieces of `chars` between occurrences of `sep`.
pub fn split_chars(chars: &Vec<char>, sep: char) -> (pieces: Vec<Vec<char>>)
    ensures
        texts(pieces@) == split(chars@, sep),
{
    let mut pieces: Vec<Vec<char>> = Vec::new();
    let mut from: usize = 0;
    loop
        invariant_except_break
            from <= chars.len(),
            texts(pieces@) + split_from(chars@, sep, from as int) == split(chars@, sep),
        ensures
            texts(pieces@) == split(chars@, sep),
        decreases chars.len() - from,
    {
        let to = position_of(chars, sep, from);
        let piece = slice_chars(chars, from, to);
        let ghost before = texts(pieces@);
        pieces.push(piece);
        assert(texts(pieces@) =~= before.push(chars@.subrange(from as int, to as int)));
        if to < chars.len() {
            assert(texts(pieces@) + split_from(chars@, sep, to + 1) =~= before + split_from(
                chars@,
                sep,
                from as int,
            ));
            from = to + 1;
        } else {
            assert(texts(pieces@) =~= before + split_from(chars@, sep, from as int));
            break ;
        }
    }
    pieces
}

/// The maximal runs of characters other than white space in `chars`.
pub fn split_words(chars: &Vec<char>) -> (found: Vec<Vec<char>>)
    ensures
        texts(found@) == words(chars@),
{
    let mut found: Vec<Vec<char>> = Vec::new();
    let mut from: usize = 0;
    loop
        invariant_except_break
            from <= chars.len(),
            texts(found@) + words_from(chars@, from as int) == words(chars@),
        ensures
            texts(found@) == words(chars@),
        decreases chars.len() - from,
    {
        let a = whitespace_end(chars, from);
        let b = word_end(chars, a);
        proof {
            lemma_skip_whitespace_bounds(chars@, from as int);
            lemma_skip_word_bounds(chars@, a as int);
        }
        if a < chars.len() {
            let word = slice_chars(chars, a, b);
            let ghost before = texts(found@);
            found.push(word);
            assert(texts(found@) =~= before.push(chars@.subrange(a as int, b as int)));
            assert(texts(found@) + words_from(chars@, b as int) =~= before + words_from(
                chars@,
                from as int,
            ));
            from = b;
        } else {
            assert(words_from(chars@, from as int) =~= Seq::<Seq<char>>::empty());
            assert(texts(found@) + words_from(chars@, from as int) =~= texts(found@));
            break ;
        }
    }
    found
}

/// Whether `s` begins with `prefix`.
pub open spec fn has_prefix(s: Seq<char>, prefix: Seq<char>) -> bool {
    prefix.len() <= s.len() && s.subrange(0, prefix.len() as int) == prefix
}

/// Whether `needle` occurs in `s` at index `at`.
pub open spec fn occurs_at(s: Seq<char>, needle: Seq<char>, at: int) -> bool {
    0 <= at && at + needle.len() <= s.len() && s.subrange(at, at + needle.len()) == needle
}

/// Whether `needle` occurs somewhere in `s`.
pub open spec fn has_infix(s: Seq<char>, needle: Seq<char>) -> bool {
    exists|at: int| occurs_at(s, needle, at)
}

/// Executable form of [`occurs_at`].
pub fn matches_at(chars: &Vec<char>, needle: &Vec<char>, at: usize) -> (b: bool)
    ensures
        b == occurs_at(chars@, needle@, at as int),
{
    if at > chars.len() || needle.len() > chars.len() - at {
        return false;
    }
    let mut i: usize = 0;
    while i < needle.len()
        invariant
            i <= needle.len(),
            at + needle.len() <= chars.len(),
            chars@.subrange(at as int, at + i) == needle@.subrange(0, i as int),
        decreases needle.len() - i,
    {
        if chars[at + i] != needle[i] {
            assert(chars@.subrange(at as int, at + needle.len())[i as int] != needle@[i as int]);
            return false;
        }
        i += 1;
        assert(chars@.subrange(at as int, at + i) =~= chars@.subrange(at as int, at + i - 1).push(
            chars@[at + i - 1],
        ));
        assert(needle@.subrange(0, i as int) =~= needle@.subrange(0, i - 1).push(needle@[i - 1]));
    }
    assert(needle@.subrange(0, needle.len() as int) =~= needle@);
    true
}

/// Whether `chars` begins with `prefix`.
pub fn starts_with(chars: &Vec<char>, prefix: &Vec<char>) -> (b: bool)
    ensures
        b == has_prefix(chars@, prefix@),
{
    matches_at(chars, prefix, 0)
}

/// Whether `needle` occurs somewhere in `chars`.
pub fn contains(chars: &Vec<char>, needle: &Vec<char>) -> (b: bool)
    ensures
        b == has_infix(chars@, needle@),
{
    if needle.len() > chars.len() {
        assert forall|at: int| !occurs_at(chars@, needle@, at) by {}
        return false;
    }
    let last: usize = chars.len() - needle.len();
    let mut at: usize = 0;
    loop
        invariant
            at <= last,
            last == chars.len() - needle.len(),
            forall|k: int| 0 <= k < at ==> !occurs_at(chars@, needle@, k),
        ensures
            forall|k: int| !occurs_at(chars@, needle@, k),
        decreases last - at,
    {
        if matches_at(chars, needle, at) {
            return true;
        }
        if at == last {
            break ;
        }
        at += 1;
    }
    false
}

/// `s` in lower case, as the standard library's `str::to_lowercase` maps it.
pub uninterp spec fn lowercase_of(s: Seq<char>) -> Seq<char>;

/// `str::to_lowercase` of the standard library: the result is
/// [`lowercase_of`] the text.
#[verifier::external_body]
pub(crate) fn to_lowercase(text: &str) -> (lower: String)
    ensures
        lower@ == lowercase_of(text@),
{
    text.to_lowercase()
}

/// The texts from index `from` on, with `separator` between neighbours.
pub open spec fn joined_from(parts: Seq<Seq<char>>, separator: Seq<char>, from: int) -> Seq<char>
    decreases parts.len() - from,
{
    if from < 0 || from >= parts.len() {
        seq![]
    } else if from == parts.len() - 1 {
        parts[from]
    } else {
        parts[from] + separator + joined_from(parts, separator, from + 1)
    }
}

/// The texts with `separator` between neighbours.
pub open spec fn joined(parts: Seq<Seq<char>>, separator: Seq<char>) -> Seq<char> {
    joined_from(parts, separator, 0)
}

/// The texts with `separator` between neighbours.
pub fn join_chars(parts: &Vec<Vec<char>>, separator: &str) -> (out: Vec<char>)
    ensures
        out@ == joined(texts(parts@), separator@),
{
    let mut out: Vec<char> = Vec::new();
    let mut i: usize = 0;
    let ghost all = texts(parts@);
    assert(out@ + joined_from(all, separator@, 0) =~= joined(all, separator@));
    while i < parts.len()
        invariant
            i <= parts.len(),
            all == texts(parts@),
            all.len() == parts.len(),
            out@ + joined_from(all, separator@, i as int) == joined(all, separator@),
        decreases parts.len() - i,
    {
        let ghost before = out@;
        assert(all[i as int] == parts[i as int]@);
        append_range(&mut out, &parts[i], 0, parts[i].len());
        assert(parts[i as int]@.subrange(0, parts[i as int].len() as int) =~= parts[i as int]@);
        if i + 1 < parts.len() {
            append_str(&mut out, separator);
            assert(out@ + joined_from(all, separator@, i + 1) =~= before + joined_from(
                all,
                separator@,
                i as int,
            ));
        } else {
            assert(out@ + joined_from(all, separator@, i + 1) =~= before + joined_from(
                all,
                separator@,
                i as int,
            ));
        }
        i += 1;
    }
    assert(out@ + joined_from(all, separator@, i as int) =~= out@);
    out
}

/// The text of an optional string.
pub open spec fn optional_text(value: Option<String>) -> Option<Seq<char>> {
    match value {
        Some(s) => Some(s@),
        None => None,
    }
}

/// The first of two optional texts that is there.
pub open spec fn first_present(a: Option<Seq<char>>, b: Option<Seq<char>>) -> Option<Seq<char>> {
    match a {
        Some(t) => Some(t),
        None => b,
    }
}

/// The first of two optional strings that is there.
pub fn first_string<'a>(a: &'a Option<String>, b: &'a Option<String>) -> (first: &'a Option<
    String,
>)
    ensures
        optional_text(*first) == first_present(optional_text(*a), optional_text(*b)),
{
    match a {
        Some(_) => a,
        None => b,
    }
}

/// An optional text, trimmed; `None` where it is absent or nothing is left
/// of it.
pub open spec fn trimmed_nonempty(text: Option<Seq<char>>) -> Option<Seq<char>> {
    match text {
        Some(t) => if trimmed(t).len() > 0 {
            Some(trimmed(t))
        } else {
            None
        },
        None => None,
    }
}

/// An optional text, trimmed. See [`trimmed_nonempty`].
pub fn trim_nonempty(text: &Option<String>) -> (out: Option<String>)
    ensures
        optional_text(out) == trimmed_nonempty(optional_text(*text)),
{
    match text {
        Some(t) => {
            let chars = chars_of(t.as_str());
            let kept = trim_chars(&chars);
            if kept.len() > 0 {
                Some(string_of(&kept))
            } else {
                None
            }
        },
        None => None,
    }
}

/// A copy of an optional string.
pub fn copy_optional(text: &Option<String>) -> (out: Option<String>)
    ensures
        optional_text(out) == optional_text(*text),
{
    match text {
        Some(t) => Some(t.clone()),
        None => None,
    }
}

} // verus!

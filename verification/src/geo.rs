//! Finding the coordinates of an event: the candidates that an embedded-map
//! reference holds, and which source to take them from.
//!
//! Coordinates are handled as the decimal texts they are published as.
//! Whether such a text is a number, and whether it lies in range, is decided
//! by the caller and handed in as plain flags.

use crate::text::{chars_of, same_chars, split, split_chars, string_of, texts};
use url::Url;
use vstd::prelude::*;
use vstd::string::*;

verus! {

/// The query parameters of the absolute URL `url`, decoded, in the order in
/// which they stand; `None` where `url` is no absolute URL.
pub uninterp spec fn url_query_pairs(url: Seq<char>) -> Option<Seq<(Seq<char>, Seq<char>)>>;

/// The texts of a list of parameters.
pub open spec fn pairs_text(pairs: Seq<(String, String)>) -> Seq<(Seq<char>, Seq<char>)> {
    Seq::new(pairs.len(), |i: int| (pairs[i].0@, pairs[i].1@))
}

/// The texts of an optional list of parameters.
pub open spec fn optional_pairs_text(pairs: Option<Vec<(String, String)>>) -> Option<
    Seq<(Seq<char>, Seq<char>)>,
> {
    match pairs {
        Some(p) => Some(pairs_text(p@)),
        None => None,
    }
}

/// `Url::parse` and `Url::query_pairs` of the url crate, with the decoded
/// parameters copied out: [`url_query_pairs`] of the text.
#[verifier::external_body]
fn query_pairs(url: &str) -> (pairs: Option<Vec<(String, String)>>)
    ensures
        optional_pairs_text(pairs) == url_query_pairs(url@),
{
    match Url::parse(url) {
        Ok(parsed) => {
            let mut pairs = Vec::new();
            for (key, value) in parsed.query_pairs() {
                pairs.push((key.into_owned(), value.into_owned()));
            }
            Some(pairs)
        },
        Err(_) => None,
    }
}

/// A latitude and a longitude as decimal texts.
#[derive(Debug)]
pub struct CoordinateText {
    pub latitude: String,
    pub longitude: String,
}

impl View for CoordinateText {
    type V = (Seq<char>, Seq<char>);

    open spec fn view(&self) -> (Seq<char>, Seq<char>) {
        (self.latitude@, self.longitude@)
    }
}

/// What a list of candidates holds.
pub open spec fn candidates_view(list: Seq<CoordinateText>) -> Seq<(Seq<char>, Seq<char>)> {
    Seq::new(list.len(), |i: int| list[i]@)
}

/// What an optional candidate holds.
pub open spec fn optional_candidate_view(candidate: Option<CoordinateText>) -> Option<
    (Seq<char>, Seq<char>),
> {
    match candidate {
        Some(c) => Some(c@),
        None => None,
    }
}

/// The coordinate candidates of an embedded-map reference.
#[derive(Debug)]
pub struct MapCandidates {
    /// The `center` parameters that hold two texts, in order.
    pub center: Vec<CoordinateText>,
    /// The first `q` parameter, where it holds two texts.
    pub query: Option<CoordinateText>,
}

/// The two texts of a parameter value of the form `latitude,longitude`.
pub open spec fn coordinate_pair(value: Seq<char>) -> Option<(Seq<char>, Seq<char>)> {
    let parts = split(value, ',');
    if parts.len() == 2 {
        Some((parts[0], parts[1]))
    } else {
        None
    }
}

/// The candidates among the `center` parameters from index `from` on.
pub open spec fn center_candidates_from(pairs: Seq<(Seq<char>, Seq<char>)>, from: int) -> Seq<
    (Seq<char>, Seq<char>),
>
    decreases pairs.len() - from,
{
    if 0 <= from < pairs.len() {
        if pairs[from].0 == "center"@ && coordinate_pair(pairs[from].1) is Some {
            seq![coordinate_pair(pairs[from].1).unwrap()] + center_candidates_from(pairs, from + 1)
        } else {
            center_candidates_from(pairs, from + 1)
        }
    } else {
        seq![]
    }
}

/// The candidate of the first `q` parameter from index `from` on.
pub open spec fn query_candidate_from(pairs: Seq<(Seq<char>, Seq<char>)>, from: int) -> Option<
    (Seq<char>, Seq<char>),
>
    decreases pairs.len() - from,
{
    if 0 <= from < pairs.len() {
        if pairs[from].0 == "q"@ {
            coordinate_pair(pairs[from].1)
        } else {
            query_candidate_from(pairs, from + 1)
        }
    } else {
        None
    }
}

/// The two texts of a parameter value. See [`coordinate_pair`].
pub fn split_coordinate_pair(value: &str) -> (pair: Option<CoordinateText>)
    ensures
        optional_candidate_view(pair) == coordinate_pair(value@),
{
    let chars = chars_of(value);
    let parts = split_chars(&chars, ',');
    assert(texts(parts@).len() == parts.len());
    if parts.len() == 2 {
        assert(texts(parts@)[0] == parts[0]@);
        assert(texts(parts@)[1] == parts[1]@);
        Some(CoordinateText { latitude: string_of(&parts[0]), longitude: string_of(&parts[1]) })
    } else {
        None
    }
}

/// The coordinate candidates among the parameters of a map reference.
pub fn candidates_from_pairs(pairs: &Vec<(String, String)>) -> (found: MapCandidates)
    ensures
        candidates_view(found.center@) == center_candidates_from(pairs_text(pairs@), 0),
        optional_candidate_view(found.query) == query_candidate_from(pairs_text(pairs@), 0),
{
    let center_key = chars_of("center");
    let query_key = chars_of("q");
    let ghost all = pairs_text(pairs@);
    proof {
        reveal_strlit("center");
        reveal_strlit("q");
    }
    let mut center: Vec<CoordinateText> = Vec::new();
    let mut query: Option<CoordinateText> = None;
    let mut query_seen = false;
    let mut i: usize = 0;
    assert(candidates_view(center@) + center_candidates_from(all, 0) =~= center_candidates_from(
        all,
        0,
    ));
    while i < pairs.len()
        invariant
            i <= pairs.len(),
            all == pairs_text(pairs@),
            all.len() == pairs.len(),
            center_key@ == "center"@,
            query_key@ == "q"@,
            "center"@.len() != "q"@.len(),
            candidates_view(center@) + center_candidates_from(all, i as int)
                == center_candidates_from(all, 0),
            query_seen ==> optional_candidate_view(query) == query_candidate_from(all, 0),
            !query_seen ==> query is None && query_candidate_from(all, i as int)
                == query_candidate_from(all, 0),
        decreases pairs.len() - i,
    {
        let key = chars_of(pairs[i].0.as_str());
        assert(all[i as int] == (pairs[i as int].0@, pairs[i as int].1@));
        let ghost before = candidates_view(center@);
        if same_chars(&key, &center_key) {
            match split_coordinate_pair(pairs[i].1.as_str()) {
                Some(pair) => {
                    center.push(pair);
                    assert(candidates_view(center@) =~= before.push(
                        coordinate_pair(all[i as int].1).unwrap(),
                    ));
                    assert(candidates_view(center@) + center_candidates_from(all, i + 1) =~= before
                        + center_candidates_from(all, i as int));
                },
                None => {},
            }
        } else if !query_seen && same_chars(&key, &query_key) {
            query = split_coordinate_pair(pairs[i].1.as_str());
            query_seen = true;
        }
        i += 1;
    }
    assert(candidates_view(center@) + center_candidates_from(all, i as int) =~= candidates_view(
        center@,
    ));
    MapCandidates { center, query }
}

/// The parameters of a map reference, or none where the reference is no
/// absolute URL.
pub open spec fn reference_pairs(reference: Seq<char>) -> Seq<(Seq<char>, Seq<char>)> {
    match url_query_pairs(reference) {
        Some(pairs) => pairs,
        None => seq![],
    }
}

/// The coordinate candidates of an embedded-map reference.
pub fn map_candidates(reference: &str) -> (found: MapCandidates)
    ensures
        candidates_view(found.center@) == center_candidates_from(
            reference_pairs(reference@),
            0,
        ),
        optional_candidate_view(found.query) == query_candidate_from(
            reference_pairs(reference@),
            0,
        ),
{
    match query_pairs(reference) {
        Some(pairs) => candidates_from_pairs(&pairs),
        None => {
            let found = MapCandidates { center: Vec::new(), query: None };
            assert(candidates_view(found.center@) =~= Seq::<(Seq<char>, Seq<char>)>::empty());
            found
        },
    }
}

/// Where the coordinates of an event come from.
#[derive(Clone, Copy, Debug, PartialEq, Eq, Structural)]
pub enum CoordinateSource {
    /// The `center` candidate with this index.
    Center(usize),
    /// The `q` candidate.
    Query,
    /// A look-up of the event's address.
    Lookup,
    /// Nowhere: the event has no coordinates.
    Unknown,
}

/// The source to use: the first `center` candidate that holds two numbers;
/// else the `q` candidate, where it holds two numbers in range; else a
/// look-up, where the event has an address; else none.
pub open spec fn coordinate_source(
    center_numeric: Seq<bool>,
    query_in_range: bool,
    has_address: bool,
    source: CoordinateSource,
) -> bool {
    match source {
        CoordinateSource::Center(i) => {
            &&& i < center_numeric.len()
            &&& center_numeric[i as int]
            &&& forall|j: int| 0 <= j < i ==> !center_numeric[j]
        },
        CoordinateSource::Query => {
            &&& forall|j: int| 0 <= j < center_numeric.len() ==> !center_numeric[j]
            &&& query_in_range
        },
        CoordinateSource::Lookup => {
            &&& forall|j: int| 0 <= j < center_numeric.len() ==> !center_numeric[j]
            &&& !query_in_range
            &&& has_address
        },
        CoordinateSource::Unknown => {
            &&& forall|j: int| 0 <= j < center_numeric.len() ==> !center_numeric[j]
            &&& !query_in_range
            &&& !has_address
        },
    }
}

/// The source to use. `center_numeric[i]` says whether the `center`
/// candidate `i` holds two numbers, `query_in_range` whether there is a `q`
/// candidate that holds a latitude between -90 and 90 and a longitude
/// between -180 and 180. See [`coordinate_source`].
pub fn choose_coordinates(center_numeric: &Vec<bool>, query_in_range: bool, has_address: bool) -> (source:
    CoordinateSource)
    ensures
        coordinate_source(center_numeric@, query_in_range, has_address, source),
{
    let mut i: usize = 0;
    while i < center_numeric.len()
        invariant
            i <= center_numeric.len(),
            forall|j: int| 0 <= j < i ==> !center_numeric@[j],
        decreases center_numeric.len() - i,
    {
        if center_numeric[i] {
            return CoordinateSource::Center(i);
        }
        i += 1;
    }
    if query_in_range {
        CoordinateSource::Query
    } else if has_address {
        CoordinateSource::Lookup
    } else {
        CoordinateSource::Unknown
    }
}

/// Exactly one source fits any given flags.
pub proof fn lemma_coordinate_source_is_unique(
    center_numeric: Seq<bool>,
    query_in_range: bool,
    has_address: bool,
    a: CoordinateSource,
    b: CoordinateSource,
)
    requires
        coordinate_source(center_numeric, query_in_range, has_address, a),
        coordinate_source(center_numeric, query_in_range, has_address, b),
    ensures
        a == b,
{
    match (a, b) {
        (CoordinateSource::Center(i), CoordinateSource::Center(j)) => {
            if i < j {
                assert(!center_numeric[i as int]);
            } else if j < i {
                assert(!center_numeric[j as int]);
            }
        },
        (CoordinateSource::Center(i), _) => {
            assert(!center_numeric[i as int]);
        },
        (_, CoordinateSource::Center(j)) => {
            assert(!center_numeric[j as int]);
        },
        _ => {},
    }
}

} // verus!

use eindhoven_events::geo::{
    candidates_from_pairs, choose_coordinates, map_candidates, split_coordinate_pair,
    CoordinateSource,
};

fn pair(key: &str, value: &str) -> (String, String) {
    (key.to_string(), value.to_string())
}

#[test]
fn a_value_of_two_parts_is_a_pair() {
    let found = split_coordinate_pair("51.4416,5.4697").unwrap();
    assert_eq!(found.latitude, "51.4416");
    assert_eq!(found.longitude, "5.4697");
    assert!(split_coordinate_pair("51.4416").is_none());
    assert!(split_coordinate_pair("1,2,3").is_none());
    assert!(split_coordinate_pair("").is_none());
    let found = split_coordinate_pair(",").unwrap();
    assert_eq!((found.latitude.as_str(), found.longitude.as_str()), ("", ""));
}

#[test]
fn candidates_of_a_map_reference() {
    let found = map_candidates(
        "https://maps.example.org/embed?key=abc&center=51.4416%2C5.4697&zoom=15&q=51.5,5.6",
    );
    assert_eq!(found.center.len(), 1);
    assert_eq!(found.center[0].latitude, "51.4416");
    assert_eq!(found.center[0].longitude, "5.4697");
    let query = found.query.unwrap();
    assert_eq!(query.latitude, "51.5");
    assert_eq!(query.longitude, "5.6");
}

#[test]
fn a_reference_that_is_no_url_has_no_candidates() {
    let found = map_candidates("center=51.4,5.4");
    assert!(found.center.is_empty());
    assert!(found.query.is_none());
}

#[test]
fn candidates_among_given_parameters() {
    let pairs = vec![
        pair("q", "Stratumseind 1, Eindhoven, NL"),
        pair("center", "oops"),
        pair("center", "a,b"),
        pair("q", "51.5,5.6"),
        pair("center", "51.4,5.4"),
    ];
    let found = candidates_from_pairs(&pairs);
    let center: Vec<(&str, &str)> =
        found.center.iter().map(|c| (c.latitude.as_str(), c.longitude.as_str())).collect();
    assert_eq!(center, vec![("a", "b"), ("51.4", "5.4")]);
    assert!(found.query.is_none());
}

#[test]
fn first_numeric_center_wins() {
    assert_eq!(
        choose_coordinates(&vec![false, true, true], true, true),
        CoordinateSource::Center(1)
    );
}

#[test]
fn query_follows_when_no_center_is_numeric() {
    assert_eq!(choose_coordinates(&vec![false, false], true, true), CoordinateSource::Query);
    assert_eq!(choose_coordinates(&Vec::new(), true, false), CoordinateSource::Query);
}

#[test]
fn address_is_looked_up_last() {
    assert_eq!(choose_coordinates(&vec![false], false, true), CoordinateSource::Lookup);
    assert_eq!(choose_coordinates(&Vec::new(), false, false), CoordinateSource::Unknown);
}

use eindhoven_events::text::{
    chars_of, contains, copy_optional, join_chars, matches_at, position_of, same_chars,
    slice_chars, split_chars, split_words, starts_with, string_of, substring, trim, trim_chars,
    trim_nonempty, whitespace_char,
};

fn chars(text: &str) -> Vec<char> {
    text.chars().collect()
}

fn strings(parts: &Vec<Vec<char>>) -> Vec<String> {
    parts.iter().map(|p| p.iter().collect()).collect()
}

#[test]
fn characters_in_and_out() {
    assert_eq!(chars_of("héllo"), chars("héllo"));
    assert_eq!(string_of(&chars("héllo")), "héllo");
    assert_eq!(substring(&chars("héllo"), 1, 3), "él");
    assert_eq!(slice_chars(&chars("héllo"), 2, 5), chars("llo"));
    assert!(same_chars(&chars("abc"), &chars("abc")));
    assert!(!same_chars(&chars("abc"), &chars("abd")));
    assert!(!same_chars(&chars("abc"), &chars("ab")));
}

#[test]
fn white_space_is_what_the_standard_library_calls_white_space() {
    let mut code: u32 = 0;
    while code <= 0x10FFFF {
        if let Some(c) = char::from_u32(code) {
            assert_eq!(whitespace_char(c), c.is_whitespace(), "U+{code:04X}");
        }
        code += 1;
    }
}

#[test]
fn trimming_agrees_with_the_standard_library() {
    let cases = [
        "", " ", "a", " a", "a ", "  a b  ", "\t\n a \r\n", "\u{a0}x\u{3000}", "a\u{200b}",
        " \u{2003}mid dle\u{2003} ", "no-space",
    ];
    for case in cases {
        assert_eq!(trim(case), case.trim(), "{case:?}");
        assert_eq!(trim_chars(&chars(case)), chars(case.trim()), "{case:?}");
    }
}

#[test]
fn splitting_agrees_with_the_standard_library() {
    let cases = ["", ",", "a", "a,b", "a,,b", ",a,", "a.jpg 400w, b.jpg 800w, c.jpg", "51.4,5.5"];
    for case in cases {
        let expected: Vec<String> = case.split(',').map(|s| s.to_string()).collect();
        assert_eq!(strings(&split_chars(&chars(case), ',')), expected, "{case:?}");
    }
    let cases = ["", " ", "a", " a  b ", "a\tb\nc", "\u{a0}x\u{3000}y", "one"];
    for case in cases {
        let expected: Vec<String> = case.split_whitespace().map(|s| s.to_string()).collect();
        assert_eq!(strings(&split_words(&chars(case))), expected, "{case:?}");
    }
}

#[test]
fn finding_text() {
    assert_eq!(position_of(&chars("a,b"), ',', 0), 1);
    assert_eq!(position_of(&chars("a,b"), ',', 2), 3);
    assert!(matches_at(&chars("buy tickets"), &chars("tick"), 4));
    assert!(!matches_at(&chars("buy tickets"), &chars("tick"), 5));
    assert!(!matches_at(&chars("ab"), &chars("abc"), 0));
    assert!(matches_at(&chars("ab"), &chars(""), 2));
    assert!(!matches_at(&chars("ab"), &chars(""), 3));
    assert!(starts_with(&chars("/en/events/x"), &chars("/en/events/")));
    assert!(!starts_with(&chars("/en/event"), &chars("/en/events/")));
    assert!(starts_with(&chars("x"), &chars("")));
    assert!(contains(&chars("get your tickets here"), &chars("tickets")));
    assert!(!contains(&chars("get your ticket here"), &chars("tickets")));
    assert!(contains(&chars("abc"), &chars("")));
    assert!(contains(&chars(""), &chars("")));
    assert!(!contains(&chars(""), &chars("a")));
    assert!(contains(&chars("aab"), &chars("ab")));
}

#[test]
fn joining() {
    let parts = vec![chars("a"), chars("b"), chars("")];
    assert_eq!(string_of(&join_chars(&parts, ", ")), "a, b, ");
    assert_eq!(string_of(&join_chars(&vec![chars("only")], ", ")), "only");
    assert_eq!(string_of(&join_chars(&Vec::new(), ", ")), "");
}

#[test]
fn optional_texts() {
    assert_eq!(trim_nonempty(&Some("  x ".to_string())), Some("x".to_string()));
    assert_eq!(trim_nonempty(&Some("   ".to_string())), None);
    assert_eq!(trim_nonempty(&None), None);
    assert_eq!(copy_optional(&Some("x".to_string())), Some("x".to_string()));
    assert_eq!(copy_optional(&None), None);
}

use code_context::normalize::normalize_markers;
use code_context::text::{split_lines, str_contains, str_ends_with, str_starts_with};
use code_context::tree::Marker;

#[test]
fn test_split_lines_basic() {
    assert_eq!(split_lines("a\nb"), vec!["a".to_string(), "b".to_string()]);
    assert_eq!(split_lines("one line"), vec!["one line".to_string()]);
    assert_eq!(split_lines("trailing\n"), vec!["trailing".to_string(), "".to_string()]);
}

#[test]
fn test_split_lines_empty() {
    assert_eq!(split_lines(""), vec!["".to_string()]);
    assert_eq!(split_lines("\n"), vec!["".to_string(), "".to_string()]);
}

#[test]
fn test_str_contains() {
    assert!(str_contains("Result<String, Error>", "String"));
    assert!(str_contains("Cow<'static, str>", "str"));
    assert!(!str_contains("Option<i32>", "str"));
    assert!(str_contains("anything", ""));
}

#[test]
fn test_str_starts_and_ends() {
    assert!(str_starts_with("Result<i32, E>", "Result"));
    assert!(!str_starts_with("std::result::Result", "Result"));
    assert!(str_ends_with("src/foo/bar.rs", ".rs"));
    assert!(!str_ends_with("src/foo/bar.txt", ".rs"));
}

#[test]
fn test_normalize_round_trip() {
    // A block-style documentation body spanning two source lines becomes two
    // line-oriented markers; normalizing again changes nothing.
    let input = vec![Marker::Doc { inner: false, text: " first\n second".to_string() }];
    let once = normalize_markers(&input, false);
    assert_eq!(
        once,
        vec![
            Marker::Doc { inner: false, text: " first".to_string() },
            Marker::Doc { inner: false, text: " second".to_string() },
        ]
    );
    let twice = normalize_markers(&once, false);
    assert_eq!(twice, once);
}

#[test]
fn test_normalize_strips_docs() {
    let input = vec![
        Marker::Doc { inner: true, text: " docs".to_string() },
        Marker::Test,
        Marker::Cfg { predicate: "unix".to_string() },
    ];
    let stripped = normalize_markers(&input, true);
    assert_eq!(stripped, vec![Marker::Test, Marker::Cfg { predicate: "unix".to_string() }]);
}

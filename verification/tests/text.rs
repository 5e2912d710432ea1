use kaggle_tpu_companion::text::{contains_text, decimal_string, join_texts, split_text, str_eq};

#[test]
fn decimal_text_matches_to_string() {
    for n in [0i64, 7, 10, 99, 100, 262144, -1, -10, -262144, i64::MAX, i64::MIN] {
        assert_eq!(decimal_string(n), n.to_string());
    }
}

#[test]
fn search_and_equality() {
    assert!(contains_text("a qwen3.8-27b b", "qwen3.8-27b"));
    assert!(contains_text("abc", ""));
    assert!(!contains_text("qwen3.8-2", "qwen3.8-27b"));
    assert!(contains_text("ééx", "éx"));
    assert!(str_eq("kaggle-tpu", "kaggle-tpu"));
    assert!(!str_eq("kaggle-tpu", "kaggle-tp"));
    assert_eq!(join_texts(&vec!["a".to_string(), "b".to_string(), "c".to_string()], ", "), "a, b, c");
    assert_eq!(join_texts(&vec![], ", "), "");
}

#[test]
fn split_matches_str_split() {
    for (s, sep) in [("/usr/bin:/bin", ':'), ("", ':'), ("a::b:", ':'), (":", ':'), ("no-sep", ':')] {
        let want: Vec<String> = s.split(sep).map(|p| p.to_string()).collect();
        assert_eq!(split_text(s, sep), want);
    }
}

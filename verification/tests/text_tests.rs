use fastgen::text::{
    chars_of, concat2, contains, decimal_string, remove_char, replace_all, same_text,
    starts_with, trim, trim_end_matches, trim_start_matches,
};

#[test]
fn contains_finds_substrings() {
    assert!(contains("version: '3.8'\nservices:\n  api:\n", "  api:"));
    assert!(!contains("services:\n  apix:\n", "  api:\n"));
    assert!(contains("abc", ""));
    assert!(!contains("ab", "abc"));
    assert!(contains("ééa", "éa"));
}

#[test]
fn starts_with_and_equality() {
    assert!(starts_with("/api/plan", "/api/"));
    assert!(!starts_with("/ap", "/api/"));
    assert!(same_text("ollama", "ollama"));
    assert!(!same_text("ollama", "Ollama"));
}

#[test]
fn replace_all_replaces_every_occurrence_left_to_right() {
    assert_eq!(replace_all("a-b-c", "-", "+"), "a+b+c");
    assert_eq!(replace_all("aaaa", "aa", "b"), "bb");
    assert_eq!(replace_all("aaa", "aa", "b"), "ba");
    assert_eq!(replace_all("none here", "xyz", "q"), "none here");
    assert_eq!(replace_all("members = []", "members = [", "members = [\n    \"x\","), "members = [\n    \"x\",]");
}

#[test]
fn remove_char_drops_line_breaks() {
    assert_eq!(remove_char("aGVs\nbG8=\n", '\n'), "aGVsbG8=");
    assert_eq!(remove_char("", '\n'), "");
    assert_eq!(remove_char("\n\n", '\n'), "");
}

#[test]
fn trimming_matches_std() {
    for s in ["  hi  ", "\t\nx y\n", "", "   ", "\u{3000}wide\u{3000}", "a"] {
        assert_eq!(trim(s), s.trim());
    }
    for s in ["```json```json{}```", "``````x```", "abc", "```"] {
        assert_eq!(trim_start_matches(s, "```json"), s.trim_start_matches("```json"));
        assert_eq!(trim_start_matches(s, "```"), s.trim_start_matches("```"));
        assert_eq!(trim_end_matches(s, "```"), s.trim_end_matches("```"));
    }
}

#[test]
fn decimal_matches_to_string() {
    for n in [0u32, 7, 10, 8000, 8999, 65535, u32::MAX] {
        assert_eq!(decimal_string(n), n.to_string());
    }
}

#[test]
fn chars_and_concat() {
    assert_eq!(chars_of("añb"), vec!['a', 'ñ', 'b']);
    assert_eq!(concat2("ab", "cd"), "abcd");
}

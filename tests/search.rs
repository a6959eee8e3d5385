use plainpad::search::{
    count_matches, find_match_range, find_next, replace_all_matches, replace_match, SearchError,
};

#[test]
fn find_next_wraps_to_first_occurrence() {
    let found = find_next("abcabc", "bc", false, 5).unwrap();
    assert_eq!(found, Some(1..3));
}

#[test]
fn find_next_from_start_finds_first() {
    assert_eq!(find_next("abcabc", "bc", false, 0).unwrap(), Some(1..3));
    assert_eq!(find_next("abcabc", "bc", false, 3).unwrap(), Some(4..6));
}

#[test]
fn find_next_without_match_is_none() {
    assert_eq!(find_next("abcabc", "zz", false, 2).unwrap(), None);
}

#[test]
fn find_next_empty_query_fails() {
    assert!(matches!(find_next("abc", "", false, 0), Err(SearchError::EmptyQuery)));
    assert!(matches!(find_next("abc", "", true, 0), Err(SearchError::EmptyQuery)));
}

#[test]
fn find_next_invalid_pattern_fails() {
    assert!(matches!(find_next("abc", "a(", true, 0), Err(SearchError::Pattern(_))));
}

#[test]
fn find_next_regex_reports_characters() {
    let found = find_next("αβγ abc", "b+c", true, 0).unwrap();
    assert_eq!(found, Some(5..7));
}

#[test]
fn find_next_regex_wraps() {
    assert_eq!(find_next("ab1 cd2", "[0-9]", true, 7).unwrap(), Some(2..3));
}

#[test]
fn find_next_literal_after_multibyte() {
    assert_eq!(find_next("ééxé", "x", false, 1).unwrap(), Some(2..3));
}

#[test]
fn find_match_range_does_not_wrap() {
    assert_eq!(find_match_range("abcabc", "bc", false, 5).unwrap(), None);
    assert_eq!(find_match_range("abcabc", "bc", false, 2).unwrap(), Some(4..6));
    assert_eq!(find_match_range("abcabc", "b", true, 2).unwrap(), Some(4..5));
}

#[test]
fn replace_all_literal() {
    let out = replace_all_matches(false, "foo bar foo", "foo", "baz").unwrap();
    assert_eq!(out, "baz bar baz");
    assert_eq!(count_matches(false, "foo bar foo", "foo").unwrap(), 2);
}

#[test]
fn replace_all_does_not_rescan_inserted_text() {
    assert_eq!(replace_all_matches(false, "aaa", "a", "aa").unwrap(), "aaaaaa");
    assert_eq!(replace_all_matches(false, "aaaa", "aa", "a").unwrap(), "aa");
}

#[test]
fn replace_all_regex_with_groups() {
    let out = replace_all_matches(true, "x=1, y=22", r"(\w)=(\d+)", "$2=$1").unwrap();
    assert_eq!(out, "1=x, 22=y");
}

#[test]
fn replace_all_errors() {
    assert!(matches!(replace_all_matches(true, "abc", "(", "x"), Err(SearchError::Pattern(_))));
    assert!(matches!(replace_all_matches(false, "abc", "", "x"), Err(SearchError::EmptyQuery)));
}

#[test]
fn count_matches_modes() {
    assert_eq!(count_matches(false, "aaaa", "aa").unwrap(), 2);
    assert_eq!(count_matches(true, "a1b22c333", "[0-9]+").unwrap(), 3);
    assert_eq!(count_matches(true, "abc", "").unwrap(), 0);
    assert_eq!(count_matches(false, "abc", "").unwrap(), 0);
    assert!(matches!(count_matches(true, "abc", "[a-"), Err(SearchError::Pattern(_))));
}

#[test]
fn replace_match_literal_needs_whole_selection() {
    assert_eq!(replace_match("abc", "abc", "X", false).unwrap(), Some("X".to_string()));
    assert_eq!(replace_match("abc", "abcd", "X", false).unwrap(), None);
}

#[test]
fn replace_match_regex_needs_whole_selection() {
    assert_eq!(replace_match("a(b)", "ab", "$1$1", true).unwrap(), Some("bb".to_string()));
    assert_eq!(replace_match("a", "ab", "X", true).unwrap(), None);
    assert_eq!(replace_match("b", "ab", "X", true).unwrap(), None);
    assert!(matches!(replace_match("(", "ab", "X", true), Err(SearchError::Pattern(_))));
}

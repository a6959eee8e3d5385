use plainpad::document::{file_name_for, suggested_file_name, DocPath, Document};
use plainpad::search::SearchError;

fn doc_with(text: &str) -> Document {
    let path = DocPath::new("/tmp/notes.txt".to_string(), Some("notes.txt".to_string()));
    Document::from_path(path, text.to_string())
}

#[test]
fn untitled_document_is_clean_and_named() {
    let doc = Document::new_untitled(12);
    assert!(!doc.is_dirty());
    assert!(doc.is_empty());
    assert_eq!(doc.title(), "Untitled 12");
    assert!(doc.path().is_none());
    assert_eq!(Document::new_untitled(0).title(), "Untitled 0");
    assert_eq!(Document::new_untitled(7).title(), "Untitled 7");
}

#[test]
fn opened_document_is_clean() {
    let doc = doc_with("hello");
    assert!(!doc.is_dirty());
    assert_eq!(doc.text(), "hello");
    assert_eq!(doc.title(), "notes.txt");
    assert_eq!(doc.path().unwrap().full, "/tmp/notes.txt");
}

#[test]
fn opened_document_without_file_name() {
    let doc = Document::from_path(DocPath::new("/".to_string(), None), String::new());
    assert_eq!(doc.title(), "Untitled");
}

#[test]
fn edit_marks_dirty_and_save_clears_it() {
    let mut doc = Document::new_untitled(1);
    doc.text_mut().push_str("typed");
    doc.sync_rope();
    assert!(doc.is_dirty());
    assert_eq!(doc.text(), "typed");
    doc.save_to(DocPath::new("/tmp/a.txt".to_string(), Some("a.txt".to_string())));
    assert!(!doc.is_dirty());
    assert_eq!(doc.title(), "a.txt");
    assert_eq!(doc.text(), "typed");
}

#[test]
fn replace_all_literal_on_document() {
    let mut doc = doc_with("foo bar foo");
    let n = doc.replace_all("foo", "baz", false).unwrap();
    assert_eq!(n, 2);
    assert_eq!(doc.text(), "baz bar baz");
    assert!(doc.is_dirty());
}

#[test]
fn replace_all_invalid_pattern_changes_nothing() {
    let mut doc = doc_with("abc");
    let r = doc.replace_all("a(", "x", true);
    assert!(matches!(r, Err(SearchError::Pattern(_))));
    assert_eq!(doc.text(), "abc");
    assert!(!doc.is_dirty());
}

#[test]
fn replace_all_without_match_changes_nothing() {
    let mut doc = doc_with("abc");
    assert_eq!(doc.replace_all("zzz", "x", false).unwrap(), 0);
    assert_eq!(doc.text(), "abc");
    assert!(!doc.is_dirty());
    assert_eq!(doc.replace_all("[0-9]", "x", true).unwrap(), 0);
    assert_eq!(doc.text(), "abc");
    assert!(!doc.is_dirty());
}

#[test]
fn replace_all_with_identical_text_stays_clean() {
    let mut doc = doc_with("abc abc");
    assert_eq!(doc.replace_all("abc", "abc", false).unwrap(), 2);
    assert_eq!(doc.text(), "abc abc");
    assert!(!doc.is_dirty());
}

#[test]
fn replace_all_empty_query_fails() {
    let mut doc = doc_with("abc");
    assert!(matches!(doc.replace_all("", "x", false), Err(SearchError::EmptyQuery)));
    assert_eq!(doc.text(), "abc");
}

#[test]
fn two_phase_replace() {
    let mut doc = doc_with("xyz abc");
    // The selection "xyz" is no match: the selection moves, the text stays.
    let first = doc.replace_current("abc", "DEF", false, 0..3).unwrap();
    assert_eq!(first, Some(4..7));
    assert_eq!(doc.text(), "xyz abc");
    assert!(!doc.is_dirty());
    // Now the selection is "abc": it is replaced.
    let second = doc.replace_current("abc", "DEF", false, 4..7).unwrap();
    assert_eq!(second, Some(4..7));
    assert_eq!(doc.text(), "xyz DEF");
    assert!(doc.is_dirty());
}

#[test]
fn replace_current_reports_inserted_range() {
    let mut doc = doc_with("é abc é");
    let r = doc.replace_current("abc", "wxyz", false, 2..5).unwrap();
    assert_eq!(r, Some(2..6));
    assert_eq!(doc.text(), "é wxyz é");
}

#[test]
fn replace_current_regex_whole_selection() {
    let mut doc = doc_with("key=value");
    let r = doc.replace_current(r"(\w+)=(\w+)", "$2=$1", true, 0..9).unwrap();
    assert_eq!(r, Some(0..9));
    assert_eq!(doc.text(), "value=key");
}

#[test]
fn replace_current_regex_partial_selection_relocates() {
    let mut doc = doc_with("ab ab");
    let r = doc.replace_current("b", "X", true, 0..2).unwrap();
    assert_eq!(r, Some(4..5));
    assert_eq!(doc.text(), "ab ab");
}

#[test]
fn replace_current_errors_leave_text() {
    let mut doc = doc_with("abc");
    assert!(matches!(doc.replace_current("", "x", false, 0..1), Err(SearchError::EmptyQuery)));
    assert!(matches!(doc.replace_current("(", "x", true, 0..1), Err(SearchError::Pattern(_))));
    assert_eq!(doc.text(), "abc");
    assert!(!doc.is_dirty());
}

#[test]
fn suggested_names() {
    assert_eq!(suggested_file_name("Untitled 3"), "Untitled 3.txt");
    assert_eq!(suggested_file_name("README.TXT"), "README.TXT");
    assert_eq!(suggested_file_name("notes.txt"), "notes.txt");
    assert_eq!(file_name_for("A.Txt", "a.txt"), "A.Txt");
    assert_eq!(file_name_for("txt", "txt"), "txt.txt");
}

use plainpad::document::DocPath;
use plainpad::editor::Editor;

fn path(name: &str) -> DocPath {
    DocPath::new(format!("/tmp/{name}"), Some(name.to_string()))
}

fn titles(editor: &Editor) -> Vec<String> {
    editor.documents().iter().map(|d| d.title()).collect()
}

#[test]
fn new_editor_has_one_untitled_document() {
    let editor = Editor::new();
    assert_eq!(titles(&editor), vec!["Untitled 1"]);
    assert_eq!(editor.active_index(), 0);
    assert!(!editor.current().unwrap().is_dirty());
}

#[test]
fn new_documents_are_numbered_and_active() {
    let mut editor = Editor::new();
    editor.new_document();
    editor.new_document();
    assert_eq!(titles(&editor), vec!["Untitled 1", "Untitled 2", "Untitled 3"]);
    assert_eq!(editor.active_index(), 2);
}

#[test]
fn closing_the_sole_document_leaves_a_fresh_one() {
    let mut editor = Editor::new();
    editor.close_document(0);
    assert_eq!(titles(&editor), vec!["Untitled 2"]);
    assert_eq!(editor.active_index(), 0);
    assert!(editor.current().unwrap().is_empty());
}

#[test]
fn closing_before_the_active_shifts_it() {
    let mut editor = Editor::new();
    editor.new_document();
    editor.new_document();
    editor.close_document(0);
    assert_eq!(titles(&editor), vec!["Untitled 2", "Untitled 3"]);
    assert_eq!(editor.active_index(), 1);
}

#[test]
fn closing_the_last_active_clamps() {
    let mut editor = Editor::new();
    editor.new_document();
    editor.close_document(1);
    assert_eq!(titles(&editor), vec!["Untitled 1"]);
    assert_eq!(editor.active_index(), 0);
}

#[test]
fn closing_out_of_range_is_ignored() {
    let mut editor = Editor::new();
    editor.close_document(5);
    assert_eq!(titles(&editor), vec!["Untitled 1"]);
}

#[test]
fn tabs_cycle() {
    let mut editor = Editor::new();
    editor.new_document();
    editor.new_document();
    editor.next_tab();
    assert_eq!(editor.active_index(), 0);
    editor.previous_tab();
    assert_eq!(editor.active_index(), 2);
    editor.previous_tab();
    assert_eq!(editor.active_index(), 1);
    editor.set_active(9);
    assert_eq!(editor.active_index(), 1);
    editor.set_active(0);
    editor.select_last_tab();
    assert_eq!(editor.active_index(), 2);
}

#[test]
fn open_and_save() {
    let mut editor = Editor::new();
    editor.open_document(path("a.txt"), "text".to_string());
    assert_eq!(editor.active_index(), 1);
    assert_eq!(editor.current().unwrap().text(), "text");
    assert!(!editor.has_dirty_documents());
    editor.current_mut().unwrap().text_mut().push('!');
    editor.current_mut().unwrap().sync_rope();
    assert!(editor.has_dirty_documents());
    assert!(editor.is_dirty_at(1));
    assert!(!editor.is_dirty_at(0));
    editor.save_document(1, path("b.txt"));
    assert!(!editor.has_dirty_documents());
    assert_eq!(titles(&editor), vec!["Untitled 1", "b.txt"]);
}

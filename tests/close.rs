use plainpad::close::{CloseCoordinator, CloseResolution};
use plainpad::editor::Editor;

fn close_titles(editor: &Editor) -> Vec<String> {
    editor.documents().iter().map(|d| d.title()).collect()
}

fn editor_with(n: usize) -> Editor {
    let mut editor = Editor::new();
    for _ in 1..n {
        editor.new_document();
    }
    editor
}

fn make_dirty(editor: &mut Editor, index: usize) {
    let active = editor.active_index();
    editor.set_active(index);
    editor.current_mut().unwrap().text_mut().push('x');
    editor.current_mut().unwrap().sync_rope();
    editor.set_active(active);
}

#[test]
fn clean_close_is_immediate() {
    let mut editor = editor_with(2);
    let mut closes = CloseCoordinator::new();
    closes.request_close(&mut editor, 0);
    assert_eq!(close_titles(&editor), vec!["Untitled 2"]);
    assert_eq!(closes.awaiting(), None);
}

#[test]
fn closing_sole_clean_document_keeps_one() {
    let mut editor = Editor::new();
    let mut closes = CloseCoordinator::new();
    closes.request_close(&mut editor, 0);
    assert_eq!(close_titles(&editor), vec!["Untitled 2"]);
}

#[test]
fn dirty_close_waits_then_discards() {
    let mut editor = editor_with(2);
    make_dirty(&mut editor, 0);
    let mut closes = CloseCoordinator::new();
    closes.request_close(&mut editor, 0);
    assert_eq!(closes.awaiting(), Some(0));
    assert_eq!(close_titles(&editor).len(), 2);
    closes.resolve(&mut editor, CloseResolution::Discard);
    assert_eq!(closes.awaiting(), None);
    assert_eq!(close_titles(&editor), vec!["Untitled 2"]);
}

#[test]
fn saved_answer_closes_only_when_clean() {
    let mut editor = editor_with(2);
    make_dirty(&mut editor, 1);
    let mut closes = CloseCoordinator::new();
    closes.request_close(&mut editor, 1);
    closes.resolve(&mut editor, CloseResolution::Saved);
    assert_eq!(closes.awaiting(), Some(1));
    assert_eq!(close_titles(&editor).len(), 2);
    editor.save_document(1, plainpad::document::DocPath::new("/tmp/s.txt".to_string(), None));
    closes.resolve(&mut editor, CloseResolution::Saved);
    assert_eq!(closes.awaiting(), None);
    assert_eq!(close_titles(&editor), vec!["Untitled 1"]);
}

#[test]
fn close_all_clean_leaves_one_fresh_document() {
    let mut editor = editor_with(3);
    let mut closes = CloseCoordinator::new();
    closes.close_all_tabs(&mut editor);
    assert_eq!(close_titles(&editor), vec!["Untitled 4"]);
    assert_eq!(closes.pending_count(), 0);
}

#[test]
fn close_all_stops_at_dirty_and_cancel_clears_queue() {
    let mut editor = editor_with(4);
    make_dirty(&mut editor, 1);
    let mut closes = CloseCoordinator::new();
    closes.close_all_tabs(&mut editor);
    // Highest first: 3 and 2 close, then 1 waits.
    assert_eq!(close_titles(&editor), vec!["Untitled 1", "Untitled 2"]);
    assert_eq!(closes.awaiting(), Some(1));
    assert_eq!(closes.pending_count(), 1);
    closes.resolve(&mut editor, CloseResolution::Cancel);
    assert_eq!(closes.awaiting(), None);
    assert_eq!(closes.pending_count(), 0);
    assert_eq!(close_titles(&editor), vec!["Untitled 1", "Untitled 2"]);
}

#[test]
fn close_all_resumes_after_discard() {
    let mut editor = editor_with(3);
    make_dirty(&mut editor, 1);
    let mut closes = CloseCoordinator::new();
    closes.close_all_tabs(&mut editor);
    assert_eq!(closes.awaiting(), Some(1));
    closes.resolve(&mut editor, CloseResolution::Discard);
    assert_eq!(closes.awaiting(), None);
    assert_eq!(close_titles(&editor), vec!["Untitled 4"]);
}

#[test]
fn close_left_and_right_of_active() {
    let mut editor = editor_with(5);
    editor.set_active(2);
    let mut closes = CloseCoordinator::new();
    closes.close_tabs_right_of_active(&mut editor);
    assert_eq!(close_titles(&editor), vec!["Untitled 1", "Untitled 2", "Untitled 3"]);
    closes.close_tabs_left_of_active(&mut editor);
    assert_eq!(close_titles(&editor), vec!["Untitled 3"]);
    assert_eq!(editor.active_index(), 0);
}

#[test]
fn request_while_waiting_is_queued() {
    let mut editor = editor_with(3);
    make_dirty(&mut editor, 2);
    let mut closes = CloseCoordinator::new();
    closes.request_close(&mut editor, 2);
    closes.request_close(&mut editor, 0);
    assert_eq!(closes.awaiting(), Some(2));
    assert_eq!(closes.pending_count(), 1);
    assert_eq!(close_titles(&editor).len(), 3);
    closes.resolve(&mut editor, CloseResolution::Discard);
    assert_eq!(close_titles(&editor), vec!["Untitled 2"]);
}

use plainpad::close::CloseCoordinator;
use plainpad::commands::{AppCommand, MenuAction, ShortcutCommand, TabAction};
use plainpad::document::{DocPath, Document};
use plainpad::quit::{QuitAnswer, QuitState, WindowAction};
use plainpad::session::FindPanel;

fn panel(query: &str, replace: &str, use_regex: bool) -> FindPanel {
    let mut p = FindPanel::new();
    p.query = query.to_string();
    p.replace = replace.to_string();
    p.use_regex = use_regex;
    p
}

fn panel_doc(text: &str) -> Document {
    Document::from_path(DocPath::new("/tmp/x.txt".to_string(), None), text.to_string())
}

#[test]
fn panel_find_next_messages() {
    let mut p = panel("", "", false);
    assert_eq!(p.find_next("abc", 0), None);
    assert_eq!(p.error.as_deref(), Some("Enter search text to find matches."));
    let mut p = panel("zz", "", false);
    assert_eq!(p.find_next("abc", 0), None);
    assert_eq!(p.error.as_deref(), Some("No matches found."));
    let mut p = panel("bc", "", false);
    assert_eq!(p.find_next("abcabc", 6), Some(1..3));
    assert_eq!(p.error, None);
    let mut p = panel("(", "", true);
    assert_eq!(p.find_next("abc", 0), None);
    assert!(p.error.is_some());
}

#[test]
fn panel_replace_and_count() {
    let mut doc = panel_doc("xyz abc abc");
    let mut p = panel("abc", "Q", false);
    assert_eq!(p.live_count(doc.text()), Some(2));
    assert_eq!(p.replace_current(&mut doc, 0..3), Some(4..7));
    assert_eq!(doc.text(), "xyz abc abc");
    assert_eq!(p.replace_current(&mut doc, 4..7), Some(4..5));
    assert_eq!(doc.text(), "xyz Q abc");
    assert_eq!(p.replace_all(&mut doc), Some(1));
    assert_eq!(doc.text(), "xyz Q Q");
    assert_eq!(p.error, None);
    let mut empty = panel("", "Q", false);
    assert_eq!(empty.replace_all(&mut doc), None);
    assert_eq!(empty.error.as_deref(), Some("Enter search text to replace."));
    assert_eq!(empty.live_count(doc.text()), None);
}

#[test]
fn panel_open_clears_error() {
    let mut p = panel("", "", false);
    p.find_next("abc", 0);
    p.open_find_panel();
    assert!(p.open);
    assert_eq!(p.error, None);
    p.find_next("abc", 0);
    p.open_replace_panel();
    assert_eq!(p.error, None);
}

#[test]
fn quit_with_unsaved_changes_asks() {
    let mut q = QuitState::new();
    assert_eq!(q.request_quit(true), WindowAction::Keep);
    assert!(q.confirm_quit);
    assert_eq!(q.handle_close_request(true), WindowAction::CancelClose);
    let mut closes = CloseCoordinator::new();
    assert_eq!(q.answer(QuitAnswer::SavedAll { all_saved: false }, &mut closes), WindowAction::Keep);
    assert!(q.confirm_quit);
    assert_eq!(q.answer(QuitAnswer::Discard, &mut closes), WindowAction::Close);
    assert!(q.allow_quit);
    assert_eq!(q.handle_close_request(true), WindowAction::Keep);
}

#[test]
fn quit_without_changes_closes() {
    let mut q = QuitState::new();
    assert_eq!(q.request_quit(false), WindowAction::Close);
    assert_eq!(q.handle_close_request(false), WindowAction::Keep);
    let mut closes = CloseCoordinator::new();
    assert_eq!(q.force_quit(&mut closes), WindowAction::Close);
    assert!(q.allow_quit && !q.confirm_quit);
}

#[test]
fn commands_follow_their_sources() {
    assert_eq!(AppCommand::from(MenuAction::CloseTabsLeft), AppCommand::CloseTabsLeft);
    assert_eq!(AppCommand::from(MenuAction::ToggleStatusBar(false)), AppCommand::ToggleStatusBar(false));
    assert_eq!(AppCommand::from(ShortcutCommand::SelectTab(3)), AppCommand::SelectTab(3));
    assert_eq!(AppCommand::from(ShortcutCommand::Quit), AppCommand::Quit);
    let t = TabAction::default();
    assert_eq!(t, TabAction { select: None, close: None, new_tab: false });
}

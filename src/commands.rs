//! The commands the host can issue, and where they come from: the menu, the
//! keyboard and the tab bar.

use vstd::prelude::*;

verus! {

/// An entry of the menu bar.
#[derive(Debug, Clone, Copy, PartialEq, Eq, Structural)]
pub enum MenuAction {
    NewTab,
    Open,
    Print,
    Save,
    SaveAs,
    SaveAll,
    CloseAll,
    CloseTab,
    CloseTabsLeft,
    CloseTabsRight,
    Undo,
    Redo,
    Find,
    Replace,
    Cut,
    Copy,
    Paste,
    SelectAll,
    ToggleStatusBar(bool),
    ToggleLineNumbers(bool),
    Quit,
    ForceQuit,
}

/// A keyboard shortcut.
#[derive(Debug, Clone, Copy, PartialEq, Eq, Structural)]
pub enum ShortcutCommand {
    NewTab,
    Open,
    Print,
    Save,
    SaveAs,
    CloseTab,
    NextTab,
    PreviousTab,
    SelectTab(usize),
    SelectLastTab,
    Find,
    Replace,
    Quit,
}

/// What was clicked in the tab bar during one frame.
#[derive(Debug, Clone, Copy, PartialEq, Eq, Structural)]
pub struct TabAction {
    pub select: Option<usize>,
    pub close: Option<usize>,
    pub new_tab: bool,
}

impl Default for TabAction {
    fn default() -> (r: TabAction)
        ensures
            r.select is None,
            r.close is None,
            !r.new_tab,
    {
        TabAction { select: None, close: None, new_tab: false }
    }
}

/// The outcome of asking for a newer release.
#[derive(Debug)]
pub enum UpdateStatus {
    NoUpdate,
    Available(String),
    Error(String),
}

/// A command for the application, whatever it came from.
#[derive(Debug, Clone, Copy, PartialEq, Eq, Structural)]
pub enum AppCommand {
    NewTab,
    Open,
    Print,
    Save,
    SaveAs,
    SaveAll,
    CloseAll,
    CloseTab,
    CloseTabsLeft,
    CloseTabsRight,
    NextTab,
    PreviousTab,
    SelectTab(usize),
    SelectLastTab,
    Undo,
    Redo,
    Find,
    Replace,
    Cut,
    Copy,
    Paste,
    SelectAll,
    ToggleStatusBar(bool),
    ToggleLineNumbers(bool),
    Quit,
    ForceQuit,
}

/// The command of a menu entry: the one of the same name.
pub open spec fn menu_command(a: MenuAction) -> AppCommand {
    match a {
        MenuAction::NewTab => AppCommand::NewTab,
        MenuAction::Open => AppCommand::Open,
        MenuAction::Print => AppCommand::Print,
        MenuAction::Save => AppCommand::Save,
        MenuAction::SaveAs => AppCommand::SaveAs,
        MenuAction::SaveAll => AppCommand::SaveAll,
        MenuAction::CloseAll => AppCommand::CloseAll,
        MenuAction::CloseTab => AppCommand::CloseTab,
        MenuAction::CloseTabsLeft => AppCommand::CloseTabsLeft,
        MenuAction::CloseTabsRight => AppCommand::CloseTabsRight,
        MenuAction::Undo => AppCommand::Undo,
        MenuAction::Redo => AppCommand::Redo,
        MenuAction::Find => AppCommand::Find,
        MenuAction::Replace => AppCommand::Replace,
        MenuAction::Cut => AppCommand::Cut,
        MenuAction::Copy => AppCommand::Copy,
        MenuAction::Paste => AppCommand::Paste,
        MenuAction::SelectAll => AppCommand::SelectAll,
        MenuAction::ToggleStatusBar(on) => AppCommand::ToggleStatusBar(on),
        MenuAction::ToggleLineNumbers(on) => AppCommand::ToggleLineNumbers(on),
        MenuAction::Quit => AppCommand::Quit,
        MenuAction::ForceQuit => AppCommand::ForceQuit,
    }
}

/// The command of a shortcut: the one of the same name.
pub open spec fn shortcut_command(c: ShortcutCommand) -> AppCommand {
    match c {
        ShortcutCommand::NewTab => AppCommand::NewTab,
        ShortcutCommand::Open => AppCommand::Open,
        ShortcutCommand::Print => AppCommand::Print,
        ShortcutCommand::Save => AppCommand::Save,
        ShortcutCommand::SaveAs => AppCommand::SaveAs,
        ShortcutCommand::CloseTab => AppCommand::CloseTab,
        ShortcutCommand::NextTab => AppCommand::NextTab,
        ShortcutCommand::PreviousTab => AppCommand::PreviousTab,
        ShortcutCommand::SelectTab(i) => AppCommand::SelectTab(i),
        ShortcutCommand::SelectLastTab => AppCommand::SelectLastTab,
        ShortcutCommand::Find => AppCommand::Find,
        ShortcutCommand::Replace => AppCommand::Replace,
        ShortcutCommand::Quit => AppCommand::Quit,
    }
}

impl From<MenuAction> for AppCommand {
    fn from(action: MenuAction) -> AppCommand {
        match action {
            MenuAction::NewTab => AppCommand::NewTab,
            MenuAction::Open => AppCommand::Open,
            MenuAction::Print => AppCommand::Print,
            MenuAction::Save => AppCommand::Save,
            MenuAction::SaveAs => AppCommand::SaveAs,
            MenuAction::SaveAll => AppCommand::SaveAll,
            MenuAction::CloseAll => AppCommand::CloseAll,
            MenuAction::CloseTab => AppCommand::CloseTab,
            MenuAction::CloseTabsLeft => AppCommand::CloseTabsLeft,
            MenuAction::CloseTabsRight => AppCommand::CloseTabsRight,
            MenuAction::Undo => AppCommand::Undo,
            MenuAction::Redo => AppCommand::Redo,
            MenuAction::Find => AppCommand::Find,
            MenuAction::Replace => AppCommand::Replace,
            MenuAction::Cut => AppCommand::Cut,
            MenuAction::Copy => AppCommand::Copy,
            MenuAction::Paste => AppCommand::Paste,
            MenuAction::SelectAll => AppCommand::SelectAll,
            MenuAction::ToggleStatusBar(on) => AppCommand::ToggleStatusBar(on),
            MenuAction::ToggleLineNumbers(on) => AppCommand::ToggleLineNumbers(on),
            MenuAction::Quit => AppCommand::Quit,
            MenuAction::ForceQuit => AppCommand::ForceQuit,
        }
    }
}

impl vstd::std_specs::convert::FromSpecImpl<MenuAction> for AppCommand {
    open spec fn obeys_from_spec() -> bool {
        true
    }

    open spec fn from_spec(v: MenuAction) -> AppCommand {
        menu_command(v)
    }
}

impl From<ShortcutCommand> for AppCommand {
    fn from(command: ShortcutCommand) -> AppCommand {
        match command {
            ShortcutCommand::NewTab => AppCommand::NewTab,
            ShortcutCommand::Open => AppCommand::Open,
            ShortcutCommand::Print => AppCommand::Print,
            ShortcutCommand::Save => AppCommand::Save,
            ShortcutCommand::SaveAs => AppCommand::SaveAs,
            ShortcutCommand::CloseTab => AppCommand::CloseTab,
            ShortcutCommand::NextTab => AppCommand::NextTab,
            ShortcutCommand::PreviousTab => AppCommand::PreviousTab,
            ShortcutCommand::SelectTab(index) => AppCommand::SelectTab(index),
            ShortcutCommand::SelectLastTab => AppCommand::SelectLastTab,
            ShortcutCommand::Find => AppCommand::Find,
            ShortcutCommand::Replace => AppCommand::Replace,
            ShortcutCommand::Quit => AppCommand::Quit,
        }
    }
}

impl vstd::std_specs::convert::FromSpecImpl<ShortcutCommand> for AppCommand {
    open spec fn obeys_from_spec() -> bool {
        true
    }

    open spec fn from_spec(v: ShortcutCommand) -> AppCommand {
        shortcut_command(v)
    }
}

} // verus!

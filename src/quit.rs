//! Quitting with unsaved changes: when to let the window close, when to hold
//! it and ask.

use crate::close::CloseCoordinator;
use vstd::prelude::*;

verus! {

/// What the host does with its window.
#[derive(Debug, Clone, Copy, PartialEq, Eq, Structural)]
pub enum WindowAction {
    /// Leave it as it is.
    Keep,
    /// Close it.
    Close,
    /// Refuse the close that the window system asked for.
    CancelClose,
}

/// An answer to the question asked before quitting.
#[derive(Debug, Clone, Copy, PartialEq, Eq, Structural)]
pub enum QuitAnswer {
    /// The host tried to save every dirty document; `all_saved` says
    /// whether each of them succeeded.
    SavedAll { all_saved: bool },
    Discard,
    ForceQuit,
    Cancel,
}

/// Whether a quit waits for an answer, and whether one was granted.
pub struct QuitState {
    pub confirm_quit: bool,
    pub allow_quit: bool,
}

impl QuitState {
    pub fn new() -> (r: QuitState)
        ensures
            !r.confirm_quit,
            !r.allow_quit,
    {
        QuitState { confirm_quit: false, allow_quit: false }
    }

    /// The user asks to quit: with unsaved changes, ask first.
    pub fn request_quit(&mut self, has_dirty: bool) -> (r: WindowAction)
        ensures
            !final(self).allow_quit,
            final(self).confirm_quit == (has_dirty || old(self).confirm_quit),
            r == if has_dirty {
                WindowAction::Keep
            } else {
                WindowAction::Close
            },
    {
        self.allow_quit = false;
        if has_dirty {
            self.confirm_quit = true;
            WindowAction::Keep
        } else {
            WindowAction::Close
        }
    }

    /// Quit at once: every question is dropped, closes queued included.
    pub fn force_quit(&mut self, closes: &mut CloseCoordinator) -> (r: WindowAction)
        ensures
            !final(self).confirm_quit,
            final(self).allow_quit,
            final(closes)@.confirm is None,
            final(closes)@.pending.len() == 0,
            r == WindowAction::Close,
    {
        self.confirm_quit = false;
        closes.clear();
        self.allow_quit = true;
        WindowAction::Close
    }

    /// The window system asks to close the window.
    pub fn handle_close_request(&mut self, has_dirty: bool) -> (r: WindowAction)
        ensures
            final(self).allow_quit == old(self).allow_quit,
            old(self).allow_quit ==> r == WindowAction::Keep && final(self).confirm_quit == old(
                self,
            ).confirm_quit,
            !old(self).allow_quit && old(self).confirm_quit ==> r == WindowAction::CancelClose
                && final(self).confirm_quit,
            !old(self).allow_quit && !old(self).confirm_quit ==> {
                &&& r == if has_dirty {
                    WindowAction::CancelClose
                } else {
                    WindowAction::Keep
                }
                &&& final(self).confirm_quit == has_dirty
            },
    {
        if self.allow_quit {
            return WindowAction::Keep;
        }
        if self.confirm_quit {
            return WindowAction::CancelClose;
        }
        if has_dirty {
            self.confirm_quit = true;
            WindowAction::CancelClose
        } else {
            WindowAction::Keep
        }
    }

    /// The answer to the question asked before quitting.
    pub fn answer(&mut self, answer: QuitAnswer, closes: &mut CloseCoordinator) -> (r: WindowAction)
        ensures
            answer matches QuitAnswer::SavedAll { all_saved } ==> {
                &&& r == if all_saved {
                    WindowAction::Close
                } else {
                    WindowAction::Keep
                }
                &&& final(self).confirm_quit == (old(self).confirm_quit && !all_saved)
                &&& final(self).allow_quit == old(self).allow_quit
                &&& final(closes)@ == old(closes)@
            },
            answer is Discard ==> r == WindowAction::Close && !final(self).confirm_quit
                && final(self).allow_quit && final(closes)@ == old(closes)@,
            answer is ForceQuit ==> r == WindowAction::Close && !final(self).confirm_quit
                && final(self).allow_quit && final(closes)@.confirm is None
                && final(closes)@.pending.len() == 0,
            answer is Cancel ==> r == WindowAction::Keep && !final(self).confirm_quit
                && final(self).allow_quit == old(self).allow_quit && final(closes)@ == old(closes)@,
    {
        match answer {
            QuitAnswer::SavedAll { all_saved } => {
                if all_saved {
                    self.confirm_quit = false;
                    WindowAction::Close
                } else {
                    WindowAction::Keep
                }
            },
            QuitAnswer::Discard => {
                self.confirm_quit = false;
                self.allow_quit = true;
                WindowAction::Close
            },
            QuitAnswer::ForceQuit => self.force_quit(closes),
            QuitAnswer::Cancel => {
                self.confirm_quit = false;
                WindowAction::Keep
            },
        }
    }
}

} // verus!

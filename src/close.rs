//! Closing documents one at a time or in bulk, stopping to ask whenever a
//! document with unsaved changes comes up.

use crate::editor::{after_close, fresh_untitled, Editor, EditorView};
use vstd::prelude::*;

verus! {

/// How the question about a dirty document was answered.
#[derive(Debug, Clone, Copy, PartialEq, Eq, Structural)]
pub enum CloseResolution {
    /// The host tried to save the document; it closes if it is now clean.
    Saved,
    /// Close it without saving.
    Discard,
    /// Keep it open and drop the rest of the queued closes.
    Cancel,
}

/// What a `CloseCoordinator` holds.
pub struct CloseView {
    pub confirm: Option<usize>,
    pub pending: Seq<usize>,
}

/// Works through `pending` from its end: clean documents (and indices that
/// no longer exist) are closed, and the first dirty one stops the run and
/// waits for an answer. Gives the store, the document waited on, and what is
/// left of the queue.
pub open spec fn drain(e: EditorView, pending: Seq<usize>) -> (EditorView, Option<usize>, Seq<usize>)
    decreases pending.len(),
{
    if pending.len() == 0 {
        (e, None, pending)
    } else {
        let index = pending.last();
        let rest = pending.drop_last();
        if index < e.documents.len() && e.documents[index as int].dirty {
            (e, Some(index), rest)
        } else {
            drain(after_close(e, index as int), rest)
        }
    }
}

/// The indices `lo, lo + 1, ..., hi - 1`.
pub open spec fn index_range(lo: usize, hi: usize) -> Seq<usize> {
    Seq::new((hi - lo) as nat, |i: int| (lo + i) as usize)
}

/// Store and coordinator after a request to close the document at `index`.
pub open spec fn after_request(e: EditorView, c: CloseView, index: usize) -> (EditorView, CloseView) {
    if c.confirm is Some {
        (e, CloseView { confirm: c.confirm, pending: c.pending.push(index) })
    } else if index < e.documents.len() && e.documents[index as int].dirty {
        (e, CloseView { confirm: Some(index), pending: c.pending })
    } else {
        let d = drain(after_close(e, index as int), c.pending);
        (d.0, CloseView { confirm: d.1, pending: d.2 })
    }
}

/// Store and coordinator after queuing the closes of `lo..hi`, which replace
/// any queued before.
pub open spec fn after_queue(e: EditorView, c: CloseView, lo: usize, hi: usize) -> (
    EditorView,
    CloseView,
) {
    if lo >= hi {
        (e, c)
    } else if c.confirm is Some {
        (e, CloseView { confirm: c.confirm, pending: index_range(lo, hi) })
    } else {
        let d = drain(e, index_range(lo, hi));
        (d.0, CloseView { confirm: d.1, pending: d.2 })
    }
}

/// Store and coordinator after the answer `answer` to the question about
/// the document waited on.
pub open spec fn after_answer(e: EditorView, c: CloseView, answer: CloseResolution) -> (
    EditorView,
    CloseView,
) {
    match c.confirm {
        None => (e, c),
        Some(index) => match answer {
            CloseResolution::Cancel => (e, CloseView { confirm: None, pending: Seq::empty() }),
            CloseResolution::Saved => if index < e.documents.len()
                && !e.documents[index as int].dirty {
                let d = drain(after_close(e, index as int), c.pending);
                (d.0, CloseView { confirm: d.1, pending: d.2 })
            } else {
                (e, c)
            },
            CloseResolution::Discard => {
                let d = drain(after_close(e, index as int), c.pending);
                (d.0, CloseView { confirm: d.1, pending: d.2 })
            },
        },
    }
}

/// A store of one document that is empty, untitled and clean.
pub open spec fn single_fresh(e: EditorView) -> bool {
    &&& e.documents.len() == 1
    &&& e.documents[0].text.len() == 0
    &&& e.documents[0].path is None
    &&& !e.documents[0].dirty
}

/// Running a queue on a store of one fresh document leaves one fresh
/// document.
proof fn lemma_drain_single_fresh(e: EditorView, pending: Seq<usize>)
    requires
        single_fresh(e),
    ensures
        single_fresh(drain(e, pending).0),
    decreases pending.len(),
{
    if pending.len() > 0 {
        let index = pending.last();
        lemma_drain_single_fresh(after_close(e, index as int), pending.drop_last());
    }
}

/// Closing the only open document, when it has no unsaved changes and no
/// other close waits for an answer, leaves exactly one document open: a
/// fresh untitled one, whatever closes were queued.
pub proof fn lemma_close_sole_document(e: EditorView, c: CloseView)
    requires
        e.documents.len() == 1,
        !e.documents[0].dirty,
        c.confirm is None,
    ensures
        single_fresh(after_request(e, c, 0).0),
        c.pending.len() == 0 ==> after_request(e, c, 0).0.documents == seq![
            fresh_untitled(e.next_untitled),
        ],
{
    lemma_drain_single_fresh(after_close(e, 0), c.pending);
}

/// Sequences closes: at most one document waits for an answer at a time,
/// and the queued indices are taken highest first, so that a close never
/// shifts an index still waiting in the queue.
pub struct CloseCoordinator {
    confirm: Option<usize>,
    pending: Vec<usize>,
}

impl View for CloseCoordinator {
    type V = CloseView;

    closed spec fn view(&self) -> CloseView {
        CloseView { confirm: self.confirm, pending: self.pending@ }
    }
}

impl CloseCoordinator {
    pub fn new() -> (r: CloseCoordinator)
        ensures
            r@.confirm is None,
            r@.pending.len() == 0,
    {
        CloseCoordinator { confirm: None, pending: Vec::new() }
    }

    /// Drops the question awaited and every queued close.
    pub fn clear(&mut self)
        ensures
            final(self)@.confirm is None,
            final(self)@.pending.len() == 0,
    {
        self.confirm = None;
        self.pending = Vec::new();
    }

    /// The document whose close waits for an answer, if any.
    pub fn awaiting(&self) -> (r: Option<usize>)
        ensures
            r == self@.confirm,
    {
        self.confirm
    }

    /// Number of closes still queued.
    pub fn pending_count(&self) -> (r: usize)
        ensures
            r == self@.pending.len(),
    {
        self.pending.len()
    }

    /// Runs the queue until it is empty or a dirty document needs an answer.
    fn close_next_pending(&mut self, editor: &mut Editor)
        requires
            old(editor).wf(),
            old(self)@.confirm is None,
        ensures
            final(editor).wf(),
            (final(editor)@, final(self)@.confirm, final(self)@.pending) == drain(
                old(editor)@,
                old(self)@.pending,
            ),
    {
        while self.pending.len() > 0
            invariant
                editor.wf(),
                self.confirm is None,
                drain(editor@, self.pending@) == drain(old(editor)@, old(self)@.pending),
            decreases self.pending@.len(),
        {
            let ghost before = self.pending@;
            match self.pending.pop() {
                Some(index) => {
                    if editor.is_dirty_at(index) {
                        self.confirm = Some(index);
                        return;
                    }
                    editor.close_document(index);
                },
                None => {},
            }
        }
    }

    /// Asks to close the document at `index`. A clean document closes at
    /// once, and the queue runs on; a dirty one waits for an answer. While
    /// another answer is awaited, the request joins the queue.
    pub fn request_close(&mut self, editor: &mut Editor, index: usize)
        requires
            old(editor).wf(),
        ensures
            final(editor).wf(),
            (final(editor)@, final(self)@) == after_request(old(editor)@, old(self)@, index),
    {
        if self.confirm.is_some() {
            self.pending.push(index);
            return;
        }
        if editor.is_dirty_at(index) {
            self.confirm = Some(index);
            return;
        }
        editor.close_document(index);
        self.close_next_pending(editor);
    }

    /// Queues the closes of the documents `lo..hi` in place of any queued
    /// before, and runs the queue unless an answer is awaited.
    fn queue_close_range(&mut self, editor: &mut Editor, lo: usize, hi: usize)
        requires
            old(editor).wf(),
        ensures
            final(editor).wf(),
            (final(editor)@, final(self)@) == after_queue(old(editor)@, old(self)@, lo, hi),
    {
        if lo >= hi {
            return;
        }
        let mut indices: Vec<usize> = Vec::new();
        let mut i = lo;
        while i < hi
            invariant
                lo <= i <= hi,
                indices@ == index_range(lo, i),
            decreases hi - i,
        {
            indices.push(i);
            i = i + 1;
            assert(indices@ =~= index_range(lo, i));
        }
        self.pending = indices;
        if self.confirm.is_none() {
            self.close_next_pending(editor);
        }
    }

    /// Closes every document before the active one.
    pub fn close_tabs_left_of_active(&mut self, editor: &mut Editor)
        requires
            old(editor).wf(),
        ensures
            final(editor).wf(),
            (final(editor)@, final(self)@) == after_queue(
                old(editor)@,
                old(self)@,
                0,
                old(editor)@.active as usize,
            ),
    {
        let active = editor.active_index();
        self.queue_close_range(editor, 0, active);
    }

    /// Closes every document after the active one.
    pub fn close_tabs_right_of_active(&mut self, editor: &mut Editor)
        requires
            old(editor).wf(),
        ensures
            final(editor).wf(),
            (final(editor)@, final(self)@) == after_queue(
                old(editor)@,
                old(self)@,
                (old(editor)@.active + 1) as usize,
                old(editor)@.documents.len() as usize,
            ),
    {
        let total = editor.documents().len();
        let active = editor.active_index();
        proof {
            editor.lemma_wf();
        }
        self.queue_close_range(editor, active + 1, total);
    }

    /// Closes every document.
    pub fn close_all_tabs(&mut self, editor: &mut Editor)
        requires
            old(editor).wf(),
        ensures
            final(editor).wf(),
            (final(editor)@, final(self)@) == after_queue(
                old(editor)@,
                old(self)@,
                0,
                old(editor)@.documents.len() as usize,
            ),
    {
        let total = editor.documents().len();
        self.queue_close_range(editor, 0, total);
    }

    /// Settles the close that waits for an answer; without one, nothing
    /// happens.
    pub fn resolve(&mut self, editor: &mut Editor, answer: CloseResolution)
        requires
            old(editor).wf(),
        ensures
            final(editor).wf(),
            (final(editor)@, final(self)@) == after_answer(old(editor)@, old(self)@, answer),
    {
        let index = match self.confirm {
            Some(index) => index,
            None => return,
        };
        match answer {
            CloseResolution::Cancel => {
                self.confirm = None;
                self.pending = Vec::new();
            },
            CloseResolution::Saved => {
                if index < editor.documents().len() && !editor.is_dirty_at(index) {
                    editor.close_document(index);
                    self.confirm = None;
                    self.close_next_pending(editor);
                }
            },
            CloseResolution::Discard => {
                editor.close_document(index);
                self.confirm = None;
                self.close_next_pending(editor);
            },
        }
    }
}

} // verus!

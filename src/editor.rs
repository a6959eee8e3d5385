//! The ordered collection of open documents and which one is active.

use crate::document::{DocPath, Document, DocumentView, fallback_title, untitled_title};
use vstd::prelude::*;

verus! {

/// What an `Editor` holds.
pub struct EditorView {
    pub documents: Seq<DocumentView>,
    pub active: int,
    pub next_untitled: int,
}

/// Where the active index goes when the document at `index` is removed from
/// a store of `len` documents whose active index is `active`.
pub open spec fn active_after_remove(active: int, index: int, len: int) -> int {
    let shifted = if index < active {
        active - 1
    } else {
        active
    };
    if shifted >= len - 1 {
        len - 2
    } else {
        shifted
    }
}

/// A new untitled document with number `n`.
pub open spec fn fresh_untitled(n: int) -> DocumentView {
    DocumentView {
        text: Seq::empty(),
        path: None,
        untitled_name: untitled_title(n as nat),
        dirty: false,
    }
}

/// The next untitled number after `n`; it stops at the largest `usize`.
pub open spec fn next_number(n: int) -> int {
    if n < usize::MAX {
        n + 1
    } else {
        n
    }
}

/// The store after closing the document at `index`.
pub open spec fn after_close(e: EditorView, index: int) -> EditorView {
    if index < 0 || index >= e.documents.len() {
        e
    } else if e.documents.len() == 1 {
        EditorView {
            documents: seq![fresh_untitled(e.next_untitled)],
            active: 0,
            next_untitled: next_number(e.next_untitled),
        }
    } else {
        EditorView {
            documents: e.documents.remove(index),
            active: active_after_remove(e.active, index, e.documents.len() as int),
            next_untitled: e.next_untitled,
        }
    }
}

/// The open documents, in tab order, one of them active. There is always at
/// least one.
pub struct Editor {
    documents: Vec<Document>,
    active: usize,
    untitled_counter: usize,
}

impl View for Editor {
    type V = EditorView;

    closed spec fn view(&self) -> EditorView {
        EditorView {
            documents: self.documents@.map_values(|d: Document| d@),
            active: self.active as int,
            next_untitled: self.untitled_counter as int,
        }
    }
}

impl Editor {
    /// At least one document, the active index in range, every document
    /// well formed.
    pub closed spec fn wf(&self) -> bool {
        &&& self.documents@.len() > 0
        &&& self.active < self.documents@.len()
        &&& forall|i: int| 0 <= i < self.documents@.len() ==> #[trigger] self.documents@[i].wf()
    }

    /// The documents themselves.
    pub closed spec fn docs(&self) -> Seq<Document> {
        self.documents@
    }

    /// A well-formed store is never empty and its active index is in range.
    pub proof fn lemma_wf(&self)
        requires
            self.wf(),
        ensures
            self@.documents.len() > 0,
            0 <= self@.active < self@.documents.len(),
    {
    }

    /// A store holding one untitled document.
    pub fn new() -> (e: Editor)
        ensures
            e.wf(),
            e@.documents.len() == 1,
            e@.documents[0] == fresh_untitled(1),
            e@.active == 0,
            e@.next_untitled == 2,
    {
        let mut editor = Editor { documents: Vec::new(), active: 0, untitled_counter: 1 };
        editor.push_untitled();
        editor
    }

    /// Appends an untitled document and makes it active.
    fn push_untitled(&mut self)
        requires
            forall|i: int| 0 <= i < old(self).documents@.len() ==> #[trigger] old(self).documents@[i].wf(),
        ensures
            final(self).wf(),
            final(self).documents@.len() == old(self).documents@.len() + 1,
            forall|i: int| 0 <= i < old(self).documents@.len() ==> #[trigger] final(self).documents@[i] == old(self).documents@[i],
            final(self).documents@.last()@ == fresh_untitled(old(self).untitled_counter as int),
            final(self).active == old(self).documents@.len(),
            final(self).untitled_counter == next_number(old(self).untitled_counter as int),
    {
        let doc = Document::new_untitled(self.untitled_counter);
        assert(doc@ =~= fresh_untitled(self.untitled_counter as int));
        self.untitled_counter = self.untitled_counter.saturating_add(1);
        self.documents.push(doc);
        self.active = self.documents.len() - 1;
    }

    pub fn documents(&self) -> (r: &[Document])
        ensures
            r@ == self.docs(),
            r@.len() == self@.documents.len(),
    {
        self.documents.as_slice()
    }

    pub fn current(&self) -> (r: Option<&Document>)
        requires
            self.wf(),
        ensures
            r matches Some(d) && *d == self.docs()[self@.active],
    {
        Some(&self.documents[self.active])
    }

    pub fn active_index(&self) -> (r: usize)
        ensures
            r == self@.active,
    {
        self.active
    }

    /// Makes the document at `index` active; an index out of range is
    /// ignored.
    pub fn set_active(&mut self, index: usize)
        requires
            old(self).wf(),
        ensures
            final(self).wf(),
            final(self).docs() == old(self).docs(),
            final(self)@.next_untitled == old(self)@.next_untitled,
            final(self)@.active == if index < old(self)@.documents.len() {
                index as int
            } else {
                old(self)@.active
            },
    {
        if index < self.documents.len() {
            self.active = index;
        }
    }

    /// Makes the last document active.
    pub fn select_last_tab(&mut self)
        requires
            old(self).wf(),
        ensures
            final(self).wf(),
            final(self).docs() == old(self).docs(),
            final(self)@.next_untitled == old(self)@.next_untitled,
            final(self)@.active == old(self)@.documents.len() - 1,
    {
        let total = self.documents.len();
        self.set_active(total - 1);
    }

    /// Appends a new untitled document, numbered after the previous ones,
    /// and makes it active.
    pub fn new_document(&mut self)
        requires
            old(self).wf(),
        ensures
            final(self).wf(),
            final(self).docs().drop_last() == old(self).docs(),
            final(self)@.documents.last() == fresh_untitled(old(self)@.next_untitled),
            final(self)@.active == old(self)@.documents.len(),
            final(self)@.next_untitled == next_number(old(self)@.next_untitled),
    {
        self.push_untitled();
        assert(self.docs().drop_last() =~= old(self).docs());
    }

    /// Appends the document read from `path` and makes it active.
    pub fn open_document(&mut self, path: DocPath, text: String)
        requires
            old(self).wf(),
        ensures
            final(self).wf(),
            final(self).docs().drop_last() == old(self).docs(),
            final(self)@.documents.last().text == text@,
            final(self)@.documents.last().path == Some(path@),
            final(self)@.documents.last().untitled_name == (match path@.file_name {
                Some(n) => n,
                None => fallback_title(),
            }),
            !final(self)@.documents.last().dirty,
            final(self)@.active == old(self)@.documents.len(),
            final(self)@.next_untitled == old(self)@.next_untitled,
    {
        let doc = Document::from_path(path, text);
        self.documents.push(doc);
        self.active = self.documents.len() - 1;
        assert(self.docs().drop_last() =~= old(self).docs());
    }

    /// Removes the document at `index`; an index out of range is ignored.
    /// Removing the last remaining document leaves a fresh untitled one in
    /// its place. The active index follows the document it pointed at, and
    /// is clamped to the new last one.
    pub fn close_document(&mut self, index: usize)
        requires
            old(self).wf(),
        ensures
            final(self).wf(),
            final(self)@ == after_close(old(self)@, index as int),
    {
        if index >= self.documents.len() {
            return;
        }
        self.documents.remove(index);
        if self.documents.len() == 0 {
            self.push_untitled();
            assert(self@.documents =~= seq![fresh_untitled(old(self)@.next_untitled)]);
            return;
        }
        if index < self.active {
            self.active = self.active - 1;
        }
        if self.active >= self.documents.len() {
            self.active = self.documents.len() - 1;
        }
        assert(self@.documents =~= old(self)@.documents.remove(index as int));
    }

    /// Whether the document at `index` exists and has unsaved changes.
    pub fn is_dirty_at(&self, index: usize) -> (r: bool)
        ensures
            r == (index < self@.documents.len() && self@.documents[index as int].dirty),
    {
        index < self.documents.len() && self.documents[index].is_dirty()
    }

    /// Records that the document at `index` was written to `path`; an index
    /// out of range is ignored.
    pub fn save_document(&mut self, index: usize, path: DocPath)
        requires
            old(self).wf(),
        ensures
            final(self).wf(),
            final(self)@.active == old(self)@.active,
            final(self)@.next_untitled == old(self)@.next_untitled,
            index < old(self)@.documents.len() ==> final(self)@.documents == old(
                self,
            )@.documents.update(
                index as int,
                DocumentView { path: Some(path@), dirty: false, ..old(self)@.documents[index as int] },
            ),
            index >= old(self)@.documents.len() ==> final(self)@ == old(self)@,
    {
        if index < self.documents.len() {
            self.documents[index].save_to(path);
            assert(self@.documents =~= old(self)@.documents.update(
                index as int,
                DocumentView { path: Some(path@), dirty: false, ..old(self)@.documents[index as int] },
            ));
        }
    }

    /// Activates the next document, from the last back to the first.
    pub fn next_tab(&mut self)
        requires
            old(self).wf(),
        ensures
            final(self).wf(),
            final(self).docs() == old(self).docs(),
            final(self)@.next_untitled == old(self)@.next_untitled,
            final(self)@.active == (old(self)@.active + 1) % (old(self)@.documents.len() as int),
    {
        if self.documents.len() == 0 {
            return;
        }
        self.active = (self.active + 1) % self.documents.len();
    }

    /// Activates the previous document, from the first round to the last.
    pub fn previous_tab(&mut self)
        requires
            old(self).wf(),
        ensures
            final(self).wf(),
            final(self).docs() == old(self).docs(),
            final(self)@.next_untitled == old(self)@.next_untitled,
            final(self)@.active == if old(self)@.active == 0 {
                old(self)@.documents.len() - 1
            } else {
                old(self)@.active - 1
            },
    {
        if self.documents.len() == 0 {
            return;
        }
        if self.active == 0 {
            self.active = self.documents.len() - 1;
        } else {
            self.active = self.active - 1;
        }
    }

    /// Whether any document has unsaved changes.
    pub fn has_dirty_documents(&self) -> (r: bool)
        ensures
            r == exists|i: int| 0 <= i < self@.documents.len() && #[trigger] self@.documents[i].dirty,
    {
        let mut i: usize = 0;
        while i < self.documents.len()
            invariant
                i <= self.documents@.len(),
                forall|j: int| 0 <= j < i ==> !(#[trigger] self@.documents[j].dirty),
            decreases self.documents.len() - i,
        {
            assert(self@.documents[i as int] == self.documents@[i as int]@);
            if self.documents[i].is_dirty() {
                return true;
            }
            i = i + 1;
        }
        false
    }

    /// The active document, to be changed in place.
    pub fn current_mut(&mut self) -> (r: Option<&mut Document>)
        requires
            old(self).wf(),
        ensures
            r matches Some(d) && *d == old(self).docs()[old(self)@.active] && final(self).docs()
                == old(self).docs().update(old(self)@.active, *final(d)) && final(self)@.active
                == old(self)@.active && final(self)@.next_untitled == old(self)@.next_untitled,
    {
        let i = self.active;
        Some(&mut self.documents[i])
    }
}

} // verus!

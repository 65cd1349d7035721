//! Undo and redo: a stack of buffer snapshots with a position in it.

use crate::buffer::{BufView, Buffer};
use shrs_utils::Location;
use vstd::prelude::*;

verus! {

/// The snapshots taken in one editing session, oldest first, and the index of
/// the snapshot that the buffer was last set to or taken from.
pub struct UndoView {
    pub snapshots: Seq<BufView>,
    pub index: nat,
}

impl UndoView {
    /// No snapshot.
    pub open spec fn empty() -> UndoView {
        UndoView { snapshots: Seq::empty(), index: 0 }
    }

    /// Every snapshot is a well-formed buffer state, and the index names one
    /// of them unless there is none.
    pub open spec fn wf(self) -> bool {
        &&& forall|i: int| 0 <= i < self.snapshots.len() ==> (#[trigger] self.snapshots[i]).wf()
        &&& if self.snapshots.len() == 0 {
            self.index == 0
        } else {
            self.index < self.snapshots.len()
        }
    }

    /// A snapshot pushed: what could be redone is dropped, and the new
    /// snapshot becomes the current one.
    pub open spec fn add(self, buf: BufView) -> UndoView {
        let kept = if self.snapshots.len() == 0 {
            self.snapshots
        } else {
            self.snapshots.take(self.index as int + 1)
        };
        UndoView { snapshots: kept.push(buf), index: kept.len() }
    }

    /// True when there is an older snapshot to go back to.
    pub open spec fn can_undo(self) -> bool {
        self.index > 0
    }

    /// True when there is a newer snapshot to go forward to.
    pub open spec fn can_redo(self) -> bool {
        self.index + 1 < self.snapshots.len()
    }

    /// One step back: the position, and the buffer set to the older snapshot.
    /// Without an older snapshot nothing changes.
    pub open spec fn prev(self, buf: BufView) -> (UndoView, BufView) {
        if self.can_undo() {
            (
                UndoView { snapshots: self.snapshots, index: (self.index - 1) as nat },
                self.snapshots[self.index - 1],
            )
        } else {
            (self, buf)
        }
    }

    /// One step forward: the position, and the buffer set to the newer
    /// snapshot. Without a newer snapshot nothing changes.
    pub open spec fn next(self, buf: BufView) -> (UndoView, BufView) {
        if self.can_redo() {
            (
                UndoView { snapshots: self.snapshots, index: self.index + 1 },
                self.snapshots[self.index as int + 1],
            )
        } else {
            (self, buf)
        }
    }

    /// The buffer holds what the newest snapshot recorded, and nothing can be
    /// redone: the state after an edit that pushed a snapshot.
    pub open spec fn in_sync(self, buf: BufView) -> bool {
        self.snapshots.len() == 0 || (self.index + 1 == self.snapshots.len()
            && self.snapshots[self.index as int] == buf)
    }
}

/// The store of buffer snapshots behind undo and redo.
pub trait BufferHistory {
    /// The snapshots held and the current position.
    spec fn model(&self) -> UndoView;

    /// Takes a snapshot of the buffer.
    fn add(&mut self, buf: &Buffer)
        requires
            old(self).model().wf(),
            buf@.wf(),
        ensures
            final(self).model() == old(self).model().add(buf@),
            final(self).model().wf(),
    ;

    /// Sets the buffer to the snapshot before the current one.
    fn prev(&mut self, buf: &mut Buffer)
        requires
            old(self).model().wf(),
            old(buf)@.wf(),
        ensures
            (final(self).model(), final(buf)@) == old(self).model().prev(old(buf)@),
            final(self).model().wf(),
            final(buf)@.wf(),
    ;

    /// Sets the buffer to the snapshot after the current one.
    fn next(&mut self, buf: &mut Buffer)
        requires
            old(self).model().wf(),
            old(buf)@.wf(),
        ensures
            (final(self).model(), final(buf)@) == old(self).model().next(old(buf)@),
            final(self).model().wf(),
            final(buf)@.wf(),
    ;

    /// Drops every snapshot.
    fn clear(&mut self)
        ensures
            final(self).model() == UndoView::empty(),
            final(self).model().wf(),
    ;
}

/// Undoing and then redoing, right after an edit that pushed a snapshot,
/// restores the buffer and the position in the snapshots.
pub proof fn lemma_undo_then_redo(h: UndoView, buf: BufView)
    requires
        h.wf(),
        h.in_sync(buf),
    ensures
        ({
            let (h1, b1) = h.prev(buf);
            h1.next(b1) == (h, buf)
        }),
{
}

/// A snapshot that was just pushed is in sync with the buffer it was taken
/// of, whatever was held before.
pub proof fn lemma_add_in_sync(h: UndoView, buf: BufView)
    requires
        h.wf(),
        buf.wf(),
    ensures
        h.add(buf).wf(),
        h.add(buf).in_sync(buf),
{
}

/// One recorded state of the buffer.
struct Snapshot {
    text: String,
    cursor: usize,
}

/// Snapshots kept in memory.
pub struct DefaultBufferHistory {
    hist: Vec<Snapshot>,
    index: usize,
}

impl DefaultBufferHistory {
    /// A store without snapshots.
    pub fn new() -> (h: DefaultBufferHistory)
        ensures
            h.model() == UndoView::empty(),
            h.model().wf(),
    {
        let h = DefaultBufferHistory { hist: Vec::new(), index: 0 };
        assert(h.model().snapshots =~= Seq::<BufView>::empty());
        h
    }

    /// Sets the buffer to the snapshot at the current position.
    fn restore(&self, buf: &mut Buffer)
        requires
            self.model().wf(),
            self.model().snapshots.len() > 0,
            old(buf)@.wf(),
        ensures
            final(buf)@ == self.model().snapshots[self.model().index as int],
            final(buf)@.wf(),
    {
        let snap = &self.hist[self.index];
        let ghost want = self.model().snapshots[self.index as int];
        assert(want.wf());
        buf.clear();
        let r = buf.insert(Location::Abs(0), snap.text.as_str());
        assert(r is Ok);
        assert(buf@.text =~= want.text);
        let r = buf.move_cursor(Location::Abs(snap.cursor));
        assert(r is Ok);
    }
}

impl BufferHistory for DefaultBufferHistory {
    closed spec fn model(&self) -> UndoView {
        UndoView {
            snapshots: Seq::new(
                self.hist@.len(),
                |i: int| BufView { text: self.hist@[i].text@, cursor: self.hist@[i].cursor as nat },
            ),
            index: self.index as nat,
        }
    }

    fn add(&mut self, buf: &Buffer) {
        if self.hist.len() > 0 {
            self.hist.truncate(self.index + 1);
        }
        self.hist.push(Snapshot { text: buf.contents(), cursor: buf.cursor() });
        self.index = self.hist.len() - 1;
        assert(self.model().snapshots =~= old(self).model().add(buf@).snapshots);
    }

    fn prev(&mut self, buf: &mut Buffer) {
        if self.index > 0 {
            self.index = self.index - 1;
            self.restore(buf);
        }
    }

    fn next(&mut self, buf: &mut Buffer) {
        if self.index < self.hist.len() && self.index + 1 < self.hist.len() {
            self.index = self.index + 1;
            self.restore(buf);
        }
    }

    fn clear(&mut self) {
        self.hist.clear();
        self.index = 0;
        assert(self.model().snapshots =~= Seq::<BufView>::empty());
    }
}

} // verus!

use vstd::prelude::*;

use crate::canvas::CanvasError;
use crate::canvas::Image;
use crate::canvas::ImageView;
use crate::color::spec_color_of;
use crate::color::spec_default_color;
use crate::history::Mode;
use crate::history::QueueModel;
use crate::history::UndoQueue;
use crate::history::spec_close_block;
use crate::history::spec_push;
use crate::history::spec_redo;
use crate::history::spec_start_block;
use crate::history::spec_undo;

verus! {

/// The models of a sequence of snapshots, in order.
spec fn image_views(s: Seq<Image>) -> Seq<ImageView> {
    s.map(|i: int, img: Image| img@)
}

/// One editing session: a history manager of canvas snapshots. Painting
/// derives the next snapshot from the current one and records it; undo and
/// redo walk the history.
pub struct InternalState {
    undo_queue: UndoQueue<Image>,
}

impl View for InternalState {
    type V = QueueModel<ImageView>;

    closed spec fn view(&self) -> QueueModel<ImageView> {
        QueueModel {
            entries: image_views(self.undo_queue@.entries),
            cursor: self.undo_queue@.cursor,
            mode: self.undo_queue@.mode,
        }
    }
}

impl InternalState {
    /// The session is valid: the history is, and every stored snapshot is a
    /// well-formed grid.
    pub open spec fn wf(self) -> bool {
        &&& self@.wf()
        &&& forall|i: int|
            0 <= i < self@.entries.len() ==> (#[trigger] self@.entries[i]).wf()
    }

    /// A fresh session over a width x height canvas of the default color.
    pub fn new(width: usize, height: usize) -> (s: InternalState)
        requires
            1 <= width,
            1 <= height,
            width * height <= usize::MAX,
        ensures
            s.wf(),
            s@.mode == Mode::Normal,
            s@.cursor == 0,
            s@.entries.len() == 1,
            s@.entries[0].width == width,
            s@.entries[0].height == height,
            forall|i: int| 0 <= i < width * height ==> s@.entries[0].cells[i] == spec_default_color(),
    {
        let img = Image::new(width, height);
        let s = InternalState { undo_queue: UndoQueue::new(img) };
        proof {
            assert(s@.entries =~= seq![img@]);
        }
        s
    }

    /// An independent copy of the current snapshot; mutating it cannot touch
    /// the history.
    pub fn image(&self) -> (img: Image)
        requires
            self.wf(),
        ensures
            img.wf(),
            img@ == self@.current(),
    {
        let img = self.undo_queue.current();
        proof {
            assert(self@.entries[self@.cursor].wf());
        }
        img
    }

    /// Paints one cell of the current snapshot. A rejected call and the no-op
    /// short-circuit (the cell already holds the color) leave the history
    /// exactly as it was; a real change records the painted snapshot through
    /// the push transition of the current mode.
    pub fn brush(&mut self, x: usize, y: usize, color: Vec<u8>) -> (r: Result<(), CanvasError>)
        requires
            old(self).wf(),
        ensures
            final(self).wf(),
            (r == Err::<(), CanvasError>(CanvasError::InvalidColor)) <==> color@.len() != 3,
            (r == Err::<(), CanvasError>(CanvasError::IndexOutOfBounds)) <==> (color@.len() == 3
                && !old(self)@.current().in_bounds(x as int, y as int)),
            r matches Err(_) ==> final(self)@ == old(self)@,
            color@.len() == 3 && old(self)@.current().in_bounds(x as int, y as int) ==> ({
                let cur = old(self)@.current();
                let c = spec_color_of(color@);
                &&& (cur.cell(x as int, y as int) == c ==> final(self)@ == old(self)@)
                &&& (cur.cell(x as int, y as int) != c ==> final(self)@ == spec_push(
                    old(self)@,
                    cur.painted(x as int, y as int, c),
                ))
            }),
    {
        let image = self.image();
        match image.brush(x, y, color) {
            Ok(Some(new_image)) => {
                self.undo_queue.push(new_image);
                proof {
                    lemma_image_views_push(old(self).undo_queue@, new_image);
                    assert(self@ =~= spec_push(old(self)@, new_image@));
                }
                Ok(())
            },
            Ok(None) => Ok(()),
            Err(e) => Err(e),
        }
    }

    /// Steps back one undo step, clamped at the initial snapshot.
    pub fn undo(&mut self)
        requires
            old(self).wf(),
        ensures
            final(self).wf(),
            final(self)@ == spec_undo(old(self)@),
    {
        self.undo_queue.undo();
        proof {
            assert(self@ =~= spec_undo(old(self)@));
        }
    }

    /// Steps forward one undo step, clamped at the newest snapshot.
    pub fn redo(&mut self)
        requires
            old(self).wf(),
        ensures
            final(self).wf(),
            final(self)@ == spec_redo(old(self)@),
    {
        self.undo_queue.redo();
        proof {
            assert(self@ =~= spec_redo(old(self)@));
        }
    }

    /// Arms block coalescing: the next paint opens a single undo step that
    /// swallows the paints after it until the block is closed.
    pub fn start_undo_block(&mut self)
        requires
            old(self).wf(),
        ensures
            final(self).wf(),
            final(self)@ == spec_start_block(old(self)@),
    {
        self.undo_queue.start_undo_block();
        proof {
            assert(self@ =~= spec_start_block(old(self)@));
        }
    }

    /// Ends block coalescing.
    pub fn close_undo_block(&mut self)
        requires
            old(self).wf(),
        ensures
            final(self).wf(),
            final(self)@ == spec_close_block(old(self)@),
    {
        self.undo_queue.close_undo_block();
        proof {
            assert(self@ =~= spec_close_block(old(self)@));
        }
    }
}

/// Taking models commutes with the push transition.
proof fn lemma_image_views_push(q: QueueModel<Image>, t: Image)
    requires
        q.wf(),
    ensures
        image_views(spec_push(q, t).entries) =~= spec_push(
            QueueModel { entries: image_views(q.entries), cursor: q.cursor, mode: q.mode },
            t@,
        ).entries,
{
}

} // verus!

//! The window size cell: the latest size of the window and a flag that
//! says whether the render thread has taken it up yet.

use vstd::prelude::*;

verus! {

/// The size of the drawable surface, in physical pixels.
#[derive(Clone, Copy, Debug, PartialEq, Eq, Structural)]
pub struct SurfaceSize {
    pub width: u32,
    pub height: u32,
}

/// What can happen to the window size cell: the event thread writes a new
/// size, or the render thread takes the pending size up.
pub enum WindowOp {
    Resize { width: u32, height: u32 },
    Consume,
}

/// The cell after the event thread wrote a new size.
pub open spec fn resized(cell: (u32, u32, bool), width: u32, height: u32) -> (u32, u32, bool) {
    (width, height, true)
}

/// The cell after the render thread looked at it.
pub open spec fn consumed(cell: (u32, u32, bool)) -> (u32, u32, bool) {
    (cell.0, cell.1, false)
}

/// What the render thread gets when it looks at the cell: the size, if
/// one is pending.
pub open spec fn pending(cell: (u32, u32, bool)) -> Option<SurfaceSize> {
    if cell.2 {
        Some(SurfaceSize { width: cell.0, height: cell.1 })
    } else {
        None
    }
}

/// The cell after one operation.
pub open spec fn after_op(cell: (u32, u32, bool), op: WindowOp) -> (u32, u32, bool) {
    match op {
        WindowOp::Resize { width, height } => resized(cell, width, height),
        WindowOp::Consume => consumed(cell),
    }
}

/// The cell after a run of operations, oldest first.
pub open spec fn after_ops(cell: (u32, u32, bool), ops: Seq<WindowOp>) -> (u32, u32, bool)
    decreases ops.len(),
{
    if ops.len() == 0 {
        cell
    } else {
        after_op(after_ops(cell, ops.drop_last()), ops.last())
    }
}

/// Some resize in `ops` has no consumption after it.
pub open spec fn resized_since_consumed(ops: Seq<WindowOp>) -> bool {
    exists|i: int|
        0 <= i < ops.len() && #[trigger] ops[i] is Resize && forall|j: int|
            i < j < ops.len() ==> !(#[trigger] ops[j] is Consume)
}

/// No operation in `ops` is a consumption.
pub open spec fn never_consumed(ops: Seq<WindowOp>) -> bool {
    forall|j: int| 0 <= j < ops.len() ==> !(#[trigger] ops[j] is Consume)
}

/// Width, height and the dirty flag of the window.
///
/// The flag is up from a resize until the render thread next looks.
#[derive(Clone, Copy, Debug)]
pub struct WindowSize {
    width: u32,
    height: u32,
    dirty: bool,
}

impl WindowSize {
    /// Width, height and the dirty flag.
    pub closed spec fn view(&self) -> (u32, u32, bool) {
        (self.width, self.height, self.dirty)
    }

    /// The cell for a window that was just opened at this size: nothing
    /// is pending.
    pub fn new(width: u32, height: u32) -> (cell: WindowSize)
        ensures
            cell@ == (width, height, false),
    {
        WindowSize { width, height, dirty: false }
    }

    /// The width that was last written.
    pub fn width(&self) -> (width: u32)
        ensures
            width == self@.0,
    {
        self.width
    }

    /// The height that was last written.
    pub fn height(&self) -> (height: u32)
        ensures
            height == self@.1,
    {
        self.height
    }

    /// Whether a size is waiting for the render thread.
    pub fn is_dirty(&self) -> (dirty: bool)
        ensures
            dirty == self@.2,
    {
        self.dirty
    }

    /// The window has a new size. An earlier size that nobody took up is
    /// overwritten.
    pub fn resize(&mut self, width: u32, height: u32)
        ensures
            final(self)@ == resized(old(self)@, width, height),
    {
        self.width = width;
        self.height = height;
        self.dirty = true;
    }

    /// The render thread's look at the cell: hands out the pending size,
    /// if there is one, and lowers the flag.
    pub fn consume(&mut self) -> (size: Option<SurfaceSize>)
        ensures
            size == pending(old(self)@),
            final(self)@ == consumed(old(self)@),
    {
        if self.dirty {
            self.dirty = false;
            Some(SurfaceSize { width: self.width, height: self.height })
        } else {
            None
        }
    }
}

/// Right after a resize the flag is up and the cell holds the new size;
/// right after the next look the flag is down, the look handed out that
/// size, and the cell still holds it.
pub proof fn lemma_resize_then_consume(cell: (u32, u32, bool), width: u32, height: u32)
    ensures
        resized(cell, width, height) == (width, height, true),
        pending(resized(cell, width, height)) == Some(SurfaceSize { width, height }),
        consumed(resized(cell, width, height)) == (width, height, false),
        pending(consumed(resized(cell, width, height))) is None,
{
}

/// After any run of operations the flag is up exactly when a resize has
/// happened since the last look, or, where nobody looked at all, when it
/// was up before.
pub proof fn lemma_dirty_iff_resized_since_consumed(cell: (u32, u32, bool), ops: Seq<WindowOp>)
    ensures
        after_ops(cell, ops).2 == (resized_since_consumed(ops) || (cell.2 && never_consumed(ops))),
    decreases ops.len(),
{
    if ops.len() > 0 {
        let init = ops.drop_last();
        let last = ops.len() - 1;
        lemma_dirty_iff_resized_since_consumed(cell, init);
        match ops.last() {
            WindowOp::Resize { .. } => {
                assert(ops[last] is Resize);
                assert(resized_since_consumed(ops));
            },
            WindowOp::Consume => {
                assert(ops[last] is Consume);
                assert(!never_consumed(ops));
                assert(!resized_since_consumed(ops)) by {
                    if resized_since_consumed(ops) {
                        let i = choose|i: int|
                            0 <= i < ops.len() && #[trigger] ops[i] is Resize && forall|j: int|
                                i < j < ops.len() ==> !(#[trigger] ops[j] is Consume);
                        assert(i < last);
                    }
                }
            },
        }
    } else {
        assert(never_consumed(ops));
        assert(!resized_since_consumed(ops));
    }
}

/// The size in the cell is that of the latest resize, however many came
/// before it and whether or not anybody looked in between.
pub proof fn lemma_last_resize_wins(cell: (u32, u32, bool), ops: Seq<WindowOp>, latest: int)
    requires
        0 <= latest < ops.len(),
        ops[latest] is Resize,
        forall|j: int| latest < j < ops.len() ==> !(#[trigger] ops[j] is Resize),
    ensures
        after_ops(cell, ops).0 == ops[latest]->width,
        after_ops(cell, ops).1 == ops[latest]->height,
    decreases ops.len(),
{
    if latest < ops.len() - 1 {
        let init = ops.drop_last();
        assert(!(ops[ops.len() - 1] is Resize));
        assert(init[latest] == ops[latest]);
        assert forall|j: int| latest < j < init.len() implies !(#[trigger] init[j] is Resize) by {
            assert(init[j] == ops[j]);
        }
        lemma_last_resize_wins(cell, init, latest);
    }
}

/// Without a resize the size in the cell stays what it was.
pub proof fn lemma_size_kept_without_resize(cell: (u32, u32, bool), ops: Seq<WindowOp>)
    requires
        forall|j: int| 0 <= j < ops.len() ==> !(#[trigger] ops[j] is Resize),
    ensures
        after_ops(cell, ops).0 == cell.0,
        after_ops(cell, ops).1 == cell.1,
    decreases ops.len(),
{
    if ops.len() > 0 {
        let init = ops.drop_last();
        assert(!(ops[ops.len() - 1] is Resize));
        assert forall|j: int| 0 <= j < init.len() implies !(#[trigger] init[j] is Resize) by {
            assert(init[j] == ops[j]);
        }
        lemma_size_kept_without_resize(cell, init);
    }
}

} // verus!

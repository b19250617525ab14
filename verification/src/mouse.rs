//! The mouse motion cell: what the mouse has moved since the render
//! thread last asked.
//!
//! The cell keeps the motion samples apart, in the order in which they
//! arrived, and hands all of them out at once. Whoever takes them adds
//! them up in the arithmetic of the sample type; the sum over the samples
//! handed out is the motion since the last take, and an empty hand-out
//! stands for no motion at all.

use vstd::prelude::*;

verus! {

/// The cell after a run of samples arrived, oldest first.
pub open spec fn after_samples<T>(waiting: Seq<(T, T)>, samples: Seq<(T, T)>) -> Seq<(T, T)>
    decreases samples.len(),
{
    if samples.len() == 0 {
        waiting
    } else {
        after_samples(waiting, samples.drop_last()).push(samples.last())
    }
}

/// The motion samples, one pair of axis values each, that wait for the
/// render thread.
pub struct MouseDelta<T> {
    samples: Vec<(T, T)>,
}

impl<T> MouseDelta<T> {
    /// The samples that wait, oldest first.
    pub closed spec fn view(&self) -> Seq<(T, T)> {
        self.samples@
    }

    /// No motion waits.
    pub fn new() -> (cell: MouseDelta<T>)
        ensures
            cell@ == Seq::<(T, T)>::empty(),
    {
        MouseDelta { samples: Vec::new() }
    }

    /// Whether no motion waits.
    pub fn is_empty(&self) -> (empty: bool)
        ensures
            empty == (self@.len() == 0),
    {
        self.samples.len() == 0
    }

    /// The mouse moved by `dx` and `dy`.
    pub fn accumulate(&mut self, dx: T, dy: T)
        ensures
            final(self)@ == old(self)@.push((dx, dy)),
    {
        self.samples.push((dx, dy));
    }

    /// The render thread's read: hands out every sample that arrived
    /// since the last read, oldest first, and leaves the cell empty.
    pub fn take(&mut self) -> (samples: Vec<(T, T)>)
        ensures
            samples@ == old(self)@,
            final(self)@ == Seq::<(T, T)>::empty(),
    {
        let mut samples: Vec<(T, T)> = Vec::new();
        core::mem::swap(&mut samples, &mut self.samples);
        samples
    }
}

/// A run of samples joins the waiting ones at the end, in its own order.
pub proof fn lemma_samples_append<T>(waiting: Seq<(T, T)>, samples: Seq<(T, T)>)
    ensures
        after_samples(waiting, samples) == waiting + samples,
    decreases samples.len(),
{
    if samples.len() > 0 {
        lemma_samples_append(waiting, samples.drop_last());
        assert(samples == samples.drop_last().push(samples.last()));
        assert(waiting + samples == (waiting + samples.drop_last()).push(samples.last()));
    } else {
        assert(waiting + samples == waiting);
    }
}

/// What a read hands out is exactly what arrived since the read before
/// it: the earlier read left the cell empty, so the samples that wait at
/// the later one are those delivered in between, nothing lost and nothing
/// seen twice.
pub proof fn lemma_read_sees_motion_since_last_read<T>(samples: Seq<(T, T)>)
    ensures
        after_samples(Seq::<(T, T)>::empty(), samples) == samples,
{
    lemma_samples_append(Seq::<(T, T)>::empty(), samples);
    assert(Seq::<(T, T)>::empty() + samples == samples);
}

} // verus!

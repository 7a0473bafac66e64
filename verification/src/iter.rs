//! Iteration adaptors: consuming, single-pass sequences of rows.

use vstd::prelude::*;

use crate::frame::Frame;
use crate::frame::NilFrame;
use crate::hlist::HCons;
use crate::hlist::HNil;

verus! {

/// A finite, non-restartable sequence of rows.
///
/// The state is modelled by [`RowIterator::remaining`], the rows not yet
/// yielded: each [`RowIterator::next`] yields the first remaining row, and
/// once nothing remains every later call yields nothing.
pub trait RowIterator: Sized {
    /// The type of the rows yielded.
    type Item;

    /// The adaptor's invariant, established by [`Frame::into_iter`] and
    /// preserved by [`RowIterator::next`].
    spec fn inv(&self) -> bool;

    /// The rows not yet yielded, in the order they will be yielded.
    spec fn remaining(&self) -> Seq<Self::Item>;

    /// Yields the first remaining row and drops it from the remainder, or
    /// yields nothing once the sequence is exhausted.
    fn next(&mut self) -> (r: Option<Self::Item>)
        requires
            old(self).inv(),
        ensures
            final(self).inv(),
            old(self).remaining().len() > 0 ==> r == Some(old(self).remaining()[0])
                && final(self).remaining() == old(self).remaining().drop_first(),
            old(self).remaining().len() == 0 ==> r == None::<Self::Item>
                && final(self).remaining() == old(self).remaining(),
    ;
}

/// The adaptor of the zero-field schema's frame: yields one empty row per
/// record counted by the frame.
#[derive(Clone, Copy, Debug, PartialEq)]
pub struct HNilIterator {
    /// The next position to yield.
    pub index: usize,
    /// The consumed frame.
    pub frame: NilFrame,
}

impl RowIterator for HNilIterator {
    type Item = HNil;

    open spec fn inv(&self) -> bool {
        self.index <= self.frame.len
    }

    open spec fn remaining(&self) -> Seq<HNil> {
        self.frame.rows().skip(self.index as int)
    }

    fn next(&mut self) -> (r: Option<HNil>) {
        if self.index < self.frame.len {
            self.index = self.index + 1;
            proof {
                assert(self.remaining() =~= old(self).remaining().drop_first());
            }
            Some(HNil)
        } else {
            None
        }
    }
}

/// The adaptor of a nonempty schema's frame: remembers the consumed frame
/// and the next position to read, and yields `row(0), row(1), ...` until the
/// first absent position.
pub struct HConsIterator<F: Frame> {
    /// The next position to yield.
    pub index: usize,
    /// The consumed frame.
    pub frame: F,
}

impl<F: Frame> RowIterator for HConsIterator<F> {
    type Item = F::MyRow;

    open spec fn inv(&self) -> bool {
        &&& self.frame.wf()
        &&& self.index <= self.frame.rows().len()
        &&& self.frame.rows().len() <= usize::MAX
    }

    open spec fn remaining(&self) -> Seq<F::MyRow> {
        self.frame.rows().skip(self.index as int)
    }

    fn next(&mut self) -> (r: Option<F::MyRow>) {
        let r = self.frame.row(self.index);
        match r {
            Some(row) => {
                self.index = self.index + 1;
                proof {
                    assert(self.remaining() =~= old(self).remaining().drop_first());
                }
                Some(row)
            },
            None => None,
        }
    }
}

/// Conversion of an owned frame into its iteration adaptor.
///
/// This stands beside [`Frame`] rather than in it so that the adaptor types,
/// which themselves hold a frame, can be named without circularity.
pub trait IntoRowIterator: Frame {
    /// The adaptor type this frame converts into.
    type Iter: RowIterator<Item = Self::MyRow>;

    /// Consumes the frame into an adaptor that yields the stored rows in
    /// increasing position order, then terminates.
    fn into_iter(self) -> (it: Self::Iter)
        requires
            self.wf(),
        ensures
            it.inv(),
            it.remaining() == self.rows(),
    ;
}

impl IntoRowIterator for NilFrame {
    type Iter = HNilIterator;

    fn into_iter(self) -> (it: HNilIterator) {
        HNilIterator { index: 0, frame: self }
    }
}

impl<H: Copy, T: Frame> IntoRowIterator for HCons<Vec<H>, T> {
    type Iter = HConsIterator<Self>;

    fn into_iter(self) -> (it: HConsIterator<Self>) {
        let count: usize = self.head.len();
        proof {
            assert(self.rows().len() == count as nat);
        }
        HConsIterator { index: 0, frame: self }
    }
}

/// Materializes every row an adaptor has left, in order, by calling
/// [`RowIterator::next`] until the adaptor terminates.
pub fn collect_rows<I: RowIterator>(iter: I) -> (rows: Vec<I::Item>)
    requires
        iter.inv(),
    ensures
        rows@ == iter.remaining(),
{
    let ghost orig = iter;
    let mut it = iter;
    let mut rows: Vec<I::Item> = Vec::new();
    loop
        invariant
            it.inv(),
            rows@ + it.remaining() =~= orig.remaining(),
        ensures
            it.remaining().len() == 0,
            rows@ + it.remaining() =~= orig.remaining(),
        decreases it.remaining().len(),
    {
        match it.next() {
            Some(row) => {
                rows.push(row);
            },
            None => {
                break;
            },
        }
    }
    proof {
        assert(rows@ =~= orig.remaining());
    }
    rows
}

/// Consumes a frame and materializes every stored row, in push order: the
/// collection form of iterating the frame to exhaustion.
pub fn frame_to_rows<F: IntoRowIterator>(frame: F) -> (rows: Vec<F::MyRow>)
    requires
        frame.wf(),
    ensures
        rows@ == frame.rows(),
{
    collect_rows(frame.into_iter())
}

} // verus!

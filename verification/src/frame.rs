//! Frames: columnar storage, one length-synchronized column per field.

use vstd::prelude::*;

use crate::hlist::HCons;
use crate::hlist::HNil;

verus! {

/// The row stored at `index` of a frame whose stored rows are `rows`:
/// present exactly when `index` is within bounds.
pub open spec fn row_at<R>(rows: Seq<R>, index: int) -> Option<R> {
    if 0 <= index < rows.len() {
        Some(rows[index])
    } else {
        None
    }
}

/// Columnar storage for rows of one schema.
///
/// A frame is modelled by the sequence [`Frame::rows`] of rows it stores.
/// Its structural invariant [`Frame::wf`] — every column has the same
/// length — is established by [`crate::row::Row::new_frame`] and preserved
/// by [`Frame::push`].
pub trait Frame: Sized {
    /// The row type whose records this frame stores.
    type MyRow;

    /// Well-formedness: every column holds exactly one entry per stored row.
    spec fn wf(&self) -> bool;

    /// The stored rows, in the order they were pushed.
    spec fn rows(&self) -> Seq<Self::MyRow>;

    /// Appends one row: every column grows by exactly one entry, and the new
    /// last row equals `row`.
    fn push(&mut self, row: Self::MyRow)
        requires
            old(self).wf(),
            old(self).rows().len() < usize::MAX,
        ensures
            final(self).wf(),
            final(self).rows() == old(self).rows().push(row),
    ;

    /// Reads the row at a zero-based position: `Some` of the stored row when
    /// `index` is in bounds of the common column length, `None` otherwise.
    fn row(&self, index: usize) -> (r: Option<Self::MyRow>)
        requires
            self.wf(),
        ensures
            r == row_at(self.rows(), index as int),
    ;
}

/// The frame of the zero-field schema.
///
/// It has no columns, so it carries an explicit record counter: that is what
/// lets its `row` correctly report absence for out-of-range positions, which
/// a bare column-less terminator could not.
#[derive(Clone, Copy, Debug, PartialEq)]
pub struct NilFrame {
    /// How many (empty) records have been pushed.
    pub len: usize,
}

impl Frame for NilFrame {
    type MyRow = HNil;

    open spec fn wf(&self) -> bool {
        true
    }

    open spec fn rows(&self) -> Seq<HNil> {
        Seq::new(self.len as nat, |i: int| HNil)
    }

    fn push(&mut self, row: HNil) {
        self.len = self.len + 1;
        proof {
            assert(self.rows() =~= old(self).rows().push(row));
        }
    }

    fn row(&self, index: usize) -> (r: Option<HNil>) {
        if index < self.len {
            Some(HNil)
        } else {
            None
        }
    }
}

/// The frame of a nonempty schema: a column of the head field type
/// prepended to the frame of the tail schema.
///
/// Well-formedness ties the two together: the head column has exactly one
/// entry per row stored in the tail frame, recursively, so all columns share
/// one common length — the frame's logical record count.
impl<H: Copy, T: Frame> Frame for HCons<Vec<H>, T> {
    type MyRow = HCons<H, T::MyRow>;

    open spec fn wf(&self) -> bool {
        &&& self.head@.len() == self.tail.rows().len()
        &&& self.tail.wf()
    }

    open spec fn rows(&self) -> Seq<HCons<H, T::MyRow>> {
        Seq::new(
            self.head@.len(),
            |i: int| HCons { head: self.head@[i], tail: self.tail.rows()[i] },
        )
    }

    fn push(&mut self, row: HCons<H, T::MyRow>) {
        let HCons { head, tail } = row;
        self.head.push(head);
        self.tail.push(tail);
        proof {
            assert(self.rows() =~= old(self).rows().push(row));
        }
    }

    fn row(&self, index: usize) -> (r: Option<HCons<H, T::MyRow>>) {
        if index < self.head.len() {
            let head: H = self.head[index];
            let tail: T::MyRow = self.tail.row(index).unwrap();
            Some(HCons { head, tail })
        } else {
            None
        }
    }
}

} // verus!

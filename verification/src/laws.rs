//! The laws the row/frame pair obeys, stated and proved once for every
//! schema.
//!
//! Each law is phrased over the models that the executable contracts speak
//! of — [`Frame::rows`], [`Frame::wf`], [`row_at`] and the adaptor's
//! remainder — so together with those contracts it pins down the behavior
//! of whole call sequences.

use vstd::prelude::*;

use crate::frame::Frame;
use crate::frame::row_at;
use crate::hlist::HCons;

verus! {

/// Round trip.  Pushing rows `pushed[0], ..., pushed[k - 1]` in order onto
/// a fresh frame stores exactly that sequence (by `new_frame`'s and `push`'s
/// contracts), and then `row(i)` returns `pushed[i]` for every `i < k` while
/// `row(k)` reports absence.
pub proof fn lemma_round_trip<F: Frame>(f: F, pushed: Seq<F::MyRow>, i: int)
    requires
        f.wf(),
        f.rows() == pushed,
        0 <= i < pushed.len(),
    ensures
        row_at(f.rows(), i) == Some(pushed[i]),
        row_at(f.rows(), pushed.len() as int) == None::<F::MyRow>,
{
}

/// Length invariant.  A fresh frame is well-formed with no rows, and `push`
/// keeps well-formedness while growing the stored sequence by one, so after
/// `k` pushes `rows()` has length `k` — and in a well-formed nonempty-schema
/// frame the head column, and recursively every column of the tail frame,
/// holds exactly `rows().len()` entries.
pub proof fn lemma_columns_synchronized<H: Copy, T: Frame>(f: HCons<Vec<H>, T>)
    requires
        f.wf(),
    ensures
        f.head@.len() == f.rows().len(),
        f.tail.wf(),
        f.tail.rows().len() == f.rows().len(),
{
}

/// Iteration completeness.  A fresh adaptor over a frame with `k` stored
/// rows has all `k` remaining; after `j` calls of `next` exactly
/// `rows.skip(j)` remains, so the `j`-th call yields `rows[j]` while
/// `j < k`, and the adaptor terminates once nothing remains.
pub proof fn lemma_iteration_complete<R>(rows: Seq<R>, j: int)
    requires
        0 <= j <= rows.len(),
    ensures
        rows.skip(0) == rows,
        j < rows.len() ==> rows.skip(j)[0] == rows[j],
        j < rows.len() ==> rows.skip(j).drop_first() == rows.skip(j + 1),
        rows.skip(rows.len() as int).len() == 0,
{
    assert(rows.skip(0) =~= rows);
    if j < rows.len() {
        assert(rows.skip(j).drop_first() =~= rows.skip(j + 1));
    }
}

/// Empty frame.  A frame that stores no rows — as a fresh one does, by
/// `new_frame`'s contract — reports `row(0)` as absent, and its adaptor has
/// nothing remaining, so iteration yields no rows.
pub proof fn lemma_empty_frame<F: Frame>(f: F)
    requires
        f.wf(),
        f.rows() == Seq::<F::MyRow>::empty(),
    ensures
        row_at(f.rows(), 0) == None::<F::MyRow>,
        f.rows().len() == 0,
{
}

/// Idempotent reads.  `row`'s result is a function of the stored sequence
/// and the index alone, so two reads of the same position with no push in
/// between return equal rows; and since `row` borrows the frame immutably,
/// a read changes nothing a later `row` or `push` can observe.
pub proof fn lemma_row_deterministic<R>(rows: Seq<R>, i: int, first: Option<R>, second: Option<R>)
    requires
        first == row_at(rows, i),
        second == row_at(rows, i),
    ensures
        first == second,
{
}

} // verus!

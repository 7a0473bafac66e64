//! Rows: one heterogeneous record, and the schema-indexed frame constructor.

use vstd::prelude::*;

use crate::frame::Frame;
use crate::frame::NilFrame;
use crate::hlist::HCons;
use crate::hlist::HNil;

verus! {

/// One record of a schema, tied to the columnar storage form of that schema.
///
/// The association is structural: the empty row's frame is [`NilFrame`], and
/// the frame of "a field of type `H` prepended to a smaller row" is "a
/// column of `H` prepended to the smaller row's frame".  A frame therefore
/// stores exactly the rows of its own schema, with no runtime check.
pub trait Row: Sized {
    /// The frame type that stores records of this row's schema.
    type MyFrame: Frame<MyRow = Self>;

    /// Builds the empty frame of this row's schema: well-formed, with every
    /// column empty.
    fn new_frame() -> (f: Self::MyFrame)
        ensures
            f.wf(),
            f.rows() == Seq::<Self>::empty(),
    ;
}

impl Row for HNil {
    type MyFrame = NilFrame;

    fn new_frame() -> (f: NilFrame) {
        let f = NilFrame { len: 0 };
        proof {
            assert(f.rows() =~= Seq::<HNil>::empty());
        }
        f
    }
}

impl<H: Copy, T: Row> Row for HCons<H, T> {
    type MyFrame = HCons<Vec<H>, T::MyFrame>;

    fn new_frame() -> (f: Self::MyFrame) {
        let f = HCons { head: Vec::<H>::new(), tail: T::new_frame() };
        proof {
            assert(f.rows() =~= Seq::<HCons<H, T>>::empty());
        }
        f
    }
}

} // verus!

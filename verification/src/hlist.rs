//! The recursive heterogeneous list that encodes a schema and its rows.
//!
//! A row for the empty schema is [`HNil`]; a row for "field of type `H`
//! followed by the rest of the schema" is [`HCons<H, T>`] where `T` is the
//! row type of the rest.  The same two constructors, applied to columns
//! instead of single values, build the frame types (see [`crate::frame`]).

use vstd::prelude::*;

verus! {

/// The empty heterogeneous list: the row of the zero-field schema, and the
/// terminator of every longer row type.
#[derive(Clone, Copy, Debug, PartialEq)]
pub struct HNil;

/// One value of type `H` prepended to the rest of a heterogeneous list `T`.
///
/// As a row, `head` is the record's first field and `tail` the remaining
/// fields; as a frame, `head` is the first column and `tail` the frame of
/// the remaining columns.
#[derive(Clone, Copy, Debug, PartialEq)]
pub struct HCons<H, T> {
    /// The first element.
    pub head: H,
    /// The remaining elements.
    pub tail: T,
}

} // verus!

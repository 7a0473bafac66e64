//! Columnar storage for fixed-schema, heterogeneously-typed records.
//!
//! A schema is encoded as a recursive heterogeneous list: either the empty
//! schema, or one field type prepended to a smaller schema.  Every schema has
//! two dual value forms, linked one-to-one by construction:
//!
//! * a [`hlist::HCons`] / [`hlist::HNil`] *row* — one record, holding one
//!   value per field, in schema order; and
//! * a *frame* — one growable column per field, all columns kept the same
//!   length, holding one entry per stored record.
//!
//! The [`row::Row`] trait maps each row type to its frame type; the
//! [`frame::Frame`] trait gives every frame `push`, `row` and `into_iter`,
//! defined by structural recursion on the schema.

pub mod frame;
pub mod hlist;
pub mod iter;
pub mod laws;
pub mod row;

pub use frame::Frame;
pub use frame::NilFrame;
pub use frame::row_at;
pub use hlist::HCons;
pub use hlist::HNil;
pub use iter::HConsIterator;
pub use iter::HNilIterator;
pub use iter::IntoRowIterator;
pub use iter::RowIterator;
pub use iter::collect_rows;
pub use iter::frame_to_rows;
pub use row::Row;

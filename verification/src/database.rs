//! The backend capability bundle: each database backend implements
//! [`Database`] once, and all generic code is written against it.

use vstd::prelude::*;

verus! {

/// A database backend, described by the concrete types its driver uses.
///
/// The two spec functions give every backend's argument accumulator a
/// uniform mathematical model: a sequence of appended segments (raw bytes
/// for a wire protocol, typed values for an embedded engine) plus the
/// sequence of declared parameter descriptors.
pub trait Database: Sized {
    /// Descriptor identifying a backend column/value type.
    type TypeInfo: View;

    /// Accumulator for the encoded bind parameters of one execution.
    type Arguments;

    /// The unit a single value encodes to in `Arguments`.
    type Segment;

    /// The sequence of segments accumulated in `args` so far.
    spec fn segments(args: Self::Arguments) -> Seq<Self::Segment>;

    /// The declared parameter descriptors accumulated in `args` so far.
    spec fn parameter_types(args: Self::Arguments) -> Seq<<Self::TypeInfo as View>::V>;
}

/// Associates a backend with its borrowed value type for one row
/// lifetime `'r`.
pub trait HasValueRef<'r>: Database {
    /// A borrowed view of one column value, valid while the row or
    /// buffer it borrows from is alive.
    type ValueRef: View;
}

/// The wire-protocol SQL server backend.
pub struct Postgres;

/// The embedded, linked SQL engine backend.
pub struct Sqlite;

} // verus!

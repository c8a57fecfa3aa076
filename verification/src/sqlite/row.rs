//! Rows produced by the embedded engine.
//!
//! A row is created referencing the *current* state of its statement —
//! zero copy. The statement keeps a materialization slot for the last
//! row it yielded; before the statement is advanced again the slot is
//! filled with owned copies ("inflation") exactly when the row is still
//! alive, so a retained row is never invalidated by a later step.

use vstd::prelude::*;
use crate::sqlite::statement::StatementHandle;
use crate::sqlite::value::SqliteValueModel;

verus! {

/// One result record of the embedded engine.
///
/// The row remembers which materialization slot of its statement it
/// owns, and — as ghost state — the values it held at creation. Reads
/// through [`StatementHandle::row_value`] always return exactly those
/// values, whether they still sit in the live statement buffers or in
/// the inflated slot.
pub struct SqliteRow {
    /// The index of this row's materialization slot in its statement.
    pub slot: usize,
    /// The number of columns.
    pub size: usize,
    /// The column values at the moment the row was yielded.
    pub snapshot: Ghost<Seq<SqliteValueModel>>,
}

impl SqliteRow {
    /// Whether this row belongs to `stmt` and has not been dropped:
    /// its slot exists, is live, and carries the row's own snapshot.
    pub open spec fn valid_for(self, stmt: StatementHandle) -> bool {
        &&& (self.slot as int) < stmt.slots@.len()
        &&& !stmt.slots@[self.slot as int].dropped
        &&& stmt.slots@[self.slot as int].snapshot@ == self.snapshot@
        &&& self.size == self.snapshot@.len()
    }

    /// The number of columns in this row.
    pub fn len(&self) -> (r: usize)
        ensures
            r == self.size,
    {
        self.size
    }
}

} // verus!

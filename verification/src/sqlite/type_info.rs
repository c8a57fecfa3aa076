//! Type descriptors for the embedded engine: a fixed enumerated kind.

use vstd::prelude::*;

verus! {

/// The storage class of an embedded-engine value.
#[derive(Clone, Copy, Debug, PartialEq, Eq, Structural)]
pub enum SqliteType {
    Null,
    Bool,
    Int,
    Int64,
    Double,
    Text,
    Blob,
}

/// Type information for an embedded-engine column or value.
#[derive(Clone, Copy, Debug, PartialEq, Eq, Structural)]
pub struct SqliteTypeInfo {
    pub kind: SqliteType,
}

impl View for SqliteTypeInfo {
    type V = SqliteTypeInfo;

    open spec fn view(&self) -> SqliteTypeInfo {
        *self
    }
}

impl SqliteTypeInfo {
    /// The descriptor with the given storage class.
    pub fn of(kind: SqliteType) -> (r: Self)
        ensures
            r.kind == kind,
    {
        SqliteTypeInfo { kind }
    }
}

} // verus!

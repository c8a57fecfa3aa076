//! Host types that can appear as query parameters or results.

use vstd::prelude::*;
use crate::database::Database;

verus! {

/// A host type with a default backend type descriptor.
pub trait Type<DB: Database> {
    /// The descriptor this host type produces by default.
    spec fn type_info_spec() -> <DB::TypeInfo as View>::V;

    /// Returns the descriptor this host type produces by default.
    fn type_info() -> (r: DB::TypeInfo)
        ensures
            r@ == Self::type_info_spec(),
    ;
}

/// A transparent wrapper marking a value as JSON for backends that
/// distinguish JSON columns.
#[derive(Copy, Clone, Debug, PartialEq, Eq, PartialOrd, Ord, Hash, Default)]
pub struct Json<T>(pub T);

impl<T> Json<T> {
    /// Borrows the wrapped value.
    pub fn as_ref(&self) -> (r: &T)
        ensures
            r == self.0,
    {
        &self.0
    }

    /// Unwraps the value.
    pub fn into_inner(self) -> (r: T)
        ensures
            r == self.0,
    {
        self.0
    }
}

} // verus!

//! Encoding of host values into backend argument buffers.

use vstd::prelude::*;
use crate::database::Database;
use crate::types::Type;

verus! {

/// The return type of [`Encode::encode`].
#[derive(Clone, Copy, Debug, PartialEq, Eq, Structural)]
pub enum IsNull {
    /// The value is null; no data was written.
    Yes,

    /// The value is not null.
    ///
    /// This does not mean that data was written.
    No,
}

/// A host value that can be encoded into a backend's argument buffer.
///
/// The contract of [`Encode::encode`] is the hard invariant the argument
/// encoders rely on: a value that denotes SQL NULL appends nothing, and
/// any other value appends exactly its own segments, leaving the declared
/// parameter descriptors untouched.
pub trait Encode<DB: Database>: Type<DB> + Sized {
    /// Whether this value denotes SQL NULL.
    spec fn is_null_spec(&self) -> bool;

    /// The segments this value appends when it is not NULL.
    spec fn encode_units(&self) -> Seq<DB::Segment>;

    /// The descriptor sent alongside this value; by default the host
    /// type's own, overridden when runtime information determines the
    /// wire type.
    spec fn produces_spec(&self) -> <DB::TypeInfo as View>::V;

    /// Returns the descriptor to send alongside this value.
    fn produces(&self) -> (r: DB::TypeInfo)
        ensures
            r@ == self.produces_spec(),
    ;

    /// Appends the value of `self` to `buf` in the backend's format and
    /// reports whether the value denotes SQL NULL.
    fn encode(self, buf: &mut DB::Arguments) -> (r: IsNull)
        ensures
            DB::parameter_types(*final(buf)) == DB::parameter_types(*old(buf)),
            (r is Yes) == self.is_null_spec(),
            self.is_null_spec() ==> DB::segments(*final(buf)) == DB::segments(*old(buf)),
            !self.is_null_spec() ==> DB::segments(*final(buf)) == DB::segments(*old(buf))
                + self.encode_units(),
    ;

    /// A hint for pre-allocating encoding space; zero when unknown.
    fn size_hint(&self) -> usize {
        0
    }
}

impl<DB: Database, T: Type<DB>> Type<DB> for Option<T> {
    open spec fn type_info_spec() -> <DB::TypeInfo as View>::V {
        T::type_info_spec()
    }

    fn type_info() -> (r: DB::TypeInfo) {
        T::type_info()
    }
}

impl<DB: Database, T: Encode<DB>> Encode<DB> for Option<T> {
    open spec fn is_null_spec(&self) -> bool {
        self is None
    }

    open spec fn encode_units(&self) -> Seq<DB::Segment> {
        match self {
            Some(v) => if v.is_null_spec() {
                Seq::empty()
            } else {
                v.encode_units()
            },
            None => Seq::empty(),
        }
    }

    open spec fn produces_spec(&self) -> <DB::TypeInfo as View>::V {
        match self {
            Some(v) => v.produces_spec(),
            None => T::type_info_spec(),
        }
    }

    fn produces(&self) -> (r: DB::TypeInfo) {
        match self {
            Some(v) => v.produces(),
            None => T::type_info(),
        }
    }

    fn encode(self, buf: &mut DB::Arguments) -> (r: IsNull) {
        match self {
            Some(v) => {
                let _ = v.encode(buf);
                IsNull::No
            },
            None => IsNull::Yes,
        }
    }
}

} // verus!

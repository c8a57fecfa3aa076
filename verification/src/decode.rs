//! Decoding of backend values into host values.

use vstd::prelude::*;
use crate::database::HasValueRef;
use crate::types::Type;

verus! {

/// An unexpected `NULL` was encountered during decoding.
///
/// Returned when the value from the database is `NULL` and the caller is
/// not decoding into an `Option`.
#[derive(Clone, Copy, Debug, PartialEq, Eq, Structural)]
pub struct UnexpectedNullError;

impl UnexpectedNullError {
    /// A human-readable description of this error.
    pub fn message(&self) -> (r: &'static str)
        ensures
            r@ =~= "unexpected null; try decoding as an `Option`"@,
    {
        "unexpected null; try decoding as an `Option`"
    }
}

/// Why a column value could not be decoded into the requested host type.
#[derive(Clone, Copy, Debug, PartialEq, Eq, Structural)]
pub enum DecodeError {
    /// The value was SQL `NULL` and the host type is not an `Option`.
    UnexpectedNull(UnexpectedNullError),
    /// The raw bytes are not valid UTF-8 but text was requested.
    InvalidUtf8,
    /// The raw bytes are not a valid boolean for the backend's encoding.
    InvalidBool,
    /// The raw bytes are not a valid integer for the backend's encoding.
    InvalidInt,
    /// The value's type descriptor is not accepted by the requested host type.
    TypeMismatch,
}

impl DecodeError {
    /// A human-readable description of this error.
    pub fn message(&self) -> (r: &'static str)
        ensures
            *self is UnexpectedNull ==> r@ == "unexpected null; try decoding as an `Option`"@,
            *self is InvalidUtf8 ==> r@ == "invalid UTF-8 in a text value"@,
            *self is InvalidBool ==> r@ == "unexpected value for boolean"@,
            *self is InvalidInt ==> r@ == "unexpected value for integer"@,
            *self is TypeMismatch ==> r@ == "type descriptor not accepted by the requested type"@,
    {
        match self {
            DecodeError::UnexpectedNull(e) => e.message(),
            DecodeError::InvalidUtf8 => "invalid UTF-8 in a text value",
            DecodeError::InvalidBool => "unexpected value for boolean",
            DecodeError::InvalidInt => "unexpected value for integer",
            DecodeError::TypeMismatch => "type descriptor not accepted by the requested type",
        }
    }
}

/// A host type that can be decoded from a backend value.
///
/// The contract of [`Decode::decode`] pins the result exactly: the three
/// spec functions say on which value models decoding succeeds, what the
/// decoded host value then is, and which error is returned otherwise.
pub trait Decode<'r, DB: HasValueRef<'r>>: Type<DB> + Sized {
    /// Whether a value with descriptor `info` can be decoded into this
    /// type; by default backends use structural descriptor equality,
    /// widened where several descriptors are mutually acceptable.
    spec fn accepts_spec(info: <DB::TypeInfo as View>::V) -> bool;

    /// Determines if a value of this type can be created from a value
    /// with the given type information.
    fn accepts(info: &DB::TypeInfo) -> (r: bool)
        ensures
            r == Self::accepts_spec(info@),
    ;

    /// On which value models decoding succeeds.
    spec fn decode_ok(v: <DB::ValueRef as View>::V) -> bool;

    /// The exact relation between a decodable value model and the host
    /// value decoded from it.
    spec fn decoded(v: <DB::ValueRef as View>::V, r: Self) -> bool;

    /// The error reported for a model that does not decode.
    spec fn decode_err(v: <DB::ValueRef as View>::V) -> DecodeError;

    /// Decode a new value of this type using a raw value from the
    /// database.
    fn decode(value: DB::ValueRef) -> (r: Result<Self, DecodeError>)
        ensures
            Self::decode_ok(value@) ==> (r matches Ok(x) && Self::decoded(value@, x)),
            !Self::decode_ok(value@) ==> r == Err::<Self, DecodeError>(Self::decode_err(value@)),
    ;
}

/// Relies on `core::str::from_utf8`: it succeeds exactly on valid UTF-8
/// input and returns the string whose bytes are the input.
#[verifier::external_body]
pub(crate) fn utf8_from_bytes<'a>(b: &'a [u8]) -> (r: Option<&'a str>)
    ensures
        r is Some <==> vstd::utf8::valid_utf8(b@),
        r matches Some(s) ==> s@ == vstd::utf8::decode_utf8(b@),
        r matches Some(s) ==> vstd::string::StringSliceAdditionalSpecFns::spec_bytes(s) == b@,
{
    core::str::from_utf8(b).ok()
}

} // verus!

//! Owned and borrowed column values for the wire-protocol backend.

use vstd::prelude::*;
use crate::decode::{utf8_from_bytes, DecodeError, UnexpectedNullError};
use crate::postgres::type_info::{PgTypeInfo, PgTypeInfoModel};

verus! {

/// The encoding a wire-protocol value arrives in.
#[derive(Clone, Copy, Debug, PartialEq, Eq, Structural)]
pub enum PgValueFormat {
    /// Human-readable text encoding.
    Text,
    /// Binary wire encoding.
    Binary,
}

/// Mathematical model shared by [`PgValue`] and [`PgValueRef`]: the raw
/// bytes (absent for SQL NULL), the type descriptor, and the encoding.
#[verifier::ext_equal]
pub struct PgValueModel {
    pub bytes: Option<Seq<u8>>,
    pub type_info: PgTypeInfoModel,
    pub format: PgValueFormat,
}

/// A borrowed view of one wire-protocol column value, valid only for the
/// lifetime of the row or buffer it borrows from.
pub struct PgValueRef<'r> {
    pub value: Option<&'r Vec<u8>>,
    pub type_info: PgTypeInfo,
    pub format: PgValueFormat,
}

/// An owned wire-protocol column value; outlives its originating row.
pub struct PgValue {
    pub value: Option<Vec<u8>>,
    pub type_info: PgTypeInfo,
    pub format: PgValueFormat,
}

impl<'r> View for PgValueRef<'r> {
    type V = PgValueModel;

    open spec fn view(&self) -> PgValueModel {
        PgValueModel {
            bytes: match self.value {
                Some(b) => Some(b@),
                None => None,
            },
            type_info: self.type_info@,
            format: self.format,
        }
    }
}

impl View for PgValue {
    type V = PgValueModel;

    open spec fn view(&self) -> PgValueModel {
        PgValueModel {
            bytes: match self.value {
                Some(b) => Some(b@),
                None => None,
            },
            type_info: self.type_info@,
            format: self.format,
        }
    }
}

impl<'r> PgValueRef<'r> {
    /// The encoding this value arrived in.
    pub fn format(&self) -> (r: PgValueFormat)
        ensures
            r == self@.format,
    {
        self.format
    }

    /// Whether this value is SQL NULL.
    pub fn is_null(&self) -> (r: bool)
        ensures
            r == (self@.bytes is None),
    {
        self.value.is_none()
    }

    /// The raw bytes of this value, or the unexpected-null error for a
    /// SQL NULL.
    pub fn as_bytes(&self) -> (r: Result<&'r Vec<u8>, DecodeError>)
        ensures
            self@.bytes matches Some(b) ==> (r matches Ok(v) && v@ == b),
            self@.bytes is None ==> r == Err::<&'r Vec<u8>, DecodeError>(
                DecodeError::UnexpectedNull(UnexpectedNullError),
            ),
    {
        match self.value {
            Some(v) => Ok(v),
            None => Err(DecodeError::UnexpectedNull(UnexpectedNullError)),
        }
    }

    /// The bytes of this value decoded as UTF-8 text.
    pub fn as_str(&self) -> (r: Result<&'r str, DecodeError>)
        ensures
            self@.bytes matches Some(b) ==> (vstd::utf8::valid_utf8(b) ==> (r matches Ok(s) && s@
                == vstd::utf8::decode_utf8(b))),
            self@.bytes matches Some(b) ==> (!vstd::utf8::valid_utf8(b) ==> r == Err::<
                &'r str,
                DecodeError,
            >(DecodeError::InvalidUtf8)),
            self@.bytes is None ==> r == Err::<&'r str, DecodeError>(
                DecodeError::UnexpectedNull(UnexpectedNullError),
            ),
    {
        match self.as_bytes() {
            Ok(b) => match utf8_from_bytes(b.as_slice()) {
                Some(s) => Ok(s),
                None => Err(DecodeError::InvalidUtf8),
            },
            Err(e) => Err(e),
        }
    }
}

impl PgValue {
    /// Borrows this owned value as a [`PgValueRef`].
    pub fn as_ref(&self) -> (r: PgValueRef<'_>)
        ensures
            r@ == self@,
    {
        PgValueRef {
            value: match &self.value {
                Some(v) => Some(v),
                None => None,
            },
            type_info: self.type_info.clone(),
            format: self.format,
        }
    }

    /// The type descriptor of this value.
    pub fn type_info(&self) -> (r: Option<&PgTypeInfo>)
        ensures
            r matches Some(t) && t@ == self@.type_info,
    {
        Some(&self.type_info)
    }
}

impl<'r> PgValueRef<'r> {
    /// Detaches this borrowed value into an owned copy.
    pub fn to_owned(&self) -> (r: PgValue)
        ensures
            r@ == self@,
    {
        let value = match self.value {
            Some(v) => Some(v.clone()),
            None => None,
        };
        let r = PgValue { value, format: self.format, type_info: self.type_info.clone() };
        proof {
            assert(r@.bytes == self@.bytes);
        }
        r
    }

    /// The type descriptor of this value.
    pub fn type_info(&self) -> (r: Option<&PgTypeInfo>)
        ensures
            r matches Some(t) && t@ == self@.type_info,
    {
        Some(&self.type_info)
    }
}

} // verus!

//! Owned and borrowed column values for the embedded engine.
//!
//! An owned [`SqliteValue`] models a protected copy of an engine value
//! object: it outlives the statement it was read from. Floating-point
//! values are carried as their raw bit patterns, so the value model
//! stays exact.

use vstd::prelude::*;
use crate::decode::{utf8_from_bytes, DecodeError};
use crate::sqlite::type_info::{SqliteType, SqliteTypeInfo};

verus! {

/// Mathematical model of one embedded-engine value.
pub enum SqliteValueModel {
    Null,
    Integer(i64),
    Real(u64),
    Text(Seq<u8>),
    Blob(Seq<u8>),
}

/// An owned embedded-engine value: a detached copy of one column value.
pub enum SqliteValue {
    /// SQL NULL.
    Null,
    /// A 64-bit integer.
    Integer(i64),
    /// A 64-bit float, carried as its bit pattern.
    Real(u64),
    /// Text, as its raw bytes.
    Text(Vec<u8>),
    /// A binary blob.
    Blob(Vec<u8>),
}

impl View for SqliteValue {
    type V = SqliteValueModel;

    open spec fn view(&self) -> SqliteValueModel {
        match self {
            SqliteValue::Null => SqliteValueModel::Null,
            SqliteValue::Integer(i) => SqliteValueModel::Integer(*i),
            SqliteValue::Real(b) => SqliteValueModel::Real(*b),
            SqliteValue::Text(b) => SqliteValueModel::Text(b@),
            SqliteValue::Blob(b) => SqliteValueModel::Blob(b@),
        }
    }
}

impl Clone for SqliteValue {
    fn clone(&self) -> (r: Self)
        ensures
            r@ == self@,
    {
        match self {
            SqliteValue::Null => SqliteValue::Null,
            SqliteValue::Integer(i) => SqliteValue::Integer(*i),
            SqliteValue::Real(b) => SqliteValue::Real(*b),
            SqliteValue::Text(b) => SqliteValue::Text(b.clone()),
            SqliteValue::Blob(b) => SqliteValue::Blob(b.clone()),
        }
    }
}

impl SqliteValue {
    /// Whether this value is SQL NULL.
    pub fn is_null(&self) -> (r: bool)
        ensures
            r == (self@ is Null),
    {
        matches!(self, SqliteValue::Null)
    }

    /// Whether this value has the integer storage class.
    pub fn is_integer(&self) -> (r: bool)
        ensures
            r == (self@ is Integer),
    {
        matches!(self, SqliteValue::Integer(_))
    }

    /// The storage class of this value.
    pub fn type_info(&self) -> (r: SqliteTypeInfo)
        ensures
            r.kind == spec_kind(self@),
    {
        SqliteTypeInfo {
            kind: match self {
                SqliteValue::Null => SqliteType::Null,
                SqliteValue::Integer(_) => SqliteType::Int64,
                SqliteValue::Real(_) => SqliteType::Double,
                SqliteValue::Text(_) => SqliteType::Text,
                SqliteValue::Blob(_) => SqliteType::Blob,
            },
        }
    }

    /// The integer value truncated to 32 bits; zero for any other
    /// storage class.
    pub fn int32(&self) -> (r: i32)
        ensures
            r == spec_int(self@),
    {
        match self {
            SqliteValue::Integer(i) => #[verifier::truncate] (*i as i32),
            _ => 0,
        }
    }

    /// The integer value; zero for any other storage class.
    pub fn int64(&self) -> (r: i64)
        ensures
            r == spec_int64(self@),
    {
        match self {
            SqliteValue::Integer(i) => *i,
            _ => 0,
        }
    }

    /// The bit pattern of the float value; zero bits for any other
    /// storage class.
    pub fn double_bits(&self) -> (r: u64)
        ensures
            r == spec_double_bits(self@),
    {
        match self {
            SqliteValue::Real(b) => *b,
            _ => 0,
        }
    }

    /// The raw bytes of a text or blob value.
    pub fn blob(&self) -> (r: Option<&Vec<u8>>)
        ensures
            match spec_bytes(self@) {
                Some(b) => r matches Some(v) && v@ == b,
                None => r is None,
            },
    {
        match self {
            SqliteValue::Text(b) => Some(b),
            SqliteValue::Blob(b) => Some(b),
            _ => None,
        }
    }
}

/// The storage class of a value model.
pub open spec fn spec_kind(v: SqliteValueModel) -> SqliteType {
    match v {
        SqliteValueModel::Null => SqliteType::Null,
        SqliteValueModel::Integer(_) => SqliteType::Int64,
        SqliteValueModel::Real(_) => SqliteType::Double,
        SqliteValueModel::Text(_) => SqliteType::Text,
        SqliteValueModel::Blob(_) => SqliteType::Blob,
    }
}

/// The 32-bit reading of a value model.
pub open spec fn spec_int(v: SqliteValueModel) -> i32 {
    match v {
        SqliteValueModel::Integer(i) => i as i32,
        _ => 0i32,
    }
}

/// The 64-bit reading of a value model.
pub open spec fn spec_int64(v: SqliteValueModel) -> i64 {
    match v {
        SqliteValueModel::Integer(i) => i,
        _ => 0i64,
    }
}

/// The float bit pattern of a value model.
pub open spec fn spec_double_bits(v: SqliteValueModel) -> u64 {
    match v {
        SqliteValueModel::Real(b) => b,
        _ => 0u64,
    }
}

/// The raw bytes of a text or blob value model.
pub open spec fn spec_bytes(v: SqliteValueModel) -> Option<Seq<u8>> {
    match v {
        SqliteValueModel::Text(b) => Some(b),
        SqliteValueModel::Blob(b) => Some(b),
        _ => None,
    }
}

/// A borrowed view of one embedded-engine column value: either live
/// statement memory or an owned, inflated copy — transparently the
/// same to readers.
pub struct SqliteValueRef<'r> {
    pub value: &'r SqliteValue,
}

impl<'r> View for SqliteValueRef<'r> {
    type V = SqliteValueModel;

    open spec fn view(&self) -> SqliteValueModel {
        self.value@
    }
}

impl<'r> SqliteValueRef<'r> {
    /// Borrows an owned (inflated) value.
    pub fn value(value: &'r SqliteValue) -> (r: Self)
        ensures
            r@ == value@,
    {
        SqliteValueRef { value }
    }

    /// Whether this value is SQL NULL.
    pub fn is_null(&self) -> (r: bool)
        ensures
            r == (self@ is Null),
    {
        self.value.is_null()
    }

    /// Whether this value has the integer storage class.
    pub fn is_integer(&self) -> (r: bool)
        ensures
            r == (self@ is Integer),
    {
        self.value.is_integer()
    }

    /// The storage class of this value.
    pub fn type_info(&self) -> (r: SqliteTypeInfo)
        ensures
            r.kind == spec_kind(self@),
    {
        self.value.type_info()
    }

    /// The integer value truncated to 32 bits.
    pub fn int32(&self) -> (r: i32)
        ensures
            r == spec_int(self@),
    {
        self.value.int32()
    }

    /// The integer value.
    pub fn int64(&self) -> (r: i64)
        ensures
            r == spec_int64(self@),
    {
        self.value.int64()
    }

    /// The bit pattern of the float value.
    pub fn double_bits(&self) -> (r: u64)
        ensures
            r == spec_double_bits(self@),
    {
        self.value.double_bits()
    }

    /// The raw bytes of a text or blob value.
    pub fn blob(&self) -> (r: Option<&'r Vec<u8>>)
        ensures
            match spec_bytes(self@) {
                Some(b) => r matches Some(v) && v@ == b,
                None => r is None,
            },
    {
        self.value.blob()
    }

    /// The bytes of a text or blob value decoded as UTF-8.
    pub fn text(&self) -> (r: Result<&'r str, DecodeError>)
        ensures
            match spec_bytes(self@) {
                Some(b) => {
                    &&& vstd::utf8::valid_utf8(b) ==> (r matches Ok(s) && s@
                        == vstd::utf8::decode_utf8(b))
                    &&& !vstd::utf8::valid_utf8(b) ==> r == Err::<&'r str, DecodeError>(
                        DecodeError::InvalidUtf8,
                    )
                },
                None => r == Err::<&'r str, DecodeError>(DecodeError::TypeMismatch),
            },
    {
        match self.blob() {
            Some(b) => match utf8_from_bytes(b.as_slice()) {
                Some(s) => Ok(s),
                None => Err(DecodeError::InvalidUtf8),
            },
            None => Err(DecodeError::TypeMismatch),
        }
    }

    /// Detaches this borrowed value into an owned copy.
    pub fn to_owned(&self) -> (r: SqliteValue)
        ensures
            r@ == self@,
    {
        self.value.clone()
    }
}

} // verus!

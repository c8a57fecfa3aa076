//! Conversions between host types and embedded-engine values.
//!
//! Decoding a SQL NULL into a non-`Option` host type fails with the
//! dedicated unexpected-null error — it never silently coerces to a
//! default value.

use vstd::prelude::*;
use crate::database::Sqlite;
use crate::decode::{Decode, DecodeError, UnexpectedNullError};
use crate::encode::{Encode, IsNull};
use crate::sqlite::arguments::{SqliteArgumentModel, SqliteArgumentValue, SqliteArguments};
use crate::sqlite::type_info::{SqliteType, SqliteTypeInfo};
use crate::sqlite::value::{
    spec_bytes, spec_int, spec_int64, SqliteValueModel, SqliteValueRef,
};
use crate::types::Type;

verus! {

/// The error a mismatched embedded-engine value decodes to: an absent
/// value is the unexpected-null error, any other storage class the
/// mismatch error.
pub open spec fn sqlite_decode_err(v: SqliteValueModel) -> DecodeError {
    if v is Null {
        DecodeError::UnexpectedNull(UnexpectedNullError)
    } else {
        DecodeError::TypeMismatch
    }
}

impl Type<Sqlite> for bool {
    open spec fn type_info_spec() -> SqliteTypeInfo {
        SqliteTypeInfo { kind: SqliteType::Bool }
    }

    fn type_info() -> (r: SqliteTypeInfo) {
        SqliteTypeInfo { kind: SqliteType::Bool }
    }
}

impl Encode<Sqlite> for bool {
    open spec fn is_null_spec(&self) -> bool {
        false
    }

    open spec fn encode_units(&self) -> Seq<SqliteArgumentModel> {
        seq![
            SqliteArgumentModel::Int(
                if *self {
                    1i32
                } else {
                    0i32
                },
            ),
        ]
    }

    open spec fn produces_spec(&self) -> SqliteTypeInfo {
        <bool as Type<Sqlite>>::type_info_spec()
    }

    fn produces(&self) -> (r: SqliteTypeInfo) {
        <bool as Type<Sqlite>>::type_info()
    }

    fn encode(self, buf: &mut SqliteArguments) -> (r: IsNull) {
        buf.values.push(
            SqliteArgumentValue::Int(
                if self {
                    1
                } else {
                    0
                },
            ),
        );
        assert(buf.values@.map_values(|v: SqliteArgumentValue| v@) =~= old(
            buf,
        ).values@.map_values(|v: SqliteArgumentValue| v@) + <bool as Encode<Sqlite>>::encode_units(&self));
        IsNull::No
    }
}

impl<'r> Decode<'r, Sqlite> for bool {
    open spec fn accepts_spec(info: SqliteTypeInfo) -> bool {
        // the integer storage classes are mutually acceptable
        info.kind is Bool || info.kind is Int || info.kind is Int64
    }

    fn accepts(info: &SqliteTypeInfo) -> (r: bool) {
        matches!(info.kind, SqliteType::Bool | SqliteType::Int | SqliteType::Int64)
    }

    open spec fn decode_ok(v: SqliteValueModel) -> bool {
        v is Integer
    }

    open spec fn decoded(v: SqliteValueModel, r: Self) -> bool {
        r == (spec_int(v) != 0)
    }

    open spec fn decode_err(v: SqliteValueModel) -> DecodeError {
        sqlite_decode_err(v)
    }

    fn decode(value: SqliteValueRef<'r>) -> (r: Result<Self, DecodeError>) {
        if value.is_null() {
            Err(DecodeError::UnexpectedNull(UnexpectedNullError))
        } else if !value.is_integer() {
            Err(DecodeError::TypeMismatch)
        } else {
            Ok(value.int32() != 0)
        }
    }
}

impl Type<Sqlite> for i32 {
    open spec fn type_info_spec() -> SqliteTypeInfo {
        SqliteTypeInfo { kind: SqliteType::Int }
    }

    fn type_info() -> (r: SqliteTypeInfo) {
        SqliteTypeInfo { kind: SqliteType::Int }
    }
}

impl Encode<Sqlite> for i32 {
    open spec fn is_null_spec(&self) -> bool {
        false
    }

    open spec fn encode_units(&self) -> Seq<SqliteArgumentModel> {
        seq![SqliteArgumentModel::Int(*self)]
    }

    open spec fn produces_spec(&self) -> SqliteTypeInfo {
        <i32 as Type<Sqlite>>::type_info_spec()
    }

    fn produces(&self) -> (r: SqliteTypeInfo) {
        <i32 as Type<Sqlite>>::type_info()
    }

    fn encode(self, buf: &mut SqliteArguments) -> (r: IsNull) {
        buf.values.push(SqliteArgumentValue::Int(self));
        assert(buf.values@.map_values(|v: SqliteArgumentValue| v@) =~= old(
            buf,
        ).values@.map_values(|v: SqliteArgumentValue| v@) + <i32 as Encode<Sqlite>>::encode_units(&self));
        IsNull::No
    }
}

impl<'r> Decode<'r, Sqlite> for i32 {
    open spec fn accepts_spec(info: SqliteTypeInfo) -> bool {
        // the integer storage classes are mutually acceptable
        info.kind is Bool || info.kind is Int || info.kind is Int64
    }

    fn accepts(info: &SqliteTypeInfo) -> (r: bool) {
        matches!(info.kind, SqliteType::Bool | SqliteType::Int | SqliteType::Int64)
    }

    open spec fn decode_ok(v: SqliteValueModel) -> bool {
        v is Integer
    }

    open spec fn decoded(v: SqliteValueModel, r: Self) -> bool {
        r == spec_int(v)
    }

    open spec fn decode_err(v: SqliteValueModel) -> DecodeError {
        sqlite_decode_err(v)
    }

    fn decode(value: SqliteValueRef<'r>) -> (r: Result<Self, DecodeError>) {
        if value.is_null() {
            Err(DecodeError::UnexpectedNull(UnexpectedNullError))
        } else if !value.is_integer() {
            Err(DecodeError::TypeMismatch)
        } else {
            Ok(value.int32())
        }
    }
}

impl Type<Sqlite> for i64 {
    open spec fn type_info_spec() -> SqliteTypeInfo {
        SqliteTypeInfo { kind: SqliteType::Int64 }
    }

    fn type_info() -> (r: SqliteTypeInfo) {
        SqliteTypeInfo { kind: SqliteType::Int64 }
    }
}

impl Encode<Sqlite> for i64 {
    open spec fn is_null_spec(&self) -> bool {
        false
    }

    open spec fn encode_units(&self) -> Seq<SqliteArgumentModel> {
        seq![SqliteArgumentModel::Int64(*self)]
    }

    open spec fn produces_spec(&self) -> SqliteTypeInfo {
        <i64 as Type<Sqlite>>::type_info_spec()
    }

    fn produces(&self) -> (r: SqliteTypeInfo) {
        <i64 as Type<Sqlite>>::type_info()
    }

    fn encode(self, buf: &mut SqliteArguments) -> (r: IsNull) {
        buf.values.push(SqliteArgumentValue::Int64(self));
        assert(buf.values@.map_values(|v: SqliteArgumentValue| v@) =~= old(
            buf,
        ).values@.map_values(|v: SqliteArgumentValue| v@) + <i64 as Encode<Sqlite>>::encode_units(&self));
        IsNull::No
    }
}

impl<'r> Decode<'r, Sqlite> for i64 {
    open spec fn accepts_spec(info: SqliteTypeInfo) -> bool {
        // the integer storage classes are mutually acceptable
        info.kind is Bool || info.kind is Int || info.kind is Int64
    }

    fn accepts(info: &SqliteTypeInfo) -> (r: bool) {
        matches!(info.kind, SqliteType::Bool | SqliteType::Int | SqliteType::Int64)
    }

    open spec fn decode_ok(v: SqliteValueModel) -> bool {
        v is Integer
    }

    open spec fn decoded(v: SqliteValueModel, r: Self) -> bool {
        r == spec_int64(v)
    }

    open spec fn decode_err(v: SqliteValueModel) -> DecodeError {
        sqlite_decode_err(v)
    }

    fn decode(value: SqliteValueRef<'r>) -> (r: Result<Self, DecodeError>) {
        if value.is_null() {
            Err(DecodeError::UnexpectedNull(UnexpectedNullError))
        } else if !value.is_integer() {
            Err(DecodeError::TypeMismatch)
        } else {
            Ok(value.int64())
        }
    }
}

impl Type<Sqlite> for String {
    open spec fn type_info_spec() -> SqliteTypeInfo {
        SqliteTypeInfo { kind: SqliteType::Text }
    }

    fn type_info() -> (r: SqliteTypeInfo) {
        SqliteTypeInfo { kind: SqliteType::Text }
    }
}

impl Encode<Sqlite> for String {
    open spec fn is_null_spec(&self) -> bool {
        false
    }

    open spec fn encode_units(&self) -> Seq<SqliteArgumentModel> {
        seq![SqliteArgumentModel::Text(self@)]
    }

    open spec fn produces_spec(&self) -> SqliteTypeInfo {
        <String as Type<Sqlite>>::type_info_spec()
    }

    fn produces(&self) -> (r: SqliteTypeInfo) {
        <String as Type<Sqlite>>::type_info()
    }

    fn encode(self, buf: &mut SqliteArguments) -> (r: IsNull) {
        let ghost units = <String as Encode<Sqlite>>::encode_units(&self);
        buf.values.push(SqliteArgumentValue::Text(self));
        assert(buf.values@.map_values(|v: SqliteArgumentValue| v@) =~= old(
            buf,
        ).values@.map_values(|v: SqliteArgumentValue| v@) + units);
        IsNull::No
    }
}

impl<'r> Decode<'r, Sqlite> for String {
    open spec fn accepts_spec(info: SqliteTypeInfo) -> bool {
        info == <String as Type<Sqlite>>::type_info_spec()
    }

    fn accepts(info: &SqliteTypeInfo) -> (r: bool) {
        *info == <String as Type<Sqlite>>::type_info()
    }

    open spec fn decode_ok(v: SqliteValueModel) -> bool {
        spec_bytes(v) matches Some(b) && vstd::utf8::valid_utf8(b)
    }

    open spec fn decoded(v: SqliteValueModel, r: Self) -> bool {
        spec_bytes(v) matches Some(b) && r@ == vstd::utf8::decode_utf8(b)
    }

    open spec fn decode_err(v: SqliteValueModel) -> DecodeError {
        if v is Null {
            DecodeError::UnexpectedNull(UnexpectedNullError)
        } else if spec_bytes(v) is None {
            DecodeError::TypeMismatch
        } else {
            DecodeError::InvalidUtf8
        }
    }

    fn decode(value: SqliteValueRef<'r>) -> (r: Result<Self, DecodeError>) {
        if value.is_null() {
            return Err(DecodeError::UnexpectedNull(UnexpectedNullError));
        }
        match value.text() {
            Ok(s) => Ok(s.to_owned()),
            Err(e) => Err(e),
        }
    }
}

impl Type<Sqlite> for Vec<u8> {
    open spec fn type_info_spec() -> SqliteTypeInfo {
        SqliteTypeInfo { kind: SqliteType::Blob }
    }

    fn type_info() -> (r: SqliteTypeInfo) {
        SqliteTypeInfo { kind: SqliteType::Blob }
    }
}

impl Encode<Sqlite> for Vec<u8> {
    open spec fn is_null_spec(&self) -> bool {
        false
    }

    open spec fn encode_units(&self) -> Seq<SqliteArgumentModel> {
        seq![SqliteArgumentModel::Blob(self@)]
    }

    open spec fn produces_spec(&self) -> SqliteTypeInfo {
        <Vec<u8> as Type<Sqlite>>::type_info_spec()
    }

    fn produces(&self) -> (r: SqliteTypeInfo) {
        <Vec<u8> as Type<Sqlite>>::type_info()
    }

    fn encode(self, buf: &mut SqliteArguments) -> (r: IsNull) {
        let ghost units = <Vec<u8> as Encode<Sqlite>>::encode_units(&self);
        buf.values.push(SqliteArgumentValue::Blob(self));
        assert(buf.values@.map_values(|v: SqliteArgumentValue| v@) =~= old(
            buf,
        ).values@.map_values(|v: SqliteArgumentValue| v@) + units);
        IsNull::No
    }
}

impl<'r> Decode<'r, Sqlite> for Vec<u8> {
    open spec fn accepts_spec(info: SqliteTypeInfo) -> bool {
        // text bytes read as a blob too
        info.kind is Blob || info.kind is Text
    }

    fn accepts(info: &SqliteTypeInfo) -> (r: bool) {
        matches!(info.kind, SqliteType::Blob | SqliteType::Text)
    }

    open spec fn decode_ok(v: SqliteValueModel) -> bool {
        spec_bytes(v) is Some
    }

    open spec fn decoded(v: SqliteValueModel, r: Self) -> bool {
        spec_bytes(v) matches Some(b) && r@ == b
    }

    open spec fn decode_err(v: SqliteValueModel) -> DecodeError {
        if v is Null {
            DecodeError::UnexpectedNull(UnexpectedNullError)
        } else {
            DecodeError::TypeMismatch
        }
    }

    fn decode(value: SqliteValueRef<'r>) -> (r: Result<Self, DecodeError>) {
        if value.is_null() {
            return Err(DecodeError::UnexpectedNull(UnexpectedNullError));
        }
        match value.blob() {
            Some(b) => Ok(b.clone()),
            None => Err(DecodeError::TypeMismatch),
        }
    }
}

impl<'q> Type<Sqlite> for &'q str {
    open spec fn type_info_spec() -> SqliteTypeInfo {
        SqliteTypeInfo { kind: SqliteType::Text }
    }

    fn type_info() -> (r: SqliteTypeInfo) {
        SqliteTypeInfo { kind: SqliteType::Text }
    }
}

impl<'q> Encode<Sqlite> for &'q str {
    open spec fn is_null_spec(&self) -> bool {
        false
    }

    open spec fn encode_units(&self) -> Seq<SqliteArgumentModel> {
        seq![SqliteArgumentModel::Text((*self)@)]
    }

    open spec fn produces_spec(&self) -> SqliteTypeInfo {
        <&str as Type<Sqlite>>::type_info_spec()
    }

    fn produces(&self) -> (r: SqliteTypeInfo) {
        <&str as Type<Sqlite>>::type_info()
    }

    fn encode(self, buf: &mut SqliteArguments) -> (r: IsNull) {
        let ghost units = <&str as Encode<Sqlite>>::encode_units(&self);
        buf.values.push(SqliteArgumentValue::Text(self.to_owned()));
        assert(buf.values@.map_values(|v: SqliteArgumentValue| v@) =~= old(
            buf,
        ).values@.map_values(|v: SqliteArgumentValue| v@) + units);
        IsNull::No
    }
}

impl<'r> Decode<'r, Sqlite> for &'r str {
    open spec fn accepts_spec(info: SqliteTypeInfo) -> bool {
        info == <&str as Type<Sqlite>>::type_info_spec()
    }

    fn accepts(info: &SqliteTypeInfo) -> (r: bool) {
        *info == <&str as Type<Sqlite>>::type_info()
    }

    open spec fn decode_ok(v: SqliteValueModel) -> bool {
        spec_bytes(v) matches Some(b) && vstd::utf8::valid_utf8(b)
    }

    open spec fn decoded(v: SqliteValueModel, r: Self) -> bool {
        spec_bytes(v) matches Some(b) && r@ == vstd::utf8::decode_utf8(b)
    }

    open spec fn decode_err(v: SqliteValueModel) -> DecodeError {
        if v is Null {
            DecodeError::UnexpectedNull(UnexpectedNullError)
        } else if spec_bytes(v) is None {
            DecodeError::TypeMismatch
        } else {
            DecodeError::InvalidUtf8
        }
    }

    fn decode(value: SqliteValueRef<'r>) -> (r: Result<Self, DecodeError>) {
        if value.is_null() {
            return Err(DecodeError::UnexpectedNull(UnexpectedNullError));
        }
        value.text()
    }
}

impl<'q> Type<Sqlite> for &'q [u8] {
    open spec fn type_info_spec() -> SqliteTypeInfo {
        SqliteTypeInfo { kind: SqliteType::Blob }
    }

    fn type_info() -> (r: SqliteTypeInfo) {
        SqliteTypeInfo { kind: SqliteType::Blob }
    }
}

impl<'r> Decode<'r, Sqlite> for &'r [u8] {
    open spec fn accepts_spec(info: SqliteTypeInfo) -> bool {
        // text bytes read as a blob too
        info.kind is Blob || info.kind is Text
    }

    fn accepts(info: &SqliteTypeInfo) -> (r: bool) {
        matches!(info.kind, SqliteType::Blob | SqliteType::Text)
    }

    open spec fn decode_ok(v: SqliteValueModel) -> bool {
        spec_bytes(v) is Some
    }

    open spec fn decoded(v: SqliteValueModel, r: Self) -> bool {
        spec_bytes(v) matches Some(b) && r@ == b
    }

    open spec fn decode_err(v: SqliteValueModel) -> DecodeError {
        if v is Null {
            DecodeError::UnexpectedNull(UnexpectedNullError)
        } else {
            DecodeError::TypeMismatch
        }
    }

    fn decode(value: SqliteValueRef<'r>) -> (r: Result<Self, DecodeError>) {
        if value.is_null() {
            return Err(DecodeError::UnexpectedNull(UnexpectedNullError));
        }
        match value.blob() {
            Some(b) => Ok(b.as_slice()),
            None => Err(DecodeError::TypeMismatch),
        }
    }
}

/// The column value the engine reports for a bound parameter echoed
/// back by a query: integers widen to the engine's 64-bit storage
/// class, text is stored as its UTF-8 bytes.
pub open spec fn spec_argument_as_value(a: SqliteArgumentModel) -> SqliteValueModel {
    match a {
        SqliteArgumentModel::Null => SqliteValueModel::Null,
        SqliteArgumentModel::Int(i) => SqliteValueModel::Integer(i as i64),
        SqliteArgumentModel::Int64(i) => SqliteValueModel::Integer(i),
        SqliteArgumentModel::Double(b) => SqliteValueModel::Real(b),
        SqliteArgumentModel::Text(s) => SqliteValueModel::Text(vstd::utf8::encode_utf8(s)),
        SqliteArgumentModel::Blob(b) => SqliteValueModel::Blob(b),
    }
}

/// Round trip for booleans through the embedded engine: binding a
/// boolean and decoding the echoed column yields the value back.
pub proof fn lemma_sqlite_roundtrip_bool<'r>(x: bool)
    ensures
        <bool as Decode<'r, Sqlite>>::decode_ok(
            spec_argument_as_value(<bool as Encode<Sqlite>>::encode_units(&x)[0]),
        ),
        <bool as Decode<'r, Sqlite>>::decoded(
            spec_argument_as_value(<bool as Encode<Sqlite>>::encode_units(&x)[0]),
            x,
        ),
{
}

/// Round trip for 32-bit integers through the embedded engine.
pub proof fn lemma_sqlite_roundtrip_i32<'r>(x: i32)
    ensures
        <i32 as Decode<'r, Sqlite>>::decode_ok(
            spec_argument_as_value(<i32 as Encode<Sqlite>>::encode_units(&x)[0]),
        ),
        <i32 as Decode<'r, Sqlite>>::decoded(
            spec_argument_as_value(<i32 as Encode<Sqlite>>::encode_units(&x)[0]),
            x,
        ),
{
    assert((x as i64) as i32 == x) by (bit_vector);
}

/// Round trip for 64-bit integers through the embedded engine.
pub proof fn lemma_sqlite_roundtrip_i64<'r>(x: i64)
    ensures
        <i64 as Decode<'r, Sqlite>>::decode_ok(
            spec_argument_as_value(<i64 as Encode<Sqlite>>::encode_units(&x)[0]),
        ),
        <i64 as Decode<'r, Sqlite>>::decoded(
            spec_argument_as_value(<i64 as Encode<Sqlite>>::encode_units(&x)[0]),
            x,
        ),
{
}

/// Round trip for strings through the embedded engine.
pub proof fn lemma_sqlite_roundtrip_string<'r>(x: String)
    ensures
        <String as Decode<'r, Sqlite>>::decode_ok(
            spec_argument_as_value(<String as Encode<Sqlite>>::encode_units(&x)[0]),
        ),
        forall|r: String|
            <String as Decode<'r, Sqlite>>::decoded(
                spec_argument_as_value(<String as Encode<Sqlite>>::encode_units(&x)[0]),
                r,
            ) <==> r@ == x@,
{
    vstd::utf8::encode_utf8_valid_utf8(x@);
    vstd::utf8::encode_utf8_decode_utf8(x@);
}

/// Round trip for blobs through the embedded engine.
pub proof fn lemma_sqlite_roundtrip_blob<'r>(x: Vec<u8>)
    ensures
        <Vec<u8> as Decode<'r, Sqlite>>::decode_ok(
            spec_argument_as_value(<Vec<u8> as Encode<Sqlite>>::encode_units(&x)[0]),
        ),
        forall|r: Vec<u8>|
            <Vec<u8> as Decode<'r, Sqlite>>::decoded(
                spec_argument_as_value(<Vec<u8> as Encode<Sqlite>>::encode_units(&x)[0]),
                r,
            ) <==> r@ == x@,
{
}

/// Null handling for the embedded engine: a SQL NULL refuses to decode
/// into the non-`Option` host types with the unexpected-null error,
/// and decodes into `Option` as exactly `None`.
pub proof fn lemma_sqlite_null_never_coerces<'r>(v: SqliteValueModel)
    requires
        v is Null,
    ensures
        !<bool as Decode<'r, Sqlite>>::decode_ok(v),
        !<i32 as Decode<'r, Sqlite>>::decode_ok(v),
        !<i64 as Decode<'r, Sqlite>>::decode_ok(v),
        !<String as Decode<'r, Sqlite>>::decode_ok(v),
        !<Vec<u8> as Decode<'r, Sqlite>>::decode_ok(v),
        <i32 as Decode<'r, Sqlite>>::decode_err(v) == DecodeError::UnexpectedNull(
            UnexpectedNullError,
        ),
{
}

// decoding NULL into `Option` yields `None`; never a silent default
impl<'r, T: Decode<'r, Sqlite>> Decode<'r, Sqlite> for Option<T> {
    open spec fn accepts_spec(info: SqliteTypeInfo) -> bool {
        T::accepts_spec(info)
    }

    fn accepts(info: &SqliteTypeInfo) -> (r: bool) {
        T::accepts(info)
    }

    open spec fn decode_ok(v: SqliteValueModel) -> bool {
        v is Null || T::decode_ok(v)
    }

    open spec fn decoded(v: SqliteValueModel, r: Self) -> bool {
        if v is Null {
            r is None
        } else {
            r matches Some(x) && T::decoded(v, x)
        }
    }

    open spec fn decode_err(v: SqliteValueModel) -> DecodeError {
        T::decode_err(v)
    }

    fn decode(value: SqliteValueRef<'r>) -> (r: Result<Self, DecodeError>) {
        if value.is_null() {
            Ok(None)
        } else {
            match T::decode(value) {
                Ok(x) => Ok(Some(x)),
                Err(e) => Err(e),
            }
        }
    }
}

} // verus!

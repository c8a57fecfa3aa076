//! Conversions between host types and wire-protocol backend values.

use vstd::prelude::*;
use crate::database::Postgres;
use crate::decode::{Decode, DecodeError, UnexpectedNullError};
use crate::encode::{Encode, IsNull};
use crate::postgres::text::{int_text_valid, int_text_value, parse_i64_text};
use crate::postgres::arguments::PgArguments;
use crate::postgres::type_info::{PgTypeInfo, PgTypeInfoModel};
use crate::postgres::value::{PgValueFormat, PgValueModel, PgValueRef};
use crate::postgres::wire::{
    read_be2, read_be4, read_be8, spec_be2, spec_be4, spec_be8, spec_read_be2, spec_read_be4,
    spec_read_be8, write_be2, write_be4, write_be8, write_bytes,
};
use crate::types::Type;

verus! {

/// The error a wire-protocol value decodes to when its bytes do not fit
/// the requested host type: an absent value is the unexpected-null
/// error, anything else the given shape error.
pub open spec fn pg_decode_err(v: PgValueModel, shape: DecodeError) -> DecodeError {
    if v.bytes is None {
        DecodeError::UnexpectedNull(UnexpectedNullError)
    } else {
        shape
    }
}

impl Type<Postgres> for bool {
    open spec fn type_info_spec() -> PgTypeInfoModel {
        PgTypeInfoModel { id: Some(16u32), name: "BOOL"@ }
    }

    fn type_info() -> (r: PgTypeInfo) {
        PgTypeInfo::with_oid_and_name(16, "BOOL")
    }
}

impl Encode<Postgres> for bool {
    open spec fn is_null_spec(&self) -> bool {
        false
    }

    open spec fn encode_units(&self) -> Seq<u8> {
        seq![
            if *self {
                1u8
            } else {
                0u8
            },
        ]
    }

    open spec fn produces_spec(&self) -> PgTypeInfoModel {
        <bool as Type<Postgres>>::type_info_spec()
    }

    fn produces(&self) -> (r: PgTypeInfo) {
        <bool as Type<Postgres>>::type_info()
    }

    fn encode(self, buf: &mut PgArguments) -> (r: IsNull) {
        buf.buffer.push(
            if self {
                1
            } else {
                0
            },
        );
        assert(buf.buffer@ =~= old(buf).buffer@ + <bool as Encode<Postgres>>::encode_units(&self));
        IsNull::No
    }
}

impl<'r> Decode<'r, Postgres> for bool {
    open spec fn accepts_spec(info: PgTypeInfoModel) -> bool {
        info == <bool as Type<Postgres>>::type_info_spec()
    }

    fn accepts(info: &PgTypeInfo) -> (r: bool) {
        let ti = <bool as Type<Postgres>>::type_info();
        info.same_as(&ti)
    }

    open spec fn decode_ok(v: PgValueModel) -> bool {
        match v.bytes {
            None => false,
            Some(b) => match v.format {
                PgValueFormat::Binary => b.len() >= 1,
                PgValueFormat::Text => b.len() == 1 && (b[0] == 116 || b[0] == 102),
            },
        }
    }

    open spec fn decoded(v: PgValueModel, r: Self) -> bool {
        match v.bytes {
            None => false,
            Some(b) => match v.format {
                PgValueFormat::Binary => r == (b[0] != 0),
                PgValueFormat::Text => r == (b[0] == 116),
            },
        }
    }

    open spec fn decode_err(v: PgValueModel) -> DecodeError {
        pg_decode_err(v, DecodeError::InvalidBool)
    }

    fn decode(value: PgValueRef<'r>) -> (r: Result<Self, DecodeError>) {
        let format = value.format();
        let bytes = match value.as_bytes() {
            Ok(b) => b,
            Err(e) => {
                return Err(e);
            },
        };
        match format {
            PgValueFormat::Binary => {
                if bytes.len() < 1 {
                    Err(DecodeError::InvalidBool)
                } else {
                    Ok(bytes[0] != 0)
                }
            },
            PgValueFormat::Text => {
                // the text encoding is a single `t` or `f`
                if bytes.len() == 1 && bytes[0] == 116 {
                    Ok(true)
                } else if bytes.len() == 1 && bytes[0] == 102 {
                    Ok(false)
                } else {
                    Err(DecodeError::InvalidBool)
                }
            },
        }
    }
}

impl Type<Postgres> for i8 {
    open spec fn type_info_spec() -> PgTypeInfoModel {
        PgTypeInfoModel { id: Some(18u32), name: "CHAR"@ }
    }

    fn type_info() -> (r: PgTypeInfo) {
        PgTypeInfo::with_oid_and_name(18, "CHAR")
    }
}

impl Encode<Postgres> for i8 {
    open spec fn is_null_spec(&self) -> bool {
        false
    }

    open spec fn encode_units(&self) -> Seq<u8> {
        seq![*self as u8]
    }

    open spec fn produces_spec(&self) -> PgTypeInfoModel {
        <i8 as Type<Postgres>>::type_info_spec()
    }

    fn produces(&self) -> (r: PgTypeInfo) {
        <i8 as Type<Postgres>>::type_info()
    }

    fn encode(self, buf: &mut PgArguments) -> (r: IsNull) {
        buf.buffer.push(#[verifier::truncate] (self as u8));
        assert(buf.buffer@ =~= old(buf).buffer@ + <i8 as Encode<Postgres>>::encode_units(&self));
        IsNull::No
    }
}

impl<'r> Decode<'r, Postgres> for i8 {
    open spec fn accepts_spec(info: PgTypeInfoModel) -> bool {
        info == <i8 as Type<Postgres>>::type_info_spec()
    }

    fn accepts(info: &PgTypeInfo) -> (r: bool) {
        let ti = <i8 as Type<Postgres>>::type_info();
        info.same_as(&ti)
    }

    open spec fn decode_ok(v: PgValueModel) -> bool {
        v.bytes is Some
    }

    open spec fn decoded(v: PgValueModel, r: Self) -> bool {
        match v.bytes {
            None => false,
            // in the text encoding a zero is sent as an empty string
            Some(b) => r == (if b.len() > 0 {
                b[0]
            } else {
                0u8
            }) as i8,
        }
    }

    open spec fn decode_err(v: PgValueModel) -> DecodeError {
        DecodeError::UnexpectedNull(UnexpectedNullError)
    }

    fn decode(value: PgValueRef<'r>) -> (r: Result<Self, DecodeError>) {
        let bytes = match value.as_bytes() {
            Ok(b) => b,
            Err(e) => {
                return Err(e);
            },
        };
        if bytes.len() > 0 {
            Ok(#[verifier::truncate] (bytes[0] as i8))
        } else {
            Ok(0)
        }
    }
}

impl Type<Postgres> for i16 {
    open spec fn type_info_spec() -> PgTypeInfoModel {
        PgTypeInfoModel { id: Some(21u32), name: "INT2"@ }
    }

    fn type_info() -> (r: PgTypeInfo) {
        PgTypeInfo::with_oid_and_name(21, "INT2")
    }
}

impl Encode<Postgres> for i16 {
    open spec fn is_null_spec(&self) -> bool {
        false
    }

    open spec fn encode_units(&self) -> Seq<u8> {
        spec_be2(*self as u16)
    }

    open spec fn produces_spec(&self) -> PgTypeInfoModel {
        <i16 as Type<Postgres>>::type_info_spec()
    }

    fn produces(&self) -> (r: PgTypeInfo) {
        <i16 as Type<Postgres>>::type_info()
    }

    fn encode(self, buf: &mut PgArguments) -> (r: IsNull) {
        write_be2(&mut buf.buffer, #[verifier::truncate] (self as u16));
        IsNull::No
    }
}

impl<'r> Decode<'r, Postgres> for i16 {
    open spec fn accepts_spec(info: PgTypeInfoModel) -> bool {
        info == <i16 as Type<Postgres>>::type_info_spec()
    }

    fn accepts(info: &PgTypeInfo) -> (r: bool) {
        let ti = <i16 as Type<Postgres>>::type_info();
        info.same_as(&ti)
    }

    open spec fn decode_ok(v: PgValueModel) -> bool {
        match v.bytes {
            None => false,
            Some(b) => match v.format {
                PgValueFormat::Binary => b.len() == 2,
                PgValueFormat::Text => int_text_valid(b) && i16::MIN <= int_text_value(b)
                    <= i16::MAX,
            },
        }
    }

    open spec fn decoded(v: PgValueModel, r: Self) -> bool {
        match v.bytes {
            None => false,
            Some(b) => match v.format {
                PgValueFormat::Binary => r == spec_read_be2(b) as i16,
                PgValueFormat::Text => r == int_text_value(b),
            },
        }
    }

    open spec fn decode_err(v: PgValueModel) -> DecodeError {
        pg_decode_err(v, DecodeError::InvalidInt)
    }

    fn decode(value: PgValueRef<'r>) -> (r: Result<Self, DecodeError>) {
        let format = value.format();
        let bytes = match value.as_bytes() {
            Ok(b) => b,
            Err(e) => {
                return Err(e);
            },
        };
        match format {
            PgValueFormat::Binary => {
                if bytes.len() != 2 {
                    Err(DecodeError::InvalidInt)
                } else {
                    Ok(#[verifier::truncate] (read_be2(bytes) as i16))
                }
            },
            PgValueFormat::Text => {
                match parse_i64_text(bytes) {
                    Ok(v) => if i16::MIN as i64 <= v && v <= i16::MAX as i64 {
                        Ok(v as i16)
                    } else {
                        Err(DecodeError::InvalidInt)
                    },
                    Err(e) => Err(e),
                }
            },
        }
    }
}

impl Type<Postgres> for i32 {
    open spec fn type_info_spec() -> PgTypeInfoModel {
        PgTypeInfoModel { id: Some(23u32), name: "INT4"@ }
    }

    fn type_info() -> (r: PgTypeInfo) {
        PgTypeInfo::with_oid_and_name(23, "INT4")
    }
}

impl Encode<Postgres> for i32 {
    open spec fn is_null_spec(&self) -> bool {
        false
    }

    open spec fn encode_units(&self) -> Seq<u8> {
        spec_be4(*self as u32)
    }

    open spec fn produces_spec(&self) -> PgTypeInfoModel {
        <i32 as Type<Postgres>>::type_info_spec()
    }

    fn produces(&self) -> (r: PgTypeInfo) {
        <i32 as Type<Postgres>>::type_info()
    }

    fn encode(self, buf: &mut PgArguments) -> (r: IsNull) {
        write_be4(&mut buf.buffer, #[verifier::truncate] (self as u32));
        IsNull::No
    }
}

impl<'r> Decode<'r, Postgres> for i32 {
    open spec fn accepts_spec(info: PgTypeInfoModel) -> bool {
        info == <i32 as Type<Postgres>>::type_info_spec()
    }

    fn accepts(info: &PgTypeInfo) -> (r: bool) {
        let ti = <i32 as Type<Postgres>>::type_info();
        info.same_as(&ti)
    }

    open spec fn decode_ok(v: PgValueModel) -> bool {
        match v.bytes {
            None => false,
            Some(b) => match v.format {
                PgValueFormat::Binary => b.len() == 4,
                PgValueFormat::Text => int_text_valid(b) && i32::MIN <= int_text_value(b)
                    <= i32::MAX,
            },
        }
    }

    open spec fn decoded(v: PgValueModel, r: Self) -> bool {
        match v.bytes {
            None => false,
            Some(b) => match v.format {
                PgValueFormat::Binary => r == spec_read_be4(b) as i32,
                PgValueFormat::Text => r == int_text_value(b),
            },
        }
    }

    open spec fn decode_err(v: PgValueModel) -> DecodeError {
        pg_decode_err(v, DecodeError::InvalidInt)
    }

    fn decode(value: PgValueRef<'r>) -> (r: Result<Self, DecodeError>) {
        let format = value.format();
        let bytes = match value.as_bytes() {
            Ok(b) => b,
            Err(e) => {
                return Err(e);
            },
        };
        match format {
            PgValueFormat::Binary => {
                if bytes.len() != 4 {
                    Err(DecodeError::InvalidInt)
                } else {
                    Ok(#[verifier::truncate] (read_be4(bytes) as i32))
                }
            },
            PgValueFormat::Text => {
                match parse_i64_text(bytes) {
                    Ok(v) => if i32::MIN as i64 <= v && v <= i32::MAX as i64 {
                        Ok(v as i32)
                    } else {
                        Err(DecodeError::InvalidInt)
                    },
                    Err(e) => Err(e),
                }
            },
        }
    }
}

impl Type<Postgres> for i64 {
    open spec fn type_info_spec() -> PgTypeInfoModel {
        PgTypeInfoModel { id: Some(20u32), name: "INT8"@ }
    }

    fn type_info() -> (r: PgTypeInfo) {
        PgTypeInfo::with_oid_and_name(20, "INT8")
    }
}

impl Encode<Postgres> for i64 {
    open spec fn is_null_spec(&self) -> bool {
        false
    }

    open spec fn encode_units(&self) -> Seq<u8> {
        spec_be8(*self as u64)
    }

    open spec fn produces_spec(&self) -> PgTypeInfoModel {
        <i64 as Type<Postgres>>::type_info_spec()
    }

    fn produces(&self) -> (r: PgTypeInfo) {
        <i64 as Type<Postgres>>::type_info()
    }

    fn encode(self, buf: &mut PgArguments) -> (r: IsNull) {
        write_be8(&mut buf.buffer, #[verifier::truncate] (self as u64));
        IsNull::No
    }
}

impl<'r> Decode<'r, Postgres> for i64 {
    open spec fn accepts_spec(info: PgTypeInfoModel) -> bool {
        info == <i64 as Type<Postgres>>::type_info_spec()
    }

    fn accepts(info: &PgTypeInfo) -> (r: bool) {
        let ti = <i64 as Type<Postgres>>::type_info();
        info.same_as(&ti)
    }

    open spec fn decode_ok(v: PgValueModel) -> bool {
        match v.bytes {
            None => false,
            Some(b) => match v.format {
                PgValueFormat::Binary => b.len() == 8,
                PgValueFormat::Text => int_text_valid(b) && i64::MIN <= int_text_value(b)
                    <= i64::MAX,
            },
        }
    }

    open spec fn decoded(v: PgValueModel, r: Self) -> bool {
        match v.bytes {
            None => false,
            Some(b) => match v.format {
                PgValueFormat::Binary => r == spec_read_be8(b) as i64,
                PgValueFormat::Text => r == int_text_value(b),
            },
        }
    }

    open spec fn decode_err(v: PgValueModel) -> DecodeError {
        pg_decode_err(v, DecodeError::InvalidInt)
    }

    fn decode(value: PgValueRef<'r>) -> (r: Result<Self, DecodeError>) {
        let format = value.format();
        let bytes = match value.as_bytes() {
            Ok(b) => b,
            Err(e) => {
                return Err(e);
            },
        };
        match format {
            PgValueFormat::Binary => {
                if bytes.len() != 8 {
                    Err(DecodeError::InvalidInt)
                } else {
                    Ok(#[verifier::truncate] (read_be8(bytes) as i64))
                }
            },
            PgValueFormat::Text => parse_i64_text(bytes),
        }
    }
}

impl Type<Postgres> for u32 {
    open spec fn type_info_spec() -> PgTypeInfoModel {
        PgTypeInfoModel { id: Some(26u32), name: "OID"@ }
    }

    fn type_info() -> (r: PgTypeInfo) {
        PgTypeInfo::with_oid_and_name(26, "OID")
    }
}

impl Encode<Postgres> for u32 {
    open spec fn is_null_spec(&self) -> bool {
        false
    }

    open spec fn encode_units(&self) -> Seq<u8> {
        spec_be4(*self)
    }

    open spec fn produces_spec(&self) -> PgTypeInfoModel {
        <u32 as Type<Postgres>>::type_info_spec()
    }

    fn produces(&self) -> (r: PgTypeInfo) {
        <u32 as Type<Postgres>>::type_info()
    }

    fn encode(self, buf: &mut PgArguments) -> (r: IsNull) {
        write_be4(&mut buf.buffer, self);
        IsNull::No
    }
}

impl<'r> Decode<'r, Postgres> for u32 {
    open spec fn accepts_spec(info: PgTypeInfoModel) -> bool {
        info == <u32 as Type<Postgres>>::type_info_spec()
    }

    fn accepts(info: &PgTypeInfo) -> (r: bool) {
        let ti = <u32 as Type<Postgres>>::type_info();
        info.same_as(&ti)
    }

    open spec fn decode_ok(v: PgValueModel) -> bool {
        match v.bytes {
            None => false,
            Some(b) => match v.format {
                PgValueFormat::Binary => b.len() == 4,
                PgValueFormat::Text => int_text_valid(b) && 0 <= int_text_value(b) <= u32::MAX,
            },
        }
    }

    open spec fn decoded(v: PgValueModel, r: Self) -> bool {
        match v.bytes {
            None => false,
            Some(b) => match v.format {
                PgValueFormat::Binary => r == spec_read_be4(b),
                PgValueFormat::Text => r == int_text_value(b),
            },
        }
    }

    open spec fn decode_err(v: PgValueModel) -> DecodeError {
        pg_decode_err(v, DecodeError::InvalidInt)
    }

    fn decode(value: PgValueRef<'r>) -> (r: Result<Self, DecodeError>) {
        let format = value.format();
        let bytes = match value.as_bytes() {
            Ok(b) => b,
            Err(e) => {
                return Err(e);
            },
        };
        match format {
            PgValueFormat::Binary => {
                if bytes.len() != 4 {
                    Err(DecodeError::InvalidInt)
                } else {
                    Ok(read_be4(bytes))
                }
            },
            PgValueFormat::Text => {
                match parse_i64_text(bytes) {
                    Ok(v) => if 0 <= v && v <= u32::MAX as i64 {
                        Ok(v as u32)
                    } else {
                        Err(DecodeError::InvalidInt)
                    },
                    Err(e) => Err(e),
                }
            },
        }
    }
}

impl<'q> Type<Postgres> for &'q str {
    open spec fn type_info_spec() -> PgTypeInfoModel {
        PgTypeInfoModel { id: Some(25u32), name: "TEXT"@ }
    }

    fn type_info() -> (r: PgTypeInfo) {
        PgTypeInfo::with_oid_and_name(25, "TEXT")
    }
}

impl<'q> Encode<Postgres> for &'q str {
    open spec fn is_null_spec(&self) -> bool {
        false
    }

    open spec fn encode_units(&self) -> Seq<u8> {
        vstd::utf8::encode_utf8((*self)@)
    }

    open spec fn produces_spec(&self) -> PgTypeInfoModel {
        <&'q str as Type<Postgres>>::type_info_spec()
    }

    fn produces(&self) -> (r: PgTypeInfo) {
        <&str as Type<Postgres>>::type_info()
    }

    fn encode(self, buf: &mut PgArguments) -> (r: IsNull) {
        write_bytes(&mut buf.buffer, self.as_bytes());
        IsNull::No
    }
}

impl<'r> Decode<'r, Postgres> for &'r str {
    open spec fn accepts_spec(info: PgTypeInfoModel) -> bool {
        info == <&'r str as Type<Postgres>>::type_info_spec()
    }

    fn accepts(info: &PgTypeInfo) -> (r: bool) {
        let ti = <&str as Type<Postgres>>::type_info();
        info.same_as(&ti)
    }

    open spec fn decode_ok(v: PgValueModel) -> bool {
        match v.bytes {
            None => false,
            Some(b) => vstd::utf8::valid_utf8(b),
        }
    }

    open spec fn decoded(v: PgValueModel, r: Self) -> bool {
        match v.bytes {
            None => false,
            Some(b) => r@ == vstd::utf8::decode_utf8(b),
        }
    }

    open spec fn decode_err(v: PgValueModel) -> DecodeError {
        pg_decode_err(v, DecodeError::InvalidUtf8)
    }

    fn decode(value: PgValueRef<'r>) -> (r: Result<Self, DecodeError>) {
        value.as_str()
    }
}

impl Type<Postgres> for String {
    open spec fn type_info_spec() -> PgTypeInfoModel {
        <&str as Type<Postgres>>::type_info_spec()
    }

    fn type_info() -> (r: PgTypeInfo) {
        <&str as Type<Postgres>>::type_info()
    }
}

impl Encode<Postgres> for String {
    open spec fn is_null_spec(&self) -> bool {
        false
    }

    open spec fn encode_units(&self) -> Seq<u8> {
        vstd::utf8::encode_utf8(self@)
    }

    open spec fn produces_spec(&self) -> PgTypeInfoModel {
        <String as Type<Postgres>>::type_info_spec()
    }

    fn produces(&self) -> (r: PgTypeInfo) {
        <String as Type<Postgres>>::type_info()
    }

    fn encode(self, buf: &mut PgArguments) -> (r: IsNull) {
        write_bytes(&mut buf.buffer, self.as_str().as_bytes());
        IsNull::No
    }
}

impl<'r> Decode<'r, Postgres> for String {
    open spec fn accepts_spec(info: PgTypeInfoModel) -> bool {
        info == <String as Type<Postgres>>::type_info_spec()
    }

    fn accepts(info: &PgTypeInfo) -> (r: bool) {
        let ti = <String as Type<Postgres>>::type_info();
        info.same_as(&ti)
    }

    open spec fn decode_ok(v: PgValueModel) -> bool {
        match v.bytes {
            None => false,
            Some(b) => vstd::utf8::valid_utf8(b),
        }
    }

    open spec fn decoded(v: PgValueModel, r: Self) -> bool {
        match v.bytes {
            None => false,
            Some(b) => r@ == vstd::utf8::decode_utf8(b),
        }
    }

    open spec fn decode_err(v: PgValueModel) -> DecodeError {
        pg_decode_err(v, DecodeError::InvalidUtf8)
    }

    fn decode(value: PgValueRef<'r>) -> (r: Result<Self, DecodeError>) {
        match value.as_str() {
            Ok(s) => Ok(s.to_owned()),
            Err(e) => Err(e),
        }
    }
}

/// The value model a binary wire round trip hands back to the decoder:
/// the backend echoes exactly the encoded payload bytes.
pub open spec fn binary_echo(bytes: Seq<u8>, t: PgTypeInfoModel) -> PgValueModel {
    PgValueModel { bytes: Some(bytes), type_info: t, format: PgValueFormat::Binary }
}

/// Round trip for booleans: decoding a binary wire echo of an encoded
/// boolean yields the value back.
pub proof fn lemma_roundtrip_bool<'r>(x: bool, t: PgTypeInfoModel)
    ensures
        <bool as Decode<'r, Postgres>>::decode_ok(
            binary_echo(<bool as Encode<Postgres>>::encode_units(&x), t),
        ),
        <bool as Decode<'r, Postgres>>::decoded(
            binary_echo(<bool as Encode<Postgres>>::encode_units(&x), t),
            x,
        ),
{
}

/// Round trip for 8-bit integers.
pub proof fn lemma_roundtrip_i8<'r>(x: i8, t: PgTypeInfoModel)
    ensures
        <i8 as Decode<'r, Postgres>>::decode_ok(
            binary_echo(<i8 as Encode<Postgres>>::encode_units(&x), t),
        ),
        <i8 as Decode<'r, Postgres>>::decoded(
            binary_echo(<i8 as Encode<Postgres>>::encode_units(&x), t),
            x,
        ),
{
    assert((x as u8) as i8 == x) by (bit_vector);
}

/// Round trip for 16-bit integers.
pub proof fn lemma_roundtrip_i16<'r>(x: i16, t: PgTypeInfoModel)
    ensures
        <i16 as Decode<'r, Postgres>>::decode_ok(
            binary_echo(<i16 as Encode<Postgres>>::encode_units(&x), t),
        ),
        <i16 as Decode<'r, Postgres>>::decoded(
            binary_echo(<i16 as Encode<Postgres>>::encode_units(&x), t),
            x,
        ),
{
    crate::postgres::wire::lemma_be2_roundtrip(x as u16);
    assert((x as u16) as i16 == x) by (bit_vector);
}

/// Round trip for 32-bit integers.
pub proof fn lemma_roundtrip_i32<'r>(x: i32, t: PgTypeInfoModel)
    ensures
        <i32 as Decode<'r, Postgres>>::decode_ok(
            binary_echo(<i32 as Encode<Postgres>>::encode_units(&x), t),
        ),
        <i32 as Decode<'r, Postgres>>::decoded(
            binary_echo(<i32 as Encode<Postgres>>::encode_units(&x), t),
            x,
        ),
{
    crate::postgres::wire::lemma_be4_roundtrip(x as u32);
    assert((x as u32) as i32 == x) by (bit_vector);
}

/// Round trip for 64-bit integers.
pub proof fn lemma_roundtrip_i64<'r>(x: i64, t: PgTypeInfoModel)
    ensures
        <i64 as Decode<'r, Postgres>>::decode_ok(
            binary_echo(<i64 as Encode<Postgres>>::encode_units(&x), t),
        ),
        <i64 as Decode<'r, Postgres>>::decoded(
            binary_echo(<i64 as Encode<Postgres>>::encode_units(&x), t),
            x,
        ),
{
    crate::postgres::wire::lemma_be8_roundtrip(x as u64);
    assert((x as u64) as i64 == x) by (bit_vector);
}

/// Round trip for catalog object identifiers.
pub proof fn lemma_roundtrip_u32<'r>(x: u32, t: PgTypeInfoModel)
    ensures
        <u32 as Decode<'r, Postgres>>::decode_ok(
            binary_echo(<u32 as Encode<Postgres>>::encode_units(&x), t),
        ),
        <u32 as Decode<'r, Postgres>>::decoded(
            binary_echo(<u32 as Encode<Postgres>>::encode_units(&x), t),
            x,
        ),
{
    crate::postgres::wire::lemma_be4_roundtrip(x);
}

/// Round trip for strings: the wire carries the UTF-8 bytes, and
/// decoding them yields exactly the characters that were encoded.
pub proof fn lemma_roundtrip_string<'r>(x: String, t: PgTypeInfoModel)
    ensures
        <String as Decode<'r, Postgres>>::decode_ok(
            binary_echo(<String as Encode<Postgres>>::encode_units(&x), t),
        ),
        forall|r: String|
            <String as Decode<'r, Postgres>>::decoded(
                binary_echo(<String as Encode<Postgres>>::encode_units(&x), t),
                r,
            ) <==> r@ == x@,
{
    vstd::utf8::encode_utf8_valid_utf8(x@);
    vstd::utf8::encode_utf8_decode_utf8(x@);
}

/// Null handling, decode half: a SQL NULL refuses to decode into any
/// of the non-`Option` host types, with the dedicated unexpected-null
/// error — it never coerces to a default value.
pub proof fn lemma_null_never_coerces<'r>(v: PgValueModel)
    requires
        v.bytes is None,
    ensures
        !<bool as Decode<'r, Postgres>>::decode_ok(v),
        !<i8 as Decode<'r, Postgres>>::decode_ok(v),
        !<i16 as Decode<'r, Postgres>>::decode_ok(v),
        !<i32 as Decode<'r, Postgres>>::decode_ok(v),
        !<i64 as Decode<'r, Postgres>>::decode_ok(v),
        !<u32 as Decode<'r, Postgres>>::decode_ok(v),
        !<String as Decode<'r, Postgres>>::decode_ok(v),
        <i32 as Decode<'r, Postgres>>::decode_err(v) == DecodeError::UnexpectedNull(
            UnexpectedNullError,
        ),
        <String as Decode<'r, Postgres>>::decode_err(v) == DecodeError::UnexpectedNull(
            UnexpectedNullError,
        ),
{
}

/// Null handling, `Option` half: a SQL NULL decodes into `Option` as
/// exactly `None`.
pub proof fn lemma_null_decodes_to_none<'r, T: Decode<'r, Postgres>>(v: PgValueModel)
    requires
        v.bytes is None,
    ensures
        <Option<T> as Decode<'r, Postgres>>::decode_ok(v),
        forall|r: Option<T>|
            <Option<T> as Decode<'r, Postgres>>::decoded(v, r) <==> r is None,
{
}

// decoding NULL into `Option` yields `None`; never a silent default
impl<'r, T: Decode<'r, Postgres>> Decode<'r, Postgres> for Option<T> {
    open spec fn accepts_spec(info: PgTypeInfoModel) -> bool {
        T::accepts_spec(info)
    }

    fn accepts(info: &PgTypeInfo) -> (r: bool) {
        T::accepts(info)
    }

    open spec fn decode_ok(v: PgValueModel) -> bool {
        v.bytes is None || T::decode_ok(v)
    }

    open spec fn decoded(v: PgValueModel, r: Self) -> bool {
        if v.bytes is None {
            r is None
        } else {
            r matches Some(x) && T::decoded(v, x)
        }
    }

    open spec fn decode_err(v: PgValueModel) -> DecodeError {
        T::decode_err(v)
    }

    fn decode(value: PgValueRef<'r>) -> (r: Result<Self, DecodeError>) {
        if value.is_null() {
            Ok(None)
        } else {
            match T::decode(value) {
                Ok(x) => Ok(Some(x)),
                Err(e) => Err(e),
            }
        }
    }
}

} // verus!

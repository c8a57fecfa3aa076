//! Binary encoding of one-dimensional arrays for the wire protocol.
//!
//! This tier is designed here explicitly. An array value travels as a
//! header — dimension count `1`, has-nulls flag `0`, the element
//! type's catalog identifier, the element count, and the lower bound
//! `1`, each as four big-endian bytes — followed by every element as a
//! length-prefixed frame, exactly the frame a top-level bind parameter
//! uses. Elements of the supported host types are never SQL NULL, so
//! the has-nulls flag stays zero. The array's own descriptor overrides
//! the one the host type would produce, which is what
//! [`Encode::produces`] exists for.

use vstd::prelude::*;
use crate::database::Postgres;
use crate::encode::{Encode, IsNull};
use crate::postgres::arguments::PgArguments;
use crate::postgres::type_info::{PgTypeInfo, PgTypeInfoModel};
use crate::postgres::wire::{spec_be4, write_be2, write_be4, write_be8};
use crate::types::Type;

verus! {

/// A host type whose values may stand as elements of a wire-protocol
/// array: it knows the array type's descriptor and writes itself as
/// one length-prefixed element frame.
pub trait PgArrayElement: Encode<Postgres> {
    /// The descriptor of the array type these elements form.
    spec fn array_type_info_spec() -> PgTypeInfoModel;

    /// Returns the descriptor of the array type these elements form.
    fn array_type_info() -> (r: PgTypeInfo)
        ensures
            r@ == Self::array_type_info_spec(),
    ;

    /// Array elements of the supported host types are never SQL NULL.
    proof fn element_not_null(&self)
        ensures
            !self.is_null_spec(),
    ;

    /// Appends this element as its length-prefixed frame.
    fn encode_element(&self, out: &mut Vec<u8>)
        ensures
            final(out)@ == old(out)@ + PgArguments::frame_of(Some(self.encode_units())),
    ;
}

/// The catalog identifier a host type's descriptor carries.
pub open spec fn spec_element_oid<T: Type<Postgres>>() -> u32 {
    match T::type_info_spec().id {
        Some(o) => o,
        None => 0u32,
    }
}

/// The array header: one dimension without nulls, the element type,
/// the element count, and the lower bound.
pub open spec fn spec_array_header<T: PgArrayElement>(count: nat) -> Seq<u8> {
    spec_be4(1u32) + spec_be4(0u32) + spec_be4(spec_element_oid::<T>()) + spec_be4(count as u32)
        + spec_be4(1u32)
}

/// The concatenated element frames of an array.
pub open spec fn spec_array_elements<T: PgArrayElement>(v: Seq<T>) -> Seq<u8>
    decreases v.len(),
{
    if v.len() == 0 {
        Seq::empty()
    } else {
        spec_array_elements(v.drop_last()) + PgArguments::frame_of(Some(v.last().encode_units()))
    }
}

impl<T: PgArrayElement> Type<Postgres> for Vec<T> {
    open spec fn type_info_spec() -> PgTypeInfoModel {
        T::array_type_info_spec()
    }

    fn type_info() -> (r: PgTypeInfo) {
        T::array_type_info()
    }
}

impl<T: PgArrayElement> Encode<Postgres> for Vec<T> {
    open spec fn is_null_spec(&self) -> bool {
        false
    }

    open spec fn encode_units(&self) -> Seq<u8> {
        spec_array_header::<T>(self@.len()) + spec_array_elements(self@)
    }

    open spec fn produces_spec(&self) -> PgTypeInfoModel {
        T::array_type_info_spec()
    }

    fn produces(&self) -> (r: PgTypeInfo) {
        T::array_type_info()
    }

    #[verifier::loop_isolation(false)]
    fn encode(self, buf: &mut PgArguments) -> (r: IsNull) {
        let ghost orig = buf.buffer@;
        let n = self.len();
        write_be4(&mut buf.buffer, 1);
        write_be4(&mut buf.buffer, 0);
        let ti = T::type_info();
        let oid = match ti.id {
            Some(o) => o,
            None => 0,
        };
        write_be4(&mut buf.buffer, oid);
        write_be4(&mut buf.buffer, #[verifier::truncate] (n as u32));
        write_be4(&mut buf.buffer, 1);
        proof {
            assert(buf.buffer@ =~= orig + spec_array_header::<T>(self@.len()));
        }
        let mut i: usize = 0;
        while i < n
            invariant
                buf.buffer@ == orig + spec_array_header::<T>(self@.len()) + spec_array_elements(
                    self@.subrange(0, i as int),
                ),
                buf.types@ == old(buf).types@,
                0 <= i <= n,
            decreases n - i,
        {
            self[i].encode_element(&mut buf.buffer);
            proof {
                let pre = self@.subrange(0, i as int);
                let next = self@.subrange(0, i + 1);
                assert(next.drop_last() =~= pre);
                assert(next.last() == self@[i as int]);
                assert(buf.buffer@ =~= orig + spec_array_header::<T>(self@.len())
                    + spec_array_elements(next));
            }
            i = i + 1;
        }
        proof {
            assert(self@.subrange(0, n as int) =~= self@);
            assert(buf.buffer@ =~= orig + <Vec<T> as Encode<Postgres>>::encode_units(&self));
        }
        IsNull::No
    }
}

impl PgArrayElement for bool {
    open spec fn array_type_info_spec() -> PgTypeInfoModel {
        PgTypeInfoModel { id: Some(1000u32), name: "BOOL[]"@ }
    }

    fn array_type_info() -> (r: PgTypeInfo) {
        PgTypeInfo::with_oid_and_name(1000, "BOOL[]")
    }

    proof fn element_not_null(&self) {
    }

    fn encode_element(&self, out: &mut Vec<u8>) {
        write_be4(out, 1);
        out.push(
            if *self {
                1
            } else {
                0
            },
        );
        assert(out@ =~= old(out)@ + PgArguments::frame_of(
            Some(<bool as Encode<Postgres>>::encode_units(self)),
        ));
    }
}

impl PgArrayElement for i16 {
    open spec fn array_type_info_spec() -> PgTypeInfoModel {
        PgTypeInfoModel { id: Some(1005u32), name: "INT2[]"@ }
    }

    fn array_type_info() -> (r: PgTypeInfo) {
        PgTypeInfo::with_oid_and_name(1005, "INT2[]")
    }

    proof fn element_not_null(&self) {
    }

    fn encode_element(&self, out: &mut Vec<u8>) {
        write_be4(out, 2);
        write_be2(out, #[verifier::truncate] (*self as u16));
        assert(out@ =~= old(out)@ + PgArguments::frame_of(
            Some(<i16 as Encode<Postgres>>::encode_units(self)),
        ));
    }
}

impl PgArrayElement for i32 {
    open spec fn array_type_info_spec() -> PgTypeInfoModel {
        PgTypeInfoModel { id: Some(1007u32), name: "INT4[]"@ }
    }

    fn array_type_info() -> (r: PgTypeInfo) {
        PgTypeInfo::with_oid_and_name(1007, "INT4[]")
    }

    proof fn element_not_null(&self) {
    }

    fn encode_element(&self, out: &mut Vec<u8>) {
        write_be4(out, 4);
        write_be4(out, #[verifier::truncate] (*self as u32));
        assert(out@ =~= old(out)@ + PgArguments::frame_of(
            Some(<i32 as Encode<Postgres>>::encode_units(self)),
        ));
    }
}

impl PgArrayElement for i64 {
    open spec fn array_type_info_spec() -> PgTypeInfoModel {
        PgTypeInfoModel { id: Some(1016u32), name: "INT8[]"@ }
    }

    fn array_type_info() -> (r: PgTypeInfo) {
        PgTypeInfo::with_oid_and_name(1016, "INT8[]")
    }

    proof fn element_not_null(&self) {
    }

    fn encode_element(&self, out: &mut Vec<u8>) {
        write_be4(out, 8);
        write_be8(out, #[verifier::truncate] (*self as u64));
        assert(out@ =~= old(out)@ + PgArguments::frame_of(
            Some(<i64 as Encode<Postgres>>::encode_units(self)),
        ));
    }
}

} // verus!

//! The binary argument buffer for the wire-protocol backend: each bound
//! value is stored as a 4-byte big-endian signed length followed by its
//! payload, with length -1 and no payload denoting SQL NULL.

use vstd::prelude::*;
use vstd::pervasive::VecAdditionalExecFns;
use crate::database::{Database, Postgres};
use crate::encode::{Encode, IsNull};
use crate::postgres::type_info::PgTypeInfo;
use crate::postgres::wire::spec_be4;

verus! {

/// Accumulated bind parameters for one wire-protocol execution:
/// the declared type of each parameter, and the encoded buffer.
pub struct PgArguments {
    /// Declared descriptors, one per bound value.
    pub types: Vec<PgTypeInfo>,

    /// Length-prefixed encoded values, concatenated.
    pub buffer: Vec<u8>,
}

impl PgArguments {
    /// An empty argument buffer.
    pub fn new() -> (r: Self)
        ensures
            r.types@.len() == 0,
            r.buffer@.len() == 0,
    {
        PgArguments { types: Vec::new(), buffer: Vec::new() }
    }

    /// Pre-allocates room for `additional` further values of `size`
    /// total encoded bytes. Allocation only; the contents are unchanged.
    pub fn reserve(&mut self, additional: usize, size: usize)
        ensures
            final(self).types@ == old(self).types@,
            final(self).buffer@ == old(self).buffer@,
    {
        self.types.reserve(additional);
        self.buffer.reserve(size);
    }

    /// The frame one value contributes to the buffer: a 4-byte
    /// big-endian length and the payload, or length `-1` (in two's
    /// complement) and no payload for SQL NULL.
    pub open spec fn frame_of(units: Option<Seq<u8>>) -> Seq<u8> {
        match units {
            None => spec_be4(0xffff_ffffu32),
            Some(p) => spec_be4(p.len() as u32) + p,
        }
    }

    /// The frame that adding `value` appends to the buffer.
    pub open spec fn encoded_frame<T: Encode<Postgres>>(value: T) -> Seq<u8> {
        Self::frame_of(
            if value.is_null_spec() {
                None
            } else {
                Some(value.encode_units())
            },
        )
    }

    /// Appends one bound value: its descriptor to the declared
    /// parameter types, and its length-prefixed bytes to the buffer.
    ///
    /// The encoder writes a placeholder length, lets [`Encode::encode`]
    /// append the payload, then backpatches the true length; for a NULL
    /// value the [`Encode`] contract guarantees no payload bytes were
    /// written and the length becomes `-1`.
    pub fn add<T: Encode<Postgres>>(&mut self, value: T)
        requires
            !value.is_null_spec() ==> value.encode_units().len() < 0x8000_0000,
            old(self).buffer@.len() + 4 + value.encode_units().len() <= usize::MAX,
        ensures
            Postgres::parameter_types(*final(self)) == Postgres::parameter_types(*old(self)).push(
                value.produces_spec(),
            ),
            final(self).buffer@ == old(self).buffer@ + Self::encoded_frame(value),
    {
        let ghost units = value.encode_units();
        let ghost was_null = value.is_null_spec();

        // remember the type information for this value
        let ti = value.produces();
        self.types.push(ti);

        // reserve space to write the prefixed length of the value
        let offset = self.buffer.len();
        self.buffer.push(0);
        self.buffer.push(0);
        self.buffer.push(0);
        self.buffer.push(0);

        // encode the value into our buffer
        let is_null = value.encode(self);

        // write the length to the beginning of the value
        match is_null {
            IsNull::No => {
                let len = (self.buffer.len() - offset - 4) as u32;
                assert(len == units.len());
                self.patch_be4(offset, len);
            },
            IsNull::Yes => {
                // -1 in two's complement: the value wrote no data
                self.patch_be4(offset, 0xffff_ffffu32);
            },
        }

        proof {
            assert(self.buffer@ =~= old(self).buffer@ + Self::encoded_frame(value));
            assert(self.types@.map_values(|t: PgTypeInfo| t@) =~= old(self).types@.map_values(
                |t: PgTypeInfo| t@,
            ).push(value.produces_spec()));
        }
    }

    /// Null handling, encode half: adding `Option::<T>::None` appends
    /// exactly the zero-length NULL marker — a length of `-1` in two's
    /// complement and no payload bytes.
    pub proof fn lemma_none_adds_null_marker<T: Encode<Postgres>>(x: Option<T>)
        requires
            x is None,
        ensures
            Self::encoded_frame(x) == spec_be4(0xffff_ffffu32),
            Self::encoded_frame(x).len() == 4,
    {
    }

    /// Overwrites the four bytes at `offset` with `x` big-endian.
    fn patch_be4(&mut self, offset: usize, x: u32)
        requires
            offset + 4 <= old(self).buffer@.len(),
        ensures
            final(self).types@ == old(self).types@,
            final(self).buffer@ == old(self).buffer@.subrange(0, offset as int) + spec_be4(x)
                + old(self).buffer@.subrange(offset + 4, old(self).buffer@.len() as int),
    {
        let n = self.buffer.len();
        assert(offset + 4 <= n);
        self.buffer.set(offset, #[verifier::truncate] ((x >> 24) as u8));
        self.buffer.set(offset + 1, #[verifier::truncate] ((x >> 16) as u8));
        self.buffer.set(offset + 2, #[verifier::truncate] ((x >> 8) as u8));
        self.buffer.set(offset + 3, #[verifier::truncate] (x as u8));
        assert(self.buffer@ =~= old(self).buffer@.subrange(0, offset as int) + spec_be4(x)
            + old(self).buffer@.subrange(offset + 4, old(self).buffer@.len() as int));
    }
}

} // verus!

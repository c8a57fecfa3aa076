//! Big-endian byte codecs for the wire protocol's binary format.

use vstd::prelude::*;

verus! {

/// The two big-endian bytes of a 16-bit value.
pub open spec fn spec_be2(x: u16) -> Seq<u8> {
    seq![(x >> 8) as u8, x as u8]
}

/// The four big-endian bytes of a 32-bit value.
pub open spec fn spec_be4(x: u32) -> Seq<u8> {
    seq![(x >> 24) as u8, (x >> 16) as u8, (x >> 8) as u8, x as u8]
}

/// The eight big-endian bytes of a 64-bit value.
pub open spec fn spec_be8(x: u64) -> Seq<u8> {
    seq![
        (x >> 56) as u8,
        (x >> 48) as u8,
        (x >> 40) as u8,
        (x >> 32) as u8,
        (x >> 24) as u8,
        (x >> 16) as u8,
        (x >> 8) as u8,
        x as u8,
    ]
}

/// The 16-bit value read from two big-endian bytes.
pub open spec fn spec_read_be2(b: Seq<u8>) -> u16
    recommends
        b.len() == 2,
{
    ((b[0] as u16) << 8) | (b[1] as u16)
}

/// The 32-bit value read from four big-endian bytes.
pub open spec fn spec_read_be4(b: Seq<u8>) -> u32
    recommends
        b.len() == 4,
{
    ((b[0] as u32) << 24) | ((b[1] as u32) << 16) | ((b[2] as u32) << 8) | (b[3] as u32)
}

/// The 64-bit value read from eight big-endian bytes.
pub open spec fn spec_read_be8(b: Seq<u8>) -> u64
    recommends
        b.len() == 8,
{
    ((b[0] as u64) << 56) | ((b[1] as u64) << 48) | ((b[2] as u64) << 40) | ((b[3] as u64) << 32)
        | ((b[4] as u64) << 24) | ((b[5] as u64) << 16) | ((b[6] as u64) << 8) | (b[7] as u64)
}

/// Writing a 16-bit value big-endian and reading it back is the identity.
pub proof fn lemma_be2_roundtrip(x: u16)
    ensures
        spec_read_be2(spec_be2(x)) == x,
{
    let b0 = (x >> 8) as u8;
    let b1 = x as u8;
    assert(spec_be2(x)[0] == b0 && spec_be2(x)[1] == b1);
    assert((((b0 as u16) << 8) | (b1 as u16)) == x) by (bit_vector)
        requires
            b0 == (x >> 8) as u8,
            b1 == x as u8,
    ;
}

/// Writing a 32-bit value big-endian and reading it back is the identity.
pub proof fn lemma_be4_roundtrip(x: u32)
    ensures
        spec_read_be4(spec_be4(x)) == x,
{
    let b0 = (x >> 24) as u8;
    let b1 = (x >> 16) as u8;
    let b2 = (x >> 8) as u8;
    let b3 = x as u8;
    assert(spec_be4(x)[0] == b0 && spec_be4(x)[1] == b1 && spec_be4(x)[2] == b2 && spec_be4(x)[3]
        == b3);
    assert((((b0 as u32) << 24) | ((b1 as u32) << 16) | ((b2 as u32) << 8) | (b3 as u32))
        == x) by (bit_vector)
        requires
            b0 == (x >> 24) as u8,
            b1 == (x >> 16) as u8,
            b2 == (x >> 8) as u8,
            b3 == x as u8,
    ;
}

/// Writing a 64-bit value big-endian and reading it back is the identity.
pub proof fn lemma_be8_roundtrip(x: u64)
    ensures
        spec_read_be8(spec_be8(x)) == x,
{
    let b0 = (x >> 56) as u8;
    let b1 = (x >> 48) as u8;
    let b2 = (x >> 40) as u8;
    let b3 = (x >> 32) as u8;
    let b4 = (x >> 24) as u8;
    let b5 = (x >> 16) as u8;
    let b6 = (x >> 8) as u8;
    let b7 = x as u8;
    assert(spec_be8(x)[0] == b0 && spec_be8(x)[1] == b1 && spec_be8(x)[2] == b2 && spec_be8(x)[3]
        == b3 && spec_be8(x)[4] == b4 && spec_be8(x)[5] == b5 && spec_be8(x)[6] == b6 && spec_be8(
        x,
    )[7] == b7);
    assert((((b0 as u64) << 56) | ((b1 as u64) << 48) | ((b2 as u64) << 40) | ((b3 as u64) << 32)
        | ((b4 as u64) << 24) | ((b5 as u64) << 16) | ((b6 as u64) << 8) | (b7 as u64)) == x)
        by (bit_vector)
        requires
            b0 == (x >> 56) as u8,
            b1 == (x >> 48) as u8,
            b2 == (x >> 40) as u8,
            b3 == (x >> 32) as u8,
            b4 == (x >> 24) as u8,
            b5 == (x >> 16) as u8,
            b6 == (x >> 8) as u8,
            b7 == x as u8,
    ;
}

/// Appends the two big-endian bytes of `x` to `out`.
pub fn write_be2(out: &mut Vec<u8>, x: u16)
    ensures
        final(out)@ == old(out)@ + spec_be2(x),
{
    out.push(#[verifier::truncate] ((x >> 8) as u8));
    out.push(#[verifier::truncate] (x as u8));
    assert(out@ =~= old(out)@ + spec_be2(x));
}

/// Appends the four big-endian bytes of `x` to `out`.
pub fn write_be4(out: &mut Vec<u8>, x: u32)
    ensures
        final(out)@ == old(out)@ + spec_be4(x),
{
    out.push(#[verifier::truncate] ((x >> 24) as u8));
    out.push(#[verifier::truncate] ((x >> 16) as u8));
    out.push(#[verifier::truncate] ((x >> 8) as u8));
    out.push(#[verifier::truncate] (x as u8));
    assert(out@ =~= old(out)@ + spec_be4(x));
}

/// Appends the eight big-endian bytes of `x` to `out`.
pub fn write_be8(out: &mut Vec<u8>, x: u64)
    ensures
        final(out)@ == old(out)@ + spec_be8(x),
{
    out.push(#[verifier::truncate] ((x >> 56) as u8));
    out.push(#[verifier::truncate] ((x >> 48) as u8));
    out.push(#[verifier::truncate] ((x >> 40) as u8));
    out.push(#[verifier::truncate] ((x >> 32) as u8));
    out.push(#[verifier::truncate] ((x >> 24) as u8));
    out.push(#[verifier::truncate] ((x >> 16) as u8));
    out.push(#[verifier::truncate] ((x >> 8) as u8));
    out.push(#[verifier::truncate] (x as u8));
    assert(out@ =~= old(out)@ + spec_be8(x));
}

/// Appends all bytes of `b` to `out`.
#[verifier::loop_isolation(false)]
pub fn write_bytes(out: &mut Vec<u8>, b: &[u8])
    ensures
        final(out)@ == old(out)@ + b@,
{
    let n = b.len();
    let mut i: usize = 0;
    while i < n
        invariant
            0 <= i <= n,
            out@ == old(out)@ + b@.subrange(0, i as int),
        decreases n - i,
    {
        out.push(b[i]);
        assert(out@ =~= old(out)@ + b@.subrange(0, i + 1));
        i = i + 1;
    }
    assert(b@.subrange(0, n as int) =~= b@);
}

/// Reads a 16-bit value from the two big-endian bytes of `b`.
pub fn read_be2(b: &Vec<u8>) -> (x: u16)
    requires
        b@.len() == 2,
    ensures
        x == spec_read_be2(b@),
{
    ((b[0] as u16) << 8) | (b[1] as u16)
}

/// Reads a 32-bit value from the four big-endian bytes of `b`.
pub fn read_be4(b: &Vec<u8>) -> (x: u32)
    requires
        b@.len() == 4,
    ensures
        x == spec_read_be4(b@),
{
    ((b[0] as u32) << 24) | ((b[1] as u32) << 16) | ((b[2] as u32) << 8) | (b[3] as u32)
}

/// Reads a 64-bit value from the eight big-endian bytes of `b`.
pub fn read_be8(b: &Vec<u8>) -> (x: u64)
    requires
        b@.len() == 8,
    ensures
        x == spec_read_be8(b@),
{
    ((b[0] as u64) << 56) | ((b[1] as u64) << 48) | ((b[2] as u64) << 40) | ((b[3] as u64) << 32)
        | ((b[4] as u64) << 24) | ((b[5] as u64) << 16) | ((b[6] as u64) << 8) | (b[7] as u64)
}

} // verus!

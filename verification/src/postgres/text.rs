//! Verified parsing of text-encoded integers, as they arrive from the
//! wire protocol's text format: an optional sign followed by decimal
//! digits, rejected when malformed or out of range.

use vstd::prelude::*;
use crate::decode::DecodeError;

verus! {

/// ASCII decimal digit.
pub open spec fn is_digit(b: u8) -> bool {
    48 <= b <= 57
}

/// Every byte of `s` is an ASCII decimal digit.
pub open spec fn all_digits(s: Seq<u8>) -> bool {
    forall|i: int| 0 <= i < s.len() ==> is_digit(#[trigger] s[i])
}

/// The number denoted by a sequence of decimal digits.
pub open spec fn digits_value(s: Seq<u8>) -> int
    decreases s.len(),
{
    if s.len() == 0 {
        0
    } else {
        digits_value(s.drop_last()) * 10 + (s.last() - 48)
    }
}

/// Whether `s` is well-formed integer text: an optional `+` or `-`
/// sign, then at least one decimal digit and nothing else.
pub open spec fn int_text_valid(s: Seq<u8>) -> bool {
    if s.len() > 0 && (s[0] == 43 || s[0] == 45) {
        s.len() > 1 && all_digits(s.skip(1))
    } else {
        s.len() > 0 && all_digits(s)
    }
}

/// The signed number denoted by well-formed integer text.
pub open spec fn int_text_value(s: Seq<u8>) -> int {
    if s.len() > 0 && s[0] == 45 {
        -digits_value(s.skip(1))
    } else if s.len() > 0 && s[0] == 43 {
        digits_value(s.skip(1))
    } else {
        digits_value(s)
    }
}

/// Ten to the power `n`.
pub open spec fn ten_pow(n: nat) -> int
    decreases n,
{
    if n == 0 {
        1
    } else {
        10 * ten_pow((n - 1) as nat)
    }
}

proof fn lemma_ten_pow_pos(n: nat)
    ensures
        ten_pow(n) >= 1,
    decreases n,
{
    if n > 0 {
        lemma_ten_pow_pos((n - 1) as nat);
    }
}

proof fn lemma_ten_pow_mono(a: nat, b: nat)
    requires
        a <= b,
    ensures
        ten_pow(a) <= ten_pow(b),
    decreases b,
{
    if a < b {
        lemma_ten_pow_mono(a, (b - 1) as nat);
        lemma_ten_pow_pos((b - 1) as nat);
    }
}

proof fn lemma_ten_pow_19()
    ensures
        ten_pow(19) == 10000000000000000000,
{
    reveal_with_fuel(ten_pow, 20);
}

proof fn lemma_digits_value_bounds(s: Seq<u8>)
    requires
        all_digits(s),
    ensures
        0 <= digits_value(s) < ten_pow(s.len()),
    decreases s.len(),
{
    if s.len() > 0 {
        assert(forall|i: int| 0 <= i < s.len() - 1 ==> s.drop_last()[i] == s[i]);
        lemma_digits_value_bounds(s.drop_last());
        assert(is_digit(s.last()));
    }
}

proof fn lemma_digits_value_lower(s: Seq<u8>)
    requires
        all_digits(s),
        s.len() > 0,
        s[0] != 48,
    ensures
        digits_value(s) >= ten_pow((s.len() - 1) as nat),
    decreases s.len(),
{
    if s.len() == 1 {
        assert(is_digit(s[0]));
    } else {
        assert(forall|i: int| 0 <= i < s.len() - 1 ==> s.drop_last()[i] == s[i]);
        lemma_digits_value_lower(s.drop_last());
        assert(is_digit(s.last()));
        let p = ten_pow((s.len() - 2) as nat);
        assert(ten_pow((s.len() - 1) as nat) == 10 * p);
        assert(digits_value(s.drop_last()) * 10 >= p * 10) by (nonlinear_arith)
            requires
                digits_value(s.drop_last()) >= p,
        ;
    }
}

proof fn lemma_digits_value_zeros(s: Seq<u8>)
    requires
        forall|i: int| 0 <= i < s.len() ==> s[i] == 48,
    ensures
        digits_value(s) == 0,
    decreases s.len(),
{
    if s.len() > 0 {
        assert(forall|i: int| 0 <= i < s.len() - 1 ==> s.drop_last()[i] == s[i]);
        lemma_digits_value_zeros(s.drop_last());
    }
}

proof fn lemma_digits_skip_zeros(s: Seq<u8>, z: int)
    requires
        0 <= z <= s.len(),
        forall|i: int| 0 <= i < z ==> s[i] == 48,
    ensures
        digits_value(s.skip(z)) == digits_value(s),
    decreases s.len(),
{
    if s.len() == z {
        lemma_digits_value_zeros(s);
        assert(s.skip(z) =~= Seq::<u8>::empty());
    } else {
        assert(s.skip(z).drop_last() =~= s.drop_last().skip(z));
        assert(s.skip(z).last() == s.last());
        assert(forall|i: int| 0 <= i < s.len() - 1 ==> s.drop_last()[i] == s[i]);
        lemma_digits_skip_zeros(s.drop_last(), z);
    }
}

/// A digits prefix never exceeds the whole: the value of the first `m`
/// digits is bounded by the value of all of them.
proof fn lemma_digits_prefix_bound(s: Seq<u8>, m: int)
    requires
        all_digits(s),
        0 <= m <= s.len(),
    ensures
        digits_value(s.subrange(0, m)) <= digits_value(s),
    decreases s.len() - m,
{
    if m < s.len() {
        lemma_digits_prefix_bound(s, m + 1);
        let a = s.subrange(0, m);
        let c = s.subrange(0, m + 1);
        assert(c.drop_last() =~= a);
        assert(c.last() == s[m]);
        assert(is_digit(c.last()));
        assert(forall|j: int| 0 <= j < a.len() ==> a[j] == s[j]);
        lemma_digits_value_bounds(a);
        assert(digits_value(c) == digits_value(a) * 10 + (c.last() - 48));
        assert(digits_value(a) <= digits_value(a) * 10 + (c.last() - 48));
    } else {
        assert(s.subrange(0, m) =~= s);
    }
}

/// Parses the signed 64-bit integer denoted by `b` in decimal text.
///
/// Succeeds exactly on well-formed integer text whose value fits in 64
/// signed bits; anything else is an integer decode error.
#[verifier::loop_isolation(false)]
pub fn parse_i64_text(b: &Vec<u8>) -> (r: Result<i64, DecodeError>)
    ensures
        int_text_valid(b@) && i64::MIN <= int_text_value(b@) <= i64::MAX ==> (r matches Ok(x) && x
            == int_text_value(b@)),
        !(int_text_valid(b@) && i64::MIN <= int_text_value(b@) <= i64::MAX) ==> r == Err::<
            i64,
            DecodeError,
        >(DecodeError::InvalidInt),
{
    let n = b.len();
    if n == 0 {
        return Err(DecodeError::InvalidInt);
    }
    let first = b[0];
    let negative = first == 45;
    let signed: bool = negative || first == 43;
    let start: usize = if signed {
        1
    } else {
        0
    };
    if start == n {
        // a bare sign with no digits
        return Err(DecodeError::InvalidInt);
    }
    let ghost d = b@.skip(start as int);
    proof {
        assert(d.len() == n - start);
        assert(forall|j: int| 0 <= j < d.len() ==> #[trigger] d[j] == b@[j + start]);
        if !signed {
            assert(d =~= b@);
        }
    }

    // every remaining byte must be a decimal digit
    let mut i = start;
    while i < n
        invariant
            start <= i <= n,
            n == b@.len(),
            forall|j: int| start <= j < i ==> is_digit(#[trigger] b@[j]),
        decreases n - i,
    {
        let c = b[i];
        if c < 48 || c > 57 {
            proof {
                assert(!is_digit(b@[i as int]));
                assert(d[i as int - start as int] == b@[i as int]);
                assert(!all_digits(d));
                assert(!int_text_valid(b@));
            }
            return Err(DecodeError::InvalidInt);
        }
        i = i + 1;
    }
    proof {
        assert(all_digits(d));
        assert(int_text_valid(b@));
    }

    // skip leading zeros so the digit count bounds the magnitude
    let mut z = start;
    while z < n && b[z] == 48
        invariant
            start <= z <= n,
            n == b@.len(),
            forall|j: int| start <= j < z ==> b@[j] == 48,
        decreases n - z,
    {
        z = z + 1;
    }
    let ghost rem = b@.skip(z as int);
    proof {
        assert(rem.len() == n - z);
        assert(forall|j: int| 0 <= j < rem.len() ==> #[trigger] rem[j] == b@[j + z]);
        assert(all_digits(rem));
        assert(rem =~= d.skip(z - start));
        assert(forall|j: int| 0 <= j < z - start ==> d[j] == 48);
        lemma_digits_skip_zeros(d, z - start);
        assert(digits_value(rem) == digits_value(d));
        lemma_digits_value_bounds(rem);
        lemma_ten_pow_19();
    }

    if n - z > 19 {
        // at least twenty significant digits: out of 64-bit range
        proof {
            assert(rem[0] == b@[z as int]);
            assert(rem[0] != 48);
            lemma_digits_value_lower(rem);
            lemma_ten_pow_mono(19, (rem.len() - 1) as nat);
            assert(digits_value(d) >= 10000000000000000000);
        }
        return Err(DecodeError::InvalidInt);
    }

    // at most nineteen significant digits always fit in 64 unsigned bits
    proof {
        lemma_ten_pow_mono(rem.len(), 19);
        assert(digits_value(rem) < 10000000000000000000);
    }
    let mut acc: u64 = 0;
    let mut k = z;
    while k < n
        invariant
            z <= k <= n,
            n == b@.len(),
            all_digits(rem),
            rem == b@.skip(z as int),
            digits_value(rem) < 10000000000000000000,
            acc == digits_value(b@.subrange(z as int, k as int)),
            acc < 10000000000000000000,
        decreases n - k,
    {
        let ghost prefix = b@.subrange(z as int, k as int);
        let ghost next = b@.subrange(z as int, k as int + 1);
        proof {
            assert(next.drop_last() =~= prefix);
            assert(next.last() == b@[k as int]);
            assert(rem[k as int - z as int] == b@[k as int]);
            assert(is_digit(b@[k as int]));
            assert(forall|j: int| 0 <= j < next.len() ==> next[j] == rem[j]);
            assert(next =~= rem.subrange(0, k as int + 1 - z as int));
            lemma_digits_prefix_bound(rem, k as int + 1 - z as int);
            assert(digits_value(next) <= digits_value(rem));
        }
        let c = b[k];
        acc = acc * 10 + ((c - 48) as u64);
        k = k + 1;
    }
    proof {
        assert(b@.subrange(z as int, n as int) =~= rem);
        assert(acc == digits_value(d));
        if negative {
            assert(int_text_value(b@) == -digits_value(d));
        } else if signed {
            assert(int_text_value(b@) == digits_value(d));
        } else {
            assert(int_text_value(b@) == digits_value(b@));
            assert(d =~= b@);
        }
    }

    // range check and sign application
    if negative {
        if acc > 9223372036854775808u64 {
            return Err(DecodeError::InvalidInt);
        }
        if acc == 9223372036854775808u64 {
            return Ok(i64::MIN);
        }
        Ok(-(acc as i64))
    } else {
        if acc > 9223372036854775807u64 {
            return Err(DecodeError::InvalidInt);
        }
        Ok(acc as i64)
    }
}

} // verus!

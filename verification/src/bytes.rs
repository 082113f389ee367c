//! Big-endian byte-string codec.
//!
//! Wire-format integer fields are unsigned big-endian byte strings of any
//! length; the empty string denotes zero.  Decoding is permissive (leading
//! zero bytes are accepted), encoding is canonical (minimal length, no
//! leading zero byte, empty for zero).

use vstd::prelude::*;
use vstd::arithmetic::power::pow;
use vstd::arithmetic::power::lemma_pow_positive;
use vstd::arithmetic::power::lemma_pow_adds;
use vstd::arithmetic::div_mod::lemma_fundamental_div_mod_converse_div;
use vstd::arithmetic::div_mod::lemma_fundamental_div_mod_converse_mod;
use crate::errors::DecodeError;

verus! {

/// Big-endian value of a byte string; the empty string denotes zero.
pub open spec fn be_nat(s: Seq<u8>) -> nat
    decreases s.len(),
{
    if s.len() == 0 {
        0
    } else {
        be_nat(s.drop_last()) * 256 + (s.last() as nat)
    }
}

/// Minimal big-endian form of a value: no leading zero byte, empty for zero.
pub open spec fn min_be(n: nat) -> Seq<u8>
    decreases n,
{
    if n == 0 {
        Seq::empty()
    } else {
        min_be(n / 256).push((n % 256) as u8)
    }
}

/// Appending a byte multiplies the value by 256 and adds the byte.
pub proof fn lemma_be_nat_snoc(s: Seq<u8>, b: u8)
    ensures
        be_nat(s.push(b)) == be_nat(s) * 256 + b,
{
    assert(s.push(b).drop_last() =~= s);
    assert(s.push(b).last() == b);
}

/// A byte string of length `k` holds a value below `256^k`.
pub proof fn lemma_be_nat_bound(s: Seq<u8>)
    ensures
        be_nat(s) < pow(256, s.len()),
    decreases s.len(),
{
    if s.len() == 0 {
        assert(pow(256, 0) == 1) by {
            vstd::arithmetic::power::lemma_pow0(256);
        }
    } else {
        lemma_be_nat_bound(s.drop_last());
        assert(pow(256, s.len()) == 256 * pow(256, (s.len() - 1) as nat)) by {
            vstd::arithmetic::power::lemma_pow1(256);
            lemma_pow_adds(256, 1, (s.len() - 1) as nat);
        }
    }
}

/// A byte string without a leading zero holds a value of at least
/// `256^(k-1)`.
pub proof fn lemma_be_nat_lower(s: Seq<u8>)
    requires
        s.len() > 0,
        s[0] != 0,
    ensures
        be_nat(s) >= pow(256, (s.len() - 1) as nat),
    decreases s.len(),
{
    if s.len() == 1 {
        assert(pow(256, 0) == 1) by {
            vstd::arithmetic::power::lemma_pow0(256);
        }
        assert(be_nat(s) == be_nat(s.drop_last()) * 256 + s[0]);
    } else {
        lemma_be_nat_lower(s.drop_last());
        assert(pow(256, (s.len() - 1) as nat) == pow(256, (s.len() - 2) as nat) * 256) by {
            vstd::arithmetic::power::lemma_pow1(256);
            lemma_pow_adds(256, (s.len() - 2) as nat, 1);
        }
    }
}

/// Extending a byte string to the right never lowers its value.
pub proof fn lemma_be_nat_prefix_le(s: Seq<u8>, i: int)
    requires
        0 <= i <= s.len(),
    ensures
        be_nat(s.subrange(0, i)) <= be_nat(s),
    decreases s.len() - i,
{
    if i == s.len() {
        assert(s.subrange(0, i) =~= s);
    } else {
        lemma_be_nat_prefix_le(s, i + 1);
        assert(s.subrange(0, i + 1).drop_last() =~= s.subrange(0, i));
        assert(be_nat(s.subrange(0, i + 1))
            == be_nat(s.subrange(0, i)) * 256 + s.subrange(0, i + 1).last());
    }
}

/// A string of zero bytes holds the value zero.
pub proof fn lemma_be_nat_zeros(s: Seq<u8>)
    requires
        forall|j: int| 0 <= j < s.len() ==> s[j] == 0,
    ensures
        be_nat(s) == 0,
    decreases s.len(),
{
    if s.len() > 0 {
        lemma_be_nat_zeros(s.drop_last());
    }
}

/// Leading zero bytes do not change the value.
pub proof fn lemma_be_nat_skip_zeros(s: Seq<u8>, i: int)
    requires
        0 <= i <= s.len(),
        forall|j: int| 0 <= j < i ==> s[j] == 0,
    ensures
        be_nat(s.subrange(i, s.len() as int)) == be_nat(s),
    decreases s.len(),
{
    if i == 0 {
        assert(s.subrange(0, s.len() as int) =~= s);
    } else if i == s.len() {
        lemma_be_nat_zeros(s);
        assert(s.subrange(i, s.len() as int) =~= Seq::<u8>::empty());
    } else {
        let t = s.drop_last();
        lemma_be_nat_skip_zeros(t, i);
        assert(s.subrange(i, s.len() as int).drop_last() =~= t.subrange(i, t.len() as int));
        assert(s.subrange(i, s.len() as int).last() == s.last());
    }
}

/// The minimal form evaluates back to its value and has no leading zero.
pub proof fn lemma_min_be_value(n: nat)
    ensures
        be_nat(min_be(n)) == n,
        n == 0 <==> min_be(n).len() == 0,
        n > 0 ==> min_be(n)[0] != 0,
    decreases n,
{
    if n > 0 {
        lemma_min_be_value(n / 256);
        lemma_be_nat_snoc(min_be(n / 256), (n % 256) as u8);
        if n / 256 > 0 {
            assert(min_be(n)[0] == min_be(n / 256)[0]);
        }
    }
}

/// A byte string without a leading zero is the minimal form of its value.
pub proof fn lemma_min_be_canon(s: Seq<u8>)
    requires
        s.len() == 0 || s[0] != 0,
    ensures
        min_be(be_nat(s)) == s,
    decreases s.len(),
{
    if s.len() == 0 {
    } else {
        let t = s.drop_last();
        let b = s.last();
        lemma_min_be_canon(t);
        lemma_fundamental_div_mod_converse_div(be_nat(s) as int, 256, be_nat(t) as int, b as int);
        lemma_fundamental_div_mod_converse_mod(be_nat(s) as int, 256, be_nat(t) as int, b as int);
        if be_nat(s) == 0 {
            // then t evaluates to zero and the last byte is zero
            if t.len() > 0 {
                lemma_be_nat_lower(t);
                lemma_pow_positive(256, (t.len() - 1) as nat);
            }
            assert(t.len() == 0);
            assert(s =~= seq![b]);
            assert(b == s[0]);
            assert(false);
        } else {
            if t.len() > 0 {
                lemma_be_nat_lower(t);
                lemma_pow_positive(256, (t.len() - 1) as nat);
                assert(be_nat(t) > 0);
            }
            assert(min_be(be_nat(s)) == min_be(be_nat(t)).push(b));
            assert(min_be(be_nat(s)) =~= s);
        }
    }
}

/// The minimal form of a value below `256^k` fits in `k` bytes.
pub proof fn lemma_min_be_len(n: nat, k: nat)
    requires
        n < pow(256, k),
    ensures
        min_be(n).len() <= k,
{
    lemma_min_be_value(n);
    if min_be(n).len() > k {
        lemma_be_nat_lower(min_be(n));
        assert(pow(256, k) <= pow(256, (min_be(n).len() - 1) as nat)) by {
            if k < min_be(n).len() - 1 {
                vstd::arithmetic::power::lemma_pow_strictly_increases(
                    256,
                    k,
                    (min_be(n).len() - 1) as nat,
                );
            }
        }
    }
}

/// Verified copy of the bytes of `b` from `a` up to `c`.
pub fn sub_bytes(b: &Vec<u8>, a: usize, c: usize) -> (r: Vec<u8>)
    requires
        a <= c <= b@.len(),
    ensures
        r@ == b@.subrange(a as int, c as int),
{
    let mut r: Vec<u8> = Vec::new();
    let mut j = a;
    while j < c
        invariant
            a <= j <= c <= b@.len(),
            r@ =~= b@.subrange(a as int, j as int),
        decreases c - j,
    {
        r.push(b[j]);
        j = j + 1;
    }
    proof {
        assert(r@ =~= b@.subrange(a as int, c as int));
    }
    r
}

/// Numeric value of eight bytes: the first bound a `u64` cannot reach.
pub proof fn lemma_pow256_8()
    ensures
        pow(256, 8) == 0x1_0000_0000_0000_0000,
{
    reveal_with_fuel(pow, 9);
}

/// Decode an unsigned big-endian byte string into a `u64`.
///
/// The empty string decodes to zero; any length is accepted, and the
/// decode fails exactly when the value exceeds the target width.
pub fn bytes_to_u64(b: &Vec<u8>) -> (r: Result<u64, DecodeError>)
    ensures
        match r {
            Ok(v) => be_nat(b@) <= u64::MAX && v == be_nat(b@),
            Err(e) => be_nat(b@) > u64::MAX && e == DecodeError::BigEndianOverflow,
        },
{
    let mut acc: u64 = 0;
    let mut i: usize = 0;
    while i < b.len()
        invariant
            0 <= i <= b@.len(),
            acc == be_nat(b@.subrange(0, i as int)),
        decreases b@.len() - i,
    {
        let byte = b[i];
        proof {
            assert(b@.subrange(0, i + 1).drop_last() =~= b@.subrange(0, i as int));
            assert(b@.subrange(0, i + 1).last() == b@[i as int]);
            assert(be_nat(b@.subrange(0, i + 1)) == acc * 256 + byte);
        }
        if acc > 0x00FF_FFFF_FFFF_FFFFu64 {
            proof {
                lemma_be_nat_prefix_le(b@, i + 1);
            }
            return Err(DecodeError::BigEndianOverflow);
        }
        let shifted = acc * 256;
        if byte as u64 > u64::MAX - shifted {
            proof {
                lemma_be_nat_prefix_le(b@, i + 1);
            }
            return Err(DecodeError::BigEndianOverflow);
        }
        acc = shifted + byte as u64;
        i = i + 1;
    }
    proof {
        assert(b@.subrange(0, b@.len() as int) =~= b@);
    }
    Ok(acc)
}

/// Verified byte-for-byte copy of a byte string.
pub fn clone_bytes(b: &Vec<u8>) -> (r: Vec<u8>)
    ensures
        r@ == b@,
{
    let mut r: Vec<u8> = Vec::new();
    let mut i: usize = 0;
    while i < b.len()
        invariant
            i <= b@.len(),
            r@ =~= b@.subrange(0, i as int),
        decreases b@.len() - i,
    {
        r.push(b[i]);
        i = i + 1;
    }
    proof {
        assert(r@ =~= b@);
    }
    r
}

/// Encode a `u64` in minimal big-endian form: no leading zero byte, empty
/// for zero.
pub fn u64_to_bytes(v: u64) -> (r: Vec<u8>)
    ensures
        r@ == min_be(v as nat),
        be_nat(r@) == v,
    decreases v,
{
    proof {
        lemma_min_be_value(v as nat);
    }
    if v == 0 {
        let r: Vec<u8> = Vec::new();
        assert(r@ =~= min_be(0));
        r
    } else {
        let mut r = u64_to_bytes(v / 256);
        r.push((v % 256) as u8);
        r
    }
}

} // verus!

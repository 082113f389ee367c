//! Hexadecimal codec on ASCII bytes.
//!
//! Encoding produces two lower-case digits per byte; decoding accepts
//! both cases and fails on an odd length or a non-digit byte.

use vstd::prelude::*;
use crate::errors::HexError;

verus! {

/// Whether an ASCII byte is a hexadecimal digit.
pub open spec fn is_hex_digit(c: u8) -> bool {
    (0x30 <= c <= 0x39) || (0x61 <= c <= 0x66) || (0x41 <= c <= 0x46)
}

/// Value of a hexadecimal digit byte.
pub open spec fn hex_val(c: u8) -> u8 {
    if 0x30 <= c <= 0x39 {
        (c - 0x30) as u8
    } else if 0x61 <= c <= 0x66 {
        (c - 0x61 + 10) as u8
    } else {
        (c - 0x41 + 10) as u8
    }
}

/// Lower-case digit byte of a value below 16.
pub open spec fn hex_digit(v: u8) -> u8 {
    if v < 10 {
        (0x30 + v) as u8
    } else {
        (0x61 + v - 10) as u8
    }
}

/// Hexadecimal form of a byte string: two lower-case digits per byte,
/// high nibble first.
pub open spec fn spec_hex_encode(b: Seq<u8>) -> Seq<u8> {
    Seq::new(
        b.len() * 2,
        |i: int|
            if i % 2 == 0 {
                hex_digit(b[i / 2] / 16)
            } else {
                hex_digit(b[i / 2] % 16)
            },
    )
}

/// Whether an ASCII string is a well-formed hexadecimal encoding.
pub open spec fn spec_hex_valid(s: Seq<u8>) -> bool {
    s.len() % 2 == 0 && (forall|i: int| 0 <= i < s.len() ==> is_hex_digit(#[trigger] s[i]))
}

/// Bytes denoted by a well-formed hexadecimal string.
pub open spec fn spec_hex_decode(s: Seq<u8>) -> Seq<u8> {
    Seq::new(s.len() / 2, |i: int| (hex_val(s[2 * i]) * 16 + hex_val(s[2 * i + 1])) as u8)
}

/// Encode bytes as lower-case hexadecimal ASCII.
pub fn hex_encode(b: &Vec<u8>) -> (r: Vec<u8>)
    ensures
        r@ == spec_hex_encode(b@),
{
    let mut r: Vec<u8> = Vec::new();
    let mut i: usize = 0;
    while i < b.len()
        invariant
            i <= b@.len(),
            r@.len() == 2 * i,
            r@ =~= spec_hex_encode(b@).subrange(0, 2 * i as int),
        decreases b@.len() - i,
    {
        let byte = b[i];
        let hi = byte / 16;
        let lo = byte % 16;
        r.push(if hi < 10 { 0x30 + hi } else { 0x61 + hi - 10 });
        r.push(if lo < 10 { 0x30 + lo } else { 0x61 + lo - 10 });
        proof {
            assert(r@ =~= spec_hex_encode(b@).subrange(0, 2 * (i + 1)));
        }
        i = i + 1;
    }
    proof {
        assert(spec_hex_encode(b@).subrange(0, 2 * b@.len() as int) =~= spec_hex_encode(b@));
    }
    r
}

/// Decode hexadecimal ASCII into bytes.
///
/// Fails with `OddLength` exactly when the length is odd, and with
/// `InvalidDigit` exactly when some byte is not a hexadecimal digit.
pub fn hex_decode(s: &Vec<u8>) -> (out: Result<Vec<u8>, HexError>)
    ensures
        match out {
            Ok(r) => spec_hex_valid(s@) && r@ == spec_hex_decode(s@),
            Err(HexError::OddLength) => s@.len() % 2 != 0,
            Err(HexError::InvalidDigit) => s@.len() % 2 == 0 && !(forall|i: int|
                0 <= i < s@.len() ==> is_hex_digit(#[trigger] s@[i])),
        },
{
    if s.len() % 2 != 0 {
        return Err(HexError::OddLength);
    }
    let mut r: Vec<u8> = Vec::new();
    let mut i: usize = 0;
    while i < s.len()
        invariant
            i <= s@.len(),
            i % 2 == 0,
            s@.len() % 2 == 0,
            forall|j: int| 0 <= j < i ==> is_hex_digit(#[trigger] s@[j]),
            r@.len() == i / 2,
            r@ =~= spec_hex_decode(s@).subrange(0, i as int / 2),
        decreases s@.len() - i,
    {
        let hi = s[i];
        let lo = s[i + 1];
        let hi_val: u8;
        if 0x30 <= hi && hi <= 0x39 {
            hi_val = hi - 0x30;
        } else if 0x61 <= hi && hi <= 0x66 {
            hi_val = hi - 0x61 + 10;
        } else if 0x41 <= hi && hi <= 0x46 {
            hi_val = hi - 0x41 + 10;
        } else {
            return Err(HexError::InvalidDigit);
        }
        let lo_val: u8;
        if 0x30 <= lo && lo <= 0x39 {
            lo_val = lo - 0x30;
        } else if 0x61 <= lo && lo <= 0x66 {
            lo_val = lo - 0x61 + 10;
        } else if 0x41 <= lo && lo <= 0x46 {
            lo_val = lo - 0x41 + 10;
        } else {
            return Err(HexError::InvalidDigit);
        }
        r.push(hi_val * 16 + lo_val);
        proof {
            assert(r@ =~= spec_hex_decode(s@).subrange(0, (i as int + 2) / 2));
        }
        i = i + 2;
    }
    proof {
        assert(spec_hex_decode(s@).subrange(0, s@.len() as int / 2) =~= spec_hex_decode(s@));
    }
    Ok(r)
}

/// Hex round trip: decoding an encoding yields the bytes unchanged.
pub proof fn lemma_hex_round_trip(b: Seq<u8>)
    ensures
        spec_hex_valid(spec_hex_encode(b)),
        spec_hex_decode(spec_hex_encode(b)) == b,
{
    let e = spec_hex_encode(b);
    assert forall|i: int| 0 <= i < e.len() implies is_hex_digit(#[trigger] e[i]) by {
        if i % 2 == 0 {
            assert(e[i] == hex_digit(b[i / 2] / 16));
        } else {
            assert(e[i] == hex_digit(b[i / 2] % 16));
        }
    }
    assert forall|i: int| 0 <= i < b.len() implies spec_hex_decode(e)[i] == b[i] by {
        assert(e[2 * i] == hex_digit(b[i] / 16));
        assert(e[2 * i + 1] == hex_digit(b[i] % 16));
        assert(hex_val(hex_digit(b[i] / 16)) == b[i] / 16);
        assert(hex_val(hex_digit(b[i] % 16)) == b[i] % 16);
    }
    assert(spec_hex_decode(e) =~= b);
}

} // verus!

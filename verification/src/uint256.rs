//! Fixed-width value types of the transaction model.
//!
//! A `U256` is an unsigned 256-bit integer held as 32 big-endian bytes; an
//! `Address` is a 20-byte account identifier.  Both decode permissively
//! from wire byte strings and encode canonically (minimal length).

use vstd::prelude::*;
use vstd::arithmetic::power::pow;
use crate::bytes::{
    be_nat, min_be, clone_bytes, lemma_be_nat_zeros, lemma_be_nat_skip_zeros,
    lemma_be_nat_lower, lemma_be_nat_bound, lemma_min_be_canon,
};
use crate::errors::DecodeError;

verus! {

/// Unsigned 256-bit integer, held as exactly 32 big-endian bytes.
pub struct U256 {
    pub bytes: Vec<u8>,
}

/// First bound that no longer fits in 256 bits.
pub open spec fn u256_bound() -> nat {
    pow(256, 32) as nat
}

impl U256 {
    /// The representation holds exactly 32 bytes.
    pub open spec fn wf(&self) -> bool {
        self.bytes@.len() == 32
    }

    /// Numeric value of the 32 big-endian bytes.
    pub open spec fn value(&self) -> nat {
        be_nat(self.bytes@)
    }

    /// The zero value.
    pub fn zero() -> (r: U256)
        ensures
            r.wf(),
            r.value() == 0,
    {
        let mut bytes: Vec<u8> = Vec::new();
        let mut k: usize = 0;
        while k < 32
            invariant
                bytes@.len() == k,
                k <= 32,
                forall|j: int| 0 <= j < k ==> bytes@[j] == 0,
            decreases 32 - k,
        {
            bytes.push(0u8);
            k = k + 1;
        }
        proof {
            lemma_be_nat_zeros(bytes@);
        }
        U256 { bytes }
    }

    /// The value of a `u64`.
    pub fn from_u64(v: u64) -> (r: U256)
        ensures
            r.wf(),
            r.value() == v,
    {
        proof {
            crate::bytes::lemma_pow256_8();
            vstd::arithmetic::power::lemma_pow_increases(256, 8, 32);
            crate::bytes::lemma_min_be_value(v as nat);
        }
        let bytes = crate::bytes::u64_to_bytes(v);
        match U256::from_bytes_be(&bytes) {
            Ok(r) => r,
            // a u64 value always fits 256 bits, so this arm cannot be taken
            Err(_) => U256::zero(),
        }
    }

    /// Decode an unsigned big-endian byte string of any length.
    ///
    /// The empty string decodes to zero; leading zero bytes are accepted;
    /// the decode fails exactly when the value exceeds 256 bits.
    pub fn from_bytes_be(b: &Vec<u8>) -> (r: Result<U256, DecodeError>)
        ensures
            match r {
                Ok(u) => u.wf() && u.value() == be_nat(b@) && be_nat(b@) < u256_bound(),
                Err(e) => be_nat(b@) >= u256_bound() && e == DecodeError::BigEndianOverflow,
            },
    {
        let mut i: usize = 0;
        while i < b.len() && b[i] == 0
            invariant
                i <= b@.len(),
                forall|j: int| 0 <= j < i ==> b@[j] == 0,
            decreases b@.len() - i,
        {
            i = i + 1;
        }
        let tail = b.len() - i;
        proof {
            lemma_be_nat_skip_zeros(b@, i as int);
        }
        if tail > 32 {
            proof {
                let t = b@.subrange(i as int, b@.len() as int);
                lemma_be_nat_lower(t);
                vstd::arithmetic::power::lemma_pow_positive(256, 32);
                vstd::arithmetic::power::lemma_pow_increases(256, 32, (tail - 1) as nat);
            }
            return Err(DecodeError::BigEndianOverflow);
        }
        let mut bytes: Vec<u8> = Vec::new();
        let mut k: usize = 0;
        while k < 32 - tail
            invariant
                bytes@.len() == k,
                k <= 32 - tail <= 32,
                forall|j: int| 0 <= j < k ==> bytes@[j] == 0,
            decreases 32 - tail - k,
        {
            bytes.push(0u8);
            k = k + 1;
        }
        let pad = bytes.len();
        let mut j = i;
        while j < b.len()
            invariant
                i <= j <= b@.len(),
                pad == 32 - tail,
                tail == b@.len() - i,
                bytes@.len() == pad + j - i,
                forall|q: int| 0 <= q < pad ==> bytes@[q] == 0,
                bytes@.subrange(pad as int, bytes@.len() as int)
                    =~= b@.subrange(i as int, j as int),
            decreases b@.len() - j,
        {
            bytes.push(b[j]);
            j = j + 1;
        }
        proof {
            assert(bytes@.subrange(pad as int, bytes@.len() as int)
                =~= b@.subrange(i as int, b@.len() as int));
            lemma_be_nat_skip_zeros(bytes@, pad as int);
            lemma_be_nat_bound(bytes@);
        }
        Ok(U256 { bytes })
    }

    /// Canonical wire form: minimal big-endian bytes, empty for zero.
    pub fn to_minimal_bytes(&self) -> (r: Vec<u8>)
        requires
            self.wf(),
        ensures
            r@ == min_be(self.value()),
            be_nat(r@) == self.value(),
    {
        let mut i: usize = 0;
        while i < self.bytes.len() && self.bytes[i] == 0
            invariant
                i <= self.bytes@.len(),
                forall|j: int| 0 <= j < i ==> self.bytes@[j] == 0,
            decreases self.bytes@.len() - i,
        {
            i = i + 1;
        }
        let mut r: Vec<u8> = Vec::new();
        let mut j = i;
        while j < self.bytes.len()
            invariant
                i <= j <= self.bytes@.len(),
                r@ =~= self.bytes@.subrange(i as int, j as int),
            decreases self.bytes@.len() - j,
        {
            r.push(self.bytes[j]);
            j = j + 1;
        }
        proof {
            let t = self.bytes@.subrange(i as int, self.bytes@.len() as int);
            assert(r@ =~= t);
            lemma_be_nat_skip_zeros(self.bytes@, i as int);
            lemma_min_be_canon(t);
        }
        r
    }
}

impl Clone for U256 {
    /// A clone holds the same 32 bytes.
    fn clone(&self) -> (r: Self)
        ensures
            r.bytes@ == self.bytes@,
    {
        U256 { bytes: clone_bytes(&self.bytes) }
    }
}

/// Twenty-byte account address, always derived from a public key or
/// decoded from the wire, never chosen directly.
pub struct Address {
    pub bytes: Vec<u8>,
}

impl Address {
    /// The representation holds exactly 20 bytes.
    pub open spec fn wf(&self) -> bool {
        self.bytes@.len() == 20
    }

    /// The all-zero address: the sentinel for contract creation.
    pub fn zero() -> (r: Address)
        ensures
            r.wf(),
            forall|j: int| 0 <= j < 20 ==> r.bytes@[j] == 0,
    {
        let mut bytes: Vec<u8> = Vec::new();
        let mut k: usize = 0;
        while k < 20
            invariant
                bytes@.len() == k,
                k <= 20,
                forall|j: int| 0 <= j < k ==> bytes@[j] == 0,
            decreases 20 - k,
        {
            bytes.push(0u8);
            k = k + 1;
        }
        Address { bytes }
    }

    /// Build an address from exactly 20 bytes; any other length is refused.
    pub fn from_bytes(b: &Vec<u8>) -> (r: Result<Address, DecodeError>)
        ensures
            match r {
                Ok(a) => b@.len() == 20 && a.bytes@ == b@,
                Err(e) => b@.len() != 20 && e == DecodeError::InvalidRecipient,
            },
    {
        if b.len() != 20 {
            return Err(DecodeError::InvalidRecipient);
        }
        Ok(Address { bytes: clone_bytes(b) })
    }
}

impl Clone for Address {
    /// A clone holds the same 20 bytes.
    fn clone(&self) -> (r: Self)
        ensures
            r.bytes@ == self.bytes@,
    {
        Address { bytes: clone_bytes(&self.bytes) }
    }
}

} // verus!

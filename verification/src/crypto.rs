//! Trusted boundary to the outside cryptography.
//!
//! Keccak-256 and the secp256k1 operations are performed by outside
//! crates; their results are named by uninterpreted spec functions, and
//! each wrapper states only what the outside source shows.  Everything
//! that can be computed from these results is verified elsewhere.

use vstd::prelude::*;
use vstd::arithmetic::power2::pow2;
use crate::bytes::be_nat;

verus! {

/// Order of the secp256k1 group, high 128 bits times `2^128` plus low
/// 128 bits: every signature scalar lies strictly between zero and this
/// bound.
pub open spec fn secp_group_order() -> nat {
    (0xFFFFFFFF_FFFFFFFF_FFFFFFFF_FFFFFFFEu128 * pow2(128)
        + 0xBAAEDCE6_AF48A03B_BFD25E8C_D0364141u128) as nat
}

/// Keccak-256 digest of a byte string: a function of the input alone.
pub uninterp spec fn keccak256_of(data: Seq<u8>) -> Seq<u8>;

/// Whether 32 bytes encode a valid secp256k1 secret scalar: a function
/// of the bytes alone.
pub uninterp spec fn secp_valid_secret(key: Seq<u8>) -> bool;

/// The 65-byte uncompressed SEC1 public key of a valid secret key.
pub uninterp spec fn secp_public_key_of(key: Seq<u8>) -> Seq<u8>;

/// The deterministic (RFC 6979) recoverable ECDSA signature of a 32-byte
/// digest under a valid secret key: the scalars r and s as 32 big-endian
/// bytes each, and the recovery id.
pub uninterp spec fn secp_signature_of(digest: Seq<u8>, key: Seq<u8>) -> (Seq<u8>, Seq<u8>, u8);

/// The public key recovered from a signature over a 32-byte digest, or
/// `None` where the scalars are out of range or point recovery fails: a
/// function of the arguments alone.
pub uninterp spec fn secp_recover(
    digest: Seq<u8>,
    r: Seq<u8>,
    s: Seq<u8>,
    recovery_id: u8,
) -> Option<Seq<u8>>;

/// Relies on tiny_keccak's `Keccak::v256`: the 32-byte Keccak-256 digest
/// of the input, a function of the input bytes alone.
#[verifier::external_body]
pub(crate) fn keccak256(data: &Vec<u8>) -> (r: Vec<u8>)
    ensures
        r@ == keccak256_of(data@),
        r@.len() == 32,
{
    let mut hasher = tiny_keccak::Keccak::v256();
    tiny_keccak::Hasher::update(&mut hasher, data.as_slice());
    let mut out = [0u8; 32];
    tiny_keccak::Hasher::finalize(hasher, &mut out);
    out.to_vec()
}

/// Relies on secp256k1's `SecretKey::from_slice` and
/// `PublicKey::from_secret_key` with `serialize_uncompressed`: a secret
/// key is accepted exactly when it is a valid scalar (which requires 32
/// bytes), and the public key serializes to 65 bytes led by `0x04`.
#[verifier::external_body]
pub(crate) fn secp_public_key(key: &Vec<u8>) -> (out: Option<Vec<u8>>)
    ensures
        match out {
            Some(pk) => secp_valid_secret(key@) && pk@ == secp_public_key_of(key@) && pk@.len()
                == 65 && pk@[0] == 4,
            None => !secp_valid_secret(key@),
        },
{
    let sk = match secp256k1::SecretKey::from_slice(key.as_slice()) {
        Ok(sk) => sk,
        Err(_) => return None,
    };
    let secp = secp256k1::Secp256k1::new();
    let pk = secp256k1::key::PublicKey::from_secret_key(&secp, &sk);
    Some(pk.serialize_uncompressed().to_vec())
}

/// Relies on secp256k1's `sign_recoverable` with `serialize_compact`: the
/// deterministic RFC 6979 signature of the digest, serialized as r then s
/// (32 bytes each) with a recovery id of at most 3; the underlying
/// signing loop accepts only nonzero reduced scalars, so r and s lie
/// strictly between zero and the group order; per the library's `recover`
/// documentation, recovering with exactly these values yields the
/// signer's public key.  `SecretKey::from_slice` decides validity.
#[verifier::external_body]
pub(crate) fn secp_sign_recoverable(digest: &Vec<u8>, key: &Vec<u8>) -> (out: Option<(Vec<u8>, Vec<u8>, u8)>)
    requires
        digest@.len() == 32,
    ensures
        match out {
            Some(t) => secp_valid_secret(key@) && (t.0@, t.1@, t.2) == secp_signature_of(
                digest@,
                key@,
            ) && t.0@.len() == 32 && t.1@.len() == 32 && t.2 <= 3 && 0 < be_nat(t.0@)
                < secp_group_order() && 0 < be_nat(t.1@) < secp_group_order() && secp_recover(
                digest@,
                t.0@,
                t.1@,
                t.2,
            ) == Some(secp_public_key_of(key@)),
            None => !secp_valid_secret(key@),
        },
{
    let sk = match secp256k1::SecretKey::from_slice(key.as_slice()) {
        Ok(sk) => sk,
        Err(_) => return None,
    };
    let msg = secp256k1::Message::from_slice(digest.as_slice()).unwrap();
    let secp = secp256k1::Secp256k1::new();
    let (recid, compact) = secp.sign_recoverable(&msg, &sk).serialize_compact();
    Some((compact[..32].to_vec(), compact[32..].to_vec(), recid.to_i32() as u8))
}

/// Relies on secp256k1's `recover` (with `Message::from_slice`,
/// `RecoveryId::from_i32` and `RecoverableSignature::from_compact`): it
/// determines the public key for which the signature is valid over the
/// digest, failing on out-of-range scalars or failed point recovery; the
/// result depends on the arguments alone and serializes to 65 bytes led
/// by `0x04`.
#[verifier::external_body]
pub(crate) fn secp_recover_pubkey(digest: &Vec<u8>, r: &Vec<u8>, s: &Vec<u8>, recovery_id: u8) -> (out: Option<
    Vec<u8>,
>)
    requires
        digest@.len() == 32,
        r@.len() == 32,
        s@.len() == 32,
        recovery_id <= 3,
    ensures
        match out {
            Some(pk) => secp_recover(digest@, r@, s@, recovery_id) == Some(pk@) && pk@.len() == 65
                && pk@[0] == 4,
            None => secp_recover(digest@, r@, s@, recovery_id) is None,
        },
{
    let msg = secp256k1::Message::from_slice(digest.as_slice()).unwrap();
    let recid = secp256k1::recovery::RecoveryId::from_i32(recovery_id as i32).unwrap();
    let mut compact = [0u8; 64];
    compact[..32].copy_from_slice(r.as_slice());
    compact[32..].copy_from_slice(s.as_slice());
    let sig = match secp256k1::recovery::RecoverableSignature::from_compact(&compact, recid) {
        Ok(sig) => sig,
        Err(_) => return None,
    };
    match secp256k1::Secp256k1::new().recover(&msg, &sig) {
        Ok(pk) => Some(pk.serialize_uncompressed().to_vec()),
        Err(_) => None,
    }
}

} // verus!

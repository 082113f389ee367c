//! Deterministic ECDSA signing and public-key recovery under the EIP-155
//! replay-protection scheme, and address derivation.
//!
//! The elliptic-curve work itself is trusted (see `crypto`); everything
//! around it — the v encoding, the error taxonomy, the address bytes — is
//! verified.

use vstd::prelude::*;
use crate::bytes::{be_nat, sub_bytes};
use crate::crypto::{
    keccak256, keccak256_of, secp_group_order, secp_public_key, secp_public_key_of, secp_recover,
    secp_recover_pubkey, secp_sign_recoverable, secp_signature_of, secp_valid_secret,
};
use crate::errors::{RecoveryError, SigningError};
use crate::uint256::Address;

verus! {

/// Largest chain id the v encoding can carry in a `u64`.
pub open spec fn max_chain_id() -> u64 {
    0x3FFF_FFFF_FFFF_FFFFu64
}

/// Whether every byte of a string is zero.
pub open spec fn all_zero(s: Seq<u8>) -> bool {
    forall|i: int| 0 <= i < s.len() ==> s[i] == 0
}

/// An EIP-155 signature: `v` carries the recovery id and the chain id,
/// `r` and `s` are the 32-byte big-endian scalars.
pub struct Signature {
    pub v: u64,
    pub r: Vec<u8>,
    pub s: Vec<u8>,
}

impl Signature {
    /// The scalars hold 32 bytes each.
    pub open spec fn wf(&self) -> bool {
        self.r@.len() == 32 && self.s@.len() == 32
    }
}

/// An uncompressed SEC1 public key: 65 bytes led by the format byte.
pub struct PublicKey {
    pub bytes: Vec<u8>,
}

/// Address of an uncompressed public key: the low 20 bytes of the
/// Keccak-256 digest of the key with its format byte stripped.
pub open spec fn spec_address_of_pubkey(pk: Seq<u8>) -> Seq<u8> {
    keccak256_of(pk.subrange(1, 65)).subrange(12, 32)
}

/// Address owned by a secret key: the address of its public key.
pub open spec fn spec_address_of_key(key: Seq<u8>) -> Seq<u8> {
    spec_address_of_pubkey(secp_public_key_of(key))
}

impl PublicKey {
    /// The representation holds the 65-byte uncompressed form.
    pub open spec fn wf(&self) -> bool {
        self.bytes@.len() == 65
    }

    /// Derive the account address: low 20 bytes of the Keccak-256 digest
    /// of the key material without the leading format byte.
    pub fn address(&self) -> (r: Address)
        requires
            self.wf(),
        ensures
            r.wf(),
            r.bytes@ == spec_address_of_pubkey(self.bytes@),
    {
        let stripped = sub_bytes(&self.bytes, 1, 65);
        let digest = keccak256(&stripped);
        let addr = sub_bytes(&digest, 12, 32);
        Address { bytes: addr }
    }
}

/// The v value that encodes a recovery id under a chain id.
pub open spec fn spec_v_of(recovery_id: u8, chain_id: u64) -> nat {
    (recovery_id as nat) + 35 + 2 * (chain_id as nat)
}

/// The recovery id encoded in a v value, if any: the EIP-155 form
/// `v - 35 - 2 * chain_id` when `v >= 35`, else the legacy form `v - 27`.
/// A recovery id is 0 or 1; any other difference carries no id.
pub open spec fn spec_recovery_id(v: u64, chain_id: u64) -> Option<u8> {
    if v >= 35 {
        if v >= 35 + 2 * (chain_id as nat) && v - 35 - 2 * (chain_id as nat) <= 1 {
            Some((v - 35 - 2 * (chain_id as nat)) as u8)
        } else {
            None
        }
    } else {
        if 27 <= v && v - 27 <= 1 {
            Some((v - 27) as u8)
        } else {
            None
        }
    }
}

/// Extract the recovery id from a v value, selecting the EIP-155 path
/// for `v >= 35` and the legacy path below.
pub fn recovery_id_from_v(v: u64, chain_id: u64) -> (r: Option<u8>)
    requires
        chain_id <= max_chain_id(),
    ensures
        r == spec_recovery_id(v, chain_id),
        v >= 35 + 2 * (chain_id as nat) && v - 35 - 2 * (chain_id as nat) <= 1 ==> r == Some(
            (v - 35 - 2 * (chain_id as nat)) as u8,
        ),
{
    if v >= 35 {
        let base = 35 + 2 * chain_id;
        if v >= base && v - base <= 1 {
            Some((v - base) as u8)
        } else {
            None
        }
    } else {
        if 27 <= v && v - 27 <= 1 {
            Some((v - 27) as u8)
        } else {
            None
        }
    }
}

/// v encoding round trip: the recovery id put into v by signing is the
/// recovery id read back from v under the same chain id.
pub proof fn lemma_v_round_trip(recovery_id: u8, chain_id: u64)
    requires
        recovery_id <= 1,
        chain_id <= max_chain_id(),
    ensures
        spec_recovery_id((spec_v_of(recovery_id, chain_id)) as u64, chain_id) == Some(recovery_id),
{
}

/// Sign a 32-byte digest under a chain id.
///
/// Returns `InvalidMessage` exactly when the digest is not a nonzero
/// 32-byte value, `InvalidKey` exactly when the key bytes are not a valid
/// scalar, and `UnsupportedRecoveryId` exactly when the deterministic
/// signature's recovery id exceeds one (no such input is known);
/// otherwise the deterministic signature, with nonzero scalars below the
/// group order and `v == recovery_id + 35 + 2 * chain_id`, whose recovery
/// under the same digest yields the signer's public key.
pub fn sign(secret_key: &Vec<u8>, message: &Vec<u8>, chain_id: u64) -> (out: Result<
    Signature,
    SigningError,
>)
    requires
        chain_id <= max_chain_id(),
    ensures
        match out {
            Ok(sig) => {
                &&& message@.len() == 32
                &&& !all_zero(message@)
                &&& secp_valid_secret(secret_key@)
                &&& sig.wf()
                &&& (sig.r@, sig.s@, secp_signature_of(message@, secret_key@).2)
                    == secp_signature_of(message@, secret_key@)
                &&& secp_signature_of(message@, secret_key@).2 <= 1
                &&& sig.v == spec_v_of(secp_signature_of(message@, secret_key@).2, chain_id)
                &&& sig.v >= 35
                &&& 0 < be_nat(sig.r@) < secp_group_order()
                &&& 0 < be_nat(sig.s@) < secp_group_order()
                &&& secp_recover(
                    message@,
                    sig.r@,
                    sig.s@,
                    secp_signature_of(message@, secret_key@).2,
                ) == Some(secp_public_key_of(secret_key@))
            },
            Err(e) => {
                &&& (e == SigningError::InvalidMessage <==> message@.len() != 32 || all_zero(
                    message@,
                ))
                &&& (e == SigningError::InvalidKey <==> message@.len() == 32 && !all_zero(message@)
                    && !secp_valid_secret(secret_key@))
                &&& (e == SigningError::UnsupportedRecoveryId <==> message@.len() == 32
                    && !all_zero(message@) && secp_valid_secret(secret_key@) && secp_signature_of(
                    message@,
                    secret_key@,
                ).2 > 1)
            },
        },
{
    if message.len() != 32 {
        return Err(SigningError::InvalidMessage);
    }
    let mut has_nonzero = false;
    let mut i: usize = 0;
    while i < message.len()
        invariant
            i <= message@.len(),
            has_nonzero <==> exists|j: int| 0 <= j < i && message@[j] != 0,
        decreases message@.len() - i,
    {
        if message[i] != 0 {
            has_nonzero = true;
        }
        i = i + 1;
    }
    if !has_nonzero {
        proof {
            assert(all_zero(message@));
        }
        return Err(SigningError::InvalidMessage);
    }
    proof {
        let j = choose|j: int| 0 <= j < message@.len() && message@[j] != 0;
        assert(message@[j] != 0);
        assert(!all_zero(message@));
    }
    match secp_sign_recoverable(message, secret_key) {
        None => Err(SigningError::InvalidKey),
        Some((r, s, recovery_id)) => {
            if recovery_id > 1 {
                return Err(SigningError::UnsupportedRecoveryId);
            }
            let v = recovery_id as u64 + 35 + 2 * chain_id;
            Ok(Signature { v, r, s })
        },
    }
}

/// Recover the public key from a 64-byte compact signature (r then s)
/// over a 32-byte digest.
///
/// Returns `InvalidMessage` exactly when the digest is not 32 bytes, and
/// `InvalidSignature` exactly when the recovery id is not 0 or 1, the
/// signature is not 64 bytes, or point recovery fails.
pub fn recover(message: &Vec<u8>, signature: &Vec<u8>, recovery_id: i32) -> (out: Result<
    PublicKey,
    RecoveryError,
>)
    ensures
        match out {
            Ok(pk) => {
                &&& message@.len() == 32
                &&& signature@.len() == 64
                &&& 0 <= recovery_id <= 1
                &&& pk.wf()
                &&& secp_recover(
                    message@,
                    signature@.subrange(0, 32),
                    signature@.subrange(32, 64),
                    recovery_id as u8,
                ) == Some(pk.bytes@)
            },
            Err(e) => {
                &&& (e == RecoveryError::InvalidMessage <==> message@.len() != 32)
                &&& (e == RecoveryError::InvalidSignature <==> message@.len() == 32 && (recovery_id
                    < 0 || recovery_id > 1 || signature@.len() != 64 || secp_recover(
                    message@,
                    signature@.subrange(0, 32),
                    signature@.subrange(32, 64),
                    recovery_id as u8,
                ) is None))
            },
        },
{
    if message.len() != 32 {
        return Err(RecoveryError::InvalidMessage);
    }
    if recovery_id < 0 || recovery_id > 1 {
        return Err(RecoveryError::InvalidSignature);
    }
    if signature.len() != 64 {
        return Err(RecoveryError::InvalidSignature);
    }
    let r = sub_bytes(signature, 0, 32);
    let s = sub_bytes(signature, 32, 64);
    match secp_recover_pubkey(message, &r, &s, recovery_id as u8) {
        None => Err(RecoveryError::InvalidSignature),
        Some(pk) => Ok(PublicKey { bytes: pk }),
    }
}

/// Address owned by a secret key held as 32 bytes; fails exactly when
/// the bytes are not a valid scalar.
pub fn address_of_key(secret_key: &Vec<u8>) -> (out: Result<Address, SigningError>)
    ensures
        match out {
            Ok(a) => secp_valid_secret(secret_key@) && a.wf() && a.bytes@ == spec_address_of_key(
                secret_key@,
            ),
            Err(e) => !secp_valid_secret(secret_key@) && e == SigningError::InvalidKey,
        },
{
    match secp_public_key(secret_key) {
        None => Err(SigningError::InvalidKey),
        Some(pk_bytes) => {
            let pk = PublicKey { bytes: pk_bytes };
            Ok(pk.address())
        },
    }
}

} // verus!

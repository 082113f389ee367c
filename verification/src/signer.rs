//! EIP-155 transaction signer and sender recovery.
//!
//! The signing preimage of a new signature is the nine-field list
//! `[nonce, gasPrice, gasLimit, recipient, value, data, chainId, 0, 0]`;
//! its Keccak-256 digest is signed deterministically, and
//! `v = recoveryId + 35 + 2 * chainId` binds the signature to the chain.

use vstd::prelude::*;
use crate::bytes::{be_nat, min_be, clone_bytes, u64_to_bytes, lemma_min_be_value};
use crate::crypto::{
    keccak256, keccak256_of, secp_group_order, secp_recover, secp_recover_pubkey,
    secp_signature_of, secp_valid_secret,
};
use crate::errors::{DecodeError, RecoveryError, SigningError};
use crate::raw_transaction::{RawTransaction, TxModel};
use crate::rlp::{rlp_list, spec_parse_list, encode_list, decode_list};
use crate::signing::{
    all_zero, max_chain_id, sign, spec_address_of_key, spec_address_of_pubkey, spec_recovery_id,
    spec_v_of, recovery_id_from_v, PublicKey,
};
use crate::uint256::{U256, Address, u256_bound};

verus! {

/// Mathematical model of an unsigned transaction bound to a chain id.
pub struct UnsignedModel {
    pub nonce: nat,
    pub gas_price: nat,
    pub gas: nat,
    pub recipient: Seq<u8>,
    pub value: nat,
    pub data: Seq<u8>,
    pub chain_id: nat,
}

impl UnsignedModel {
    /// Every integer fits its width and the recipient is 20 bytes.
    pub open spec fn wf(&self) -> bool {
        &&& self.nonce <= u64::MAX
        &&& self.gas_price < u256_bound()
        &&& self.gas <= u64::MAX
        &&& self.recipient.len() == 20
        &&& self.value < u256_bound()
        &&& self.chain_id <= max_chain_id()
    }
}

/// The unsigned part of a signed transaction, bound to a chain id.
pub open spec fn unsigned_of(t: TxModel, chain_id: u64) -> UnsignedModel {
    UnsignedModel {
        nonce: t.nonce,
        gas_price: t.gas_price,
        gas: t.gas,
        recipient: t.recipient,
        value: t.value,
        data: t.data,
        chain_id: chain_id as nat,
    }
}

/// The nine EIP-155 signing-preimage fields:
/// `[nonce, gasPrice, gasLimit, recipient, value, data, chainId, 0, 0]`,
/// integers in minimal big-endian form (zero encodes as the empty
/// string).
pub open spec fn spec_eip155_fields(u: UnsignedModel) -> Seq<Seq<u8>> {
    seq![
        min_be(u.nonce),
        min_be(u.gas_price),
        min_be(u.gas),
        u.recipient,
        min_be(u.value),
        u.data,
        min_be(u.chain_id),
        Seq::empty(),
        Seq::empty(),
    ]
}

/// The Keccak-256 digest a new signature is made over.
pub open spec fn spec_eip155_digest(u: UnsignedModel) -> Seq<u8> {
    keccak256_of(rlp_list(spec_eip155_fields(u)))
}

/// The sending address recovered over the EIP-155 signing preimage of
/// the transaction's own fields, or the exact failure.
pub open spec fn spec_sender_eip155(t: TxModel, chain_id: u64) -> Result<Seq<u8>, RecoveryError> {
    let digest = spec_eip155_digest(unsigned_of(t, chain_id));
    match spec_recovery_id(t.v as u64, chain_id) {
        None => Err(RecoveryError::InvalidSignature),
        Some(recovery_id) => {
            if t.r.len() != 32 || t.s.len() != 32 {
                Err(RecoveryError::InvalidSignature)
            } else {
                match secp_recover(digest, t.r, t.s, recovery_id) {
                    None => Err(RecoveryError::InvalidSignature),
                    Some(pk) => Ok(spec_address_of_pubkey(pk)),
                }
            }
        },
    }
}

/// Typed reading of a nine-field preimage list: integers decode as
/// permissive big-endian, the recipient must be exactly twenty bytes,
/// and the chain-id slot and the two zero slots are not read back (the
/// decoded chain id is zero).  Fields are checked in wire order.
pub open spec fn spec_eip155_decode(items: Seq<Seq<u8>>) -> Result<UnsignedModel, DecodeError> {
    if items.len() != 9 {
        Err(DecodeError::IndexOutOfRange)
    } else if crate::bytes::be_nat(items[0]) > u64::MAX {
        Err(DecodeError::BigEndianOverflow)
    } else if crate::bytes::be_nat(items[1]) >= u256_bound() {
        Err(DecodeError::BigEndianOverflow)
    } else if crate::bytes::be_nat(items[2]) > u64::MAX {
        Err(DecodeError::BigEndianOverflow)
    } else if items[3].len() != 20 {
        Err(DecodeError::InvalidRecipient)
    } else if crate::bytes::be_nat(items[4]) >= u256_bound() {
        Err(DecodeError::BigEndianOverflow)
    } else {
        Ok(
            UnsignedModel {
                nonce: crate::bytes::be_nat(items[0]),
                gas_price: crate::bytes::be_nat(items[1]),
                gas: crate::bytes::be_nat(items[2]),
                recipient: items[3],
                value: crate::bytes::be_nat(items[4]),
                data: items[5],
                chain_id: 0,
            },
        )
    }
}

/// An unsigned transaction together with the chain id it is bound to.
pub struct RawTransactionData {
    pub nonce: u64,
    pub gas_price: U256,
    pub gas: u64,
    pub recipient: Address,
    pub value: U256,
    pub data: Vec<u8>,
    pub chain_id: u64,
}

impl RawTransactionData {
    /// The fixed-width fields hold their full representations.
    pub open spec fn wf(&self) -> bool {
        self.gas_price.wf() && self.value.wf() && self.recipient.wf()
    }

    /// Mathematical model of this unsigned transaction.
    pub open spec fn model(&self) -> UnsignedModel {
        UnsignedModel {
            nonce: self.nonce as nat,
            gas_price: self.gas_price.value(),
            gas: self.gas as nat,
            recipient: self.recipient.bytes@,
            value: self.value.value(),
            data: self.data@,
            chain_id: self.chain_id as nat,
        }
    }

    /// Take the unsigned part of a signed transaction, bound to a chain
    /// id passed in explicitly.
    pub fn from_transaction(rtx: &RawTransaction, chain_id: u64) -> (out: RawTransactionData)
        requires
            rtx.wf(),
        ensures
            out.wf(),
            out.model() == unsigned_of(rtx.model(), chain_id),
    {
        RawTransactionData {
            nonce: rtx.nonce,
            gas_price: rtx.gas_price.clone(),
            gas: rtx.gas,
            recipient: rtx.recipient.clone(),
            value: rtx.value.clone(),
            data: clone_bytes(&rtx.data),
            chain_id,
        }
    }

    /// RLP encoding of the nine EIP-155 signing-preimage fields.
    pub fn rlp_encode(&self) -> (r: Vec<u8>)
        requires
            self.wf(),
        ensures
            r@ == rlp_list(spec_eip155_fields(self.model())),
    {
        let mut items: Vec<Vec<u8>> = Vec::new();
        items.push(u64_to_bytes(self.nonce));
        items.push(self.gas_price.to_minimal_bytes());
        items.push(u64_to_bytes(self.gas));
        items.push(clone_bytes(&self.recipient.bytes));
        items.push(self.value.to_minimal_bytes());
        items.push(clone_bytes(&self.data));
        items.push(u64_to_bytes(self.chain_id));
        items.push(Vec::new());
        items.push(Vec::new());
        proof {
            lemma_min_be_value(0);
            assert forall|i: int| 0 <= i < 9 implies items.deep_view()[i] == spec_eip155_fields(
                self.model(),
            )[i] by {
                assert(items@[i].deep_view() =~= items@[i]@);
            }
            assert(items.deep_view() =~= spec_eip155_fields(self.model()));
        }
        encode_list(&items)
    }
}

/// Chain id baked into locally originated signatures.
pub const LOCAL_CHAIN_ID: u64 = 84;

/// The EIP-155 signer and sender recoverer.
pub struct Eip155Signer {
    pub chain_id: U256,
}

impl Eip155Signer {
    /// A signer value; the held chain id is not consulted by the
    /// associated operations, which take the chain id explicitly.
    pub fn new() -> (out: Eip155Signer)
        ensures
            out.chain_id.wf(),
            out.chain_id.value() == 9,
    {
        Eip155Signer { chain_id: U256::from_u64(9) }
    }

    /// Keccak-256 digest of the EIP-155 signing preimage of the given
    /// unsigned fields under the locally fixed chain id.
    pub fn sign(
        nonce: u64,
        gas_price: U256,
        gas: u64,
        to: Address,
        value: U256,
        data: Vec<u8>,
    ) -> (out: Vec<u8>)
        requires
            gas_price.wf(),
            value.wf(),
            to.wf(),
        ensures
            out@ == spec_eip155_digest(
                UnsignedModel {
                    nonce: nonce as nat,
                    gas_price: gas_price.value(),
                    gas: gas as nat,
                    recipient: to.bytes@,
                    value: value.value(),
                    data: data@,
                    chain_id: LOCAL_CHAIN_ID as nat,
                },
            ),
            out@.len() == 32,
    {
        let eip155_tx = Eip155Tx::new(nonce, gas_price, gas, to, value, data, LOCAL_CHAIN_ID);
        Eip155Signer::sign_from_eip155tx(eip155_tx)
    }

    /// Keccak-256 digest of the EIP-155 signing preimage of a prepared
    /// transaction.
    pub fn sign_from_eip155tx(eip155tx: Eip155Tx) -> (out: Vec<u8>)
        requires
            eip155tx.wf(),
        ensures
            out@ == spec_eip155_digest(eip155tx.model()),
            out@.len() == 32,
    {
        let encoded = eip155tx.rlp_encode();
        keccak256(&encoded)
    }

    /// Sign an unsigned transaction under its chain id.
    ///
    /// Fails exactly as `sign` does over the EIP-155 preimage digest.
    /// On success the unsigned fields carry over, the scalars are nonzero
    /// and below the group order, `v` encodes the recovery id as
    /// `recoveryId + 35 + 2 * chainId`, and recovering the sender over
    /// the same EIP-155 preimage yields the key's own address.
    pub fn sign_new(utx: &RawTransactionData, secret_key: &Vec<u8>) -> (out: Result<
        RawTransaction,
        SigningError,
    >)
        requires
            utx.wf(),
            utx.chain_id <= max_chain_id(),
        ensures
            match out {
                Ok(stx) => {
                    let digest = spec_eip155_digest(utx.model());
                    &&& !all_zero(digest)
                    &&& secp_valid_secret(secret_key@)
                    &&& stx.wf()
                    &&& unsigned_of(stx.model(), utx.chain_id) == utx.model()
                    &&& stx.r@ == secp_signature_of(digest, secret_key@).0
                    &&& stx.s@ == secp_signature_of(digest, secret_key@).1
                    &&& secp_signature_of(digest, secret_key@).2 <= 1
                    &&& stx.v == spec_v_of(
                        secp_signature_of(digest, secret_key@).2,
                        utx.chain_id,
                    )
                    &&& 0 < be_nat(stx.r@) < secp_group_order()
                    &&& 0 < be_nat(stx.s@) < secp_group_order()
                    &&& spec_sender_eip155(stx.model(), utx.chain_id) == Ok::<
                        Seq<u8>,
                        RecoveryError,
                    >(spec_address_of_key(secret_key@))
                },
                Err(e) => {
                    let digest = spec_eip155_digest(utx.model());
                    &&& (e == SigningError::InvalidMessage <==> all_zero(digest))
                    &&& (e == SigningError::InvalidKey <==> !all_zero(digest)
                        && !secp_valid_secret(secret_key@))
                    &&& (e == SigningError::UnsupportedRecoveryId <==> !all_zero(digest)
                        && secp_valid_secret(secret_key@) && secp_signature_of(
                        digest,
                        secret_key@,
                    ).2 > 1)
                },
            },
    {
        let encoded = utx.rlp_encode();
        let digest = keccak256(&encoded);
        let sig = match sign(secret_key, &digest, utx.chain_id) {
            Err(e) => {
                return Err(e);
            },
            Ok(sig) => sig,
        };
        let stx = RawTransaction {
            nonce: utx.nonce,
            gas_price: utx.gas_price.clone(),
            gas: utx.gas,
            recipient: utx.recipient.clone(),
            value: utx.value.clone(),
            data: clone_bytes(&utx.data),
            v: sig.v,
            r: sig.r,
            s: sig.s,
        };
        proof {
            assert(unsigned_of(stx.model(), utx.chain_id) == utx.model());
            assert(spec_eip155_fields(unsigned_of(stx.model(), utx.chain_id))
                == spec_eip155_fields(utx.model()));
            assert(spec_recovery_id(stx.v, utx.chain_id) == Some(
                secp_signature_of(digest@, secret_key@).2,
            ));
        }
        Ok(stx)
    }

    /// Transaction hash: Keccak-256 of the RLP encoding of the nine-field
    /// signed tuple, computed independently of sender recovery.
    pub fn transaction_hash(stx: &RawTransaction) -> (out: Vec<u8>)
        requires
            stx.wf(),
        ensures
            out@ == keccak256_of(rlp_list(crate::raw_transaction::spec_to_wire(stx.model()))),
            out@.len() == 32,
    {
        let encoded = stx.rlp_encode();
        keccak256(&encoded)
    }

    /// Recover the sending address of a signed transaction over its
    /// EIP-155 signing preimage, exactly as the specification-level
    /// recovery decides.
    pub fn recover_sender(stx: &RawTransaction, chain_id: u64) -> (out: Result<
        Address,
        RecoveryError,
    >)
        requires
            stx.wf(),
            chain_id <= max_chain_id(),
        ensures
            match out {
                Ok(a) => a.wf() && spec_sender_eip155(stx.model(), chain_id) == Ok::<
                    Seq<u8>,
                    RecoveryError,
                >(a.bytes@),
                Err(e) => spec_sender_eip155(stx.model(), chain_id) == Err::<
                    Seq<u8>,
                    RecoveryError,
                >(e),
            },
    {
        let utx = RawTransactionData::from_transaction(stx, chain_id);
        let encoded = utx.rlp_encode();
        let digest = keccak256(&encoded);
        let recovery_id = match recovery_id_from_v(stx.v, chain_id) {
            None => {
                return Err(RecoveryError::InvalidSignature);
            },
            Some(id) => id,
        };
        if stx.r.len() != 32 || stx.s.len() != 32 {
            return Err(RecoveryError::InvalidSignature);
        }
        match secp_recover_pubkey(&digest, &stx.r, &stx.s, recovery_id) {
            None => Err(RecoveryError::InvalidSignature),
            Some(pk_bytes) => {
                let pk = PublicKey { bytes: pk_bytes };
                Ok(pk.address())
            },
        }
    }
}

/// The EIP-155 signing-preimage tuple as a typed value.
pub struct Eip155Tx {
    pub nonce: u64,
    pub gas_price: U256,
    pub gas: u64,
    pub to: Address,
    pub value: U256,
    pub data: Vec<u8>,
    pub chain_id: u64,
}

impl Eip155Tx {
    /// The fixed-width fields hold their full representations.
    pub open spec fn wf(&self) -> bool {
        self.gas_price.wf() && self.value.wf() && self.to.wf()
    }

    /// Mathematical model of this preimage tuple.
    pub open spec fn model(&self) -> UnsignedModel {
        UnsignedModel {
            nonce: self.nonce as nat,
            gas_price: self.gas_price.value(),
            gas: self.gas as nat,
            recipient: self.to.bytes@,
            value: self.value.value(),
            data: self.data@,
            chain_id: self.chain_id as nat,
        }
    }

    /// Assemble a preimage tuple from its parts.
    pub fn new(
        nonce: u64,
        gas_price: U256,
        gas: u64,
        to: Address,
        value: U256,
        data: Vec<u8>,
        chain_id: u64,
    ) -> (out: Eip155Tx)
        ensures
            out.nonce == nonce,
            out.gas_price == gas_price,
            out.gas == gas,
            out.to == to,
            out.value == value,
            out.data == data,
            out.chain_id == chain_id,
    {
        Eip155Tx { nonce, gas_price, gas, to, value, data, chain_id }
    }

    /// Take the preimage tuple of a signed transaction under the locally
    /// fixed chain id.
    pub fn from_transaction(rtx: &RawTransaction) -> (out: Eip155Tx)
        requires
            rtx.wf(),
        ensures
            out.wf(),
            out.model() == unsigned_of(rtx.model(), LOCAL_CHAIN_ID),
    {
        Eip155Tx {
            nonce: rtx.nonce,
            gas_price: rtx.gas_price.clone(),
            gas: rtx.gas,
            to: rtx.recipient.clone(),
            value: rtx.value.clone(),
            data: clone_bytes(&rtx.data),
            chain_id: LOCAL_CHAIN_ID,
        }
    }

    /// Decode an RLP-encoded nine-field preimage list.
    ///
    /// The chain-id slot of the wire form is not read back: the decoded
    /// value carries chain id zero.  The recipient must be exactly
    /// twenty bytes.
    pub fn decode(buf: &Vec<u8>) -> (out: Result<Eip155Tx, DecodeError>)
        ensures
            match out {
                Ok(t) => t.wf() && (match spec_parse_list(buf@) {
                    Ok(items) => spec_eip155_decode(items) == Ok::<UnsignedModel, DecodeError>(
                        t.model(),
                    ),
                    Err(_) => false,
                }),
                Err(e) => match spec_parse_list(buf@) {
                    Ok(items) => spec_eip155_decode(items) == Err::<UnsignedModel, DecodeError>(e),
                    Err(e2) => e == e2,
                },
            },
    {
        let mut items = match decode_list(buf) {
            Ok(items) => items,
            Err(e) => {
                return Err(e);
            },
        };
        if items.len() != 9 {
            return Err(DecodeError::IndexOutOfRange);
        }
        let ghost items0 = items.deep_view();
        let _b = items.pop().unwrap();
        let _a = items.pop().unwrap();
        let _chain = items.pop().unwrap();
        let data = items.pop().unwrap();
        let value_bytes = items.pop().unwrap();
        let to_bytes = items.pop().unwrap();
        let gas_bytes = items.pop().unwrap();
        let gas_price_bytes = items.pop().unwrap();
        let nonce_bytes = items.pop().unwrap();
        proof {
            assert forall|i: int| 0 <= i < 9 implies items0[i] == seq![
                nonce_bytes@,
                gas_price_bytes@,
                gas_bytes@,
                to_bytes@,
                value_bytes@,
                data@,
                _chain@,
                _a@,
                _b@,
            ][i] by {
                assert(items0[i] =~= seq![
                    nonce_bytes@,
                    gas_price_bytes@,
                    gas_bytes@,
                    to_bytes@,
                    value_bytes@,
                    data@,
                    _chain@,
                    _a@,
                    _b@,
                ][i]);
            }
        }
        let nonce = match crate::bytes::bytes_to_u64(&nonce_bytes) {
            Ok(v) => v,
            Err(e) => {
                return Err(e);
            },
        };
        let gas_price = match U256::from_bytes_be(&gas_price_bytes) {
            Ok(v) => v,
            Err(e) => {
                return Err(e);
            },
        };
        let gas = match crate::bytes::bytes_to_u64(&gas_bytes) {
            Ok(v) => v,
            Err(e) => {
                return Err(e);
            },
        };
        let to = match Address::from_bytes(&to_bytes) {
            Ok(a) => a,
            Err(e) => {
                return Err(e);
            },
        };
        let value = match U256::from_bytes_be(&value_bytes) {
            Ok(v) => v,
            Err(e) => {
                return Err(e);
            },
        };
        Ok(Eip155Tx { nonce, gas_price, gas, to, value, data, chain_id: 0 })
    }

    /// RLP encoding of the nine preimage fields.
    pub fn rlp_encode(&self) -> (r: Vec<u8>)
        requires
            self.wf(),
        ensures
            r@ == rlp_list(spec_eip155_fields(self.model())),
    {
        let mut items: Vec<Vec<u8>> = Vec::new();
        items.push(u64_to_bytes(self.nonce));
        items.push(self.gas_price.to_minimal_bytes());
        items.push(u64_to_bytes(self.gas));
        items.push(clone_bytes(&self.to.bytes));
        items.push(self.value.to_minimal_bytes());
        items.push(clone_bytes(&self.data));
        items.push(u64_to_bytes(self.chain_id));
        items.push(Vec::new());
        items.push(Vec::new());
        proof {
            lemma_min_be_value(0);
            assert forall|i: int| 0 <= i < 9 implies items.deep_view()[i] == spec_eip155_fields(
                self.model(),
            )[i] by {
                assert(items@[i].deep_view() =~= items@[i]@);
            }
            assert(items.deep_view() =~= spec_eip155_fields(self.model()));
        }
        encode_list(&items)
    }
}

} // verus!

//! Typed Ethereum transaction model and wire conversions.
//!
//! A wire transaction is nine raw byte strings; the typed form interprets
//! the integer fields as big-endian values, maps the empty recipient to
//! the all-zero contract-creation sentinel, and carries data and the
//! signature scalars through unchanged.

use vstd::prelude::*;
use crate::bytes::{be_nat, min_be, clone_bytes, bytes_to_u64, u64_to_bytes, lemma_min_be_value};
use crate::crypto::{keccak256, keccak256_of, secp_recover};
use crate::errors::{DecodeError, RecoveryError};
use crate::rlp::{rlp_list, spec_parse_list, encode_list, decode_list};
use crate::signing::{
    max_chain_id, spec_address_of_pubkey, spec_recovery_id, recovery_id_from_v, PublicKey,
};
use crate::uint256::{U256, Address, u256_bound};

verus! {

/// The nine wire fields of a raw transaction, as received: uninterpreted
/// byte strings.
pub struct MetamaskRawTransaction {
    pub nonce: Vec<u8>,
    pub gas_price: Vec<u8>,
    pub gas: Vec<u8>,
    pub recipient: Vec<u8>,
    pub value: Vec<u8>,
    pub data: Vec<u8>,
    pub v: Vec<u8>,
    pub r: Vec<u8>,
    pub s: Vec<u8>,
}

impl MetamaskRawTransaction {
    /// The nine fields in wire order.
    pub open spec fn fields(&self) -> Seq<Seq<u8>> {
        seq![
            self.nonce@,
            self.gas_price@,
            self.gas@,
            self.recipient@,
            self.value@,
            self.data@,
            self.v@,
            self.r@,
            self.s@,
        ]
    }

    /// Encode the nine fields as one RLP list.
    pub fn rlp_encode(&self) -> (r: Vec<u8>)
        ensures
            r@ == rlp_list(self.fields()),
    {
        let mut items: Vec<Vec<u8>> = Vec::new();
        items.push(clone_bytes(&self.nonce));
        items.push(clone_bytes(&self.gas_price));
        items.push(clone_bytes(&self.gas));
        items.push(clone_bytes(&self.recipient));
        items.push(clone_bytes(&self.value));
        items.push(clone_bytes(&self.data));
        items.push(clone_bytes(&self.v));
        items.push(clone_bytes(&self.r));
        items.push(clone_bytes(&self.s));
        proof {
            assert forall|i: int| 0 <= i < 9 implies items.deep_view()[i] == self.fields()[i] by {
                assert(items@[i].deep_view() =~= items@[i]@);
            }
            assert(items.deep_view() =~= self.fields());
        }
        encode_list(&items)
    }

    /// Decode an RLP buffer into the nine wire fields.
    ///
    /// Fails with the decoder's error on malformed RLP, and with
    /// `IndexOutOfRange` exactly when the list does not hold nine items.
    pub fn decode(buf: &Vec<u8>) -> (out: Result<MetamaskRawTransaction, DecodeError>)
        ensures
            match out {
                Ok(t) => spec_parse_list(buf@) == Ok::<Seq<Seq<u8>>, DecodeError>(t.fields()),
                Err(e) => match spec_parse_list(buf@) {
                    Ok(items) => items.len() != 9 && e == DecodeError::IndexOutOfRange,
                    Err(e2) => e == e2,
                },
            },
    {
        let mut items = match decode_list(buf) {
            Ok(items) => items,
            Err(e) => {
                return Err(e);
            },
        };
        if items.len() != 9 {
            return Err(DecodeError::IndexOutOfRange);
        }
        let ghost items0 = items.deep_view();
        let s = items.pop().unwrap();
        let r = items.pop().unwrap();
        let v = items.pop().unwrap();
        let data = items.pop().unwrap();
        let value = items.pop().unwrap();
        let recipient = items.pop().unwrap();
        let gas = items.pop().unwrap();
        let gas_price = items.pop().unwrap();
        let nonce = items.pop().unwrap();
        let t = MetamaskRawTransaction {
            nonce,
            gas_price,
            gas,
            recipient,
            value,
            data,
            v,
            r,
            s,
        };
        proof {
            assert forall|i: int| 0 <= i < 9 implies t.fields()[i] == items0[i] by {
                assert(items0[i] =~= t.fields()[i]);
            }
            assert(t.fields() =~= items0);
        }
        Ok(t)
    }
}

/// Mathematical model of a typed signed transaction.
pub struct TxModel {
    pub nonce: nat,
    pub gas_price: nat,
    pub gas: nat,
    pub recipient: Seq<u8>,
    pub value: nat,
    pub data: Seq<u8>,
    pub v: nat,
    pub r: Seq<u8>,
    pub s: Seq<u8>,
}

impl TxModel {
    /// Every integer fits its width and the recipient is 20 bytes.
    pub open spec fn wf(&self) -> bool {
        &&& self.nonce <= u64::MAX
        &&& self.gas_price < u256_bound()
        &&& self.gas <= u64::MAX
        &&& self.recipient.len() == 20
        &&& self.value < u256_bound()
        &&& self.v <= u64::MAX
    }
}

/// Wire form of a typed transaction: every integer in minimal big-endian
/// form, recipient, data and scalars as their bytes.
pub open spec fn spec_to_wire(t: TxModel) -> Seq<Seq<u8>> {
    seq![
        min_be(t.nonce),
        min_be(t.gas_price),
        min_be(t.gas),
        t.recipient,
        min_be(t.value),
        t.data,
        min_be(t.v),
        t.r,
        t.s,
    ]
}

/// The contract-creation sentinel: twenty zero bytes.
pub open spec fn zero_address_bytes() -> Seq<u8> {
    Seq::new(20, |i: int| 0u8)
}

/// Typed reading of nine wire fields.
///
/// Integer fields decode as permissive big-endian; a zero-length
/// recipient denotes contract creation and maps to the zero address; any
/// other length but twenty is refused; data and the signature scalars
/// pass through.  Fields are checked in wire order.
pub open spec fn spec_from_wire(f: Seq<Seq<u8>>) -> Result<TxModel, DecodeError> {
    if f.len() != 9 {
        Err(DecodeError::IndexOutOfRange)
    } else if be_nat(f[0]) > u64::MAX {
        Err(DecodeError::BigEndianOverflow)
    } else if be_nat(f[1]) >= u256_bound() {
        Err(DecodeError::BigEndianOverflow)
    } else if be_nat(f[2]) > u64::MAX {
        Err(DecodeError::BigEndianOverflow)
    } else if f[3].len() != 0 && f[3].len() != 20 {
        Err(DecodeError::InvalidRecipient)
    } else if be_nat(f[4]) >= u256_bound() {
        Err(DecodeError::BigEndianOverflow)
    } else if be_nat(f[6]) > u64::MAX {
        Err(DecodeError::BigEndianOverflow)
    } else {
        Ok(
            TxModel {
                nonce: be_nat(f[0]),
                gas_price: be_nat(f[1]),
                gas: be_nat(f[2]),
                recipient: if f[3].len() == 0 {
                    zero_address_bytes()
                } else {
                    f[3]
                },
                value: be_nat(f[4]),
                data: f[5],
                v: be_nat(f[6]),
                r: f[7],
                s: f[8],
            },
        )
    }
}

/// Typed signed transaction.
pub struct RawTransaction {
    pub nonce: u64,
    pub gas_price: U256,
    pub gas: u64,
    pub recipient: Address,
    pub value: U256,
    pub data: Vec<u8>,
    pub v: u64,
    pub r: Vec<u8>,
    pub s: Vec<u8>,
}

impl RawTransaction {
    /// The fixed-width fields hold their full representations.
    pub open spec fn wf(&self) -> bool {
        self.gas_price.wf() && self.value.wf() && self.recipient.wf()
    }

    /// Mathematical model of this transaction.
    pub open spec fn model(&self) -> TxModel {
        TxModel {
            nonce: self.nonce as nat,
            gas_price: self.gas_price.value(),
            gas: self.gas as nat,
            recipient: self.recipient.bytes@,
            value: self.value.value(),
            data: self.data@,
            v: self.v as nat,
            r: self.r@,
            s: self.s@,
        }
    }

    /// Build the typed transaction from nine wire fields: succeeds and
    /// fails exactly as the specification-level reading does.
    pub fn from_wire(m: &MetamaskRawTransaction) -> (out: Result<RawTransaction, DecodeError>)
        ensures
            match out {
                Ok(tx) => tx.wf() && spec_from_wire(m.fields()) == Ok::<TxModel, DecodeError>(
                    tx.model(),
                ),
                Err(e) => spec_from_wire(m.fields()) == Err::<TxModel, DecodeError>(e),
            },
    {
        let nonce = match bytes_to_u64(&m.nonce) {
            Ok(v) => v,
            Err(e) => {
                return Err(e);
            },
        };
        let gas_price = match U256::from_bytes_be(&m.gas_price) {
            Ok(v) => v,
            Err(e) => {
                return Err(e);
            },
        };
        let gas = match bytes_to_u64(&m.gas) {
            Ok(v) => v,
            Err(e) => {
                return Err(e);
            },
        };
        let recipient: Address;
        if m.recipient.len() == 0 {
            recipient = Address::zero();
            proof {
                assert(recipient.bytes@ =~= zero_address_bytes());
            }
        } else {
            recipient = match Address::from_bytes(&m.recipient) {
                Ok(a) => a,
                Err(e) => {
                    return Err(e);
                },
            };
        }
        let value = match U256::from_bytes_be(&m.value) {
            Ok(v) => v,
            Err(e) => {
                return Err(e);
            },
        };
        let v = match bytes_to_u64(&m.v) {
            Ok(v) => v,
            Err(e) => {
                return Err(e);
            },
        };
        let tx = RawTransaction {
            nonce,
            gas_price,
            gas,
            recipient,
            value,
            data: clone_bytes(&m.data),
            v,
            r: clone_bytes(&m.r),
            s: clone_bytes(&m.s),
        };
        Ok(tx)
    }

    /// Decode an RLP buffer straight into a typed transaction: the wire
    /// fields are read and then interpreted, failing exactly as the two
    /// steps do.
    pub fn decode(buf: &Vec<u8>) -> (out: Result<RawTransaction, DecodeError>)
        ensures
            match out {
                Ok(tx) => tx.wf() && (match spec_parse_list(buf@) {
                    Ok(fields) => spec_from_wire(fields) == Ok::<TxModel, DecodeError>(tx.model()),
                    Err(_) => false,
                }),
                Err(e) => match spec_parse_list(buf@) {
                    Ok(fields) => spec_from_wire(fields) == Err::<TxModel, DecodeError>(e),
                    Err(e2) => e == e2,
                },
            },
    {
        let wire = match MetamaskRawTransaction::decode(buf) {
            Ok(wire) => wire,
            Err(e) => {
                proof {
                    match spec_parse_list(buf@) {
                        Ok(fields) => {
                            assert(spec_from_wire(fields) == Err::<TxModel, DecodeError>(
                                DecodeError::IndexOutOfRange,
                            ));
                        },
                        Err(_) => {},
                    }
                }
                return Err(e);
            },
        };
        RawTransaction::from_wire(&wire)
    }

    /// Canonical wire form of this transaction: every integer in minimal
    /// big-endian form.
    pub fn to_wire(&self) -> (out: MetamaskRawTransaction)
        requires
            self.wf(),
        ensures
            out.fields() == spec_to_wire(self.model()),
    {
        let out = MetamaskRawTransaction {
            nonce: u64_to_bytes(self.nonce),
            gas_price: self.gas_price.to_minimal_bytes(),
            gas: u64_to_bytes(self.gas),
            recipient: clone_bytes(&self.recipient.bytes),
            value: self.value.to_minimal_bytes(),
            data: clone_bytes(&self.data),
            v: u64_to_bytes(self.v),
            r: clone_bytes(&self.r),
            s: clone_bytes(&self.s),
        };
        proof {
            assert(out.fields() =~= spec_to_wire(self.model()));
        }
        out
    }

    /// RLP encoding of the full nine-field signed tuple: the signing
    /// preimage for sender recovery (it includes the transaction's own
    /// v, r and s) and the input of the transaction hash.
    pub fn rlp_encode(&self) -> (r: Vec<u8>)
        requires
            self.wf(),
        ensures
            r@ == rlp_list(spec_to_wire(self.model())),
    {
        let wire = self.to_wire();
        wire.rlp_encode()
    }

    /// Recover the sending address, exactly as the specification-level
    /// recovery decides.
    pub fn sender(&self, chain_id: u64) -> (out: Result<Address, RecoveryError>)
        requires
            self.wf(),
            chain_id <= max_chain_id(),
        ensures
            match out {
                Ok(a) => a.wf() && spec_sender(self.model(), chain_id) == Ok::<
                    Seq<u8>,
                    RecoveryError,
                >(a.bytes@),
                Err(e) => spec_sender(self.model(), chain_id) == Err::<Seq<u8>, RecoveryError>(e),
            },
    {
        let encoded = self.rlp_encode();
        let digest = keccak256(&encoded);
        let recovery_id = match recovery_id_from_v(self.v, chain_id) {
            None => {
                return Err(RecoveryError::InvalidSignature);
            },
            Some(id) => id,
        };
        if self.r.len() != 32 || self.s.len() != 32 {
            return Err(RecoveryError::InvalidSignature);
        }
        match crate::crypto::secp_recover_pubkey(&digest, &self.r, &self.s, recovery_id) {
            None => Err(RecoveryError::InvalidSignature),
            Some(pk_bytes) => {
                let pk = PublicKey { bytes: pk_bytes };
                Ok(pk.address())
            },
        }
    }
}

impl Clone for RawTransaction {
    /// A clone holds the same field values.
    fn clone(&self) -> (r: Self)
        ensures
            r.model() == self.model(),
            r.wf() == self.wf(),
    {
        RawTransaction {
            nonce: self.nonce,
            gas_price: self.gas_price.clone(),
            gas: self.gas,
            recipient: self.recipient.clone(),
            value: self.value.clone(),
            data: clone_bytes(&self.data),
            v: self.v,
            r: clone_bytes(&self.r),
            s: clone_bytes(&self.s),
        }
    }
}

/// The sending address of a signed transaction under a chain id, or the
/// exact failure: the address of the public key recovered over the
/// Keccak-256 digest of the nine-field signed tuple.
pub open spec fn spec_sender(t: TxModel, chain_id: u64) -> Result<Seq<u8>, RecoveryError> {
    let digest = keccak256_of(rlp_list(spec_to_wire(t)));
    match spec_recovery_id(t.v as u64, chain_id) {
        None => Err(RecoveryError::InvalidSignature),
        Some(recovery_id) => {
            if t.r.len() != 32 || t.s.len() != 32 {
                Err(RecoveryError::InvalidSignature)
            } else {
                match secp_recover(digest, t.r, t.s, recovery_id) {
                    None => Err(RecoveryError::InvalidSignature),
                    Some(pk) => Ok(spec_address_of_pubkey(pk)),
                }
            }
        },
    }
}

/// Wire round trip: reading back the canonical wire form of any
/// well-formed transaction yields the transaction unchanged.
pub proof fn lemma_wire_round_trip(t: TxModel)
    requires
        t.wf(),
    ensures
        spec_from_wire(spec_to_wire(t)) == Ok::<TxModel, DecodeError>(t),
{
    lemma_min_be_value(t.nonce);
    lemma_min_be_value(t.gas_price);
    lemma_min_be_value(t.gas);
    lemma_min_be_value(t.value);
    lemma_min_be_value(t.v);
    let f = spec_to_wire(t);
    assert(f[3] == t.recipient);
    assert(spec_from_wire(f) is Ok);
    let got = spec_from_wire(f)->Ok_0;
    assert(got == t);
}

} // verus!

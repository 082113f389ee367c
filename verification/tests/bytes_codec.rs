//! Big-endian, U256 and hexadecimal codec behaviour.

use web3_signer::bytes::{bytes_to_u64, u64_to_bytes};
use web3_signer::errors::{DecodeError, HexError};
use web3_signer::hex::{hex_decode, hex_encode};
use web3_signer::uint256::{Address, U256};

#[test]
fn empty_bytes_decode_to_zero() {
    assert_eq!(bytes_to_u64(&vec![]), Ok(0));
}

#[test]
fn nonce_example_decodes_big_endian() {
    assert_eq!(bytes_to_u64(&vec![0x01, 0x2F]), Ok(0x012F));
    assert_eq!(bytes_to_u64(&vec![0x01, 0x2F]), Ok(303));
}

#[test]
fn leading_zeros_are_permitted() {
    assert_eq!(bytes_to_u64(&vec![0, 0, 0, 0, 0, 0, 0, 0, 0, 0, 7]), Ok(7));
}

#[test]
fn max_u64_round_trips() {
    let b = vec![0xFF; 8];
    assert_eq!(bytes_to_u64(&b), Ok(u64::MAX));
    assert_eq!(u64_to_bytes(u64::MAX), b);
}

#[test]
fn nine_significant_bytes_overflow() {
    let b = vec![1, 0, 0, 0, 0, 0, 0, 0, 0];
    assert_eq!(bytes_to_u64(&b), Err(DecodeError::BigEndianOverflow));
}

#[test]
fn encode_is_minimal() {
    assert_eq!(u64_to_bytes(0), Vec::<u8>::new());
    assert_eq!(u64_to_bytes(1), vec![1]);
    assert_eq!(u64_to_bytes(303), vec![0x01, 0x2F]);
    assert_eq!(u64_to_bytes(0x0100), vec![0x01, 0x00]);
}

#[test]
fn u64_codec_round_trips() {
    for v in [0u64, 1, 55, 56, 255, 256, 303, 65535, 65536, u64::MAX] {
        assert_eq!(bytes_to_u64(&u64_to_bytes(v)), Ok(v));
    }
}

#[test]
fn u256_pads_and_trims() {
    let u = U256::from_bytes_be(&vec![0x01, 0x2F]).unwrap();
    assert_eq!(u.bytes.len(), 32);
    assert_eq!(&u.bytes[30..], &[0x01, 0x2F]);
    assert_eq!(u.to_minimal_bytes(), vec![0x01, 0x2F]);
}

#[test]
fn u256_accepts_leading_zeros_past_32_bytes() {
    let mut b = vec![0u8; 10];
    b.extend_from_slice(&[0xAB; 32]);
    let u = U256::from_bytes_be(&b).unwrap();
    assert_eq!(u.bytes, vec![0xAB; 32]);
}

#[test]
fn u256_rejects_33_significant_bytes() {
    let b = vec![1u8; 33];
    assert_eq!(
        U256::from_bytes_be(&b).map(|u| u.bytes),
        Err(DecodeError::BigEndianOverflow)
    );
}

#[test]
fn u256_zero_is_empty_on_the_wire() {
    assert_eq!(U256::zero().to_minimal_bytes(), Vec::<u8>::new());
    assert_eq!(U256::from_u64(9).to_minimal_bytes(), vec![9]);
}

#[test]
fn address_wants_twenty_bytes() {
    assert!(Address::from_bytes(&vec![0x11; 20]).is_ok());
    assert_eq!(
        Address::from_bytes(&vec![0x11; 19]).map(|a| a.bytes),
        Err(DecodeError::InvalidRecipient)
    );
    assert_eq!(Address::zero().bytes, vec![0u8; 20]);
}

#[test]
fn hex_encodes_lower_case() {
    assert_eq!(hex_encode(&vec![0xDE, 0xAD, 0x01]), b"dead01".to_vec());
    assert_eq!(hex_encode(&vec![]), Vec::<u8>::new());
}

#[test]
fn hex_decode_accepts_both_cases() {
    assert_eq!(hex_decode(&b"DeAd01".to_vec()), Ok(vec![0xDE, 0xAD, 0x01]));
}

#[test]
fn hex_decode_rejects_odd_length() {
    assert_eq!(hex_decode(&b"abc".to_vec()), Err(HexError::OddLength));
}

#[test]
fn hex_decode_rejects_bad_digit() {
    assert_eq!(hex_decode(&b"zz".to_vec()), Err(HexError::InvalidDigit));
}

#[test]
fn hex_matches_the_hex_crate() {
    let data: Vec<u8> = (0u8..=255).collect();
    assert_eq!(hex_encode(&data), hex::encode(&data).into_bytes());
    let encoded = hex::encode(&data).into_bytes();
    assert_eq!(hex_decode(&encoded), Ok(data));
}

//! Signing, recovery and address derivation.

use web3_signer::errors::{RecoveryError, SigningError};
use web3_signer::signing::{address_of_key, recover, recovery_id_from_v, sign};

fn key_one() -> Vec<u8> {
    let mut k = vec![0u8; 32];
    k[31] = 1;
    k
}

#[test]
fn address_of_key_one_is_the_known_one() {
    let addr = address_of_key(&key_one()).unwrap();
    assert_eq!(
        hex::encode(&addr.bytes),
        "7e5f4552091a69125d5dfcb7b8c2659029395bdf"
    );
}

#[test]
fn invalid_key_is_refused() {
    assert!(matches!(
        address_of_key(&vec![0u8; 32]),
        Err(SigningError::InvalidKey)
    ));
    assert!(matches!(
        address_of_key(&vec![1u8; 31]),
        Err(SigningError::InvalidKey)
    ));
    assert!(matches!(
        sign(&vec![0u8; 32], &vec![0x11; 32], 84),
        Err(SigningError::InvalidKey)
    ));
}

#[test]
fn short_message_is_refused() {
    assert!(matches!(
        sign(&key_one(), &vec![0x11; 31], 84),
        Err(SigningError::InvalidMessage)
    ));
    assert!(matches!(
        recover(&vec![0x11; 31], &vec![0u8; 64], 0),
        Err(RecoveryError::InvalidMessage)
    ));
}

#[test]
fn all_zero_digest_is_refused() {
    assert!(matches!(
        sign(&key_one(), &vec![0u8; 32], 84),
        Err(SigningError::InvalidMessage)
    ));
}

#[test]
fn v_encodes_the_recovery_id_and_chain_id() {
    let sig = sign(&key_one(), &vec![0x11; 32], 84).unwrap();
    let recovery_id = sig.v - 35 - 2 * 84;
    assert!(recovery_id <= 1);
    assert_eq!(recovery_id_from_v(sig.v, 84), Some(recovery_id as u8));
    assert_eq!(sig.r.len(), 32);
    assert_eq!(sig.s.len(), 32);
    // the scalars of a valid signature are nonzero
    assert_ne!(sig.r, vec![0u8; 32]);
    assert_ne!(sig.s, vec![0u8; 32]);
}

#[test]
fn legacy_v_uses_the_27_offset() {
    assert_eq!(recovery_id_from_v(27, 84), Some(0));
    assert_eq!(recovery_id_from_v(28, 84), Some(1));
    assert_eq!(recovery_id_from_v(29, 84), None);
    assert_eq!(recovery_id_from_v(31, 84), None);
    assert_eq!(recovery_id_from_v(203, 84), Some(0));
    assert_eq!(recovery_id_from_v(204, 84), Some(1));
    assert_eq!(recovery_id_from_v(205, 84), None);
    assert_eq!(recovery_id_from_v(208, 84), None);
}

#[test]
fn recovery_inverts_signing() {
    let message = vec![0x11; 32];
    let sig = sign(&key_one(), &message, 84).unwrap();
    let mut compact = sig.r.clone();
    compact.extend_from_slice(&sig.s);
    let recovery_id = (sig.v - 35 - 2 * 84) as i32;
    let pk = recover(&message, &compact, recovery_id).unwrap();
    let recovered = pk.address();
    let direct = address_of_key(&key_one()).unwrap();
    assert_eq!(recovered.bytes, direct.bytes);
}

#[test]
fn bad_recovery_id_is_refused() {
    for recovery_id in [-1, 2, 3, 4] {
        assert!(matches!(
            recover(&vec![0x11; 32], &vec![0u8; 64], recovery_id),
            Err(RecoveryError::InvalidSignature)
        ));
    }
}

#[test]
fn short_signature_is_refused() {
    assert!(matches!(
        recover(&vec![0x11; 32], &vec![0u8; 63], 0),
        Err(RecoveryError::InvalidSignature)
    ));
}

#[test]
fn zero_scalars_do_not_recover() {
    assert!(matches!(
        recover(&vec![0x11; 32], &vec![0u8; 64], 0),
        Err(RecoveryError::InvalidSignature)
    ));
}

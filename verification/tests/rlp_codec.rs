//! RLP encoder and decoder behaviour, cross-checked against the rlp
//! crate.

use web3_signer::errors::DecodeError;
use web3_signer::rlp::{decode_list, encode_bytes, encode_list};

#[test]
fn single_small_byte_encodes_as_itself() {
    assert_eq!(encode_bytes(&vec![0x05]), vec![0x05]);
    assert_eq!(encode_bytes(&vec![0x7F]), vec![0x7F]);
}

#[test]
fn single_large_byte_gets_a_header() {
    assert_eq!(encode_bytes(&vec![0x80]), vec![0x81, 0x80]);
}

#[test]
fn empty_string_is_0x80() {
    assert_eq!(encode_bytes(&vec![]), vec![0x80]);
}

#[test]
fn short_string_boundary_55() {
    let s = vec![0xAA; 55];
    let enc = encode_bytes(&s);
    assert_eq!(enc[0], 0x80 + 55);
    assert_eq!(&enc[1..], &s[..]);
}

#[test]
fn long_string_boundary_56() {
    let s = vec![0xAA; 56];
    let enc = encode_bytes(&s);
    assert_eq!(enc[0], 0xB8);
    assert_eq!(enc[1], 56);
    assert_eq!(&enc[2..], &s[..]);
}

#[test]
fn string_encoding_matches_the_rlp_crate() {
    for s in [
        vec![],
        vec![0x00],
        vec![0x7F],
        vec![0x80],
        vec![0xFF],
        vec![0x12, 0x34],
        vec![0xAB; 55],
        vec![0xCD; 56],
        vec![0xEF; 300],
    ] {
        let theirs = rlp::encode(&s).to_vec();
        assert_eq!(encode_bytes(&s), theirs);
    }
}

#[test]
fn list_encoding_matches_the_rlp_crate() {
    let items: Vec<Vec<u8>> = vec![
        vec![],
        vec![0x01, 0x2F],
        vec![0x52, 0x08],
        vec![0x11; 20],
        vec![],
        vec![0x60, 0x80, 0x60, 0x40],
        vec![0xCB],
        vec![0x33; 32],
        vec![0x44; 32],
    ];
    let mut stream = rlp::RlpStream::new_list(9);
    for item in &items {
        stream.append(item);
    }
    assert_eq!(encode_list(&items), stream.out().to_vec());
}

#[test]
fn long_list_encoding_matches_the_rlp_crate() {
    let items: Vec<Vec<u8>> = vec![vec![0x55; 40], vec![0x66; 40]];
    let mut stream = rlp::RlpStream::new_list(2);
    for item in &items {
        stream.append(item);
    }
    assert_eq!(encode_list(&items), stream.out().to_vec());
}

#[test]
fn decode_inverts_encode() {
    let cases: Vec<Vec<Vec<u8>>> = vec![
        vec![],
        vec![vec![]],
        vec![vec![0x01], vec![0x80], vec![]],
        vec![vec![0xAB; 55], vec![0xCD; 56], vec![0xEF; 300]],
        vec![vec![0x00; 3]; 9],
    ];
    for items in cases {
        assert_eq!(decode_list(&encode_list(&items)), Ok(items));
    }
}

#[test]
fn decoder_agrees_with_the_rlp_crate_on_a_transaction() {
    let items: Vec<Vec<u8>> = vec![
        vec![0x01],
        vec![0x3B, 0x9A, 0xCA, 0x00],
        vec![0x52, 0x08],
        vec![0x22; 20],
        vec![0x0d, 0xe0, 0xb6, 0xb3, 0xa7, 0x64, 0x00, 0x00],
        vec![],
        vec![0xCB],
        vec![0x77; 32],
        vec![0x88; 32],
    ];
    let mut stream = rlp::RlpStream::new_list(9);
    for item in &items {
        stream.append(item);
    }
    let buf = stream.out().to_vec();
    let ours = decode_list(&buf).unwrap();
    assert_eq!(ours, items);
    let theirs = rlp::Rlp::new(&buf);
    for (i, item) in items.iter().enumerate() {
        assert_eq!(&theirs.val_at::<Vec<u8>>(i).unwrap(), item);
    }
}

#[test]
fn truncated_buffer_is_an_eof_error() {
    let items: Vec<Vec<u8>> = vec![vec![0x01, 0x2F], vec![0xAB; 10]];
    let mut buf = encode_list(&items);
    buf.pop();
    assert_eq!(decode_list(&buf), Err(DecodeError::UnexpectedEof));
    assert_eq!(decode_list(&vec![]), Err(DecodeError::UnexpectedEof));
    assert_eq!(decode_list(&vec![0xC2, 0x01]), Err(DecodeError::UnexpectedEof));
}

#[test]
fn non_canonical_single_byte_is_refused() {
    // 0xC2 0x81 0x05: a list holding "0x05" written with a needless header
    assert_eq!(
        decode_list(&vec![0xC2, 0x81, 0x05]),
        Err(DecodeError::NonCanonical)
    );
}

#[test]
fn trailing_bytes_are_refused() {
    let items: Vec<Vec<u8>> = vec![vec![0x01]];
    let mut buf = encode_list(&items);
    buf.push(0x00);
    assert_eq!(decode_list(&buf), Err(DecodeError::NonCanonical));
}

#[test]
fn string_header_at_top_level_is_refused() {
    assert_eq!(decode_list(&vec![0x81, 0x80]), Err(DecodeError::NonCanonical));
}

#[test]
fn nested_list_item_is_refused() {
    // a list whose single item is itself a list: not the consumed shape
    assert_eq!(decode_list(&vec![0xC1, 0xC0]), Err(DecodeError::NonCanonical));
}

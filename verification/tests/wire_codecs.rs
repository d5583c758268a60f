use keydb_sync::hexcode::{decode_hash_hex, encode_hash_hex};
use keydb_sync::rpc::{block_request, blockcount_request, blockhash_request, RpcParam};
use keydb_sync::tip::{tip_height_from_bytes, tip_height_to_bytes};

#[test]
fn hex_encoding_is_two_lowercase_digits_per_byte() {
    assert_eq!(encode_hash_hex(&vec![0x00u8, 0xffu8, 0x4au8]), "00ff4a");
    assert_eq!(encode_hash_hex(&Vec::new()), "");
}

#[test]
fn hex_decoding_inverts_encoding() {
    assert_eq!(decode_hash_hex(&"00ff4a".to_string()), Some(vec![0x00u8, 0xffu8, 0x4au8]));
    assert_eq!(decode_hash_hex(&"00FF4A".to_string()), Some(vec![0x00u8, 0xffu8, 0x4au8]));
    let bytes = vec![0xdeu8, 0xadu8, 0xbeu8, 0xefu8];
    assert_eq!(decode_hash_hex(&encode_hash_hex(&bytes)), Some(bytes));
}

#[test]
fn invalid_hex_is_rejected() {
    assert_eq!(decode_hash_hex(&"0g".to_string()), None);
    assert_eq!(decode_hash_hex(&"abc".to_string()), None);
}

#[test]
fn tip_bytes_round_trip() {
    let bytes = tip_height_to_bytes(840_000);
    assert_eq!(bytes.len(), 4);
    assert_eq!(tip_height_from_bytes(&Some(bytes), 0), 840_000);
    assert_eq!(tip_height_from_bytes(&None, 55), 55);
    assert_eq!(tip_height_from_bytes(&Some(Vec::new()), 55), 55);
    assert_eq!(tip_height_from_bytes(&Some(vec![1u8, 2u8, 0u8, 0u8]), 0), 513);
}

#[test]
fn blockcount_request_has_no_params() {
    let r = blockcount_request(17);
    assert_eq!(r.id, 17);
    assert_eq!(r.jsonrpc, "2.0");
    assert_eq!(r.method, "getblockcount");
    assert!(r.params.is_empty());
}

#[test]
fn blockhash_request_names_the_height() {
    let r = blockhash_request(3, 777);
    assert_eq!(r.method, "getblockhash");
    assert_eq!(r.params, vec![777]);
}

#[test]
fn block_request_carries_hex_hash_and_verbosity_zero() {
    let r = block_request(4, &vec![0xabu8, 0x01u8]);
    assert_eq!(r.method, "getblock");
    assert_eq!(r.params.len(), 2);
    match &r.params[0] {
        RpcParam::Text(s) => assert_eq!(s, "ab01"),
        RpcParam::Num(_) => panic!("hash parameter must be text"),
    }
    match &r.params[1] {
        RpcParam::Num(n) => assert_eq!(*n, 0),
        RpcParam::Text(_) => panic!("verbosity parameter must be a number"),
    }
}

//! JSON-RPC request and response value types.

use std::collections::HashMap;
use web3_signer::request::{rpc_version, RequestIdtype, RpcEmptyRequest, RpcEmptyRequestWithUuid};
use web3_signer::response::{
    RpcBoolResponse, RpcBoolResponseWithUuid, RpcMapResponse, RpcMapResponseWithUuid,
    RpcStringArrayResponse, RpcStringArrayResponseWithUuid, RpcStringResponse,
    RpcStringResponseWithUuid,
};

#[test]
fn request_id_shapes_are_distinct() {
    assert_ne!(RequestIdtype::Uuid, RequestIdtype::U64);
    assert_eq!(RequestIdtype::U64, RequestIdtype::U64);
}

#[test]
fn empty_request_holds_its_parts() {
    let r = RpcEmptyRequest::new(&7, rpc_version(), "eth_chainId");
    assert_eq!(r.id, 7);
    assert_eq!(r.jsonrpc, "2.0");
    assert_eq!(r.method, "eth_chainId");
    assert_eq!(r.params, Vec::<u8>::new());
}

#[test]
fn empty_request_with_uuid_holds_its_parts() {
    let r = RpcEmptyRequestWithUuid::new("da9f1bc2", "2.0", "net_version");
    assert_eq!(r.id, "da9f1bc2");
    assert_eq!(r.jsonrpc, "2.0");
    assert_eq!(r.method, "net_version");
    assert_eq!(r.params, Vec::<u8>::new());
}

#[test]
fn string_responses_carry_the_result() {
    let r = RpcStringResponse::new(&1, "0x54");
    assert_eq!(r.id, 1);
    assert_eq!(r.jsonrpc, "2.0");
    assert_eq!(r.result, "0x54");
    let r = RpcStringResponseWithUuid::new("u-1", "0x0");
    assert_eq!(r.id, "u-1");
    assert_eq!(r.jsonrpc, "2.0");
    assert_eq!(r.result, "0x0");
}

#[test]
fn bool_responses_carry_the_result() {
    let r = RpcBoolResponse::new(&2, true);
    assert_eq!((r.id, r.result), (2, true));
    assert_eq!(r.jsonrpc, "2.0");
    let r = RpcBoolResponseWithUuid::new("u-2", false);
    assert_eq!((r.id.as_str(), r.result), ("u-2", false));
}

#[test]
fn string_array_responses_carry_the_result() {
    let items = vec!["a".to_string(), "b".to_string()];
    let r = RpcStringArrayResponse::new(&3, &items);
    assert_eq!(r.result, items);
    let r = RpcStringArrayResponseWithUuid::new("u-3", &items);
    assert_eq!(r.result, items);
    assert_eq!(r.jsonrpc, "2.0");
}

#[test]
fn map_responses_carry_the_result() {
    let mut m = HashMap::new();
    m.insert("k".to_string(), "v".to_string());
    let r = RpcMapResponse::new(&4, m.clone());
    assert_eq!(r.result.get("k").map(String::as_str), Some("v"));
    let r = RpcMapResponseWithUuid::new("u-4", m);
    assert_eq!(r.result.len(), 1);
    assert_eq!(r.jsonrpc, "2.0");
}

//! JSON-RPC request values.
//!
//! A request id is either a number or a UUID string; the two shapes are
//! told apart by `RequestIdtype` and carried by separate value types.
//! Serialization and transport stay outside the library.

use vstd::prelude::*;

verus! {

/// The two shapes a JSON-RPC request id takes.
#[derive(Clone, Copy, Debug, PartialEq, Eq, Structural)]
pub enum RequestIdtype {
    Uuid,
    U64,
}

/// The protocol version every request and response carries.
pub fn rpc_version() -> (r: &'static str)
    ensures
        r@ == "2.0"@,
{
    "2.0"
}

/// A parameterless request with a numeric id.
pub struct RpcEmptyRequest {
    pub id: u64,
    pub jsonrpc: String,
    pub method: String,
    pub params: Vec<u8>,
}

impl RpcEmptyRequest {
    /// Assemble a parameterless request.
    pub fn new(id: &u64, jsonrpc: &str, method: &str) -> (r: RpcEmptyRequest)
        ensures
            r.id == *id,
            r.jsonrpc@ == jsonrpc@,
            r.method@ == method@,
            r.params@ == Seq::<u8>::empty(),
    {
        RpcEmptyRequest {
            id: *id,
            jsonrpc: jsonrpc.to_owned(),
            method: method.to_owned(),
            params: Vec::new(),
        }
    }
}

/// A parameterless request with a UUID string id.
pub struct RpcEmptyRequestWithUuid {
    pub id: String,
    pub jsonrpc: String,
    pub method: String,
    pub params: Vec<u8>,
}

impl RpcEmptyRequestWithUuid {
    /// Assemble a parameterless request.
    pub fn new(id: &str, jsonrpc: &str, method: &str) -> (r: RpcEmptyRequestWithUuid)
        ensures
            r.id@ == id@,
            r.jsonrpc@ == jsonrpc@,
            r.method@ == method@,
            r.params@ == Seq::<u8>::empty(),
    {
        RpcEmptyRequestWithUuid {
            id: id.to_owned(),
            jsonrpc: jsonrpc.to_owned(),
            method: method.to_owned(),
            params: Vec::new(),
        }
    }
}

} // verus!

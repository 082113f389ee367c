//! JSON-RPC response values.
//!
//! One value type per result shape and id shape; every constructor fixes
//! the protocol version to `2.0`.  Serialization stays outside the
//! library.

use vstd::prelude::*;
use std::collections::HashMap;
use crate::request::rpc_version;

verus! {

/// Verified element-for-element copy of a string vector.
fn clone_strings(v: &Vec<String>) -> (r: Vec<String>)
    ensures
        r@ == v@,
{
    let mut r: Vec<String> = Vec::new();
    let mut i: usize = 0;
    while i < v.len()
        invariant
            i <= v@.len(),
            r@ =~= v@.subrange(0, i as int),
        decreases v@.len() - i,
    {
        r.push(v[i].clone());
        i = i + 1;
    }
    proof {
        assert(r@ =~= v@);
    }
    r
}

/// String result, numeric id.
pub struct RpcStringResponse {
    pub id: u64,
    pub jsonrpc: String,
    pub result: String,
}

impl RpcStringResponse {
    /// Assemble a response carrying a string result.
    pub fn new(id: &u64, result: &str) -> (r: RpcStringResponse)
        ensures
            r.id == *id,
            r.jsonrpc@ == "2.0"@,
            r.result@ == result@,
    {
        RpcStringResponse { id: *id, jsonrpc: rpc_version().to_owned(), result: result.to_owned() }
    }
}

/// String result, UUID string id.
pub struct RpcStringResponseWithUuid {
    pub id: String,
    pub jsonrpc: String,
    pub result: String,
}

impl RpcStringResponseWithUuid {
    /// Assemble a response carrying a string result.
    pub fn new(id: &str, result: &str) -> (r: RpcStringResponseWithUuid)
        ensures
            r.id@ == id@,
            r.jsonrpc@ == "2.0"@,
            r.result@ == result@,
    {
        RpcStringResponseWithUuid {
            id: id.to_owned(),
            jsonrpc: rpc_version().to_owned(),
            result: result.to_owned(),
        }
    }
}

/// Boolean result, numeric id.
pub struct RpcBoolResponse {
    pub id: u64,
    pub jsonrpc: String,
    pub result: bool,
}

impl RpcBoolResponse {
    /// Assemble a response carrying a boolean result.
    pub fn new(id: &u64, result: bool) -> (r: RpcBoolResponse)
        ensures
            r.id == *id,
            r.jsonrpc@ == "2.0"@,
            r.result == result,
    {
        RpcBoolResponse { id: *id, jsonrpc: rpc_version().to_owned(), result }
    }
}

/// Boolean result, UUID string id.
pub struct RpcBoolResponseWithUuid {
    pub id: String,
    pub jsonrpc: String,
    pub result: bool,
}

impl RpcBoolResponseWithUuid {
    /// Assemble a response carrying a boolean result.
    pub fn new(id: &str, result: bool) -> (r: RpcBoolResponseWithUuid)
        ensures
            r.id@ == id@,
            r.jsonrpc@ == "2.0"@,
            r.result == result,
    {
        RpcBoolResponseWithUuid { id: id.to_owned(), jsonrpc: rpc_version().to_owned(), result }
    }
}

/// String-array result, numeric id.
pub struct RpcStringArrayResponse {
    pub id: u64,
    pub jsonrpc: String,
    pub result: Vec<String>,
}

impl RpcStringArrayResponse {
    /// Assemble a response carrying a string-array result.
    pub fn new(id: &u64, result: &Vec<String>) -> (r: RpcStringArrayResponse)
        ensures
            r.id == *id,
            r.jsonrpc@ == "2.0"@,
            r.result@ == result@,
    {
        RpcStringArrayResponse {
            id: *id,
            jsonrpc: rpc_version().to_owned(),
            result: clone_strings(result),
        }
    }
}

/// String-array result, UUID string id.
pub struct RpcStringArrayResponseWithUuid {
    pub id: String,
    pub jsonrpc: String,
    pub result: Vec<String>,
}

impl RpcStringArrayResponseWithUuid {
    /// Assemble a response carrying a string-array result.
    pub fn new(id: &str, result: &Vec<String>) -> (r: RpcStringArrayResponseWithUuid)
        ensures
            r.id@ == id@,
            r.jsonrpc@ == "2.0"@,
            r.result@ == result@,
    {
        RpcStringArrayResponseWithUuid {
            id: id.to_owned(),
            jsonrpc: rpc_version().to_owned(),
            result: clone_strings(result),
        }
    }
}

/// Map result, numeric id.  The map is taken by value: the caller hands
/// the response its contents.
pub struct RpcMapResponse {
    pub id: u64,
    pub jsonrpc: String,
    pub result: HashMap<String, String>,
}

impl RpcMapResponse {
    /// Assemble a response carrying a map result.
    pub fn new(id: &u64, result: HashMap<String, String>) -> (r: RpcMapResponse)
        ensures
            r.id == *id,
            r.jsonrpc@ == "2.0"@,
            r.result == result,
    {
        RpcMapResponse { id: *id, jsonrpc: rpc_version().to_owned(), result }
    }
}

/// Map result, UUID string id.  The map is taken by value.
pub struct RpcMapResponseWithUuid {
    pub id: String,
    pub jsonrpc: String,
    pub result: HashMap<String, String>,
}

impl RpcMapResponseWithUuid {
    /// Assemble a response carrying a map result.
    pub fn new(id: &str, result: HashMap<String, String>) -> (r: RpcMapResponseWithUuid)
        ensures
            r.id@ == id@,
            r.jsonrpc@ == "2.0"@,
            r.result == result,
    {
        RpcMapResponseWithUuid { id: id.to_owned(), jsonrpc: rpc_version().to_owned(), result }
    }
}

} // verus!

//! Transaction encoding and EIP-155 signing core for a mock Ethereum
//! JSON-RPC endpoint.
//!
//! The library converts between wire-format byte strings and typed
//! transactions, encodes and decodes the RLP wire format, and signs and
//! recovers transactions under the EIP-155 replay-protection scheme.

pub mod bytes;
pub mod crypto;
pub mod errors;
pub mod hex;
pub mod raw_transaction;
pub mod request;
pub mod response;
pub mod rlp;
pub mod service;
pub mod signer;
pub mod signing;
pub mod uint256;

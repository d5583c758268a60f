//! Construction of the three remote-chain RPC requests.
//!
//! The request bodies the driver sends are built here, so that the method
//! names and parameters the wire carries are pinned down. Serialization and
//! transport stay with the driver.

use vstd::prelude::*;
use vstd::string::StringExecFns;
use crate::hexcode::{encode_hash_hex, hex_digit_char};

verus! {

/// One JSON-RPC request: an id, the protocol version, the method, and its
/// parameters.
pub struct JsonRpcRequest<T> {
    pub id: u32,
    pub jsonrpc: String,
    pub method: String,
    pub params: Vec<T>,
}

/// A parameter of the raw-block request: a hash as hex text, or a number.
pub enum RpcParam {
    Text(String),
    Num(u32),
}

/// Builds the request for the remote chain's current block count.
pub fn blockcount_request(id: u32) -> (r: JsonRpcRequest<u32>)
    ensures
        r.id == id,
        r.jsonrpc@ == "2.0"@,
        r.method@ == "getblockcount"@,
        r.params@.len() == 0,
{
    JsonRpcRequest {
        id,
        jsonrpc: String::from_str("2.0"),
        method: String::from_str("getblockcount"),
        params: Vec::new(),
    }
}

/// Builds the request for the blockhash at a height.
pub fn blockhash_request(id: u32, height: u32) -> (r: JsonRpcRequest<u32>)
    ensures
        r.id == id,
        r.jsonrpc@ == "2.0"@,
        r.method@ == "getblockhash"@,
        r.params@ == seq![height],
{
    let mut params: Vec<u32> = Vec::new();
    params.push(height);
    proof {
        assert(params@ =~= seq![height]);
    }
    JsonRpcRequest {
        id,
        jsonrpc: String::from_str("2.0"),
        method: String::from_str("getblockhash"),
        params,
    }
}

/// Builds the request for the raw block bytes of a hash: the hash goes out
/// as hex text, and the verbosity parameter zero asks for raw bytes.
pub fn block_request(id: u32, hash: &Vec<u8>) -> (r: JsonRpcRequest<RpcParam>)
    ensures
        r.id == id,
        r.jsonrpc@ == "2.0"@,
        r.method@ == "getblock"@,
        r.params@.len() == 2,
        (r.params@[0] matches RpcParam::Text(s) && s@.len() == 2 * hash@.len() && forall|i: int|
            0 <= i < hash@.len() ==> #[trigger] s@[2 * i] == hex_digit_char(hash@[i] / 16)
                && s@[2 * i + 1] == hex_digit_char(hash@[i] % 16)),
        r.params@[1] matches RpcParam::Num(n) && n == 0,
{
    let text = encode_hash_hex(hash);
    let mut params: Vec<RpcParam> = Vec::new();
    params.push(RpcParam::Text(text));
    params.push(RpcParam::Num(0));
    JsonRpcRequest {
        id,
        jsonrpc: String::from_str("2.0"),
        method: String::from_str("getblock"),
        params,
    }
}

} // verus!

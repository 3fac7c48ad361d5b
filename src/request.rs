//! The JSON-RPC payloads that workers send and receive.
use vstd::prelude::*;

verus! {

/// Declares serde_json::Value, which request parameters and response members
/// hold; the library carries such values through without looking inside.
#[verifier::external_type_specification]
#[verifier::external_body]
pub struct ExJsonValue(serde_json::Value);

/// A JSON-RPC call: identifier, protocol version, method and parameters.
#[derive(Clone)]
pub struct JsonRequest {
    pub id: u64,
    pub jsonrpc: String,
    pub method: String,
    pub params: Vec<serde_json::Value>,
}

/// The error member of a JSON-RPC response.
pub struct JsonRpcError {
    pub code: i64,
    pub message: String,
    pub data: Option<serde_json::Value>,
}

/// A JSON-RPC response.
pub struct JsonResponse {
    pub id: u64,
    pub jsonrpc: String,
    pub result: Option<serde_json::Value>,
    pub error: Option<JsonRpcError>,
}

} // verus!

//! The request envelope: method, parameters and id as one JSON text.

use crate::json::{render, rendered};
use vstd::prelude::*;

verus! {

/// The methods of the node's API, as `solana_rpc_client_api` lists them.
#[verifier::external_type_specification]
#[verifier::external_body]
pub struct ExRpcRequest(solana_rpc_client_api::request::RpcRequest);

/// The envelope that `RpcRequest::build_request_json` builds for a method, an id
/// and parameters: a JSON object with the members `jsonrpc`, `id`, `method` and
/// `params`.
pub uninterp spec fn request_json(
    request: solana_rpc_client_api::request::RpcRequest,
    id: u64,
    params: serde_json::Value,
) -> serde_json::Value;

/// `RpcRequest::build_request_json`.
///
/// Trusted: the envelope is a function of the method, the id and the parameters.
#[verifier::external_body]
pub(crate) fn build_request_json(
    request: solana_rpc_client_api::request::RpcRequest,
    id: u64,
    params: serde_json::Value,
) -> (r: serde_json::Value)
    ensures
        r == request_json(request, id, params),
{
    request.build_request_json(id, params)
}

/// The media type of every request body.
pub const CONTENT_TYPE: &'static str = "application/json";

/// The body of the HTTP request that carries a call: the envelope as compact JSON.
pub open spec fn envelope_text(
    request: solana_rpc_client_api::request::RpcRequest,
    id: u64,
    params: serde_json::Value,
) -> Seq<char> {
    rendered(request_json(request, id, params))
}

/// Serializes the envelope of a call.
pub fn envelope(
    request: solana_rpc_client_api::request::RpcRequest,
    id: u64,
    params: serde_json::Value,
) -> (body: String)
    ensures
        body@ == envelope_text(request, id, params),
{
    let json = build_request_json(request, id, params);
    render(&json)
}

} // verus!

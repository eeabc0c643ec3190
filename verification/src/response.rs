//! Classification of the node's answer: a result, or one typed failure.

use crate::error::{ClientError, ClientErrorView, RpcResponseErrorData, request_error_text};
use crate::json::{
    describe, error_message, is_object, member, member_of, parse, parsed, render, rendered,
    value_is_object,
};
use vstd::prelude::*;

verus! {

/// The code of an error whose payload is the result of the failed simulation.
pub const SEND_TRANSACTION_PREFLIGHT_FAILURE: i64 = -32002;

/// The code of an error whose payload tells how far the node has fallen behind.
pub const NODE_UNHEALTHY: i64 = -32005;

/// The `error` member of an answer, decoded.
#[derive(Debug, PartialEq, Eq)]
pub struct ErrorObject {
    pub code: i64,
    pub message: String,
}

/// What decoding a JSON value as an `RpcErrorObject` gives: its code and message.
pub uninterp spec fn error_object_of(value: serde_json::Value) -> Result<
    (i64, Seq<char>),
    serde_json::Error,
>;

/// What decoding a JSON value as an `RpcSimulateTransactionResult` gives.
pub uninterp spec fn simulation_result_of(value: serde_json::Value) -> Result<
    solana_rpc_client_api::response::RpcSimulateTransactionResult,
    serde_json::Error,
>;

/// What decoding a JSON value as a `NodeUnhealthyErrorData` gives: its count of
/// slots behind.
pub uninterp spec fn slots_behind_of(value: serde_json::Value) -> Result<
    Option<u64>,
    serde_json::Error,
>;

/// A decoded error object with its message as a sequence of characters.
pub open spec fn error_object_view(decoded: Result<ErrorObject, serde_json::Error>) -> Result<
    (i64, Seq<char>),
    serde_json::Error,
> {
    match decoded {
        Ok(object) => Ok((object.code, object.message@)),
        Err(e) => Err(e),
    }
}

/// `serde_json::from_value` at `RpcErrorObject`.
///
/// Trusted: the outcome is a function of the value. Nothing is claimed about
/// which values decode.
#[verifier::external_body]
pub(crate) fn decode_error_object(value: &serde_json::Value) -> (r: Result<
    ErrorObject,
    serde_json::Error,
>)
    ensures
        error_object_view(r) == error_object_of(*value),
{
    match serde_json::from_value::<solana_rpc_client_api::error_object::RpcErrorObject>(
        value.clone(),
    ) {
        Ok(object) => Ok(ErrorObject { code: object.code, message: object.message }),
        Err(e) => Err(e),
    }
}

/// `serde_json::from_value` at `RpcSimulateTransactionResult`.
///
/// Trusted: the outcome is a function of the value.
#[verifier::external_body]
pub(crate) fn decode_simulation_result(value: &serde_json::Value) -> (r: Result<
    solana_rpc_client_api::response::RpcSimulateTransactionResult,
    serde_json::Error,
>)
    ensures
        r == simulation_result_of(*value),
{
    serde_json::from_value::<solana_rpc_client_api::response::RpcSimulateTransactionResult>(
        value.clone(),
    )
}

/// `serde_json::from_value` at `NodeUnhealthyErrorData`.
///
/// Trusted: the outcome is a function of the value.
#[verifier::external_body]
pub(crate) fn decode_slots_behind(value: &serde_json::Value) -> (r: Result<
    Option<u64>,
    serde_json::Error,
>)
    ensures
        r == slots_behind_of(*value),
{
    match serde_json::from_value::<solana_rpc_client_api::custom_error::NodeUnhealthyErrorData>(
        value.clone(),
    ) {
        Ok(data) => Ok(data.num_slots_behind),
        Err(e) => Err(e),
    }
}

/// The payload of a preflight failure: the simulation result where the `data`
/// member decoded, `Empty` where it did not.
pub open spec fn preflight_data(
    decoded: Result<
        solana_rpc_client_api::response::RpcSimulateTransactionResult,
        serde_json::Error,
    >,
) -> RpcResponseErrorData {
    match decoded {
        Ok(result) => RpcResponseErrorData::SendTransactionPreflightFailure(result),
        Err(_) => RpcResponseErrorData::Empty,
    }
}

/// The payload of a node-health error: the count where the `data` member decoded,
/// `Empty` where it did not.
pub open spec fn node_unhealthy_data(
    decoded: Result<Option<u64>, serde_json::Error>,
) -> RpcResponseErrorData {
    match decoded {
        Ok(num_slots_behind) => RpcResponseErrorData::NodeUnhealthy { num_slots_behind },
        Err(_) => RpcResponseErrorData::Empty,
    }
}

/// The payload that goes with an error of code `code` whose `data` member is `data`.
pub open spec fn error_data(code: i64, data: serde_json::Value) -> RpcResponseErrorData {
    if code == SEND_TRANSACTION_PREFLIGHT_FAILURE {
        preflight_data(simulation_result_of(data))
    } else if code == NODE_UNHEALTHY {
        node_unhealthy_data(slots_behind_of(data))
    } else {
        RpcResponseErrorData::Empty
    }
}

/// The failure that an `error` object stands for.
pub open spec fn error_outcome(error: serde_json::Value) -> ClientErrorView {
    match error_object_of(error) {
        Ok(object) => ClientErrorView::Response {
            code: object.0,
            message: object.1,
            data: error_data(object.0, member_of(error, "data"@)),
        },
        Err(e) => ClientErrorView::Request(request_error_text(rendered(error), error_message(e))),
    }
}

/// The outcome of a call whose answer is the JSON document `json`.
pub open spec fn answer_outcome(json: serde_json::Value) -> Result<
    serde_json::Value,
    ClientErrorView,
> {
    let error = member_of(json, "error"@);
    if is_object(error) {
        Err(error_outcome(error))
    } else {
        Ok(member_of(json, "result"@))
    }
}

/// The outcome of a call whose 2xx answer has the body `bytes`.
pub open spec fn body_outcome(bytes: Seq<u8>) -> Result<serde_json::Value, ClientErrorView> {
    match parsed(bytes) {
        Ok(json) => answer_outcome(json),
        Err(e) => Err(ClientErrorView::Body(error_message(e))),
    }
}

/// A call's result with its failure as a view.
pub open spec fn result_view(result: Result<serde_json::Value, ClientError>) -> Result<
    serde_json::Value,
    ClientErrorView,
> {
    match result {
        Ok(value) => Ok(value),
        Err(e) => Err(e@),
    }
}

/// Attaches the decoded `data` of a preflight failure. A payload that did not
/// decode gives `Empty`; the reason is dropped.
pub fn attach_simulation_result(
    decoded: Result<
        solana_rpc_client_api::response::RpcSimulateTransactionResult,
        serde_json::Error,
    >,
) -> (data: RpcResponseErrorData)
    ensures
        data == preflight_data(decoded),
        decoded is Err ==> data == RpcResponseErrorData::Empty,
{
    match decoded {
        Ok(result) => RpcResponseErrorData::SendTransactionPreflightFailure(result),
        Err(_) => RpcResponseErrorData::Empty,
    }
}

/// Attaches the decoded `data` of a node-health error. A payload that did not
/// decode gives `Empty`; the reason is dropped.
pub fn attach_slots_behind(decoded: Result<Option<u64>, serde_json::Error>) -> (data:
    RpcResponseErrorData)
    ensures
        data == node_unhealthy_data(decoded),
        decoded is Err ==> data == RpcResponseErrorData::Empty,
{
    match decoded {
        Ok(num_slots_behind) => RpcResponseErrorData::NodeUnhealthy { num_slots_behind },
        Err(_) => RpcResponseErrorData::Empty,
    }
}

/// Chooses the payload of a response error by its code. Only the two codes that
/// carry a payload look at `data`; every other code gives `Empty`.
pub fn decode_error_data(code: i64, data: &serde_json::Value) -> (r: RpcResponseErrorData)
    ensures
        r == error_data(code, *data),
        code != SEND_TRANSACTION_PREFLIGHT_FAILURE && code != NODE_UNHEALTHY ==> r
            == RpcResponseErrorData::Empty,
{
    if code == SEND_TRANSACTION_PREFLIGHT_FAILURE {
        attach_simulation_result(decode_simulation_result(data))
    } else if code == NODE_UNHEALTHY {
        attach_slots_behind(decode_slots_behind(data))
    } else {
        RpcResponseErrorData::Empty
    }
}

/// Turns the `error` object of an answer into the failure it stands for.
///
/// An object that decodes gives a response error with its code and message and
/// the payload that goes with the code. One that does not gives a request error
/// with the object's text and the decoder's reason.
pub fn classify_error(error: &serde_json::Value) -> (e: ClientError)
    ensures
        e@ == error_outcome(*error),
        e@ is Response || e@ is Request,
        e@ is Response <==> error_object_of(*error) is Ok,
{
    match decode_error_object(error) {
        Ok(object) => {
            let payload = member(error, "data");
            let data = decode_error_data(object.code, &payload);
            ClientError::response(object.code, object.message, data)
        },
        Err(e) => {
            let raw = render(error);
            let reason = describe(&e);
            ClientError::request(raw.as_str(), reason.as_str())
        },
    }
}

/// Classifies the JSON document of an answer.
///
/// Where its `error` member is an object, the call fails with what that object
/// stands for. Otherwise the call succeeds with the `result` member, which is
/// null where the document has none.
pub fn classify(json: &serde_json::Value) -> (r: Result<serde_json::Value, ClientError>)
    ensures
        result_view(r) == answer_outcome(*json),
        r is Err <==> is_object(member_of(*json, "error"@)),
        r is Ok ==> r->Ok_0 == member_of(*json, "result"@),
        r is Err ==> r->Err_0@ is Response || r->Err_0@ is Request,
{
    let error = member(json, "error");
    if value_is_object(&error) {
        Err(classify_error(&error))
    } else {
        Ok(member(json, "result"))
    }
}

/// Classifies the body of a 2xx answer.
///
/// A body that is not one JSON document is a transport failure that carries the
/// decoder's message; any other body is classified as a JSON answer.
pub fn classify_body(bytes: &[u8]) -> (r: Result<serde_json::Value, ClientError>)
    ensures
        result_view(r) == body_outcome(bytes@),
        parsed(bytes@) is Err ==> r is Err && r->Err_0@ is Body,
{
    match parse(bytes) {
        Ok(json) => classify(&json),
        Err(e) => Err(ClientError::body(describe(&e))),
    }
}

/// An error object whose code is neither of the two that carry a payload stands
/// for a response error with that code and message and no payload, whatever its
/// `data` member holds.
pub proof fn law_unknown_code_has_no_payload(
    json: serde_json::Value,
    code: i64,
    message: Seq<char>,
)
    requires
        is_object(member_of(json, "error"@)),
        error_object_of(member_of(json, "error"@)) == Ok::<(i64, Seq<char>), serde_json::Error>(
            (code, message),
        ),
        code != SEND_TRANSACTION_PREFLIGHT_FAILURE,
        code != NODE_UNHEALTHY,
    ensures
        answer_outcome(json) == Err::<serde_json::Value, ClientErrorView>(
            ClientErrorView::Response { code, message, data: RpcResponseErrorData::Empty },
        ),
{
}

/// A payload that does not decode never turns a response error into a request
/// error: the error keeps its code and message, and its payload is `Empty`.
pub proof fn law_payload_failure_is_not_escalated(
    json: serde_json::Value,
    code: i64,
    message: Seq<char>,
)
    requires
        is_object(member_of(json, "error"@)),
        error_object_of(member_of(json, "error"@)) == Ok::<(i64, Seq<char>), serde_json::Error>(
            (code, message),
        ),
        code == SEND_TRANSACTION_PREFLIGHT_FAILURE ==> simulation_result_of(
            member_of(member_of(json, "error"@), "data"@),
        ) is Err,
        code == NODE_UNHEALTHY ==> slots_behind_of(
            member_of(member_of(json, "error"@), "data"@),
        ) is Err,
    ensures
        answer_outcome(json) == Err::<serde_json::Value, ClientErrorView>(
            ClientErrorView::Response { code, message, data: RpcResponseErrorData::Empty },
        ),
{
}

/// An `error` object that does not decode stands for a request error that
/// carries the object's own text and the decoder's reason.
pub proof fn law_malformed_error_is_a_request_error(
    json: serde_json::Value,
    reason: serde_json::Error,
)
    requires
        is_object(member_of(json, "error"@)),
        error_object_of(member_of(json, "error"@)) == Err::<(i64, Seq<char>), serde_json::Error>(
            reason,
        ),
    ensures
        answer_outcome(json) == Err::<serde_json::Value, ClientErrorView>(
            ClientErrorView::Request(
                request_error_text(rendered(member_of(json, "error"@)), error_message(reason)),
            ),
        ),
{
}

/// An answer is a result or a failure, by its `error` member alone: a failure
/// exactly where that member is an object.
pub proof fn law_one_outcome(json: serde_json::Value)
    ensures
        answer_outcome(json) is Err <==> is_object(member_of(json, "error"@)),
        answer_outcome(json) is Ok ==> answer_outcome(json)->Ok_0 == member_of(json, "result"@),
{
}

} // verus!

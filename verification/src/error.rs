//! The failures a call can end in.

use vstd::prelude::*;
use vstd::string::StringExecFns;

verus! {

/// The result of simulating a transaction, as the node reports it when preflight
/// fails. It is carried through unread.
#[verifier::external_type_specification]
#[verifier::external_body]
pub struct ExRpcSimulateTransactionResult(
    solana_rpc_client_api::response::RpcSimulateTransactionResult,
);

/// The typed payload of a response error.
#[derive(Debug, PartialEq, Eq)]
pub enum RpcResponseErrorData {
    /// The code carries no payload, or the payload did not have the expected shape.
    Empty,
    /// The transaction failed its simulation before being sent.
    SendTransactionPreflightFailure(solana_rpc_client_api::response::RpcSimulateTransactionResult),
    /// The node has fallen behind the cluster.
    NodeUnhealthy { num_slots_behind: Option<u64> },
}

/// A failure below the JSON-RPC layer.
#[derive(Debug, PartialEq, Eq)]
pub enum TransportError {
    /// The server answered with this status, outside the 2xx class.
    Status(u16),
    /// The body of a 2xx answer was not a JSON document; the decoder's message.
    Body(String),
    /// The HTTP exchange itself failed; the transport's message.
    Network(String),
}

/// The ways a call fails.
#[derive(Debug, PartialEq, Eq)]
pub enum ClientError {
    /// The exchange failed before a JSON answer was read.
    Transport(TransportError),
    /// The answer holds an `error` object that does not have the expected shape.
    Request(String),
    /// The node reported an error.
    Response { code: i64, message: String, data: RpcResponseErrorData },
}

/// What a call returns.
pub type ClientResult<T> = Result<T, ClientError>;

/// A `ClientError` with its texts as sequences of characters.
pub enum ClientErrorView {
    Status(u16),
    Body(Seq<char>),
    Network(Seq<char>),
    Request(Seq<char>),
    Response { code: i64, message: Seq<char>, data: RpcResponseErrorData },
}

impl View for ClientError {
    type V = ClientErrorView;

    open spec fn view(&self) -> ClientErrorView {
        match *self {
            ClientError::Transport(TransportError::Status(status)) => ClientErrorView::Status(
                status,
            ),
            ClientError::Transport(TransportError::Body(text)) => ClientErrorView::Body(text@),
            ClientError::Transport(TransportError::Network(text)) => ClientErrorView::Network(
                text@,
            ),
            ClientError::Request(text) => ClientErrorView::Request(text@),
            ClientError::Response { code, message, data } => ClientErrorView::Response {
                code,
                message: message@,
                data,
            },
        }
    }
}

/// The text of a request error: the offending `error` document and the reason it
/// could not be decoded.
pub open spec fn request_error_text(raw: Seq<char>, reason: Seq<char>) -> Seq<char> {
    "Failed to deserialize RPC error response: "@ + raw + " ["@ + reason + "]"@
}

impl ClientError {
    /// The failure for an answer whose status is outside the 2xx class.
    pub fn status(status: u16) -> (e: ClientError)
        ensures
            e@ == ClientErrorView::Status(status),
    {
        ClientError::Transport(TransportError::Status(status))
    }

    /// The failure for a body that is not JSON, with the decoder's message.
    pub fn body(reason: String) -> (e: ClientError)
        ensures
            e@ == ClientErrorView::Body(reason@),
    {
        ClientError::Transport(TransportError::Body(reason))
    }

    /// The failure for an exchange that did not complete, with the transport's message.
    pub fn network(reason: String) -> (e: ClientError)
        ensures
            e@ == ClientErrorView::Network(reason@),
    {
        ClientError::Transport(TransportError::Network(reason))
    }

    /// The failure for an `error` document that could not be decoded: it carries
    /// the document's text `raw` and the decoder's `reason`.
    pub fn request(raw: &str, reason: &str) -> (e: ClientError)
        ensures
            e@ == ClientErrorView::Request(request_error_text(raw@, reason@)),
    {
        let mut text = String::from_str("Failed to deserialize RPC error response: ");
        text.append(raw);
        text.append(" [");
        text.append(reason);
        text.append("]");
        ClientError::Request(text)
    }

    /// The failure that the node reported.
    pub fn response(code: i64, message: String, data: RpcResponseErrorData) -> (e: ClientError)
        ensures
            e@ == (ClientErrorView::Response { code, message: message@, data }),
    {
        ClientError::Response { code, message, data }
    }
}

} // verus!

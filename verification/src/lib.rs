//! JSON-RPC request dispatch for a Solana node: envelope construction,
//! rate-limit retry policy and classification of the node's answers.

pub mod call;
pub mod error;
pub mod json;
pub mod provider;
pub mod request;
pub mod response;
pub mod retry;
pub mod transaction;
pub mod types;

pub use error::{ClientError, ClientResult};
pub use provider::{HttpProvider, Provider};
pub use solana_rpc_client_api::request::RpcRequest as ClientRequest;
pub use transaction::SerializableTransaction;
pub use types::{GetConfirmedSignaturesForAddress2Config, RpcClientConfig, SerializableMessage};

//! Configuration values that callers pass along with their calls, and the
//! payloads a call can carry.

use std::time::Duration;
use vstd::prelude::*;

verus! {

/// How settled a bank state must be for the node to report it.
#[verifier::external_type_specification]
#[verifier::external_body]
pub struct ExCommitmentConfig(solana_commitment_config::CommitmentConfig);

/// The error of converting a slice of the wrong length to an array. A signature
/// can be made from a slice, and that conversion names this type.
#[verifier::external_type_specification]
#[verifier::external_body]
pub struct ExTryFromSliceError(core::array::TryFromSliceError);

/// The signature of a transaction.
#[verifier::external_type_specification]
#[verifier::external_body]
pub struct ExSignature(solana_signature::Signature);

/// A message in the legacy format.
#[verifier::external_type_specification]
#[verifier::external_body]
pub struct ExLegacyMessage(solana_message::legacy::Message);

/// A message in the versioned format that carries address table lookups.
#[verifier::external_type_specification]
#[verifier::external_body]
pub struct ExV0Message(solana_message::v0::Message);

/// `CommitmentConfig::default`.
///
/// Trusted: nothing is claimed about the level it holds.
#[verifier::external_body]
pub(crate) fn default_commitment() -> (r: solana_commitment_config::CommitmentConfig) {
    solana_commitment_config::CommitmentConfig::default()
}

/// What a client asks of every call unless the call says otherwise.
pub struct RpcClientConfig {
    pub commitment_config: solana_commitment_config::CommitmentConfig,
    pub confirm_transaction_initial_timeout: Option<Duration>,
}

impl RpcClientConfig {
    /// A configuration with the given commitment and no confirmation timeout.
    pub fn with_commitment(commitment_config: solana_commitment_config::CommitmentConfig) -> (r:
        RpcClientConfig)
        ensures
            r.commitment_config == commitment_config,
            r.confirm_transaction_initial_timeout is None,
    {
        RpcClientConfig { commitment_config, confirm_transaction_initial_timeout: None }
    }
}

impl Default for RpcClientConfig {
    /// The default commitment and no confirmation timeout.
    fn default() -> (r: RpcClientConfig)
        ensures
            r.confirm_transaction_initial_timeout is None,
    {
        RpcClientConfig::with_commitment(default_commitment())
    }
}

/// Which signatures of an address to list: those between two signatures, at
/// most `limit` of them, at the given commitment.
#[derive(Debug)]
pub struct GetConfirmedSignaturesForAddress2Config {
    pub before: Option<solana_signature::Signature>,
    pub until: Option<solana_signature::Signature>,
    pub limit: Option<usize>,
    pub commitment: Option<solana_commitment_config::CommitmentConfig>,
}

impl Default for GetConfirmedSignaturesForAddress2Config {
    /// No bound, no limit and no commitment.
    fn default() -> (r: GetConfirmedSignaturesForAddress2Config)
        ensures
            r.before is None,
            r.until is None,
            r.limit is None,
            r.commitment is None,
    {
        GetConfirmedSignaturesForAddress2Config {
            before: None,
            until: None,
            limit: None,
            commitment: None,
        }
    }
}

/// The messages that can be sent to the node: both formats.
pub trait SerializableMessage {

}

impl SerializableMessage for solana_message::legacy::Message {

}

impl SerializableMessage for solana_message::v0::Message {

}

} // verus!

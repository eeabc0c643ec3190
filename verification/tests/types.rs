use solana_client_wasm::transaction::{signature_of, SerializableTransaction};
use solana_client_wasm::types::{
    GetConfirmedSignaturesForAddress2Config, RpcClientConfig, SerializableMessage,
};
use solana_commitment_config::CommitmentConfig;
use solana_message::compiled_instruction::CompiledInstruction;
use solana_message::{Message, MessageHeader, VersionedMessage};
use solana_signature::Signature;
use solana_transaction::versioned::VersionedTransaction;
use solana_transaction::Transaction;

fn is_message<M: SerializableMessage>(_message: &M) -> bool {
    true
}

fn message_with(recent_blockhash: solana_hash::Hash, instructions: Vec<CompiledInstruction>) -> Message {
    Message {
        header: MessageHeader {
            num_required_signatures: 1,
            num_readonly_signed_accounts: 0,
            num_readonly_unsigned_accounts: 1,
        },
        account_keys: vec![Default::default(), Default::default()],
        recent_blockhash,
        instructions,
    }
}

/// The data of the system program's instruction that advances a nonce account.
fn advance_nonce() -> CompiledInstruction {
    CompiledInstruction { program_id_index: 1, accounts: vec![0], data: vec![4, 0, 0, 0] }
}

#[test]
fn with_commitment_sets_commitment_only() {
    let config = RpcClientConfig::with_commitment(CommitmentConfig::confirmed());
    assert_eq!(config.commitment_config, CommitmentConfig::confirmed());
    assert_eq!(config.confirm_transaction_initial_timeout, None);
    let config = RpcClientConfig::with_commitment(CommitmentConfig::processed());
    assert_eq!(config.commitment_config, CommitmentConfig::processed());
    assert_eq!(config.confirm_transaction_initial_timeout, None);
}

#[test]
fn default_client_config() {
    let config = RpcClientConfig::default();
    assert_eq!(config.commitment_config, CommitmentConfig::default());
    assert_eq!(config.commitment_config, CommitmentConfig::finalized());
    assert_eq!(config.confirm_transaction_initial_timeout, None);
}

#[test]
fn default_signatures_config_is_unbounded() {
    let config = GetConfirmedSignaturesForAddress2Config::default();
    assert_eq!(config.before, None);
    assert_eq!(config.until, None);
    assert_eq!(config.limit, None);
    assert_eq!(config.commitment, None);
}

#[test]
fn both_message_formats_are_serializable_messages() {
    assert!(is_message(&Message::default()));
    assert!(is_message(&solana_message::v0::Message::default()));
}

#[test]
fn transaction_accessors() {
    let blockhash = solana_hash::Hash::new_from_array([7; 32]);
    let first = Signature::from([1; 64]);
    let second = Signature::from([2; 64]);
    let tx = Transaction {
        signatures: vec![first, second],
        message: message_with(blockhash, vec![]),
    };
    assert_eq!(tx.signature_count(), 2);
    assert_eq!(*tx.get_signature(), first);
    assert_eq!(signature_of(&tx), Some(&first));
    assert_eq!(*tx.get_recent_blockhash(), blockhash);
    assert!(!SerializableTransaction::uses_durable_nonce(&tx));
}

#[test]
fn transaction_without_signature_has_no_signature() {
    let tx = Transaction::default();
    assert_eq!(tx.signature_count(), 0);
    assert_eq!(signature_of(&tx), None);
    assert_eq!(*tx.get_recent_blockhash(), solana_hash::Hash::default());
    let versioned = VersionedTransaction::default();
    assert_eq!(SerializableTransaction::signature_count(&versioned), 0);
    assert_eq!(signature_of(&versioned), None);
}

#[test]
fn transaction_with_nonce_instruction_uses_durable_nonce() {
    let tx = Transaction {
        signatures: vec![Signature::default()],
        message: message_with(solana_hash::Hash::default(), vec![advance_nonce()]),
    };
    assert!(SerializableTransaction::uses_durable_nonce(&tx));
    let versioned = VersionedTransaction::from(tx);
    assert!(SerializableTransaction::uses_durable_nonce(&versioned));
}

#[test]
fn versioned_transaction_accessors() {
    let blockhash = solana_hash::Hash::new_from_array([9; 32]);
    let first = Signature::from([3; 64]);
    let tx = VersionedTransaction {
        signatures: vec![first, Signature::from([4; 64])],
        message: VersionedMessage::Legacy(message_with(blockhash, vec![])),
    };
    assert_eq!(SerializableTransaction::signature_count(&tx), 2);
    assert_eq!(*SerializableTransaction::get_signature(&tx), first);
    assert_eq!(signature_of(&tx), Some(&first));
    assert_eq!(*SerializableTransaction::get_recent_blockhash(&tx), blockhash);
    assert!(!SerializableTransaction::uses_durable_nonce(&tx));
    let v0 = VersionedTransaction {
        signatures: vec![first],
        message: VersionedMessage::V0(solana_message::v0::Message {
            recent_blockhash: blockhash,
            ..Default::default()
        }),
    };
    assert_eq!(*SerializableTransaction::get_recent_blockhash(&v0), blockhash);
}

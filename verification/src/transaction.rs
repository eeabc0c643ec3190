//! The transactions that can be sent to the node, in both formats, and what a
//! client reads from them.

use vstd::prelude::*;

verus! {

/// A blockhash.
#[verifier::external_type_specification]
#[verifier::external_body]
pub struct ExHash(solana_hash::Hash);

/// One instruction of a message, in its compiled form.
#[verifier::external_type_specification]
#[verifier::external_body]
pub struct ExCompiledInstruction(solana_message::compiled_instruction::CompiledInstruction);

/// A transaction with a legacy message.
#[verifier::external_type_specification]
#[verifier::external_body]
pub struct ExTransaction(solana_transaction::Transaction);

/// A transaction whose message may be of either format.
#[verifier::external_type_specification]
#[verifier::external_body]
pub struct ExVersionedTransaction(solana_transaction::versioned::VersionedTransaction);

/// The signatures that a transaction holds, in order.
pub uninterp spec fn signatures_of(tx: solana_transaction::Transaction) -> Seq<
    solana_signature::Signature,
>;

/// The recent blockhash of a transaction's message.
pub uninterp spec fn blockhash_of(tx: solana_transaction::Transaction) -> solana_hash::Hash;

/// The instruction that advances a durable nonce, where a transaction begins with one.
pub uninterp spec fn nonce_instruction_of(tx: solana_transaction::Transaction) -> Option<
    solana_message::compiled_instruction::CompiledInstruction,
>;

/// The signatures that a versioned transaction holds, in order.
pub uninterp spec fn versioned_signatures_of(
    tx: solana_transaction::versioned::VersionedTransaction,
) -> Seq<solana_signature::Signature>;

/// The recent blockhash of a versioned transaction's message.
pub uninterp spec fn versioned_blockhash_of(
    tx: solana_transaction::versioned::VersionedTransaction,
) -> solana_hash::Hash;

/// Whether a versioned transaction begins with an instruction that advances a
/// durable nonce.
pub uninterp spec fn versioned_nonce_use_of(
    tx: solana_transaction::versioned::VersionedTransaction,
) -> bool;

/// The length of the public field `signatures` of a `Transaction`.
///
/// Trusted: the count is that of the signatures the transaction holds.
#[verifier::external_body]
pub(crate) fn count_signatures(tx: &solana_transaction::Transaction) -> (r: usize)
    ensures
        r == signatures_of(*tx).len(),
{
    tx.signatures.len()
}

/// The first element of the public field `signatures` of a `Transaction`.
///
/// Trusted: it is the first of the signatures the transaction holds. The
/// transaction must hold one.
#[verifier::external_body]
pub(crate) fn first_signature(tx: &solana_transaction::Transaction) -> (r:
    &solana_signature::Signature)
    requires
        signatures_of(*tx).len() > 0,
    ensures
        *r == signatures_of(*tx)[0],
{
    &tx.signatures[0]
}

/// The public field `recent_blockhash` of a `Transaction`'s message.
///
/// Trusted: the blockhash is a function of the transaction.
#[verifier::external_body]
pub(crate) fn message_blockhash(tx: &solana_transaction::Transaction) -> (r: &solana_hash::Hash)
    ensures
        *r == blockhash_of(*tx),
{
    &tx.message.recent_blockhash
}

/// `solana_transaction::uses_durable_nonce`.
///
/// Trusted: the instruction found is a function of the transaction.
#[verifier::external_body]
pub(crate) fn nonce_instruction(tx: &solana_transaction::Transaction) -> (r: Option<
    &solana_message::compiled_instruction::CompiledInstruction,
>)
    ensures
        r is Some == nonce_instruction_of(*tx) is Some,
        r is Some ==> *r->Some_0 == nonce_instruction_of(*tx)->Some_0,
{
    solana_transaction::uses_durable_nonce(tx)
}

/// The length of the public field `signatures` of a `VersionedTransaction`.
///
/// Trusted: the count is that of the signatures the transaction holds.
#[verifier::external_body]
pub(crate) fn count_versioned_signatures(
    tx: &solana_transaction::versioned::VersionedTransaction,
) -> (r: usize)
    ensures
        r == versioned_signatures_of(*tx).len(),
{
    tx.signatures.len()
}

/// The first element of the public field `signatures` of a `VersionedTransaction`.
///
/// Trusted: it is the first of the signatures the transaction holds. The
/// transaction must hold one.
#[verifier::external_body]
pub(crate) fn first_versioned_signature(
    tx: &solana_transaction::versioned::VersionedTransaction,
) -> (r: &solana_signature::Signature)
    requires
        versioned_signatures_of(*tx).len() > 0,
    ensures
        *r == versioned_signatures_of(*tx)[0],
{
    &tx.signatures[0]
}

/// `VersionedMessage::recent_blockhash` on the message of a `VersionedTransaction`.
///
/// Trusted: the blockhash is a function of the transaction.
#[verifier::external_body]
pub(crate) fn versioned_message_blockhash(
    tx: &solana_transaction::versioned::VersionedTransaction,
) -> (r: &solana_hash::Hash)
    ensures
        *r == versioned_blockhash_of(*tx),
{
    tx.message.recent_blockhash()
}

/// `VersionedTransaction::uses_durable_nonce`.
///
/// Trusted: the answer is a function of the transaction.
#[verifier::external_body]
pub(crate) fn versioned_nonce_use(tx: &solana_transaction::versioned::VersionedTransaction) -> (r:
    bool)
    ensures
        r == versioned_nonce_use_of(*tx),
{
    tx.uses_durable_nonce()
}

/// What a client reads from a transaction it sends, whatever the format.
pub trait SerializableTransaction {
    /// The signatures of the transaction, in order.
    spec fn signatures(&self) -> Seq<solana_signature::Signature>;

    /// The recent blockhash of the transaction's message.
    spec fn recent_blockhash(&self) -> solana_hash::Hash;

    /// Whether the transaction begins with an instruction that advances a
    /// durable nonce.
    spec fn durable_nonce(&self) -> bool;

    /// How many signatures the transaction holds.
    fn signature_count(&self) -> (r: usize)
        ensures
            r == self.signatures().len(),
    ;

    /// The first signature, by which the transaction is known. The transaction
    /// must hold one.
    fn get_signature(&self) -> (r: &solana_signature::Signature)
        requires
            self.signatures().len() > 0,
        ensures
            *r == self.signatures()[0],
    ;

    /// The recent blockhash of the transaction's message.
    fn get_recent_blockhash(&self) -> (r: &solana_hash::Hash)
        ensures
            *r == self.recent_blockhash(),
    ;

    /// Whether the transaction begins with an instruction that advances a
    /// durable nonce.
    fn uses_durable_nonce(&self) -> (r: bool)
        ensures
            r == self.durable_nonce(),
    ;
}

impl SerializableTransaction for solana_transaction::Transaction {
    open spec fn signatures(&self) -> Seq<solana_signature::Signature> {
        signatures_of(*self)
    }

    open spec fn recent_blockhash(&self) -> solana_hash::Hash {
        blockhash_of(*self)
    }

    open spec fn durable_nonce(&self) -> bool {
        nonce_instruction_of(*self) is Some
    }

    fn signature_count(&self) -> (r: usize) {
        count_signatures(self)
    }

    fn get_signature(&self) -> (r: &solana_signature::Signature) {
        first_signature(self)
    }

    fn get_recent_blockhash(&self) -> (r: &solana_hash::Hash) {
        message_blockhash(self)
    }

    fn uses_durable_nonce(&self) -> (r: bool) {
        nonce_instruction(self).is_some()
    }
}

impl SerializableTransaction for solana_transaction::versioned::VersionedTransaction {
    open spec fn signatures(&self) -> Seq<solana_signature::Signature> {
        versioned_signatures_of(*self)
    }

    open spec fn recent_blockhash(&self) -> solana_hash::Hash {
        versioned_blockhash_of(*self)
    }

    open spec fn durable_nonce(&self) -> bool {
        versioned_nonce_use_of(*self)
    }

    fn signature_count(&self) -> (r: usize) {
        count_versioned_signatures(self)
    }

    fn get_signature(&self) -> (r: &solana_signature::Signature) {
        first_versioned_signature(self)
    }

    fn get_recent_blockhash(&self) -> (r: &solana_hash::Hash) {
        versioned_message_blockhash(self)
    }

    fn uses_durable_nonce(&self) -> (r: bool) {
        versioned_nonce_use(self)
    }
}

/// The signature by which a transaction is known: its first, or `None` where it
/// holds no signature.
pub fn signature_of<T: SerializableTransaction>(tx: &T) -> (r: Option<
    &solana_signature::Signature,
>)
    ensures
        r is Some <==> tx.signatures().len() > 0,
        r is Some ==> *r->Some_0 == tx.signatures()[0],
{
    if tx.signature_count() > 0 {
        Some(tx.get_signature())
    } else {
        None
    }
}

} // verus!

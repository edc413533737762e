use vstd::prelude::*;

use crate::pubkey::Pubkey;
use crate::state::TransactionAccount;

verus! {

/// One of the request kinds the processor accepts. The caller encodes a
/// value of this kind into the request payload; decoding is the codec's
/// business and failure to decode surfaces as
/// [`MalformedRequest`](crate::MultisigError::MalformedRequest).
#[derive(Clone, Debug, PartialEq)]
pub enum MultisigInstruction {
    /// Initializes a new multisig account with a set of owners and a threshold
    CreateMultisig { seed: u128, owners: Vec<Pubkey>, threshold: u64 },
    /// Upgrade multisig account with a new set of owners and a threshold
    UpgradeMultisig { owners: Vec<Pubkey>, threshold: u64 },
    /// Creates a new transaction account, automatically signed by the creator,
    /// which must be one of the owners of the multisig
    CreateTransaction { seed: u128, pid: Pubkey, accs: Vec<TransactionAccount>, data: Vec<u8> },
    /// Approves a transaction on behalf of an owner of the multisig
    Approve,
    /// Execute transaction
    ExecuteTransaction,
    /// Delete pending transactions from the group's index
    DeletePendingTransactions { pending_transactions: Vec<Pubkey> },
}

} // verus!
